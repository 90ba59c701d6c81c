use eth_block_meta::model::EmitError;
use eth_block_meta::timestamp::at_value_of_key;
use eth_block_meta::timestamp::BlockTimestamp;

#[test]
fn epoch_start() {
    let t = BlockTimestamp::from_seconds(0);
    assert_eq!((t.year, t.month, t.day), (1970, 1, 1));
    assert_eq!(t.date_string(), "1970-01-01");
    assert_eq!(t.start_of_day_key(), "day:1970-01-01");
    assert_eq!(t.start_of_month_key(), "month:1970-01");
}

#[test]
fn first_day_of_2024() {
    let t = BlockTimestamp::from_seconds(1704067200);
    assert_eq!((t.year, t.month, t.day), (2024, 1, 1));
    assert_eq!(t.start_of_day_key(), "day:2024-01-01");
    assert_eq!(t.start_of_month_key(), "month:2024-01");
}

#[test]
fn last_second_of_a_day() {
    let t = BlockTimestamp::from_seconds(1704067199);
    assert_eq!((t.year, t.month, t.day), (2023, 12, 31));
}

#[test]
fn leap_day() {
    let t = BlockTimestamp::from_seconds(1709164800);
    assert_eq!((t.year, t.month, t.day), (2024, 2, 29));
    assert_eq!(t.start_of_day_key(), "day:2024-02-29");
}

#[test]
fn century_non_leap_year() {
    // 2100-02-28 is the last day of February: 2100 is no leap year.
    let t = BlockTimestamp::from_seconds(4107456000);
    assert_eq!((t.year, t.month, t.day), (2100, 2, 28));
    let next = BlockTimestamp::from_seconds(4107542400);
    assert_eq!((next.year, next.month, next.day), (2100, 3, 1));
}

#[test]
fn at_value_of_day_key() {
    assert_eq!(at_value_of_key("day:2024-01-15").unwrap(), "2024-01-15");
}

#[test]
fn at_value_of_month_key() {
    assert_eq!(at_value_of_key("month:2024-01").unwrap(), "2024-01-01");
}

#[test]
fn at_value_of_unknown_key() {
    assert_eq!(at_value_of_key("week:2024-01").unwrap_err(), EmitError::BadKey);
    assert_eq!(at_value_of_key("").unwrap_err(), EmitError::BadKey);
    assert_eq!(at_value_of_key("da").unwrap_err(), EmitError::BadKey);
}
