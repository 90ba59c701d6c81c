//! Calendar derivation: the day and month grouping keys of a block, derived
//! from its timestamp, and the date value shown in the "at" column.

use crate::model::EmitError;
use crate::numfmt::pad2_chars;
use crate::numfmt::pad4_chars;
use crate::numfmt::u64_to_dec_pad2;
use crate::numfmt::u64_to_dec_pad4;
use vstd::prelude::*;
use vstd::string::StrSliceExecFns;
use vstd::string::StringExecFns;

verus! {

/// Seconds in one calendar day.
pub const SECONDS_PER_DAY: u64 = 86400;

/// The first second of year 10000: the calendar range supported here ends
/// with year 9999.
pub const MAX_SUPPORTED_SECONDS: u64 = 253402300800;

/// The Gregorian leap-year rule.
pub open spec fn is_leap_year(y: nat) -> bool {
    y % 4 == 0 && (y % 100 != 0 || y % 400 == 0)
}

/// Days in year `y`.
pub open spec fn days_in_year(y: nat) -> nat {
    if is_leap_year(y) {
        366
    } else {
        365
    }
}

/// Days in month `m` (1-based) of year `y`.
pub open spec fn days_in_month(y: nat, m: nat) -> nat {
    if m == 2 {
        if is_leap_year(y) {
            29
        } else {
            28
        }
    } else if m == 4 || m == 6 || m == 9 || m == 11 {
        30
    } else {
        31
    }
}

/// Days from 1970-01-01 to the first day of year `y`.
pub open spec fn days_before_year(y: nat) -> nat
    decreases y,
{
    if y <= 1970 {
        0
    } else {
        days_before_year((y - 1) as nat) + days_in_year((y - 1) as nat)
    }
}

/// Days from the first day of year `y` to the first day of its month `m`.
pub open spec fn days_before_month(y: nat, m: nat) -> nat
    decreases m,
{
    if m <= 1 {
        0
    } else {
        days_before_month(y, (m - 1) as nat) + days_in_month(y, (m - 1) as nat)
    }
}

/// The number of the calendar day `y-m-d`, counted from 1970-01-01 as
/// day zero.
pub open spec fn day_index(y: nat, m: nat, d: nat) -> int {
    days_before_year(y) + days_before_month(y, m) + d - 1
}

/// A well-formed calendar date not before 1970.
pub open spec fn valid_date(y: nat, m: nat, d: nat) -> bool {
    1970 <= y && 1 <= m <= 12 && 1 <= d <= days_in_month(y, m)
}

proof fn lemma_days_before_year_lower(y: nat)
    requires
        1970 <= y,
    ensures
        days_before_year(y) >= 365 * (y - 1970),
    decreases y,
{
    if y > 1970 {
        lemma_days_before_year_lower((y - 1) as nat);
    }
}

proof fn lemma_year_is_sum_of_months(y: nat)
    ensures
        days_before_month(y, 13) == days_in_year(y),
{
    assert(days_before_month(y, 1) == 0);
    assert(days_before_month(y, 2) == days_before_month(y, 1) + days_in_month(y, 1));
    assert(days_before_month(y, 3) == days_before_month(y, 2) + days_in_month(y, 2));
    assert(days_before_month(y, 4) == days_before_month(y, 3) + days_in_month(y, 3));
    assert(days_before_month(y, 5) == days_before_month(y, 4) + days_in_month(y, 4));
    assert(days_before_month(y, 6) == days_before_month(y, 5) + days_in_month(y, 5));
    assert(days_before_month(y, 7) == days_before_month(y, 6) + days_in_month(y, 6));
    assert(days_before_month(y, 8) == days_before_month(y, 7) + days_in_month(y, 7));
    assert(days_before_month(y, 9) == days_before_month(y, 8) + days_in_month(y, 8));
    assert(days_before_month(y, 10) == days_before_month(y, 9) + days_in_month(y, 9));
    assert(days_before_month(y, 11) == days_before_month(y, 10) + days_in_month(y, 10));
    assert(days_before_month(y, 12) == days_before_month(y, 11) + days_in_month(y, 11));
    assert(days_before_month(y, 13) == days_before_month(y, 12) + days_in_month(y, 12));
}

fn is_leap_year_x(y: u64) -> (r: bool)
    ensures
        r == is_leap_year(y as nat),
{
    y % 4 == 0 && (y % 100 != 0 || y % 400 == 0)
}

fn days_in_year_x(y: u64) -> (r: u64)
    ensures
        r == days_in_year(y as nat),
{
    if is_leap_year_x(y) {
        366
    } else {
        365
    }
}

fn days_in_month_x(y: u64, m: u64) -> (r: u64)
    ensures
        r == days_in_month(y as nat, m as nat),
{
    if m == 2 {
        if is_leap_year_x(y) {
            29
        } else {
            28
        }
    } else if m == 4 || m == 6 || m == 9 || m == 11 {
        30
    } else {
        31
    }
}

/// The calendar date of a block, used to derive its grouping keys.
#[derive(Debug)]
pub struct BlockTimestamp {
    pub year: u64,
    pub month: u64,
    pub day: u64,
}

/// The date rendered as "YYYY-MM-DD".
pub open spec fn date_chars(t: BlockTimestamp) -> Seq<char> {
    pad4_chars(t.year as nat) + seq!['-'] + pad2_chars(t.month as nat) + seq!['-'] + pad2_chars(
        t.day as nat,
    )
}

/// The month rendered as "YYYY-MM".
pub open spec fn month_chars(t: BlockTimestamp) -> Seq<char> {
    pad4_chars(t.year as nat) + seq!['-'] + pad2_chars(t.month as nat)
}

/// The key that groups records by calendar day.
pub open spec fn day_key_chars(t: BlockTimestamp) -> Seq<char> {
    seq!['d', 'a', 'y', ':'] + date_chars(t)
}

/// The key that groups records by calendar month.
pub open spec fn month_key_chars(t: BlockTimestamp) -> Seq<char> {
    seq!['m', 'o', 'n', 't', 'h', ':'] + month_chars(t)
}

impl BlockTimestamp {
    /// The calendar date that contains the given second of the Unix epoch:
    /// the unique valid date whose day number is `seconds / 86400`.
    pub fn from_seconds(seconds: u64) -> (t: BlockTimestamp)
        requires
            seconds < MAX_SUPPORTED_SECONDS,
        ensures
            valid_date(t.year as nat, t.month as nat, t.day as nat),
            day_index(t.year as nat, t.month as nat, t.day as nat) == seconds as int / 86400,
    {
        let total: u64 = seconds / SECONDS_PER_DAY;
        let mut days: u64 = total;
        let mut year: u64 = 1970;
        while days >= days_in_year_x(year)
            invariant
                1970 <= year <= 11000,
                days_before_year(year as nat) + days == total,
                total <= 2932896,
            decreases days,
        {
            days = days - days_in_year_x(year);
            year = year + 1;
            proof {
                lemma_days_before_year_lower(year as nat);
            }
        }
        let ghost days0: u64 = days;
        let mut month: u64 = 1;
        while days >= days_in_month_x(year, month)
            invariant
                1 <= month <= 12,
                1970 <= year <= 11000,
                days_before_month(year as nat, month as nat) + days == days0,
                days0 < days_in_year(year as nat),
                days_before_year(year as nat) + days0 == total,
            decreases days,
        {
            proof {
                if month == 12 {
                    lemma_year_is_sum_of_months(year as nat);
                    assert(false);
                }
            }
            days = days - days_in_month_x(year, month);
            month = month + 1;
        }
        BlockTimestamp { year, month, day: days + 1 }
    }

    /// Renders the date as "YYYY-MM-DD".
    pub fn date_string(&self) -> (r: String)
        ensures
            r@ == date_chars(*self),
    {
        let r = u64_to_dec_pad4(self.year).concat("-").concat(
            u64_to_dec_pad2(self.month).as_str(),
        ).concat("-").concat(u64_to_dec_pad2(self.day).as_str());
        proof {
            reveal_strlit("-");
            assert(r@ =~= date_chars(*self));
        }
        r
    }

    /// Renders the month as "YYYY-MM".
    pub fn month_string(&self) -> (r: String)
        ensures
            r@ == month_chars(*self),
    {
        let r = u64_to_dec_pad4(self.year).concat("-").concat(
            u64_to_dec_pad2(self.month).as_str(),
        );
        proof {
            reveal_strlit("-");
            assert(r@ =~= month_chars(*self));
        }
        r
    }

    /// The "day:YYYY-MM-DD" grouping key.
    pub fn start_of_day_key(&self) -> (r: String)
        ensures
            r@ == day_key_chars(*self),
    {
        let r = String::from_str("day:").concat(self.date_string().as_str());
        proof {
            reveal_strlit("day:");
            assert(r@ =~= day_key_chars(*self));
        }
        r
    }

    /// The "month:YYYY-MM" grouping key.
    pub fn start_of_month_key(&self) -> (r: String)
        ensures
            r@ == month_key_chars(*self),
    {
        let r = String::from_str("month:").concat(self.month_string().as_str());
        proof {
            reveal_strlit("month:");
            assert(r@ =~= month_key_chars(*self));
        }
        r
    }
}

/// Whether the key carries the "day:" prefix.
pub open spec fn has_day_prefix(k: Seq<char>) -> bool {
    k.len() >= 4 && k[0] == 'd' && k[1] == 'a' && k[2] == 'y' && k[3] == ':'
}

/// Whether the key carries the "month:" prefix.
pub open spec fn has_month_prefix(k: Seq<char>) -> bool {
    k.len() >= 6 && k[0] == 'm' && k[1] == 'o' && k[2] == 'n' && k[3] == 't' && k[4] == 'h' && k[5]
        == ':'
}

/// The date value shown in the "at" column for a delta under this key: the
/// date part of a day key, or the first day of the month of a month key.
/// Keys with any other shape are rejected.
pub open spec fn at_of_key(k: Seq<char>) -> Option<Seq<char>> {
    if has_day_prefix(k) {
        Option::Some(k.subrange(4, k.len() as int))
    } else if has_month_prefix(k) {
        Option::Some(k.subrange(6, k.len() as int) + seq!['-', '0', '1'])
    } else {
        Option::None
    }
}

/// Recovers the "at" date value from a grouping key.
pub fn at_value_of_key(key: &str) -> (r: Result<String, EmitError>)
    ensures
        at_of_key(key@) is Some ==> r is Ok && r->Ok_0@ == at_of_key(key@)->0,
        at_of_key(key@) is None ==> r == Result::<String, EmitError>::Err(EmitError::BadKey),
{
    let n = key.unicode_len();
    let day = n >= 4 && key.get_char(0) == 'd' && key.get_char(1) == 'a' && key.get_char(2) == 'y'
        && key.get_char(3) == ':';
    if day {
        let rest = key.substring_char(4, n);
        Result::Ok(rest.to_owned())
    } else {
        let month = n >= 6 && key.get_char(0) == 'm' && key.get_char(1) == 'o' && key.get_char(2)
            == 'n' && key.get_char(3) == 't' && key.get_char(4) == 'h' && key.get_char(5) == ':';
        if month {
            let rest = key.substring_char(6, n);
            let r = rest.to_owned().concat("-01");
            proof {
                reveal_strlit("-01");
                assert(r@ =~= at_of_key(key@)->0);
            }
            Result::Ok(r)
        } else {
            Result::Err(EmitError::BadKey)
        }
    }
}

} // verus!
