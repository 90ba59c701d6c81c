//! Rendering of variable-length big-endian integers carried by raw records.

use crate::numfmt::dec_chars;
use crate::numfmt::u128_to_dec;
use vstd::arithmetic::div_mod::lemma_add_mod_noop;
use vstd::arithmetic::div_mod::lemma_mod_mod;
use vstd::arithmetic::div_mod::lemma_small_mod;
use vstd::arithmetic::div_mod::lemma_truncate_middle;
use vstd::prelude::*;

verus! {

/// An unsigned integer as a big-endian byte string, most significant
/// byte first.
pub struct BigInt {
    pub bytes: Vec<u8>,
}

/// Two to the 128th power, the modulus that reduces a wide value to the
/// low 128 bits.
pub open spec fn pow2_128() -> int {
    0x10000000000000000int * 0x10000000000000000
}

/// Two to the 120th power: the threshold below which a value can take one
/// more byte without leaving 128 bits.
pub open spec fn pow2_120() -> int {
    0x10000000000000000int * 0x100000000000000
}

/// The value of a big-endian byte string, without any width limit.
pub open spec fn be_bytes_val(b: Seq<u8>) -> nat
    decreases b.len(),
{
    if b.len() == 0 {
        0
    } else {
        (be_bytes_val(b.drop_last()) * 256 + b.last()) as nat
    }
}

/// Renders an optional big-endian integer in decimal, reduced to its low
/// 128 bits, and renders absence as the empty string.
pub fn option_bigint_to_number_string(bigint: Option<BigInt>) -> (r: String)
    ensures
        r@ == match bigint {
            Option::None => Seq::<char>::empty(),
            Option::Some(b) => dec_chars((be_bytes_val(b.bytes@) as int % pow2_128()) as nat),
        },
{
    match bigint {
        Option::None => {
            String::new()
        },
        Option::Some(num) => {
            let bytes = num.bytes;
            let mut value: u128 = 0;
            let mut i: usize = 0;
            proof {
                assert(bytes@.take(0).len() == 0);
                assert(be_bytes_val(bytes@.take(0)) == 0);
            }
            while i < bytes.len()
                invariant
                    i <= bytes.len(),
                    value as int == be_bytes_val(bytes@.take(i as int)) as int % pow2_128(),
                decreases bytes.len() - i,
            {
                let b = bytes[i];
                let low: u128 = value % 0x1000000000000000000000000000000u128;
                let next: u128 = low * 256 + (b as u128);
                proof {
                    let m: int = pow2_128();
                    let c: int = pow2_120();
                    assert(c * 256 == m);
                    assert(0x1000000000000000000000000000000u128 as int == c);
                    let a = be_bytes_val(bytes@.take(i as int)) as int;
                    assert(bytes@.take(i + 1).drop_last() =~= bytes@.take(i as int));
                    assert(be_bytes_val(bytes@.take(i + 1)) == a * 256 + b);
                    lemma_mod_mod(a, c, 256);
                    assert(low as int == a % c);
                    lemma_truncate_middle(a, 256, c);
                    assert((256 * a) % m == 256 * (a % c));
                    lemma_add_mod_noop(a * 256, b as int, m);
                    lemma_small_mod(b as nat, m as nat);
                    lemma_small_mod((256 * (a % c) + b) as nat, m as nat);
                    assert(next as int == be_bytes_val(bytes@.take(i + 1)) as int % m);
                }
                value = next;
                i = i + 1;
            }
            proof {
                assert(bytes@.take(bytes.len() as int) =~= bytes@);
            }
            u128_to_dec(value)
        },
    }
}

} // verus!
