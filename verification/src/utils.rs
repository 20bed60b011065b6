//! Conversions of reported cycles amounts into 128-bit unsigned integers.

use vstd::prelude::*;
use vstd::string::StringSliceAdditionalSpecFns;

use crate::errors::Error;

verus! {

/// Whether a byte is an ASCII decimal digit.
pub open spec fn is_digit(b: u8) -> bool {
    48 <= b <= 57
}

/// The value of one decimal digit byte; a non-digit counts as zero.
pub open spec fn digit_val(b: u8) -> nat {
    if is_digit(b) {
        (b - 48) as nat
    } else {
        0
    }
}

/// The value of a sequence of decimal digit bytes, most significant first.
pub open spec fn digits_value(s: Seq<u8>) -> nat
    decreases s.len(),
{
    if s.len() == 0 {
        0
    } else {
        digits_value(s.drop_last()) * 10 + digit_val(s.last())
    }
}

/// How a decimal literal reads as a 128-bit unsigned integer: an optional
/// leading plus sign, then at least one digit, and a value within range;
/// anything else does not parse.
pub open spec fn spec_parse_digits(digits: Seq<u8>) -> Option<u128> {
    if digits.len() > 0 && (forall|i: int| 0 <= i < digits.len() ==> is_digit(#[trigger] digits[i]))
        && digits_value(digits) <= u128::MAX {
        Some(digits_value(digits) as u128)
    } else {
        None
    }
}

pub open spec fn spec_parse_u128(s: Seq<u8>) -> Option<u128> {
    spec_parse_digits(
        if s.len() > 0 && s[0] == 43 {
            s.drop_first()
        } else {
            s
        },
    )
}

/// A longer run of digits reads as at least as large a value.
proof fn lemma_digits_value_prefix_le(s: Seq<u8>, k: int)
    requires
        0 <= k <= s.len(),
    ensures
        digits_value(s.take(k)) <= digits_value(s),
    decreases s.len() - k,
{
    if k == s.len() {
        assert(s.take(k) =~= s);
    } else {
        lemma_digits_value_prefix_le(s, k + 1);
        assert(s.take(k + 1).drop_last() =~= s.take(k));
        assert(digits_value(s.take(k + 1)) == digits_value(s.take(k)) * 10 + digit_val(
            s.take(k + 1).last(),
        ));
        assert(digits_value(s.take(k)) <= digits_value(s.take(k)) * 10) by (nonlinear_arith)
            requires
                digits_value(s.take(k)) >= 0,
        ;
    }
}

/// Parses a decimal 128-bit unsigned integer from bytes.
fn parse_u128_bytes(s: &[u8]) -> (r: Option<u128>)
    ensures
        r == spec_parse_u128(s@),
{
    let ghost digits = if s@.len() > 0 && s@[0] == 43 {
        s@.drop_first()
    } else {
        s@
    };
    let start: usize = if s.len() > 0 && s[0] == 43 {
        1
    } else {
        0
    };
    proof {
        assert(digits =~= s@.subrange(start as int, s@.len() as int));
    }
    if s.len() == start {
        return None;
    }
    let mut acc: u128 = 0;
    let mut i: usize = start;
    while i < s.len()
        invariant
            start <= i <= s@.len(),
            start <= 1,
            digits == (if s@.len() > 0 && s@[0] == 43 {
                s@.drop_first()
            } else {
                s@
            }),
            start == (if s@.len() > 0 && s@[0] == 43 {
                1int
            } else {
                0int
            }),
            digits == s@.subrange(start as int, s@.len() as int),
            forall|j: int| start <= j < i ==> is_digit(#[trigger] s@[j]),
            acc == digits_value(s@.subrange(start as int, i as int)),
        decreases s@.len() - i,
    {
        let b = s[i];
        if b < 48 || b > 57 {
            proof {
                assert(0 <= i - start < digits.len());
                assert(digits[i - start] == s@[i as int]);
                assert(!(forall|j: int|
                    0 <= j < digits.len() ==> is_digit(#[trigger] digits[j]))) by {
                    assert(!is_digit(digits[i - start]));
                };
                assert(spec_parse_digits(digits) is None);
            }
            return None;
        }
        let d = (b - 48) as u128;
        if acc > (u128::MAX - d) / 10 {
            proof {
                let prefix = s@.subrange(start as int, i as int + 1);
                assert(prefix.drop_last() =~= s@.subrange(start as int, i as int));
                assert(digits_value(prefix) == acc * 10 + d);
                assert(acc * 10 + d > u128::MAX) by (nonlinear_arith)
                    requires
                        acc > (u128::MAX - d) / 10,
                        0 <= d <= 9,
                        acc >= 0,
                ;
                assert(prefix =~= digits.take(i - start + 1));
                lemma_digits_value_prefix_le(digits, i - start + 1);
                assert(digits_value(digits) > u128::MAX);
                assert(spec_parse_digits(digits) is None);
            }
            return None;
        }
        proof {
            assert(acc * 10 + d <= u128::MAX) by (nonlinear_arith)
                requires
                    acc <= (u128::MAX - d) / 10,
                    0 <= d <= 9,
                    acc >= 0,
            ;
            let prefix = s@.subrange(start as int, i as int + 1);
            assert(prefix.drop_last() =~= s@.subrange(start as int, i as int));
            assert(digits_value(prefix) == acc * 10 + d);
        }
        acc = acc * 10 + d;
        i += 1;
    }
    proof {
        assert(digits =~= s@.subrange(start as int, i as int));
        assert(forall|j: int| 0 <= j < digits.len() ==> is_digit(#[trigger] digits[j]));
    }
    Some(acc)
}

/// Converts the cycles from a string slice to a 128-bit unsigned integer. A
/// string that does not read as such a number comes back in the error.
pub fn cycles_str_to_u128(cycles: &str) -> (r: Result<u128, Error>)
    ensures
        match spec_parse_u128(cycles.spec_bytes()) {
            Some(v) => r is Ok && r->Ok_0 == v,
            None => r is Err && (r->Err_0 matches Error::FailedCyclesConversion{cycles: c}
                && c@ == cycles@),
        },
{
    match parse_u128_bytes(cycles.as_bytes()) {
        Some(v) => Ok(v),
        None => Err(Error::FailedCyclesConversion { cycles: cycles.to_owned() }),
    }
}

/// A name for the mathematical value a `candid::Nat` holds.
pub uninterp spec fn nat_value(n: candid::Nat) -> nat;

#[verifier::external_type_specification]
#[verifier::external_body]
pub struct ExNat(candid::Nat);

/// The decimal digits of a natural number, most significant first.
pub open spec fn spec_nat_decimal(n: nat) -> Seq<char>
    decreases n,
{
    if n < 10 {
        seq![((48 + n) as u8) as char]
    } else {
        spec_nat_decimal(n / 10).push(((48 + n % 10) as u8) as char)
    }
}

/// Relies on num_bigint's `TryFrom<BigUint> for u128`: the conversion
/// succeeds exactly when the value fits 128 bits, and then returns it.
#[verifier::external_body]
fn nat_to_u128_checked(cycles: &candid::Nat) -> (r: Option<u128>)
    ensures
        r is Some <==> nat_value(*cycles) <= u128::MAX,
        r is Some ==> r->0 == nat_value(*cycles),
{
    u128::try_from(cycles.0.clone()).ok()
}

/// Relies on num_bigint's `Display for BigUint`: plain decimal digits without
/// separators or sign.
#[verifier::external_body]
fn nat_decimal_text(cycles: &candid::Nat) -> (r: String)
    ensures
        r@ == spec_nat_decimal(nat_value(*cycles)),
{
    cycles.0.to_string()
}

/// Converts the cycles from `candid::Nat` to a 128-bit unsigned integer. A
/// value too large for 128 bits comes back in the error, written in decimal.
pub fn cycles_nat_to_u128(cycles: candid::Nat) -> (r: Result<u128, Error>)
    ensures
        nat_value(cycles) <= u128::MAX ==> r is Ok && r->Ok_0 == nat_value(cycles),
        nat_value(cycles) > u128::MAX ==> r is Err && (r->Err_0
            matches Error::FailedCyclesConversion{cycles: c} && c@ == spec_nat_decimal(
            nat_value(cycles),
        )),
{
    let cycles_text = nat_decimal_text(&cycles);
    match nat_to_u128_checked(&cycles) {
        Some(v) => Ok(v),
        None => Err(Error::FailedCyclesConversion { cycles: cycles_text }),
    }
}

} // verus!
