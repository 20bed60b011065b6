use canfund::errors::Error;
use canfund::utils::{cycles_nat_to_u128, cycles_str_to_u128};

#[test]
fn test_cycles_nat_to_u128() {
    let cycles = candid::Nat::from(100u32);
    assert_eq!(cycles_nat_to_u128(cycles).unwrap(), 100);
}

#[test]
fn test_cycles_str_to_u128() {
    assert_eq!(cycles_str_to_u128("100").unwrap(), 100);
}

#[test]
fn test_cycles_str_to_u128_invalid() {
    assert_eq!(
        cycles_str_to_u128("invalid").unwrap_err(),
        Error::FailedCyclesConversion {
            cycles: "invalid".to_string(),
        }
    );
}

#[test]
fn test_cycles_str_to_u128_empty() {
    assert_eq!(
        cycles_str_to_u128("").unwrap_err(),
        Error::FailedCyclesConversion {
            cycles: "".to_string(),
        }
    );
}

#[test]
fn cycles_str_accepts_a_leading_plus_sign() {
    assert_eq!(cycles_str_to_u128("+100").unwrap(), 100);
    assert!(cycles_str_to_u128("+").is_err());
}

#[test]
fn cycles_str_honours_the_128_bit_bound() {
    assert_eq!(
        cycles_str_to_u128("340282366920938463463374607431768211455").unwrap(),
        u128::MAX
    );
    assert!(cycles_str_to_u128("340282366920938463463374607431768211456").is_err());
}

#[test]
fn cycles_nat_above_128_bits_is_an_error_with_decimal_text() {
    let big = candid::Nat::from(u128::MAX) + candid::Nat::from(1u64);
    assert_eq!(
        cycles_nat_to_u128(big).unwrap_err(),
        Error::FailedCyclesConversion {
            cycles: "340282366920938463463374607431768211456".to_string(),
        }
    );
}
