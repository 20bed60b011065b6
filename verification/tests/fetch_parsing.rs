use canfund::errors::{Error, RejectionCode};
use canfund::fetch::{
    calc_freezing_balance, classify_status_rejection, effective_balance_from_status,
    extract_cycles_from_http_response_body, handle_metrics_response,
};

#[test]
fn test_extract_cycles_from_http_response_body() {
    let body = r#"
            # HELP canister_cycles The cycles balance of the canister.
            # TYPE canister_cycles gauge
            canister_cycles 100
        "#;

    assert_eq!(
        extract_cycles_from_http_response_body(body, "canister_cycles").unwrap(),
        100
    );
}

#[test]
fn test_extract_cycles_from_http_response_with_time_series() {
    let body = r#"
            # HELP canister_cycles The cycles balance of the canister.
            # TYPE canister_cycles gauge
            canister_cycles 100 1620000000
        "#;

    assert_eq!(
        extract_cycles_from_http_response_body(body, "canister_cycles").unwrap(),
        100
    );
}

#[test]
fn test_extract_cycles_from_http_response_with_labels() {
    let body = r#"
            # HELP canister_cycles The cycles balance of the canister.
            # TYPE canister_cycles gauge
            canister_cycles{method="GET", handler="/test"} 100
        "#;

    assert_eq!(
        extract_cycles_from_http_response_body(body, "canister_cycles").unwrap(),
        100
    );
}

#[test]
fn test_extract_cycles_from_http_response_body_not_found() {
    let body = r#"
            # HELP canister_cycles The cycles balance of the canister.
            # TYPE canister_cycles gauge
        "#;

    assert_eq!(
        extract_cycles_from_http_response_body(body, "canister_cycles").unwrap_err(),
        Error::CyclesBalanceMetricNotFound {
            metric_name: "canister_cycles".to_string()
        }
    );
}

#[test]
fn test_extract_cycles_from_http_response_body_invalid() {
    let body = r#"
            # HELP canister_cycles The cycles balance of the canister.
            # TYPE canister_cycles gauge
            canister_cycles invalid
        "#;

    assert_eq!(
        extract_cycles_from_http_response_body(body, "canister_cycles").unwrap_err(),
        Error::FailedCyclesConversion {
            cycles: "invalid".to_string()
        }
    );
}

#[test]
fn fetch_test_calc_needed_cycles() {
    assert_eq!(calc_freezing_balance(24 * 60 * 60, 1), 1);
    assert_eq!(calc_freezing_balance(12 * 60 * 60, 100), 50);
    assert_eq!(calc_freezing_balance(10 * 24 * 60 * 60, 50_000), 500_000);
    assert_eq!(calc_freezing_balance(30 * 24 * 60 * 60, 123456), 3_703_680);
}

#[test]
fn metrics_response_with_ok_status_is_parsed() {
    let body = "canister_cycles 42\n".as_bytes().to_vec();
    assert_eq!(
        handle_metrics_response(200, body, "canister_cycles").unwrap(),
        42
    );
}

#[test]
fn metrics_response_with_bad_status_is_an_error() {
    let body = "oops".as_bytes().to_vec();
    let err = handle_metrics_response(500, body, "canister_cycles").unwrap_err();
    assert_eq!(
        err,
        Error::MetricsHttpRequestFailed {
            code: RejectionCode::CanisterError,
            reason: "HTTP code unexpected 500: oops".to_string(),
        }
    );
}

#[test]
fn metrics_response_with_invalid_text_is_an_error() {
    let body = vec![0xff, 0xfe, 0x20];
    let err = handle_metrics_response(200, body, "canister_cycles").unwrap_err();
    assert_eq!(err, Error::MetricsResponseDeserializationFailed);
}

#[test]
fn out_of_cycles_rejection_reads_as_zero_balance() {
    // The check is case-insensitive: an upper-case message still counts.
    let r = classify_status_rejection(
        RejectionCode::CanisterError,
        "Canister is OUT OF CYCLES right now".to_string(),
    );
    assert_eq!(r.unwrap(), 0);
}

#[test]
fn other_rejections_keep_their_code_and_message() {
    let r = classify_status_rejection(RejectionCode::SysTransient, "timeout".to_string());
    assert_eq!(
        r.unwrap_err(),
        Error::GetCanisterCycleBalanceFailed {
            rejection_code: RejectionCode::SysTransient,
            rejection_message: "timeout".to_string(),
        }
    );
    // An out-of-cycles text under a different code is still an error.
    let r = classify_status_rejection(RejectionCode::SysFatal, "out of cycles".to_string());
    assert!(r.is_err());
}

#[test]
fn effective_balance_subtracts_the_freezing_reserve() {
    // One day of freezing threshold holds back exactly one day of idle burn.
    let r = effective_balance_from_status(
        candid::Nat::from(10_000u64),
        candid::Nat::from(86_400u64),
        candid::Nat::from(2_000u64),
    );
    assert_eq!(r.unwrap(), 8_000);
    // A reserve above the balance reads as zero, never as an error.
    let r = effective_balance_from_status(
        candid::Nat::from(1_000u64),
        candid::Nat::from(86_400u64),
        candid::Nat::from(2_000u64),
    );
    assert_eq!(r.unwrap(), 0);
    // A balance too large for 128 bits is a conversion error.
    let big = candid::Nat::from(u128::MAX) + candid::Nat::from(1u64);
    let r = effective_balance_from_status(
        big,
        candid::Nat::from(0u64),
        candid::Nat::from(0u64),
    );
    assert_eq!(
        r.unwrap_err(),
        Error::FailedCyclesConversion {
            cycles: "340282366920938463463374607431768211456".to_string()
        }
    );
}
