use canfund::errors::RejectionCode;
use canfund::ids::CanisterId;
use canfund::manager::{should_retry_obtain, MAX_OBTAIN_CYCLES_TRIES};
use canfund::obtain::{
    classify_notify, classify_price_result, classify_transfer_result, classify_withdraw_result,
    conclude_withdraw_obtain, MintCycles, NotifyError, NotifyStep, NotifyTopUpResult,
    TransferError, WithdrawError, WithdrawFromLedger, MAX_NOTIFY_TRIES,
};

fn mint_source() -> MintCycles {
    MintCycles {
        ledger: CanisterId::from_bytes(vec![1]),
        cmc: CanisterId::from_bytes(vec![2]),
        from_subaccount: vec![0u8; 32],
    }
}

#[test]
fn icp_amount_follows_the_price() {
    // At 5 XDR per ICP (50_000 permyriad), one trillion cycles cost a fifth
    // of an ICP in e8s.
    let mint = mint_source();
    let amount = mint.calculate_icp_amount(1_000_000_000_000, 50_000);
    assert_eq!(amount, 100_000_000 / 5);
    // At 1 XDR per ICP, one trillion cycles cost exactly one ICP.
    let amount = mint.calculate_icp_amount(1_000_000_000_000, 10_000);
    assert_eq!(amount, 100_000_000);
}

#[test]
fn transfer_plan_carries_the_top_up_memo_and_fee() {
    let mint = mint_source();
    let plan = mint.plan_icp_transfer(20_000_000, vec![7, 7, 7]);
    assert_eq!(plan.memo, 0x5055_5054);
    assert_eq!(plan.amount_e8s, 20_000_000);
    assert_eq!(plan.fee_e8s, 10_000);
    assert_eq!(plan.from_subaccount, vec![0u8; 32]);
    assert_eq!(plan.to_account, vec![7, 7, 7]);
    assert!(plan.created_at_time.is_none());
}

#[test]
fn notify_retries_on_transport_and_processing_and_other() {
    // A transport rejection, a still-processing answer, and an "other" error
    // are all retried while tries remain, exactly ten times in all.
    let retried = [
        NotifyTopUpResult::Failed(NotifyError::Processing),
        NotifyTopUpResult::Failed(NotifyError::Other {
            error_code: 0,
            error_message: String::new(),
        }),
    ];
    for outcome in retried {
        match classify_notify(Ok(outcome), 3) {
            NotifyStep::Retry => {}
            _ => panic!("a retryable answer with tries left must be retried"),
        }
    }
    match classify_notify(Err((RejectionCode::SysFatal, "error".to_string())), 3) {
        NotifyStep::Retry => {}
        _ => panic!("a transport rejection with tries left must be retried"),
    }

    // Drive a whole notify loop against an always-processing collaborator:
    // it asks exactly MAX_NOTIFY_TRIES times, then fails terminally.
    let mut calls = 0u64;
    let mut tries_left = MAX_NOTIFY_TRIES;
    let error = loop {
        tries_left -= 1;
        calls += 1;
        match classify_notify(Ok(NotifyTopUpResult::Failed(NotifyError::Processing)), tries_left) {
            NotifyStep::Retry => continue,
            NotifyStep::Fail(e) => break e,
            NotifyStep::Done(_) => panic!("processing never completes"),
        }
    };
    assert_eq!(calls, 10);
    assert!(!error.can_retry);
    assert_eq!(
        error.details,
        "Top-up transaction still processing after retries."
    );
}

#[test]
fn notify_refund_is_terminal_here_but_retryable_by_the_caller() {
    let outcome = Ok(NotifyTopUpResult::Failed(NotifyError::Refunded {
        reason: "reason".to_string(),
        block_index: Some(0),
    }));
    match classify_notify(outcome, 9) {
        NotifyStep::Fail(e) => {
            assert!(e.can_retry);
            assert_eq!(
                e.details,
                "Top-up transaction refunded: reason=reason, block_index=Some(0)"
            );
        }
        _ => panic!("a refund ends the notify loop"),
    }
}

#[test]
fn notify_too_old_and_invalid_are_terminal() {
    match classify_notify(Ok(NotifyTopUpResult::Failed(NotifyError::TransactionTooOld(3))), 9) {
        NotifyStep::Fail(e) => {
            assert!(!e.can_retry);
            assert_eq!(e.details, "Top-up transaction too old.");
        }
        _ => panic!("a too-old transaction ends the notify loop"),
    }
    match classify_notify(
        Ok(NotifyTopUpResult::Failed(NotifyError::InvalidTransaction("bad".to_string()))),
        9,
    ) {
        NotifyStep::Fail(e) => {
            assert!(!e.can_retry);
            assert_eq!(e.details, "Invalid top-up transaction: bad");
        }
        _ => panic!("an invalid transaction ends the notify loop"),
    }
}

#[test]
fn notify_success_yields_the_minted_cycles() {
    match classify_notify(Ok(NotifyTopUpResult::Minted(777)), 0) {
        NotifyStep::Done(cycles) => assert_eq!(cycles, 777),
        _ => panic!("minted cycles come through"),
    }
}

#[test]
fn transfer_created_in_future_is_retryable_and_others_terminal() {
    let r = classify_transfer_result(Ok(Err(TransferError::TxCreatedInFuture)));
    assert!(r.unwrap_err().can_retry);
    let r = classify_transfer_result(Ok(Err(TransferError::BadFee { expected_fee_e8s: 10_000 })));
    let e = r.unwrap_err();
    assert!(!e.can_retry);
    assert_eq!(
        e.details,
        "Error transferring ICP to CMC account: bad fee, expected 10000 e8s"
    );
    let r = classify_transfer_result(Err((RejectionCode::SysTransient, "busy".to_string())));
    let e = r.unwrap_err();
    assert!(e.can_retry);
    assert_eq!(
        e.details,
        "Error transferring ICP to CMC account: code=SysTransient, message=busy"
    );
    let r = classify_transfer_result(Ok(Ok(42)));
    assert_eq!(r.unwrap(), 42);
}

#[test]
fn price_rejections_are_retryable() {
    let r = classify_price_result(Ok(12_345));
    assert_eq!(r.unwrap(), 12_345);
    let e = classify_price_result(Err((RejectionCode::CanisterReject, "no".to_string())))
        .unwrap_err();
    assert!(e.can_retry);
    assert_eq!(
        e.details,
        "Error getting ICP/XDR price from CMC: code=CanisterReject, message=no"
    );
}

#[test]
fn withdraw_errors_map_to_their_retryability() {
    let e = classify_withdraw_result(Ok(Err(WithdrawError::CreatedInFuture { ledger_time: 1 })))
        .unwrap_err();
    assert!(e.can_retry);
    assert_eq!(e.details, "Tx created in future");

    let e = classify_withdraw_result(Ok(Err(WithdrawError::BadFee { expected_fee: 9 })))
        .unwrap_err();
    assert!(!e.can_retry);
    assert_eq!(e.details, "Bad fee, expected: 9");

    let e = classify_withdraw_result(Ok(Err(WithdrawError::InsufficientFunds { balance: 3 })))
        .unwrap_err();
    assert!(!e.can_retry);
    assert_eq!(e.details, "Insufficient balance, balance: 3");

    let e = classify_withdraw_result(Ok(Err(WithdrawError::TemporarilyUnavailable))).unwrap_err();
    assert!(!e.can_retry);
    assert_eq!(e.details, "Ledger temporarily unavailable");

    let e = classify_withdraw_result(Err((RejectionCode::SysFatal, "down".to_string())))
        .unwrap_err();
    assert!(e.can_retry);
    assert_eq!(e.details, "rejection_code: SysFatal, err: down");
}

#[test]
fn withdraw_success_obtains_the_requested_amount() {
    let ledger = WithdrawFromLedger {
        ledger: CanisterId::from_bytes(vec![5]),
        from_subaccount: None,
    };
    let args = ledger.plan_withdraw(1_000_000_000_000, &CanisterId::from_bytes(vec![6]));
    assert_eq!(args.amount, 1_000_000_000_000);
    assert!(args.from_subaccount.is_none());
    assert!(args.created_at_time.is_none());
    assert_eq!(args.to.bytes, vec![6]);

    let outcome = classify_withdraw_result(Ok(Ok(0)));
    let obtained = conclude_withdraw_obtain(1_000_000_000_000, outcome);
    assert_eq!(obtained.unwrap(), 1_000_000_000_000);
}

#[test]
fn obtain_retry_policy_allows_four_tries() {
    // One orchestration pass calls the source up to four times when every
    // failure is retryable, and stops early on a terminal one.
    let mut calls = 0u64;
    let mut tries_left = MAX_OBTAIN_CYCLES_TRIES;
    loop {
        tries_left -= 1;
        calls += 1;
        let can_retry = true;
        if should_retry_obtain(tries_left, can_retry) {
            continue;
        }
        break;
    }
    assert_eq!(calls, 4);
    assert!(!should_retry_obtain(3, false));
    assert!(!should_retry_obtain(0, true));
    assert!(should_retry_obtain(1, true));
}
