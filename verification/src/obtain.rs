//! Ways for the funding canister to obtain cycles for itself, and the pure
//! decision logic around them.

use vstd::prelude::*;
use vstd::string::StringExecFns;

use crate::errors::RejectionCode;
use crate::ids::CanisterId;
use crate::utils::spec_nat_decimal;

verus! {

/// How many times the mint flow notifies the minting collaborator of one
/// transfer before giving up.
pub const MAX_NOTIFY_TRIES: u64 = 10;

/// Relies on std's `Display for u128`: plain decimal digits.
#[verifier::external_body]
fn dec_u128(v: u128) -> (r: String)
    ensures
        r@ == spec_nat_decimal(v as nat),
{
    v.to_string()
}

/// The name of a rejection code, as diagnostics write it.
pub open spec fn spec_rejection_name(code: RejectionCode) -> Seq<char> {
    match code {
        RejectionCode::NoError => "NoError"@,
        RejectionCode::SysFatal => "SysFatal"@,
        RejectionCode::SysTransient => "SysTransient"@,
        RejectionCode::DestinationInvalid => "DestinationInvalid"@,
        RejectionCode::CanisterReject => "CanisterReject"@,
        RejectionCode::CanisterError => "CanisterError"@,
        RejectionCode::Unknown => "Unknown"@,
    }
}

/// Writes out the name of a rejection code.
pub fn rejection_name(code: RejectionCode) -> (r: String)
    ensures
        r@ == spec_rejection_name(code),
{
    match code {
        RejectionCode::NoError => "NoError".to_owned(),
        RejectionCode::SysFatal => "SysFatal".to_owned(),
        RejectionCode::SysTransient => "SysTransient".to_owned(),
        RejectionCode::DestinationInvalid => "DestinationInvalid".to_owned(),
        RejectionCode::CanisterReject => "CanisterReject".to_owned(),
        RejectionCode::CanisterError => "CanisterError".to_owned(),
        RejectionCode::Unknown => "Unknown".to_owned(),
    }
}

/// An error from an attempt to obtain cycles.
#[derive(Debug)]
pub struct ObtainCycleError {
    /// Details of the error.
    pub details: String,
    /// Whether the operation can be retried.
    pub can_retry: bool,
}

/// The abstract value of a mint-from-ICP cycle source.
pub ghost struct MintCyclesView {
    pub ledger: Seq<u8>,
    pub cmc: Seq<u8>,
    pub from_subaccount: Seq<u8>,
}

/// Obtains cycles by transferring ICP to the cycles-minting collaborator's
/// top-up account and asking it to mint.
#[derive(Debug)]
pub struct MintCycles {
    /// The ICP ledger canister the transfer goes through.
    pub ledger: CanisterId,
    /// The cycles-minting canister that is notified of the transfer.
    pub cmc: CanisterId,
    /// The ledger subaccount the ICP is taken from.
    pub from_subaccount: Vec<u8>,
}

impl View for MintCycles {
    type V = MintCyclesView;

    open spec fn view(&self) -> MintCyclesView {
        MintCyclesView {
            ledger: self.ledger@,
            cmc: self.cmc@,
            from_subaccount: self.from_subaccount@,
        }
    }
}

impl Clone for MintCycles {
    fn clone(&self) -> (r: Self)
        ensures
            r@ == self@,
    {
        Self {
            ledger: self.ledger.clone(),
            cmc: self.cmc.clone(),
            from_subaccount: crate::ids::clone_bytes(&self.from_subaccount),
        }
    }
}

/// The abstract value of a withdraw-from-ledger cycle source.
pub ghost struct WithdrawFromLedgerView {
    pub ledger: Seq<u8>,
    pub from_subaccount: Option<Seq<u8>>,
}

/// Obtains cycles with a single withdraw call on a cycles ledger.
#[derive(Debug)]
pub struct WithdrawFromLedger {
    /// The cycles ledger canister the withdrawal goes through.
    pub ledger: CanisterId,
    /// The ledger subaccount the cycles are taken from.
    pub from_subaccount: Option<Vec<u8>>,
}

impl View for WithdrawFromLedger {
    type V = WithdrawFromLedgerView;

    open spec fn view(&self) -> WithdrawFromLedgerView {
        WithdrawFromLedgerView {
            ledger: self.ledger@,
            from_subaccount: match self.from_subaccount {
                Some(s) => Some(s@),
                None => None,
            },
        }
    }
}

impl Clone for WithdrawFromLedger {
    fn clone(&self) -> (r: Self)
        ensures
            r@ == self@,
    {
        Self {
            ledger: self.ledger.clone(),
            from_subaccount: match &self.from_subaccount {
                Some(s) => Some(crate::ids::clone_bytes(s)),
                None => None,
            },
        }
    }
}

/// The abstract value of a cycle source.
pub ghost enum CycleSourceView {
    Mint(MintCyclesView),
    Withdraw(WithdrawFromLedgerView),
}

/// A way to obtain cycles into the funding canister.
#[derive(Debug)]
pub enum CycleSource {
    /// Mint cycles from ICP through the cycles-minting collaborator.
    Mint(MintCycles),
    /// Withdraw cycles from a cycles ledger.
    Withdraw(WithdrawFromLedger),
}

impl View for CycleSource {
    type V = CycleSourceView;

    open spec fn view(&self) -> CycleSourceView {
        match self {
            CycleSource::Mint(m) => CycleSourceView::Mint(m@),
            CycleSource::Withdraw(w) => CycleSourceView::Withdraw(w@),
        }
    }
}

impl Clone for CycleSource {
    fn clone(&self) -> (r: Self)
        ensures
            r@ == self@,
    {
        match self {
            CycleSource::Mint(m) => CycleSource::Mint(m.clone()),
            CycleSource::Withdraw(w) => CycleSource::Withdraw(w.clone()),
        }
    }
}

/// The abstract value of an obtain-cycles configuration.
pub ghost struct ObtainCyclesOptionsView {
    pub obtain_cycles: CycleSourceView,
}

/// Configuration for topping up the funding canister's own balance.
#[derive(Debug)]
pub struct ObtainCyclesOptions {
    /// The cycle source used when the funding canister runs low.
    pub obtain_cycles: CycleSource,
}

impl View for ObtainCyclesOptions {
    type V = ObtainCyclesOptionsView;

    open spec fn view(&self) -> ObtainCyclesOptionsView {
        ObtainCyclesOptionsView { obtain_cycles: self.obtain_cycles@ }
    }
}

impl Clone for ObtainCyclesOptions {
    fn clone(&self) -> (r: Self)
        ensures
            r@ == self@,
    {
        Self { obtain_cycles: self.obtain_cycles.clone() }
    }
}

/// The abstract value of an optional obtain-cycles configuration.
pub open spec fn opt_obtain_view(o: Option<ObtainCyclesOptions>) -> Option<
    ObtainCyclesOptionsView,
> {
    match o {
        Some(v) => Some(v@),
        None => None,
    }
}

/// Copies an optional obtain-cycles configuration.
pub fn clone_opt_obtain(o: &Option<ObtainCyclesOptions>) -> (r: Option<ObtainCyclesOptions>)
    ensures
        opt_obtain_view(r) == opt_obtain_view(*o),
{
    match o {
        Some(v) => Some(v.clone()),
        None => None,
    }
}

/// The abstract value of an obtain-cycles error.
pub ghost struct ObtainCycleErrorView {
    pub details: Seq<char>,
    pub can_retry: bool,
}

impl View for ObtainCycleError {
    type V = ObtainCycleErrorView;

    open spec fn view(&self) -> ObtainCycleErrorView {
        ObtainCycleErrorView { details: self.details@, can_retry: self.can_retry }
    }
}

/// What the minting collaborator answers when notified of a top-up transfer.
/// On the wire the two cases are the success and error variants of the
/// collaborator's result type.
pub enum NotifyTopUpResult {
    /// Cycles were minted.
    Minted(u128),
    /// The notification was taken but no cycles came of it.
    Failed(NotifyError),
}

/// Why a top-up notification yielded no cycles.
pub enum NotifyError {
    /// The transfer was refunded.
    Refunded { reason: String, block_index: Option<u64> },
    /// The transaction is still being processed.
    Processing,
    /// The transaction is too old to act on.
    TransactionTooOld(u64),
    /// The transaction does not look like a top-up.
    InvalidTransaction(String),
    /// Another error, with a code and message.
    Other { error_code: u64, error_message: String },
}

/// The next move of the mint flow after one notify attempt.
pub enum NotifyStep {
    /// The mint succeeded with this many cycles.
    Done(u128),
    /// Ask again.
    Retry,
    /// Give up with this error.
    Fail(ObtainCycleError),
}

/// The abstract value of a notify step.
pub ghost enum NotifyStepView {
    Done(u128),
    Retry,
    Fail(ObtainCycleErrorView),
}

impl View for NotifyStep {
    type V = NotifyStepView;

    open spec fn view(&self) -> NotifyStepView {
        match self {
            NotifyStep::Done(v) => NotifyStepView::Done(*v),
            NotifyStep::Retry => NotifyStepView::Retry,
            NotifyStep::Fail(e) => NotifyStepView::Fail(e@),
        }
    }
}

/// The text an optional block index reads as in diagnostics.
pub open spec fn spec_opt_block_text(block_index: Option<u64>) -> Seq<char> {
    match block_index {
        Some(b) => "Some("@ + spec_nat_decimal(b as nat) + ")"@,
        None => "None"@,
    }
}

/// Decides the mint flow's next move from the answer to one notify call:
/// transport rejections, a still-processing transaction, and other errors are
/// asked again while retries remain; a refund is terminal here but retryable
/// by the caller; a too-old or invalid transaction is terminal outright.
/// `retries_left` is how many further attempts remain after this one.
pub fn classify_notify(
    outcome: Result<NotifyTopUpResult, (RejectionCode, String)>,
    retries_left: u64,
) -> (r: NotifyStep)
    ensures
        r@ == (match outcome {
            Err((code, message)) => {
                if retries_left == 0 {
                    NotifyStepView::Fail(
                        ObtainCycleErrorView {
                            details: "Error notifying CMC about top-up: code="@
                                + spec_rejection_name(code) + ", message="@ + message@,
                            can_retry: false,
                        },
                    )
                } else {
                    NotifyStepView::Retry
                }
            },
            Ok(NotifyTopUpResult::Minted(cycles)) => NotifyStepView::Done(cycles),
            Ok(NotifyTopUpResult::Failed(e)) => match e {
                NotifyError::Refunded { reason, block_index } => NotifyStepView::Fail(
                    ObtainCycleErrorView {
                        details: "Top-up transaction refunded: reason="@ + reason@
                            + ", block_index="@ + spec_opt_block_text(block_index),
                        can_retry: true,
                    },
                ),
                NotifyError::Processing => {
                    if retries_left == 0 {
                        NotifyStepView::Fail(
                            ObtainCycleErrorView {
                                details: "Top-up transaction still processing after retries."@,
                                can_retry: false,
                            },
                        )
                    } else {
                        NotifyStepView::Retry
                    }
                },
                NotifyError::TransactionTooOld(_) => NotifyStepView::Fail(
                    ObtainCycleErrorView {
                        details: "Top-up transaction too old."@,
                        can_retry: false,
                    },
                ),
                NotifyError::InvalidTransaction(message) => NotifyStepView::Fail(
                    ObtainCycleErrorView {
                        details: "Invalid top-up transaction: "@ + message@,
                        can_retry: false,
                    },
                ),
                NotifyError::Other { error_code, error_message } => {
                    if retries_left == 0 {
                        NotifyStepView::Fail(
                            ObtainCycleErrorView {
                                details: "Error notifying CMC about top-up: code="@
                                    + spec_nat_decimal(error_code as nat) + ", message="@
                                    + error_message@,
                                can_retry: false,
                            },
                        )
                    } else {
                        NotifyStepView::Retry
                    }
                },
            },
        }),
{
    match outcome {
        Err(rejection) => {
            if retries_left == 0 {
                let mut details = "Error notifying CMC about top-up: code=".to_owned();
                details.append(rejection_name(rejection.0).as_str());
                details.append(", message=");
                details.append(rejection.1.as_str());
                NotifyStep::Fail(ObtainCycleError { details, can_retry: false })
            } else {
                NotifyStep::Retry
            }
        },
        Ok(NotifyTopUpResult::Minted(cycles)) => NotifyStep::Done(cycles),
        Ok(NotifyTopUpResult::Failed(e)) => match e {
            NotifyError::Refunded { reason, block_index } => {
                let block_text: String = match block_index {
                    Some(b) => {
                        let mut t = "Some(".to_owned();
                        t.append(dec_u128(b as u128).as_str());
                        t.append(")");
                        t
                    },
                    None => "None".to_owned(),
                };
                let mut details = "Top-up transaction refunded: reason=".to_owned();
                details.append(reason.as_str());
                details.append(", block_index=");
                details.append(block_text.as_str());
                NotifyStep::Fail(ObtainCycleError { details, can_retry: true })
            },
            NotifyError::Processing => {
                if retries_left == 0 {
                    NotifyStep::Fail(
                        ObtainCycleError {
                            details: "Top-up transaction still processing after retries."
                                .to_owned(),
                            can_retry: false,
                        },
                    )
                } else {
                    NotifyStep::Retry
                }
            },
            NotifyError::TransactionTooOld(_) => NotifyStep::Fail(
                ObtainCycleError { details: "Top-up transaction too old.".to_owned(), can_retry: false },
            ),
            NotifyError::InvalidTransaction(message) => {
                let mut details = "Invalid top-up transaction: ".to_owned();
                details.append(message.as_str());
                NotifyStep::Fail(ObtainCycleError { details, can_retry: false })
            },
            NotifyError::Other { error_code, error_message } => {
                if retries_left == 0 {
                    let mut details = "Error notifying CMC about top-up: code=".to_owned();
                    details.append(dec_u128(error_code as u128).as_str());
                    details.append(", message=");
                    details.append(error_message.as_str());
                    NotifyStep::Fail(ObtainCycleError { details, can_retry: false })
                } else {
                    NotifyStep::Retry
                }
            },
        },
    }
}

impl MintCycles {
    /// Converts a cycles amount to an ICP amount in e8s, through the
    /// XDR-permyriad-per-ICP price and the fixed rate of a trillion cycles
    /// per XDR.
    pub fn calculate_icp_amount(&self, amount: u128, price: u128) -> (r: u128)
        requires
            price > 0,
            price * 1_000_000_000_000 <= u128::MAX,
            amount * 100_000_000 <= u128::MAX,
        ensures
            r == amount * 100_000_000 / (price * 1_000_000_000_000 / 10_000),
    {
        let cycles_per_xdr: u128 = 1_000_000_000_000;
        let cycles_per_icp: u128 = price * cycles_per_xdr / 10_000u128;
        proof {
            assert(price * 1_000_000_000_000 / 10_000 >= 1_000_000_000_000int / 10_000)
                by (nonlinear_arith)
                requires
                    price > 0,
            ;
        }
        amount * 100_000_000u128 / cycles_per_icp
    }

    /// Lays out the ICP transfer that pays for a mint: the top-up memo, the
    /// converted amount, the standard fee, and the collaborator's top-up
    /// address.
    pub fn plan_icp_transfer(&self, icp_amount: u128, top_up_address: Vec<u8>) -> (r: TransferPlan)
        ensures
            r.memo == 0x5055_5054u64,
            r.amount_e8s == icp_amount as u64,
            r.fee_e8s == 10_000u64,
            r.from_subaccount@ == self@.from_subaccount,
            r.to_account@ == top_up_address@,
            r.created_at_time is None,
    {
        TransferPlan {
            memo: 0x5055_5054,
            amount_e8s: #[verifier::truncate] (icp_amount as u64),
            fee_e8s: 10_000,
            from_subaccount: crate::ids::clone_bytes(&self.from_subaccount),
            to_account: top_up_address,
            created_at_time: None,
        }
    }
}

/// The ICP ledger transfer the mint flow issues, as plain values.
pub struct TransferPlan {
    /// The top-up memo the minting collaborator expects.
    pub memo: u64,
    /// The transferred amount in e8s.
    pub amount_e8s: u64,
    /// The transfer fee in e8s.
    pub fee_e8s: u64,
    /// The subaccount the ICP is taken from.
    pub from_subaccount: Vec<u8>,
    /// The collaborator's top-up address for the target canister.
    pub to_account: Vec<u8>,
    /// An optional creation time for deduplication.
    pub created_at_time: Option<u64>,
}

/// Why the ICP ledger refused the mint flow's transfer.
pub enum TransferError {
    /// The fee was not the expected one.
    BadFee { expected_fee_e8s: u64 },
    /// The source account holds too little.
    InsufficientFunds { balance_e8s: u64 },
    /// The transaction is older than the allowed window.
    TxTooOld { allowed_window_nanos: u64 },
    /// The transaction's creation time lies ahead of the ledger's clock.
    TxCreatedInFuture,
    /// The transaction repeats an earlier one.
    TxDuplicate { duplicate_of: u64 },
}

/// The message each transfer error carries in the obtain-cycles error.
pub open spec fn spec_transfer_error_text(e: TransferError) -> Seq<char> {
    match e {
        TransferError::BadFee { expected_fee_e8s } => "bad fee, expected "@ + spec_nat_decimal(
            expected_fee_e8s as nat,
        ) + " e8s"@,
        TransferError::InsufficientFunds { balance_e8s } => "insufficient funds, balance "@
            + spec_nat_decimal(balance_e8s as nat) + " e8s"@,
        TransferError::TxTooOld { .. } => "transaction too old"@,
        TransferError::TxCreatedInFuture => "transaction created in future"@,
        TransferError::TxDuplicate { duplicate_of } => "duplicate of block "@ + spec_nat_decimal(
            duplicate_of as nat,
        ),
    }
}

/// Maps what came back from the ICP transfer to the mint flow's outcome: a
/// transport rejection is retryable, a created-in-future error is retryable,
/// and every other ledger error is terminal.
pub fn classify_transfer_result(
    outcome: Result<Result<u64, TransferError>, (RejectionCode, String)>,
) -> (r: Result<u64, ObtainCycleError>)
    ensures
        match outcome {
            Ok(Ok(block_index)) => r is Ok && r->Ok_0 == block_index,
            Ok(Err(e)) => r is Err && r->Err_0@ == (ObtainCycleErrorView {
                details: "Error transferring ICP to CMC account: "@ + spec_transfer_error_text(e),
                can_retry: e is TxCreatedInFuture,
            }),
            Err((code, message)) => r is Err && r->Err_0@ == (ObtainCycleErrorView {
                details: "Error transferring ICP to CMC account: code="@ + spec_rejection_name(
                    code,
                ) + ", message="@ + message@,
                can_retry: true,
            }),
        },
{
    match outcome {
        Ok(Ok(block_index)) => Ok(block_index),
        Ok(Err(e)) => {
            let can_retry = match &e {
                TransferError::TxCreatedInFuture => true,
                _ => false,
            };
            let text: String = match e {
                TransferError::BadFee { expected_fee_e8s } => {
                    let mut t = "bad fee, expected ".to_owned();
                    t.append(dec_u128(expected_fee_e8s as u128).as_str());
                    t.append(" e8s");
                    t
                },
                TransferError::InsufficientFunds { balance_e8s } => {
                    let mut t = "insufficient funds, balance ".to_owned();
                    t.append(dec_u128(balance_e8s as u128).as_str());
                    t.append(" e8s");
                    t
                },
                TransferError::TxTooOld { .. } => "transaction too old".to_owned(),
                TransferError::TxCreatedInFuture => "transaction created in future".to_owned(),
                TransferError::TxDuplicate { duplicate_of } => {
                    let mut t = "duplicate of block ".to_owned();
                    t.append(dec_u128(duplicate_of as u128).as_str());
                    t
                },
            };
            let mut details = "Error transferring ICP to CMC account: ".to_owned();
            details.append(text.as_str());
            Err(ObtainCycleError { details, can_retry })
        },
        Err(rejection) => {
            let mut details = "Error transferring ICP to CMC account: code=".to_owned();
            details.append(rejection_name(rejection.0).as_str());
            details.append(", message=");
            details.append(rejection.1.as_str());
            Err(ObtainCycleError { details, can_retry: true })
        },
    }
}

/// Maps what came back from the exchange-rate query to the mint flow's
/// outcome: the price goes through, and a transport rejection is retryable.
pub fn classify_price_result(
    outcome: Result<u64, (RejectionCode, String)>,
) -> (r: Result<u64, ObtainCycleError>)
    ensures
        match outcome {
            Ok(price) => r is Ok && r->Ok_0 == price,
            Err((code, message)) => r is Err && r->Err_0@ == (ObtainCycleErrorView {
                details: "Error getting ICP/XDR price from CMC: code="@ + spec_rejection_name(code)
                    + ", message="@ + message@,
                can_retry: true,
            }),
        },
{
    match outcome {
        Ok(price) => Ok(price),
        Err(rejection) => {
            let mut details = "Error getting ICP/XDR price from CMC: code=".to_owned();
            details.append(rejection_name(rejection.0).as_str());
            details.append(", message=");
            details.append(rejection.1.as_str());
            Err(ObtainCycleError { details, can_retry: true })
        },
    }
}

/// The arguments of a cycles-ledger withdrawal, as plain values.
pub struct WithdrawArgs {
    /// The ledger subaccount the cycles are taken from.
    pub from_subaccount: Option<Vec<u8>>,
    /// The canister the cycles go to.
    pub to: CanisterId,
    /// An optional creation time for deduplication.
    pub created_at_time: Option<u64>,
    /// The withdrawn amount.
    pub amount: u128,
}

/// Why the cycles ledger refused a withdrawal.
pub enum WithdrawError {
    /// The fee was not the expected one.
    BadFee { expected_fee: u128 },
    /// The source account holds too little.
    InsufficientFunds { balance: u128 },
    /// The transaction is too old.
    TooOld,
    /// The transaction's creation time lies ahead of the ledger's clock.
    CreatedInFuture { ledger_time: u64 },
    /// The ledger cannot act right now.
    TemporarilyUnavailable,
    /// The transaction repeats an earlier one.
    Duplicate { duplicate_of: u64 },
    /// The deposit leg of the withdrawal was rejected.
    FailedToWithdraw {
        fee_block: Option<u128>,
        rejection_code: RejectionCode,
        rejection_reason: String,
    },
    /// Another error, with a code and message.
    GenericError { error_code: u128, message: String },
    /// The receiver is not a valid target.
    InvalidReceiver { receiver: CanisterId },
}

/// The message each withdraw error carries in the obtain-cycles error.
pub open spec fn spec_withdraw_error_text(e: WithdrawError) -> Seq<char> {
    match e {
        WithdrawError::BadFee { expected_fee } => "Bad fee, expected: "@ + spec_nat_decimal(
            expected_fee as nat,
        ),
        WithdrawError::InsufficientFunds { balance } => "Insufficient balance, balance: "@
            + spec_nat_decimal(balance as nat),
        WithdrawError::TooOld => "Tx too old"@,
        WithdrawError::CreatedInFuture { .. } => "Tx created in future"@,
        WithdrawError::Duplicate { duplicate_of } => "Tx duplicate, duplicate_of: "@
            + spec_nat_decimal(duplicate_of as nat),
        WithdrawError::FailedToWithdraw { rejection_code, rejection_reason, .. } =>
            "Failed to withdraw. Code:"@ + spec_rejection_name(rejection_code) + ", reason:"@
            + rejection_reason@,
        WithdrawError::TemporarilyUnavailable => "Ledger temporarily unavailable"@,
        WithdrawError::GenericError { error_code, message } => "Error occurred. Code: "@
            + spec_nat_decimal(error_code as nat) + ", message: "@ + message@,
        WithdrawError::InvalidReceiver { .. } => "Invalid receiver"@,
    }
}

impl WithdrawFromLedger {
    /// Lays out the withdrawal this source issues for the given amount and
    /// target.
    pub fn plan_withdraw(&self, amount: u128, to: &CanisterId) -> (r: WithdrawArgs)
        ensures
            (match r.from_subaccount {
                Some(s) => self@.from_subaccount == Some(s@),
                None => self@.from_subaccount is None,
            }),
            r.to@ == to@,
            r.created_at_time is None,
            r.amount == amount,
    {
        WithdrawArgs {
            from_subaccount: match &self.from_subaccount {
                Some(s) => Some(crate::ids::clone_bytes(s)),
                None => None,
            },
            to: to.clone(),
            created_at_time: None,
            amount,
        }
    }
}

/// Maps what came back from the withdraw call to the obtain-cycles outcome: a
/// transport rejection is retryable, a created-in-future error is retryable,
/// and every other ledger error is terminal.
pub fn classify_withdraw_result(
    outcome: Result<Result<u64, WithdrawError>, (RejectionCode, String)>,
) -> (r: Result<u64, ObtainCycleError>)
    ensures
        match outcome {
            Ok(Ok(block_index)) => r is Ok && r->Ok_0 == block_index,
            Ok(Err(e)) => r is Err && r->Err_0@ == (ObtainCycleErrorView {
                details: spec_withdraw_error_text(e),
                can_retry: e is CreatedInFuture,
            }),
            Err((code, message)) => r is Err && r->Err_0@ == (ObtainCycleErrorView {
                details: "rejection_code: "@ + spec_rejection_name(code) + ", err: "@ + message@,
                can_retry: true,
            }),
        },
{
    match outcome {
        Ok(Ok(block_index)) => Ok(block_index),
        Ok(Err(e)) => {
            let can_retry = match &e {
                WithdrawError::CreatedInFuture { .. } => true,
                _ => false,
            };
            let details: String = match e {
                WithdrawError::BadFee { expected_fee } => {
                    let mut d = "Bad fee, expected: ".to_owned();
                    d.append(dec_u128(expected_fee).as_str());
                    d
                },
                WithdrawError::InsufficientFunds { balance } => {
                    let mut d = "Insufficient balance, balance: ".to_owned();
                    d.append(dec_u128(balance).as_str());
                    d
                },
                WithdrawError::TooOld => "Tx too old".to_owned(),
                WithdrawError::CreatedInFuture { .. } => "Tx created in future".to_owned(),
                WithdrawError::Duplicate { duplicate_of } => {
                    let mut d = "Tx duplicate, duplicate_of: ".to_owned();
                    d.append(dec_u128(duplicate_of as u128).as_str());
                    d
                },
                WithdrawError::FailedToWithdraw { rejection_code, rejection_reason, .. } => {
                    let mut d = "Failed to withdraw. Code:".to_owned();
                    d.append(rejection_name(rejection_code).as_str());
                    d.append(", reason:");
                    d.append(rejection_reason.as_str());
                    d
                },
                WithdrawError::TemporarilyUnavailable => "Ledger temporarily unavailable"
                    .to_owned(),
                WithdrawError::GenericError { error_code, message } => {
                    let mut d = "Error occurred. Code: ".to_owned();
                    d.append(dec_u128(error_code).as_str());
                    d.append(", message: ");
                    d.append(message.as_str());
                    d
                },
                WithdrawError::InvalidReceiver { .. } => "Invalid receiver".to_owned(),
            };
            Err(ObtainCycleError { details, can_retry })
        },
        Err(rejection) => {
            let mut details = "rejection_code: ".to_owned();
            details.append(rejection_name(rejection.0).as_str());
            details.append(", err: ");
            details.append(rejection.1.as_str());
            Err(ObtainCycleError { details, can_retry: true })
        },
    }
}

/// What a withdrawal-backed obtain reports: on success the caller-requested
/// amount counts as obtained, and a failure keeps its classification.
pub fn conclude_withdraw_obtain(amount: u128, outcome: Result<u64, ObtainCycleError>) -> (r:
    Result<u128, ObtainCycleError>)
    ensures
        outcome is Ok ==> r is Ok && r->Ok_0 == amount,
        outcome matches Err(e) ==> (r matches Err(e2) && e2@ == e@),
{
    match outcome {
        Ok(_) => Ok(amount),
        Err(e) => Err(e),
    }
}

} // verus!
