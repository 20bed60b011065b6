//! Errors reported while fetching cycles balances and converting amounts.

use vstd::prelude::*;
use vstd::std_specs::cmp::PartialEqSpec;

verus! {

/// The rejection code a call to another canister can come back with.
#[derive(Clone, Copy, Debug, PartialEq, Eq, Structural)]
pub enum RejectionCode {
    NoError,
    SysFatal,
    SysTransient,
    DestinationInvalid,
    CanisterReject,
    CanisterError,
    Unknown,
}

/// An error from fetching a canister's cycles balance or converting a
/// reported amount.
#[derive(Debug)]
pub enum Error {
    /// The status call used to read the balance was rejected.
    GetCanisterCycleBalanceFailed { rejection_code: RejectionCode, rejection_message: String },
    /// The HTTP request for the metrics endpoint was rejected or came back
    /// with an unexpected status.
    MetricsHttpRequestFailed { code: RejectionCode, reason: String },
    /// The metrics response body was not valid text.
    MetricsResponseDeserializationFailed,
    /// No line of the metrics response carried the configured metric.
    CyclesBalanceMetricNotFound { metric_name: String },
    /// A reported cycles amount did not fit a 128-bit unsigned integer.
    FailedCyclesConversion { cycles: String },
}

impl Clone for Error {
    fn clone(&self) -> (r: Self)
        ensures
            r.eq_spec(self),
    {
        match self {
            Error::GetCanisterCycleBalanceFailed { rejection_code, rejection_message } => {
                Error::GetCanisterCycleBalanceFailed {
                    rejection_code: *rejection_code,
                    rejection_message: rejection_message.clone(),
                }
            },
            Error::MetricsHttpRequestFailed { code, reason } => {
                Error::MetricsHttpRequestFailed { code: *code, reason: reason.clone() }
            },
            Error::MetricsResponseDeserializationFailed => {
                Error::MetricsResponseDeserializationFailed
            },
            Error::CyclesBalanceMetricNotFound { metric_name } => {
                Error::CyclesBalanceMetricNotFound { metric_name: metric_name.clone() }
            },
            Error::FailedCyclesConversion { cycles } => {
                Error::FailedCyclesConversion { cycles: cycles.clone() }
            },
        }
    }
}

impl PartialEq for Error {
    fn eq(&self, other: &Self) -> (r: bool) {
        match (self, other) {
            (
                Error::GetCanisterCycleBalanceFailed {
                    rejection_code: c1,
                    rejection_message: m1,
                },
                Error::GetCanisterCycleBalanceFailed {
                    rejection_code: c2,
                    rejection_message: m2,
                },
            ) => *c1 == *c2 && *m1 == *m2,
            (
                Error::MetricsHttpRequestFailed { code: c1, reason: r1 },
                Error::MetricsHttpRequestFailed { code: c2, reason: r2 },
            ) => *c1 == *c2 && *r1 == *r2,
            (
                Error::MetricsResponseDeserializationFailed,
                Error::MetricsResponseDeserializationFailed,
            ) => true,
            (
                Error::CyclesBalanceMetricNotFound { metric_name: n1 },
                Error::CyclesBalanceMetricNotFound { metric_name: n2 },
            ) => *n1 == *n2,
            (
                Error::FailedCyclesConversion { cycles: c1 },
                Error::FailedCyclesConversion { cycles: c2 },
            ) => *c1 == *c2,
            _ => false,
        }
    }
}

impl Eq for Error {

}

impl vstd::std_specs::cmp::PartialEqSpecImpl for Error {
    open spec fn obeys_eq_spec() -> bool {
        true
    }

    open spec fn eq_spec(&self, other: &Self) -> bool {
        match (self, other) {
            (
                Error::GetCanisterCycleBalanceFailed {
                    rejection_code: c1,
                    rejection_message: m1,
                },
                Error::GetCanisterCycleBalanceFailed {
                    rejection_code: c2,
                    rejection_message: m2,
                },
            ) => c1 == c2 && m1@ == m2@,
            (
                Error::MetricsHttpRequestFailed { code: c1, reason: r1 },
                Error::MetricsHttpRequestFailed { code: c2, reason: r2 },
            ) => c1 == c2 && r1@ == r2@,
            (
                Error::MetricsResponseDeserializationFailed,
                Error::MetricsResponseDeserializationFailed,
            ) => true,
            (
                Error::CyclesBalanceMetricNotFound { metric_name: n1 },
                Error::CyclesBalanceMetricNotFound { metric_name: n2 },
            ) => n1@ == n2@,
            (
                Error::FailedCyclesConversion { cycles: c1 },
                Error::FailedCyclesConversion { cycles: c2 },
            ) => c1@ == c2@,
            _ => false,
        }
    }
}

} // verus!
