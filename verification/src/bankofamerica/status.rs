//! How the statuses of Bank of America are put in terms of the canonical
//! model.

use vstd::prelude::*;
use crate::attempt::{authorized_status, spec_authorized_status};
use crate::bankofamerica::types::{
    BankOfAmericaRefundResponse,
    BankofamericaPaymentStatus,
    BankofamericaRefundStatus,
};
use crate::enums::{AttemptStatus, RefundStatus};
use crate::text::{opt_str, str_eq};

verus! {

/// The attempt status that a payment status of the processor stands for.
///
/// The processor reports an authorized payment as authorized even when it
/// captures it at once, so an authorized payment is resolved by the capture
/// mode. A pending payment that is captured at once counts as charged.
pub open spec fn spec_attempt_status(
    status: BankofamericaPaymentStatus,
    auto_capture: bool,
) -> AttemptStatus {
    match status {
        BankofamericaPaymentStatus::Authorized
        | BankofamericaPaymentStatus::AuthorizedPendingReview => spec_authorized_status(
            !auto_capture,
        ),
        BankofamericaPaymentStatus::Pending => if auto_capture {
            AttemptStatus::Charged
        } else {
            AttemptStatus::Pending
        },
        BankofamericaPaymentStatus::Succeeded | BankofamericaPaymentStatus::Transmitted =>
            AttemptStatus::Charged,
        BankofamericaPaymentStatus::Voided
        | BankofamericaPaymentStatus::Reversed
        | BankofamericaPaymentStatus::Cancelled => AttemptStatus::Voided,
        BankofamericaPaymentStatus::Failed
        | BankofamericaPaymentStatus::Declined
        | BankofamericaPaymentStatus::AuthorizedRiskDeclined
        | BankofamericaPaymentStatus::InvalidRequest
        | BankofamericaPaymentStatus::Rejected
        | BankofamericaPaymentStatus::ServerError => AttemptStatus::Failure,
        BankofamericaPaymentStatus::PendingAuthentication => AttemptStatus::AuthenticationPending,
        BankofamericaPaymentStatus::PendingReview
        | BankofamericaPaymentStatus::Challenge
        | BankofamericaPaymentStatus::Accepted => AttemptStatus::Pending,
    }
}

/// Puts a payment status of the processor in terms of the attempt status.
pub fn attempt_status_from(status: BankofamericaPaymentStatus, auto_capture: bool) -> (res:
    AttemptStatus)
    ensures
        res == spec_attempt_status(status, auto_capture),
{
    match status {
        BankofamericaPaymentStatus::Authorized
        | BankofamericaPaymentStatus::AuthorizedPendingReview => authorized_status(!auto_capture),
        BankofamericaPaymentStatus::Pending => {
            if auto_capture {
                AttemptStatus::Charged
            } else {
                AttemptStatus::Pending
            }
        },
        BankofamericaPaymentStatus::Succeeded | BankofamericaPaymentStatus::Transmitted => {
            AttemptStatus::Charged
        },
        BankofamericaPaymentStatus::Voided
        | BankofamericaPaymentStatus::Reversed
        | BankofamericaPaymentStatus::Cancelled => AttemptStatus::Voided,
        BankofamericaPaymentStatus::Failed
        | BankofamericaPaymentStatus::Declined
        | BankofamericaPaymentStatus::AuthorizedRiskDeclined
        | BankofamericaPaymentStatus::InvalidRequest
        | BankofamericaPaymentStatus::Rejected
        | BankofamericaPaymentStatus::ServerError => AttemptStatus::Failure,
        BankofamericaPaymentStatus::PendingAuthentication => AttemptStatus::AuthenticationPending,
        BankofamericaPaymentStatus::PendingReview
        | BankofamericaPaymentStatus::Challenge
        | BankofamericaPaymentStatus::Accepted => AttemptStatus::Pending,
    }
}

/// The refund status that a refund status of the processor stands for. A
/// refund that the processor took on without a verdict has failed if the
/// reason says that the processor declined it, and is pending otherwise.
pub open spec fn spec_refund_status(
    status: BankofamericaRefundStatus,
    error_reason: Option<Seq<char>>,
) -> RefundStatus {
    match status {
        BankofamericaRefundStatus::Succeeded | BankofamericaRefundStatus::Transmitted =>
            RefundStatus::Success,
        BankofamericaRefundStatus::Cancelled
        | BankofamericaRefundStatus::Failed
        | BankofamericaRefundStatus::Voided => RefundStatus::Failure,
        BankofamericaRefundStatus::Pending => RefundStatus::Pending,
        BankofamericaRefundStatus::TwoZeroOne => if error_reason == Some("PROCESSOR_DECLINED"@) {
            RefundStatus::Failure
        } else {
            RefundStatus::Pending
        },
    }
}

/// Puts a refund status of the processor in terms of the refund status.
pub fn refund_status_from(status: BankofamericaRefundStatus, error_reason: &Option<String>) -> (res:
    RefundStatus)
    ensures
        res == spec_refund_status(status, opt_str(*error_reason)),
{
    match status {
        BankofamericaRefundStatus::Succeeded | BankofamericaRefundStatus::Transmitted => {
            RefundStatus::Success
        },
        BankofamericaRefundStatus::Cancelled
        | BankofamericaRefundStatus::Failed
        | BankofamericaRefundStatus::Voided => RefundStatus::Failure,
        BankofamericaRefundStatus::Pending => RefundStatus::Pending,
        BankofamericaRefundStatus::TwoZeroOne => {
            let declined = match error_reason {
                Some(reason) => str_eq(reason.as_str(), "PROCESSOR_DECLINED"),
                None => false,
            };
            if declined {
                RefundStatus::Failure
            } else {
                RefundStatus::Pending
            }
        },
    }
}

/// The reason code that the response to a refund gives, if it gives one.
pub open spec fn spec_refund_error_reason(item: BankOfAmericaRefundResponse) -> Option<Seq<char>> {
    match item.error_information {
        Some(error) => opt_str(error.reason),
        None => None,
    }
}

/// Reads the status of a refund from the response to the refund.
pub fn refund_status_of_response(item: &BankOfAmericaRefundResponse) -> (res: RefundStatus)
    ensures
        res == spec_refund_status(item.status, spec_refund_error_reason(*item)),
{
    let error_reason = match &item.error_information {
        Some(error) => error.reason.clone(),
        None => None,
    };
    refund_status_from(item.status, &error_reason)
}

} // verus!
