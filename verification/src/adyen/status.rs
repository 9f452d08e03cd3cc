//! How the result codes of Adyen are put in terms of the canonical attempt
//! status.
//!
//! Both mappings are total functions of their arguments alone. They know
//! nothing of the status that an attempt had before: merging is the
//! business of `crate::attempt`.

use vstd::prelude::*;
use crate::adyen::types::AdyenStatus;
use crate::adyen::webhook::AdyenWebhookStatus;
use crate::attempt::{authorized_status, spec_authorized_status};
use crate::enums::{AttemptStatus, PaymentMethodType};
use crate::errors::ConnectorError;

verus! {

/// The attempt status that a result code of a payment response stands for.
///
/// `Authorised` is resolved by the capture mode. `Pending` means that the
/// shopper still has to act where the payment method is Pix, and that the
/// payment is in progress for every other payment method.
pub open spec fn spec_adyen_payment_status(
    is_manual_capture: bool,
    adyen_status: AdyenStatus,
    pmt: Option<PaymentMethodType>,
) -> AttemptStatus {
    match adyen_status {
        AdyenStatus::AuthenticationFinished => AttemptStatus::AuthenticationSuccessful,
        AdyenStatus::AuthenticationNotRequired | AdyenStatus::Received => AttemptStatus::Pending,
        AdyenStatus::Authorised => spec_authorized_status(is_manual_capture),
        AdyenStatus::Cancelled => AttemptStatus::Voided,
        AdyenStatus::ChallengeShopper
        | AdyenStatus::RedirectShopper
        | AdyenStatus::PresentToShopper => AttemptStatus::AuthenticationPending,
        AdyenStatus::Error | AdyenStatus::Refused => AttemptStatus::Failure,
        AdyenStatus::Pending => if pmt == Some(PaymentMethodType::Pix) {
            AttemptStatus::AuthenticationPending
        } else {
            AttemptStatus::Pending
        },
        AdyenStatus::PayoutConfirmReceived => AttemptStatus::Started,
        AdyenStatus::PayoutSubmitReceived => AttemptStatus::Pending,
        AdyenStatus::PayoutDeclineReceived => AttemptStatus::Voided,
    }
}

/// Puts the result code of a payment response in terms of the attempt
/// status.
pub fn get_adyen_payment_status(
    is_manual_capture: bool,
    adyen_status: AdyenStatus,
    pmt: Option<PaymentMethodType>,
) -> (res: AttemptStatus)
    ensures
        res == spec_adyen_payment_status(is_manual_capture, adyen_status, pmt),
{
    match adyen_status {
        AdyenStatus::AuthenticationFinished => AttemptStatus::AuthenticationSuccessful,
        AdyenStatus::AuthenticationNotRequired | AdyenStatus::Received => AttemptStatus::Pending,
        AdyenStatus::Authorised => authorized_status(is_manual_capture),
        AdyenStatus::Cancelled => AttemptStatus::Voided,
        AdyenStatus::ChallengeShopper
        | AdyenStatus::RedirectShopper
        | AdyenStatus::PresentToShopper => AttemptStatus::AuthenticationPending,
        AdyenStatus::Error | AdyenStatus::Refused => AttemptStatus::Failure,
        AdyenStatus::Pending => match pmt {
            Some(PaymentMethodType::Pix) => AttemptStatus::AuthenticationPending,
            _ => AttemptStatus::Pending,
        },
        AdyenStatus::PayoutConfirmReceived => AttemptStatus::Started,
        AdyenStatus::PayoutSubmitReceived => AttemptStatus::Pending,
        AdyenStatus::PayoutDeclineReceived => AttemptStatus::Voided,
    }
}

/// The attempt status that a webhook stands for, or the error for a
/// webhook that is not about the state of a payment.
pub open spec fn spec_webhook_attempt_status(
    is_manual_capture: bool,
    adyen_webhook_status: AdyenWebhookStatus,
) -> Result<AttemptStatus, ConnectorError> {
    match adyen_webhook_status {
        AdyenWebhookStatus::Authorised => Ok(spec_authorized_status(is_manual_capture)),
        AdyenWebhookStatus::AuthorisationFailed => Ok(AttemptStatus::Failure),
        AdyenWebhookStatus::Cancelled => Ok(AttemptStatus::Voided),
        AdyenWebhookStatus::CancelFailed => Ok(AttemptStatus::VoidFailed),
        AdyenWebhookStatus::Captured => Ok(AttemptStatus::Charged),
        AdyenWebhookStatus::CaptureFailed => Ok(AttemptStatus::CaptureFailed),
        AdyenWebhookStatus::UnexpectedEvent | AdyenWebhookStatus::Reversed => Err(
            ConnectorError::WebhookBodyDecodingFailed,
        ),
    }
}

/// Puts what a webhook says of a payment in terms of the attempt status.
pub fn attempt_status_from_webhook(
    is_manual_capture: bool,
    adyen_webhook_status: AdyenWebhookStatus,
) -> (res: Result<AttemptStatus, ConnectorError>)
    ensures
        res == spec_webhook_attempt_status(is_manual_capture, adyen_webhook_status),
{
    match adyen_webhook_status {
        AdyenWebhookStatus::Authorised => Ok(authorized_status(is_manual_capture)),
        AdyenWebhookStatus::AuthorisationFailed => Ok(AttemptStatus::Failure),
        AdyenWebhookStatus::Cancelled => Ok(AttemptStatus::Voided),
        AdyenWebhookStatus::CancelFailed => Ok(AttemptStatus::VoidFailed),
        AdyenWebhookStatus::Captured => Ok(AttemptStatus::Charged),
        AdyenWebhookStatus::CaptureFailed => Ok(AttemptStatus::CaptureFailed),
        AdyenWebhookStatus::UnexpectedEvent | AdyenWebhookStatus::Reversed => Err(
            ConnectorError::WebhookBodyDecodingFailed,
        ),
    }
}

/// The capture mode matters for an authorized payment and for nothing
/// else: every other result code stands for the same status under manual
/// and under automatic capture.
pub proof fn lemma_capture_mode_matters_for_authorised_only(
    adyen_status: AdyenStatus,
    pmt: Option<PaymentMethodType>,
)
    ensures
        adyen_status != AdyenStatus::Authorised ==> spec_adyen_payment_status(
            true,
            adyen_status,
            pmt,
        ) == spec_adyen_payment_status(false, adyen_status, pmt),
        spec_adyen_payment_status(true, AdyenStatus::Authorised, pmt) == AttemptStatus::Authorized,
        spec_adyen_payment_status(false, AdyenStatus::Authorised, pmt) == AttemptStatus::Charged,
{
}

/// The payment method type matters for a pending payment and for nothing
/// else.
pub proof fn lemma_payment_method_type_matters_for_pending_only(
    is_manual_capture: bool,
    adyen_status: AdyenStatus,
    first: Option<PaymentMethodType>,
    second: Option<PaymentMethodType>,
)
    requires
        adyen_status != AdyenStatus::Pending,
    ensures
        spec_adyen_payment_status(is_manual_capture, adyen_status, first)
            == spec_adyen_payment_status(is_manual_capture, adyen_status, second),
{
}

} // verus!
