//! Webhooks from Adyen: what a notification holds, and which event of the
//! canonical model it stands for.

use vstd::prelude::*;
use crate::adyen::types::Amount;
use crate::consts::{NO_ERROR_CODE, NO_ERROR_MESSAGE};
use crate::currency::{Currency, MinorUnit};
use crate::enums::{AttemptStatus, DisputeStage, IncomingWebhookEvent};
use crate::text::{opt_str, str_eq};

verus! {

/// What a webhook says of a payment, put in terms of the payment.
#[derive(Clone, Copy, Debug, PartialEq, Eq, Hash, Structural)]
pub enum AdyenWebhookStatus {
    Authorised,
    AuthorisationFailed,
    Cancelled,
    CancelFailed,
    Captured,
    CaptureFailed,
    Reversed,
    UnexpectedEvent,
}

/// A webhook, put in the form of a payment response.
#[derive(Clone, Debug, PartialEq, Eq)]
pub struct AdyenWebhookResponse {
    pub transaction_id: String,
    pub payment_reference: Option<String>,
    pub status: AdyenWebhookStatus,
    pub amount: Option<Amount>,
    pub merchant_reference_id: String,
    pub refusal_reason: Option<String>,
    pub refusal_reason_code: Option<String>,
    pub event_code: WebhookEventCode,
    pub refusal_code_raw: Option<String>,
    pub refusal_reason_raw: Option<String>,
}

/// Where a dispute stands, as a webhook reports it.
#[derive(Clone, Copy, Debug, PartialEq, Eq, Hash, Structural)]
pub enum DisputeStatus {
    Undefended,
    Pending,
    Lost,
    Accepted,
    Won,
}

/// What goes with a webhook notification.
#[derive(Clone, Debug, PartialEq, Eq)]
pub struct AdyenAdditionalDataWH {
    pub hmac_signature: String,
    pub dispute_status: Option<DisputeStatus>,
    pub chargeback_reason_code: Option<String>,
    /// Until when the dispute can be defended, in seconds since the
    /// epoch.
    pub defense_period_ends_at: Option<i64>,
    pub recurring_detail_reference: Option<String>,
    pub network_tx_reference: Option<String>,
    pub refusal_reason_raw: Option<String>,
    pub refusal_code_raw: Option<String>,
}

/// The amount that a webhook notification is about.
#[derive(Clone, Debug, PartialEq, Eq)]
pub struct AdyenAmountWH {
    pub value: MinorUnit,
    pub currency: Currency,
}

/// The event that a webhook notification is about.
#[derive(Clone, Copy, Debug, PartialEq, Eq, Hash, Structural)]
pub enum WebhookEventCode {
    Authorisation,
    Refund,
    CancelOrRefund,
    Cancellation,
    Capture,
    CaptureFailed,
    RefundFailed,
    RefundReversed,
    NotificationOfChargeback,
    Chargeback,
    ChargebackReversed,
    SecondChargeback,
    PrearbitrationWon,
    PrearbitrationLost,
    PayoutThirdparty,
    PayoutDecline,
    PayoutExpire,
    PayoutReversed,
    Unknown,
}

/// One notification of a webhook.
#[derive(Clone, Debug, PartialEq, Eq)]
pub struct AdyenNotificationRequestItemWH {
    pub additional_data: AdyenAdditionalDataWH,
    pub amount: AdyenAmountWH,
    pub original_reference: Option<String>,
    pub psp_reference: String,
    pub event_code: WebhookEventCode,
    pub merchant_account_code: String,
    pub merchant_reference: String,
    pub success: String,
    pub reason: Option<String>,
    /// When the event happened, in seconds since the epoch.
    pub event_date: Option<i64>,
}

/// The envelope of one notification.
#[derive(Clone, Debug, PartialEq, Eq)]
pub struct AdyenItemObjectWH {
    pub notification_request_item: AdyenNotificationRequestItemWH,
}

/// The body of a webhook.
#[derive(Clone, Debug, PartialEq, Eq)]
pub struct AdyenIncomingWebhook {
    pub notification_items: Vec<AdyenItemObjectWH>,
}

/// Whether a notification is about the authorization of a payment.
pub fn is_transaction_event(event_code: &WebhookEventCode) -> (res: bool)
    ensures
        res == (*event_code == WebhookEventCode::Authorisation),
{
    matches!(event_code, WebhookEventCode::Authorisation)
}

/// Whether a notification is about a capture or a void.
pub fn is_capture_or_cancel_event(event_code: &WebhookEventCode) -> (res: bool)
    ensures
        res == (*event_code == WebhookEventCode::Capture || *event_code
            == WebhookEventCode::CaptureFailed || *event_code == WebhookEventCode::Cancellation),
{
    matches!(
        event_code,
        WebhookEventCode::Capture | WebhookEventCode::CaptureFailed | WebhookEventCode::Cancellation
    )
}

/// Whether a notification is about a refund.
pub fn is_refund_event(event_code: &WebhookEventCode) -> (res: bool)
    ensures
        res == (*event_code == WebhookEventCode::Refund || *event_code
            == WebhookEventCode::CancelOrRefund || *event_code == WebhookEventCode::RefundFailed
            || *event_code == WebhookEventCode::RefundReversed),
{
    matches!(
        event_code,
        WebhookEventCode::Refund
            | WebhookEventCode::CancelOrRefund
            | WebhookEventCode::RefundFailed
            | WebhookEventCode::RefundReversed
    )
}

/// Whether a notification is about a dispute.
pub fn is_chargeback_event(event_code: &WebhookEventCode) -> (res: bool)
    ensures
        res == (*event_code == WebhookEventCode::NotificationOfChargeback || *event_code
            == WebhookEventCode::Chargeback || *event_code == WebhookEventCode::ChargebackReversed
            || *event_code == WebhookEventCode::SecondChargeback || *event_code
            == WebhookEventCode::PrearbitrationWon || *event_code
            == WebhookEventCode::PrearbitrationLost),
{
    matches!(
        event_code,
        WebhookEventCode::NotificationOfChargeback
            | WebhookEventCode::Chargeback
            | WebhookEventCode::ChargebackReversed
            | WebhookEventCode::SecondChargeback
            | WebhookEventCode::PrearbitrationWon
            | WebhookEventCode::PrearbitrationLost
    )
}

/// Whether a notification is about a payout.
pub fn is_payout_event(event_code: &WebhookEventCode) -> (res: bool)
    ensures
        res == (*event_code == WebhookEventCode::PayoutThirdparty || *event_code
            == WebhookEventCode::PayoutDecline || *event_code == WebhookEventCode::PayoutExpire
            || *event_code == WebhookEventCode::PayoutReversed),
{
    matches!(
        event_code,
        WebhookEventCode::PayoutThirdparty
            | WebhookEventCode::PayoutDecline
            | WebhookEventCode::PayoutExpire
            | WebhookEventCode::PayoutReversed
    )
}

/// Whether the success flag of a notification reports success: it does so
/// with the text `true` and with no other.
pub open spec fn spec_is_success_scenario(is_success: Seq<char>) -> bool {
    is_success == "true"@
}

/// Whether the success flag of a notification reports success.
pub fn is_success_scenario(is_success: &String) -> (res: bool)
    ensures
        res == spec_is_success_scenario(is_success@),
{
    str_eq(is_success.as_str(), "true")
}

/// The event of the canonical model that a notification stands for.
///
/// Where an event code comes with a success flag, the flag decides between
/// the success and the failure event. A dispute is classified by its event
/// code and by the status that the notification gives for the dispute:
///
/// - a notification of chargeback opens the dispute;
/// - a chargeback is won with status `Won`, lost with status `Lost` or
///   without a status, and open with any other status;
/// - a reversed chargeback is won with status `Won`, and challenged with
///   any other status or without one;
/// - a second chargeback and a lost pre-arbitration are lost;
/// - a won pre-arbitration is won with status `Won`, and open with any
///   other status or without one.
///
/// A dispute counts as won only where the notification gives its status
/// as `Won`: a status that is not singled out, and a status that is
/// missing, leave the dispute undecided, since a decided dispute is never
/// taken up again. The one event that is decided without a status is a
/// chargeback, which is lost unless the notification says otherwise.
///
/// An event code that is not known is `EventNotSupported`.
pub open spec fn spec_adyen_webhook_event(
    code: WebhookEventCode,
    is_success: Seq<char>,
    dispute_status: Option<DisputeStatus>,
) -> IncomingWebhookEvent {
    let success = spec_is_success_scenario(is_success);
    match code {
        WebhookEventCode::Authorisation => if success {
            IncomingWebhookEvent::PaymentIntentSuccess
        } else {
            IncomingWebhookEvent::PaymentIntentFailure
        },
        WebhookEventCode::Refund | WebhookEventCode::CancelOrRefund => if success {
            IncomingWebhookEvent::RefundSuccess
        } else {
            IncomingWebhookEvent::RefundFailure
        },
        WebhookEventCode::Cancellation => if success {
            IncomingWebhookEvent::PaymentIntentCancelled
        } else {
            IncomingWebhookEvent::PaymentIntentCancelFailure
        },
        WebhookEventCode::RefundFailed | WebhookEventCode::RefundReversed =>
            IncomingWebhookEvent::RefundFailure,
        WebhookEventCode::NotificationOfChargeback => IncomingWebhookEvent::DisputeOpened,
        WebhookEventCode::Chargeback => match dispute_status {
            Some(DisputeStatus::Won) => IncomingWebhookEvent::DisputeWon,
            Some(DisputeStatus::Lost) | None => IncomingWebhookEvent::DisputeLost,
            Some(_) => IncomingWebhookEvent::DisputeOpened,
        },
        WebhookEventCode::ChargebackReversed => match dispute_status {
            Some(DisputeStatus::Won) => IncomingWebhookEvent::DisputeWon,
            _ => IncomingWebhookEvent::DisputeChallenged,
        },
        WebhookEventCode::SecondChargeback => IncomingWebhookEvent::DisputeLost,
        WebhookEventCode::PrearbitrationWon => match dispute_status {
            Some(DisputeStatus::Won) => IncomingWebhookEvent::DisputeWon,
            _ => IncomingWebhookEvent::DisputeOpened,
        },
        WebhookEventCode::PrearbitrationLost => IncomingWebhookEvent::DisputeLost,
        WebhookEventCode::Capture => if success {
            IncomingWebhookEvent::PaymentIntentCaptureSuccess
        } else {
            IncomingWebhookEvent::PaymentIntentCaptureFailure
        },
        WebhookEventCode::CaptureFailed => IncomingWebhookEvent::PaymentIntentCaptureFailure,
        WebhookEventCode::PayoutThirdparty => IncomingWebhookEvent::PayoutCreated,
        WebhookEventCode::PayoutDecline => IncomingWebhookEvent::PayoutFailure,
        WebhookEventCode::PayoutExpire => IncomingWebhookEvent::PayoutExpired,
        WebhookEventCode::PayoutReversed => IncomingWebhookEvent::PayoutReversed,
        WebhookEventCode::Unknown => IncomingWebhookEvent::EventNotSupported,
    }
}

/// Classifies a notification as an event of the canonical model.
pub fn get_adyen_webhook_event(
    code: WebhookEventCode,
    is_success: String,
    dispute_status: Option<DisputeStatus>,
) -> (res: IncomingWebhookEvent)
    ensures
        res == spec_adyen_webhook_event(code, is_success@, dispute_status),
{
    match code {
        WebhookEventCode::Authorisation => {
            if is_success_scenario(&is_success) {
                IncomingWebhookEvent::PaymentIntentSuccess
            } else {
                IncomingWebhookEvent::PaymentIntentFailure
            }
        },
        WebhookEventCode::Refund | WebhookEventCode::CancelOrRefund => {
            if is_success_scenario(&is_success) {
                IncomingWebhookEvent::RefundSuccess
            } else {
                IncomingWebhookEvent::RefundFailure
            }
        },
        WebhookEventCode::Cancellation => {
            if is_success_scenario(&is_success) {
                IncomingWebhookEvent::PaymentIntentCancelled
            } else {
                IncomingWebhookEvent::PaymentIntentCancelFailure
            }
        },
        WebhookEventCode::RefundFailed | WebhookEventCode::RefundReversed => {
            IncomingWebhookEvent::RefundFailure
        },
        WebhookEventCode::NotificationOfChargeback => IncomingWebhookEvent::DisputeOpened,
        WebhookEventCode::Chargeback => match dispute_status {
            Some(DisputeStatus::Won) => IncomingWebhookEvent::DisputeWon,
            Some(DisputeStatus::Lost) | None => IncomingWebhookEvent::DisputeLost,
            Some(DisputeStatus::Undefended)
            | Some(DisputeStatus::Pending)
            | Some(DisputeStatus::Accepted) => IncomingWebhookEvent::DisputeOpened,
        },
        WebhookEventCode::ChargebackReversed => match dispute_status {
            Some(DisputeStatus::Won) => IncomingWebhookEvent::DisputeWon,
            Some(DisputeStatus::Pending)
            | Some(DisputeStatus::Undefended)
            | Some(DisputeStatus::Lost)
            | Some(DisputeStatus::Accepted)
            | None => IncomingWebhookEvent::DisputeChallenged,
        },
        WebhookEventCode::SecondChargeback => IncomingWebhookEvent::DisputeLost,
        WebhookEventCode::PrearbitrationWon => match dispute_status {
            Some(DisputeStatus::Won) => IncomingWebhookEvent::DisputeWon,
            Some(DisputeStatus::Pending)
            | Some(DisputeStatus::Undefended)
            | Some(DisputeStatus::Lost)
            | Some(DisputeStatus::Accepted)
            | None => IncomingWebhookEvent::DisputeOpened,
        },
        WebhookEventCode::PrearbitrationLost => IncomingWebhookEvent::DisputeLost,
        WebhookEventCode::Capture => {
            if is_success_scenario(&is_success) {
                IncomingWebhookEvent::PaymentIntentCaptureSuccess
            } else {
                IncomingWebhookEvent::PaymentIntentCaptureFailure
            }
        },
        WebhookEventCode::CaptureFailed => IncomingWebhookEvent::PaymentIntentCaptureFailure,
        WebhookEventCode::PayoutThirdparty => IncomingWebhookEvent::PayoutCreated,
        WebhookEventCode::PayoutDecline => IncomingWebhookEvent::PayoutFailure,
        WebhookEventCode::PayoutExpire => IncomingWebhookEvent::PayoutExpired,
        WebhookEventCode::PayoutReversed => IncomingWebhookEvent::PayoutReversed,
        WebhookEventCode::Unknown => IncomingWebhookEvent::EventNotSupported,
    }
}

/// The classification is total and the success flag is never ignored: for
/// every event code that comes with a flag, success and failure stand for
/// different events; and only an unknown event code is not supported.
pub proof fn lemma_webhook_event_heeds_success_flag(
    code: WebhookEventCode,
    failure_flag: Seq<char>,
    dispute_status: Option<DisputeStatus>,
)
    requires
        failure_flag != "true"@,
    ensures
        (code == WebhookEventCode::Authorisation || code == WebhookEventCode::Refund || code
            == WebhookEventCode::CancelOrRefund || code == WebhookEventCode::Cancellation || code
            == WebhookEventCode::Capture) ==> spec_adyen_webhook_event(
            code,
            "true"@,
            dispute_status,
        ) != spec_adyen_webhook_event(code, failure_flag, dispute_status),
        spec_adyen_webhook_event(code, failure_flag, dispute_status)
            == IncomingWebhookEvent::EventNotSupported <==> code == WebhookEventCode::Unknown,
        spec_adyen_webhook_event(code, "true"@, dispute_status)
            == IncomingWebhookEvent::EventNotSupported <==> code == WebhookEventCode::Unknown,
{
}

/// A dispute whose status the classification does not single out is never
/// taken for decided. Whatever the event code and the success flag:
///
/// - a dispute is won only where the notification gives its status as
///   `Won`;
/// - with a status other than `Won` and `Lost`, a chargeback and a won
///   pre-arbitration are open, and a reversed chargeback is challenged;
/// - a dispute is lost only on a chargeback with status `Lost` or without
///   a status, on a second chargeback and on a lost pre-arbitration.
pub proof fn lemma_unmapped_dispute_status_is_open(
    code: WebhookEventCode,
    is_success: Seq<char>,
    dispute_status: Option<DisputeStatus>,
)
    ensures
        spec_adyen_webhook_event(code, is_success, dispute_status)
            == IncomingWebhookEvent::DisputeWon ==> dispute_status == Some(DisputeStatus::Won),
        (dispute_status matches Some(status) && status != DisputeStatus::Won && status
            != DisputeStatus::Lost) ==> {
            &&& code == WebhookEventCode::Chargeback ==> spec_adyen_webhook_event(
                code,
                is_success,
                dispute_status,
            ) == IncomingWebhookEvent::DisputeOpened
            &&& code == WebhookEventCode::PrearbitrationWon ==> spec_adyen_webhook_event(
                code,
                is_success,
                dispute_status,
            ) == IncomingWebhookEvent::DisputeOpened
            &&& code == WebhookEventCode::ChargebackReversed ==> spec_adyen_webhook_event(
                code,
                is_success,
                dispute_status,
            ) == IncomingWebhookEvent::DisputeChallenged
        },
        spec_adyen_webhook_event(code, is_success, dispute_status)
            == IncomingWebhookEvent::DisputeLost ==> (code == WebhookEventCode::SecondChargeback
            || code == WebhookEventCode::PrearbitrationLost || (code
            == WebhookEventCode::Chargeback && (dispute_status is None || dispute_status == Some(
            DisputeStatus::Lost,
        )))),
{
}

/// The stage of the dispute that an event code belongs to.
pub open spec fn spec_dispute_stage(code: WebhookEventCode) -> DisputeStage {
    match code {
        WebhookEventCode::NotificationOfChargeback => DisputeStage::PreDispute,
        WebhookEventCode::SecondChargeback
        | WebhookEventCode::PrearbitrationWon
        | WebhookEventCode::PrearbitrationLost => DisputeStage::PreArbitration,
        _ => DisputeStage::Dispute,
    }
}

/// Tells the stage of the dispute that an event code belongs to.
pub fn dispute_stage_from(code: WebhookEventCode) -> (res: DisputeStage)
    ensures
        res == spec_dispute_stage(code),
{
    match code {
        WebhookEventCode::NotificationOfChargeback => DisputeStage::PreDispute,
        WebhookEventCode::SecondChargeback => DisputeStage::PreArbitration,
        WebhookEventCode::PrearbitrationWon => DisputeStage::PreArbitration,
        WebhookEventCode::PrearbitrationLost => DisputeStage::PreArbitration,
        WebhookEventCode::Authorisation
        | WebhookEventCode::Refund
        | WebhookEventCode::CancelOrRefund
        | WebhookEventCode::Cancellation
        | WebhookEventCode::Capture
        | WebhookEventCode::CaptureFailed
        | WebhookEventCode::RefundFailed
        | WebhookEventCode::RefundReversed
        | WebhookEventCode::Chargeback
        | WebhookEventCode::ChargebackReversed
        | WebhookEventCode::PayoutThirdparty
        | WebhookEventCode::PayoutDecline
        | WebhookEventCode::PayoutExpire
        | WebhookEventCode::PayoutReversed
        | WebhookEventCode::Unknown => DisputeStage::Dispute,
    }
}

/// What a notification says of a payment: the event code and the success
/// flag, put in terms of the payment.
pub open spec fn spec_webhook_status(
    event_code: WebhookEventCode,
    is_success: Seq<char>,
) -> AdyenWebhookStatus {
    let success = spec_is_success_scenario(is_success);
    match event_code {
        WebhookEventCode::Authorisation | WebhookEventCode::PayoutThirdparty => if success {
            AdyenWebhookStatus::Authorised
        } else {
            AdyenWebhookStatus::AuthorisationFailed
        },
        WebhookEventCode::Cancellation => if success {
            AdyenWebhookStatus::Cancelled
        } else {
            AdyenWebhookStatus::CancelFailed
        },
        WebhookEventCode::Capture => if success {
            AdyenWebhookStatus::Captured
        } else {
            AdyenWebhookStatus::CaptureFailed
        },
        WebhookEventCode::PayoutDecline => AdyenWebhookStatus::Cancelled,
        WebhookEventCode::PayoutExpire => AdyenWebhookStatus::AuthorisationFailed,
        WebhookEventCode::PayoutReversed => AdyenWebhookStatus::Reversed,
        WebhookEventCode::CaptureFailed => AdyenWebhookStatus::CaptureFailed,
        _ => AdyenWebhookStatus::UnexpectedEvent,
    }
}

/// Puts the event code and the success flag of a notification in terms of
/// the payment.
pub fn webhook_status(event_code: WebhookEventCode, is_success: &String) -> (res:
    AdyenWebhookStatus)
    ensures
        res == spec_webhook_status(event_code, is_success@),
{
    match event_code {
        WebhookEventCode::Authorisation | WebhookEventCode::PayoutThirdparty => {
            if is_success_scenario(is_success) {
                AdyenWebhookStatus::Authorised
            } else {
                AdyenWebhookStatus::AuthorisationFailed
            }
        },
        WebhookEventCode::Cancellation => {
            if is_success_scenario(is_success) {
                AdyenWebhookStatus::Cancelled
            } else {
                AdyenWebhookStatus::CancelFailed
            }
        },
        WebhookEventCode::Capture => {
            if is_success_scenario(is_success) {
                AdyenWebhookStatus::Captured
            } else {
                AdyenWebhookStatus::CaptureFailed
            }
        },
        WebhookEventCode::PayoutDecline => AdyenWebhookStatus::Cancelled,
        WebhookEventCode::PayoutExpire => AdyenWebhookStatus::AuthorisationFailed,
        WebhookEventCode::PayoutReversed => AdyenWebhookStatus::Reversed,
        WebhookEventCode::CaptureFailed => AdyenWebhookStatus::CaptureFailed,
        WebhookEventCode::CancelOrRefund
        | WebhookEventCode::Refund
        | WebhookEventCode::RefundFailed
        | WebhookEventCode::RefundReversed
        | WebhookEventCode::NotificationOfChargeback
        | WebhookEventCode::Chargeback
        | WebhookEventCode::ChargebackReversed
        | WebhookEventCode::SecondChargeback
        | WebhookEventCode::PrearbitrationWon
        | WebhookEventCode::PrearbitrationLost
        | WebhookEventCode::Unknown => AdyenWebhookStatus::UnexpectedEvent,
    }
}

impl AdyenWebhookResponse {
    /// Whether `self` is what the notification `notif` comes to as a
    /// payment response.
    ///
    /// A notification that does not report success is given a refusal: its
    /// own reason, or the sentinel message where it has none, and the
    /// sentinel code, for a notification carries no refusal code.
    pub open spec fn spec_is_from(self, notif: AdyenNotificationRequestItemWH) -> bool {
        let success = spec_is_success_scenario(notif.success@);
        &&& self.transaction_id == notif.psp_reference
        &&& self.payment_reference == notif.original_reference
        &&& self.status == spec_webhook_status(notif.event_code, notif.success@)
        &&& self.amount == Some(
            Amount { value: notif.amount.value, currency: notif.amount.currency },
        )
        &&& self.merchant_reference_id == notif.merchant_reference
        &&& opt_str(self.refusal_reason) == (if success {
            None
        } else {
            match notif.reason {
                Some(reason) => Some(reason@),
                None => Some(NO_ERROR_MESSAGE@),
            }
        })
        &&& opt_str(self.refusal_reason_code) == (if success {
            None
        } else {
            Some(NO_ERROR_CODE@)
        })
        &&& self.event_code == notif.event_code
        &&& self.refusal_code_raw == notif.additional_data.refusal_code_raw
        &&& self.refusal_reason_raw == notif.additional_data.refusal_reason_raw
    }

    /// Puts a notification in the form of a payment response.
    pub fn from(notif: AdyenNotificationRequestItemWH) -> (res: Self)
        ensures
            res.spec_is_from(notif),
    {
        let success = is_success_scenario(&notif.success);
        let status = webhook_status(notif.event_code, &notif.success);
        let (refusal_reason, refusal_reason_code) = if !success {
            (
                match notif.reason {
                    Some(reason) => Some(reason),
                    None => Some(NO_ERROR_MESSAGE.to_owned()),
                },
                Some(NO_ERROR_CODE.to_owned()),
            )
        } else {
            (None, None)
        };
        AdyenWebhookResponse {
            transaction_id: notif.psp_reference,
            payment_reference: notif.original_reference,
            status,
            amount: Some(Amount { value: notif.amount.value, currency: notif.amount.currency }),
            merchant_reference_id: notif.merchant_reference,
            refusal_reason,
            refusal_reason_code,
            event_code: notif.event_code,
            refusal_code_raw: notif.additional_data.refusal_code_raw,
            refusal_reason_raw: notif.additional_data.refusal_reason_raw,
        }
    }

    /// The id that Adyen gave to the capture.
    pub fn get_connector_capture_id(&self) -> (res: String)
        ensures
            res == self.transaction_id,
    {
        self.transaction_id.clone()
    }

    /// The status of the capture that the webhook reports.
    pub open spec fn spec_capture_attempt_status(self) -> AttemptStatus {
        if self.status == AdyenWebhookStatus::Captured {
            AttemptStatus::Charged
        } else {
            AttemptStatus::CaptureFailed
        }
    }

    /// The status of the capture that the webhook reports.
    pub fn get_capture_attempt_status(&self) -> (res: AttemptStatus)
        ensures
            res == self.spec_capture_attempt_status(),
    {
        match self.status {
            AdyenWebhookStatus::Captured => AttemptStatus::Charged,
            _ => AttemptStatus::CaptureFailed,
        }
    }

    /// Whether the webhook reports on a capture.
    pub open spec fn spec_is_capture_response(self) -> bool {
        self.event_code == WebhookEventCode::Capture || self.event_code
            == WebhookEventCode::CaptureFailed
    }

    /// Whether the webhook reports on a capture.
    pub fn is_capture_response(&self) -> (res: bool)
        ensures
            res == self.spec_is_capture_response(),
    {
        matches!(self.event_code, WebhookEventCode::Capture | WebhookEventCode::CaptureFailed)
    }

    /// The merchant's reference for the payment.
    pub fn get_connector_reference_id(&self) -> (res: Option<String>)
        ensures
            res == Some(self.merchant_reference_id),
    {
        Some(self.merchant_reference_id.clone())
    }

    /// The amount that was captured, where the webhook tells it.
    pub open spec fn spec_amount_captured(self) -> Option<MinorUnit> {
        match self.amount {
            Some(amount) => Some(amount.value),
            None => None,
        }
    }

    /// The amount that was captured, where the webhook tells it.
    pub fn get_amount_captured(&self) -> (res: Option<MinorUnit>)
        ensures
            res == self.spec_amount_captured(),
    {
        match &self.amount {
            Some(amount) => Some(amount.value),
            None => None,
        }
    }
}

} // verus!
