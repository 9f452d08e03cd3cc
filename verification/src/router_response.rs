//! What a connector's answer is turned into: the response data and the
//! error envelope of the canonical model.

use vstd::prelude::*;
use crate::consts::{NO_ERROR_CODE, NO_ERROR_MESSAGE};
use crate::currency::{Currency, MinorUnit};
use crate::enums::{
    AdyenSplitType,
    AttemptStatus,
    DisputeStatus,
    Method,
    PayoutStatus,
    RefundStatus,
};
use crate::text::opt_str;

verus! {

/// The canonical report of a failure: what a connector said when it
/// declined or could not serve a request.
///
/// `code` and `message` are always filled in: where the connector left
/// them out, the sentinel texts stand in.
#[derive(Clone, Debug, PartialEq, Eq)]
pub struct ErrorResponse {
    pub code: String,
    pub message: String,
    pub reason: Option<String>,
    pub status_code: u16,
    pub attempt_status: Option<AttemptStatus>,
    pub connector_transaction_id: Option<String>,
    pub issuer_error_code: Option<String>,
    pub issuer_error_message: Option<String>,
}

/// What an `ErrorResponse` holds, as plain values.
pub struct ErrorResponseView {
    pub code: Seq<char>,
    pub message: Seq<char>,
    pub reason: Option<Seq<char>>,
    pub status_code: u16,
    pub attempt_status: Option<AttemptStatus>,
    pub connector_transaction_id: Option<Seq<char>>,
    pub issuer_error_code: Option<Seq<char>>,
    pub issuer_error_message: Option<Seq<char>>,
}

impl View for ErrorResponse {
    type V = ErrorResponseView;

    open spec fn view(&self) -> ErrorResponseView {
        ErrorResponseView {
            code: self.code@,
            message: self.message@,
            reason: opt_str(self.reason),
            status_code: self.status_code,
            attempt_status: self.attempt_status,
            connector_transaction_id: opt_str(self.connector_transaction_id),
            issuer_error_code: opt_str(self.issuer_error_code),
            issuer_error_message: opt_str(self.issuer_error_message),
        }
    }
}

/// What an optional `ErrorResponse` holds, as plain values.
pub open spec fn opt_error(e: Option<ErrorResponse>) -> Option<ErrorResponseView> {
    match e {
        Some(e) => Some(e@),
        None => None,
    }
}

/// The text of a code or message: what the connector supplied, or the
/// sentinel where it supplied nothing. An empty text is nothing.
pub open spec fn spec_or_sentinel(supplied: Option<Seq<char>>, sentinel: Seq<char>) -> Seq<char> {
    match supplied {
        Some(text) => if text.len() > 0 {
            text
        } else {
            sentinel
        },
        None => sentinel,
    }
}

/// Takes the text of a code or message: what the connector supplied, or
/// the sentinel where it supplied nothing.
fn or_sentinel(supplied: Option<String>, sentinel: &'static str) -> (res: String)
    ensures
        res@ == spec_or_sentinel(opt_str(supplied), sentinel@),
{
    match supplied {
        Some(text) => if text.as_str().unicode_len() > 0 {
            text
        } else {
            sentinel.to_owned()
        },
        None => sentinel.to_owned(),
    }
}

/// The error envelope for what a connector supplied.
pub open spec fn spec_error_response(
    code: Option<Seq<char>>,
    message: Option<Seq<char>>,
    reason: Option<Seq<char>>,
    status_code: u16,
    attempt_status: Option<AttemptStatus>,
    connector_transaction_id: Option<Seq<char>>,
    issuer_error_code: Option<Seq<char>>,
    issuer_error_message: Option<Seq<char>>,
) -> ErrorResponseView {
    ErrorResponseView {
        code: spec_or_sentinel(code, NO_ERROR_CODE@),
        message: spec_or_sentinel(message, NO_ERROR_MESSAGE@),
        reason,
        status_code,
        attempt_status,
        connector_transaction_id,
        issuer_error_code,
        issuer_error_message,
    }
}

impl ErrorResponse {
    /// Whether the envelope is filled in as consumers expect: neither code
    /// nor message is empty.
    pub open spec fn wf(self) -> bool {
        self.code@.len() > 0 && self.message@.len() > 0
    }

    /// Puts what a connector supplied into the canonical envelope. A code
    /// or message that is absent or empty is replaced by its sentinel, so
    /// that neither is ever empty.
    pub fn from_connector(
        code: Option<String>,
        message: Option<String>,
        reason: Option<String>,
        status_code: u16,
        attempt_status: Option<AttemptStatus>,
        connector_transaction_id: Option<String>,
        issuer_error_code: Option<String>,
        issuer_error_message: Option<String>,
    ) -> (res: Self)
        ensures
            res@ == spec_error_response(
                opt_str(code),
                opt_str(message),
                opt_str(reason),
                status_code,
                attempt_status,
                opt_str(connector_transaction_id),
                opt_str(issuer_error_code),
                opt_str(issuer_error_message),
            ),
            res.reason == reason,
            res.connector_transaction_id == connector_transaction_id,
            res.issuer_error_code == issuer_error_code,
            res.issuer_error_message == issuer_error_message,
            res.wf(),
    {
        proof {
            crate::consts::lemma_sentinels_nonempty();
        }
        ErrorResponse {
            code: or_sentinel(code, NO_ERROR_CODE),
            message: or_sentinel(message, NO_ERROR_MESSAGE),
            reason,
            status_code,
            attempt_status,
            connector_transaction_id,
            issuer_error_code,
            issuer_error_message,
        }
    }
}

/// Error fallback: whatever a connector supplied, the envelope built from
/// it has a code and a message that are not empty. Where the connector
/// supplied none, or an empty one, they are the sentinel texts; what it
/// did supply is kept.
pub proof fn lemma_error_fallback(
    code: Option<Seq<char>>,
    message: Option<Seq<char>>,
    reason: Option<Seq<char>>,
    status_code: u16,
    attempt_status: Option<AttemptStatus>,
    connector_transaction_id: Option<Seq<char>>,
    issuer_error_code: Option<Seq<char>>,
    issuer_error_message: Option<Seq<char>>,
)
    ensures
        ({
            let e = spec_error_response(
                code,
                message,
                reason,
                status_code,
                attempt_status,
                connector_transaction_id,
                issuer_error_code,
                issuer_error_message,
            );
            &&& e.code.len() > 0
            &&& e.message.len() > 0
            &&& (code is None || code == Some(Seq::<char>::empty())) ==> e.code == NO_ERROR_CODE@
            &&& (message is None || message == Some(Seq::<char>::empty())) ==> e.message
                == NO_ERROR_MESSAGE@
            &&& (code matches Some(c) ==> c.len() > 0 ==> e.code == c)
            &&& (message matches Some(m) ==> m.len() > 0 ==> e.message == m)
        }),
{
    crate::consts::lemma_sentinels_nonempty();
}

/// The id under which a connector knows a payment.
#[derive(Clone, Debug, PartialEq, Eq)]
pub enum ResponseId {
    ConnectorTransactionId(String),
    EncodedData(String),
    NoResponseId,
}

/// One field of a form: its name and its value.
#[derive(Clone, Debug, PartialEq, Eq)]
pub struct FormField {
    pub name: String,
    pub value: String,
}

/// Where the shopper is sent to go on with a payment.
#[derive(Clone, Debug, PartialEq, Eq)]
pub enum RedirectForm {
    /// A form that the shopper's browser submits to `endpoint`. No field
    /// name occurs twice in `form_fields`.
    Form { endpoint: String, method: Method, form_fields: Vec<FormField> },
}

/// The reference under which a mandate can be charged again. A stored
/// mandate is addressed in exactly one of three ways.
#[derive(Clone, Debug, PartialEq, Eq)]
pub struct MandateReference {
    /// The token that the connector issued for the mandate.
    pub connector_mandate_id: Option<String>,
    /// The transaction id that the card network gave to the first payment.
    pub network_transaction_id: Option<String>,
    /// The network token under which the payment method is stored.
    pub payment_method_id: Option<String>,
}

impl MandateReference {
    /// Whether exactly one way of addressing the mandate is filled in.
    pub open spec fn wf(self) -> bool {
        (if self.connector_mandate_id is Some {
            1int
        } else {
            0int
        }) + (if self.network_transaction_id is Some {
            1int
        } else {
            0int
        }) + (if self.payment_method_id is Some {
            1int
        } else {
            0int
        }) == 1
    }

    /// The reference to a mandate by the token that the connector issued.
    pub fn from_connector_mandate_id(connector_mandate_id: String) -> (res: Self)
        ensures
            res == (MandateReference {
                connector_mandate_id: Some(connector_mandate_id),
                network_transaction_id: None,
                payment_method_id: None,
            }),
            res.wf(),
    {
        MandateReference {
            connector_mandate_id: Some(connector_mandate_id),
            network_transaction_id: None,
            payment_method_id: None,
        }
    }
}

/// One share of a split payment.
#[derive(Clone, Debug, PartialEq, Eq)]
pub struct AdyenSplitItem {
    pub amount: Option<MinorUnit>,
    pub split_type: AdyenSplitType,
    pub account: Option<String>,
    pub reference: String,
    pub description: Option<String>,
}

/// How a payment is split between sub-merchants of a marketplace. The same
/// data goes out with a request and comes back with the response.
#[derive(Clone, Debug, PartialEq, Eq)]
pub struct AdyenSplitData {
    /// The store that the payment belongs to.
    pub store: Option<String>,
    pub split_items: Vec<AdyenSplitItem>,
}

/// The split of a payment as a connector confirmed it.
#[derive(Clone, Debug, PartialEq, Eq)]
pub enum ConnectorChargeResponseData {
    AdyenSplitPayment(AdyenSplitData),
}

/// What the shopper is shown while a payment waits for them.
#[derive(Clone, Copy, Debug, PartialEq, Eq, Structural)]
pub struct WaitScreenData {
    /// From when the wait screen is shown, in nanoseconds since the epoch.
    pub display_from_timestamp: i128,
    /// Until when the wait screen is shown, in nanoseconds since the epoch.
    pub display_to_timestamp: Option<i128>,
}

/// How the shopper pays a voucher.
#[derive(Clone, Debug, PartialEq, Eq)]
pub struct VoucherNextStepData {
    /// Until when the voucher can be paid, in milliseconds since the epoch.
    pub expires_at: Option<i64>,
    pub reference: String,
    pub download_url: Option<String>,
    pub instructions_url: Option<String>,
}

/// How the shopper makes a bank transfer through Doku.
#[derive(Clone, Debug, PartialEq, Eq)]
pub struct DokuBankTransferInstructions {
    /// Until when the transfer can be made, in milliseconds since the
    /// epoch.
    pub expires_at: Option<i64>,
    pub reference: String,
    pub instructions_url: Option<String>,
}

/// The QR code that the shopper scans to pay, and until when it is shown,
/// in milliseconds since the epoch.
#[derive(Clone, Debug, PartialEq, Eq)]
pub enum QrCodeInformation {
    QrCodeUrl { image_data_url: String, qr_code_url: String, display_to_timestamp: Option<i64> },
    QrDataUrl { image_data_url: String, display_to_timestamp: Option<i64> },
    QrCodeImageUrl { qr_code_url: String, display_to_timestamp: Option<i64> },
}

/// What a connector adds to a payment for the next step of the shopper.
#[derive(Clone, Debug, PartialEq, Eq)]
pub enum ConnectorMetadata {
    WaitScreen(WaitScreenData),
    Voucher(VoucherNextStepData),
    DokuBankTransfer(DokuBankTransferInstructions),
    QrCode(QrCodeInformation),
}

/// What a webhook reports of one capture among several.
#[derive(Clone, Debug, PartialEq, Eq)]
pub enum CaptureSyncResponse {
    Success {
        resource_id: ResponseId,
        status: AttemptStatus,
        connector_response_reference_id: Option<String>,
        amount: Option<MinorUnit>,
    },
    Error { code: String, message: String, reason: Option<String>, status_code: u16 },
}

/// One capture of a payment with several captures, under the id that the
/// connector gave it.
#[derive(Clone, Debug, PartialEq, Eq)]
pub struct CaptureSyncEntry {
    pub connector_capture_id: String,
    pub response: CaptureSyncResponse,
}

/// What a connector's answer to a payment request holds.
#[derive(Clone, Debug, PartialEq, Eq)]
pub enum PaymentsResponseData {
    TransactionResponse {
        resource_id: ResponseId,
        redirection_data: Option<RedirectForm>,
        mandate_reference: Option<MandateReference>,
        connector_metadata: Option<ConnectorMetadata>,
        network_txn_id: Option<String>,
        connector_response_reference_id: Option<String>,
        incremental_authorization_allowed: Option<bool>,
        charges: Option<ConnectorChargeResponseData>,
    },
    /// The captures of a payment that is captured in parts. No capture id
    /// occurs twice.
    MultipleCaptureResponse { capture_sync_response_list: Vec<CaptureSyncEntry> },
    TokenizationResponse { token: String },
    ConnectorCustomerResponse { connector_customer_id: String },
}

/// What a connector's answer to a refund request holds.
#[derive(Clone, Debug, PartialEq, Eq)]
pub struct RefundsResponseData {
    pub connector_refund_id: String,
    pub refund_status: RefundStatus,
}

/// What a connector's answer to a dispute request holds.
#[derive(Clone, Debug, PartialEq, Eq)]
pub struct DisputeResponse {
    pub dispute_status: DisputeStatus,
    pub connector_status: Option<String>,
}

/// What a connector's answer to a payout request holds.
#[derive(Clone, Debug, PartialEq, Eq)]
pub struct PayoutsResponseData {
    pub status: Option<PayoutStatus>,
    pub connector_payout_id: Option<String>,
    pub payout_eligible: Option<bool>,
    pub should_add_next_step_to_process_tracker: bool,
    pub error_code: Option<String>,
    pub error_message: Option<String>,
}

/// What is left on a payment method that holds a balance.
#[derive(Clone, Copy, Debug, PartialEq, Eq, Structural)]
pub struct PaymentMethodBalance {
    pub amount: MinorUnit,
    pub currency: Currency,
}

/// The outcome of one check on a payment: the code of the outcome, and
/// the code as the processor got it.
#[derive(Clone, Debug, PartialEq, Eq)]
pub struct CheckResult {
    pub code: Option<String>,
    pub code_raw: Option<String>,
}

/// What the checks on a card payment came to.
#[derive(Clone, Debug, PartialEq, Eq)]
pub struct CardPaymentChecks {
    pub avs_response: Option<CheckResult>,
    pub card_verification: Option<CheckResult>,
    pub approval_code: Option<String>,
    pub consumer_authentication_response: Option<CheckResult>,
    pub cavv: Option<String>,
    pub eci: Option<String>,
    pub eci_raw: Option<String>,
}

/// How a card payment was authenticated.
#[derive(Clone, Debug, PartialEq, Eq)]
pub struct CardAuthenticationData {
    pub retrieval_reference_number: Option<String>,
    pub acs_transaction_id: Option<String>,
    pub system_trace_audit_number: Option<String>,
}

/// What a connector reports about the payment method beyond the payment.
#[derive(Clone, Debug, PartialEq, Eq)]
pub enum AdditionalPaymentMethodConnectorResponse {
    Card { authentication_data: Option<CardAuthenticationData>, payment_checks: Option<CardPaymentChecks> },
}

/// What a connector reports beyond the canonical response data.
#[derive(Clone, Debug, PartialEq, Eq)]
pub struct ConnectorResponseData {
    pub additional_payment_method_data: Option<AdditionalPaymentMethodConnectorResponse>,
}

impl ConnectorResponseData {
    /// The connector's extra report on the payment method.
    pub fn with_additional_payment_method_data(
        additional_payment_method_data: AdditionalPaymentMethodConnectorResponse,
    ) -> (res: Self)
        ensures
            res == (ConnectorResponseData {
                additional_payment_method_data: Some(additional_payment_method_data),
            }),
    {
        ConnectorResponseData { additional_payment_method_data: Some(additional_payment_method_data) }
    }
}

} // verus!
