//! The response parser for Adyen: how each shape of a payment response is
//! put in terms of the canonical model.
//!
//! A response comes to three things: the status of the attempt, the error
//! if the payment was declined, and the response data. A decline is no
//! failure of the parser: it is a result like any other. The parser fails
//! only on a response that is malformed.

use vstd::prelude::*;
use crate::adyen::split::{construct_charge_response, spec_charges};
use crate::adyen::status::{
    attempt_status_from_webhook,
    get_adyen_payment_status,
    spec_adyen_payment_status,
    spec_webhook_attempt_status,
};
use crate::adyen::types::{
    AdditionalData,
    AdyenPaymentResponse,
    AdyenResponse,
    AdyenSplitData,
    PaymentType,
    PresentToShopperResponse,
    QrCodeResponseResponse,
    RedirectionErrorResponse,
    RedirectionResponse,
};
use crate::adyen::webhook::AdyenWebhookResponse;
use crate::enums::{is_manual_capture, spec_is_manual_capture, AttemptStatus, CaptureMethod, Method, PaymentMethodType};
use crate::errors::ConnectorError;
use crate::form::{
    field_pairs,
    names_distinct,
    pairs_map,
    parse_url,
    unique_fields,
    url_query_pairs,
    url_query_pairs_of,
    url_text_of,
};
use crate::router_data::{
    ResponseRouterData,
    RouterData,
};
use crate::router_response::{
    opt_error,
    spec_error_response,
    CaptureSyncEntry,
    CaptureSyncResponse,
    ConnectorChargeResponseData,
    ConnectorMetadata,
    DokuBankTransferInstructions,
    ErrorResponse,
    ErrorResponseView,
    MandateReference,
    PaymentsResponseData,
    QrCodeInformation,
    RedirectForm,
    ResponseId,
    VoucherNextStepData,
    WaitScreenData,
};
use crate::text::opt_str;

verus! {

/// What a response comes to: the status of the attempt, the error of a
/// declined payment, and the response data.
pub type ParsedResponse = (AttemptStatus, Option<ErrorResponse>, PaymentsResponseData);

/// The error that a response reports, as plain values.
///
/// A response reports an error if it gives a reason or a code for a
/// refusal, or if its status is `Failure`. The code and the message of the
/// error are those of the refusal; where the response gives none, the
/// sentinel texts stand in.
pub open spec fn spec_refusal_error(
    status: AttemptStatus,
    refusal_reason: Option<String>,
    refusal_reason_code: Option<String>,
    status_code: u16,
    connector_transaction_id: Option<String>,
    issuer_error_code: Option<String>,
    issuer_error_message: Option<String>,
) -> Option<ErrorResponseView> {
    if refusal_reason is Some || refusal_reason_code is Some || status == AttemptStatus::Failure {
        Some(
            spec_error_response(
                opt_str(refusal_reason_code),
                opt_str(refusal_reason),
                opt_str(refusal_reason),
                status_code,
                None,
                opt_str(connector_transaction_id),
                opt_str(issuer_error_code),
                opt_str(issuer_error_message),
            ),
        )
    } else {
        None
    }
}

/// Whether the error that a parsed response reports, if it reports one,
/// has a code and a message that are not empty.
pub open spec fn spec_error_is_filled(res: Result<ParsedResponse, ConnectorError>) -> bool {
    res matches Ok((_, Some(e), _)) ==> e.wf()
}

/// Makes the error that a response reports, if it reports one.
pub fn refusal_error(
    status: AttemptStatus,
    refusal_reason: Option<String>,
    refusal_reason_code: Option<String>,
    status_code: u16,
    connector_transaction_id: Option<String>,
    issuer_error_code: Option<String>,
    issuer_error_message: Option<String>,
) -> (res: Option<ErrorResponse>)
    ensures
        opt_error(res) == spec_refusal_error(
            status,
            refusal_reason,
            refusal_reason_code,
            status_code,
            connector_transaction_id,
            issuer_error_code,
            issuer_error_message,
        ),
        res matches Some(e) ==> e.wf(),
{
    if refusal_reason.is_some() || refusal_reason_code.is_some() || matches!(
        status,
        AttemptStatus::Failure
    ) {
        let reason = refusal_reason.clone();
        Some(
            ErrorResponse::from_connector(
                refusal_reason_code,
                refusal_reason,
                reason,
                status_code,
                None,
                connector_transaction_id,
                issuer_error_code,
                issuer_error_message,
            ),
        )
    } else {
        None
    }
}

/// The raw refusal code of the issuer, where the response carries one.
pub open spec fn spec_refusal_code_raw(additional_data: Option<AdditionalData>) -> Option<String> {
    match additional_data {
        Some(data) => data.refusal_code_raw,
        None => None,
    }
}

/// The raw refusal reason of the issuer, where the response carries one.
pub open spec fn spec_refusal_reason_raw(additional_data: Option<AdditionalData>) -> Option<
    String,
> {
    match additional_data {
        Some(data) => data.refusal_reason_raw,
        None => None,
    }
}

fn refusal_code_raw(additional_data: &Option<AdditionalData>) -> (res: Option<String>)
    ensures
        res == spec_refusal_code_raw(*additional_data),
{
    match additional_data {
        Some(data) => data.refusal_code_raw.clone(),
        None => None,
    }
}

fn refusal_reason_raw(additional_data: &Option<AdditionalData>) -> (res: Option<String>)
    ensures
        res == spec_refusal_reason_raw(*additional_data),
{
    match additional_data {
        Some(data) => data.refusal_reason_raw.clone(),
        None => None,
    }
}

/// The split of a payment as a response reports it.
fn charges_of(store: Option<String>, splits: &Option<Vec<AdyenSplitData>>) -> (res: Option<
    ConnectorChargeResponseData,
>)
    ensures
        spec_charges(store, *splits, res),
{
    match splits {
        Some(split_items) => Some(construct_charge_response(store, split_items)),
        None => None,
    }
}

/// The id of a payment that may not have one yet.
pub open spec fn spec_resource_id(psp_reference: Option<String>) -> ResponseId {
    match psp_reference {
        Some(psp) => ResponseId::ConnectorTransactionId(psp),
        None => ResponseId::NoResponseId,
    }
}

/// The reference under which a response is filed: the merchant's, or else
/// Adyen's.
pub open spec fn spec_reference_or(
    merchant_reference: Option<String>,
    psp_reference: Option<String>,
) -> Option<String> {
    match merchant_reference {
        Some(reference) => Some(reference),
        None => psp_reference,
    }
}

fn resource_id_of(psp_reference: &Option<String>) -> (res: ResponseId)
    ensures
        res == spec_resource_id(*psp_reference),
{
    match psp_reference {
        Some(psp) => ResponseId::ConnectorTransactionId(psp.clone()),
        None => ResponseId::NoResponseId,
    }
}

fn reference_or(merchant_reference: Option<String>, psp_reference: Option<String>) -> (res: Option<
    String,
>)
    ensures
        res == spec_reference_or(merchant_reference, psp_reference),
{
    match merchant_reference {
        Some(reference) => Some(reference),
        None => psp_reference,
    }
}

/// The mandate that a response set up, if it set one up: the mandate is
/// addressed by the token that Adyen issued for it.
pub open spec fn spec_mandate_reference(additional_data: Option<AdditionalData>) -> Option<
    MandateReference,
> {
    match additional_data {
        Some(AdditionalData { recurring_detail_reference: Some(mandate_id), .. }) => Some(
            MandateReference {
                connector_mandate_id: Some(mandate_id),
                network_transaction_id: None,
                payment_method_id: None,
            },
        ),
        _ => None,
    }
}

/// The transaction id of the card network, where the response carries one.
pub open spec fn spec_network_txn_id(additional_data: Option<AdditionalData>) -> Option<String> {
    match additional_data {
        Some(data) => data.network_tx_reference,
        None => None,
    }
}

/// Whether `data` is the response data of a payment that needs no further
/// step.
pub open spec fn spec_is_adyen_response_data(
    response: AdyenResponse,
    data: PaymentsResponseData,
) -> bool {
    &&& data matches PaymentsResponseData::TransactionResponse {
        resource_id,
        redirection_data,
        mandate_reference,
        connector_metadata,
        network_txn_id,
        connector_response_reference_id,
        incremental_authorization_allowed,
        charges,
    }
    &&& resource_id == ResponseId::ConnectorTransactionId(response.psp_reference)
    &&& redirection_data is None
    &&& mandate_reference == spec_mandate_reference(response.additional_data)
    &&& connector_metadata is None
    &&& network_txn_id == spec_network_txn_id(response.additional_data)
    &&& connector_response_reference_id == Some(response.merchant_reference)
    &&& incremental_authorization_allowed is None
    &&& spec_charges(response.store, response.splits, charges)
}

/// Whether `res` is what the response to a payment that needs no further
/// step comes to.
pub open spec fn spec_is_parsed_response(
    response: AdyenResponse,
    is_manual_capture: bool,
    status_code: u16,
    pmt: Option<PaymentMethodType>,
    res: Result<ParsedResponse, ConnectorError>,
) -> bool {
    &&& res matches Ok((status, error, data))
    &&& status == spec_adyen_payment_status(is_manual_capture, response.result_code, pmt)
    &&& opt_error(error) == spec_refusal_error(
        status,
        response.refusal_reason,
        response.refusal_reason_code,
        status_code,
        Some(response.psp_reference),
        spec_refusal_code_raw(response.additional_data),
        spec_refusal_reason_raw(response.additional_data),
    )
    &&& spec_is_adyen_response_data(response, data)
}

/// Parses the response to a payment that needs no further step.
pub fn get_adyen_response(
    response: AdyenResponse,
    is_capture_manual: bool,
    status_code: u16,
    pmt: Option<PaymentMethodType>,
) -> (res: Result<ParsedResponse, ConnectorError>)
    ensures
        spec_is_parsed_response(response, is_capture_manual, status_code, pmt, res),
        spec_error_is_filled(res),
{
    let status = get_adyen_payment_status(is_capture_manual, response.result_code, pmt);
    let error = refusal_error(
        status,
        response.refusal_reason,
        response.refusal_reason_code,
        status_code,
        Some(response.psp_reference.clone()),
        refusal_code_raw(&response.additional_data),
        refusal_reason_raw(&response.additional_data),
    );
    let charges = charges_of(response.store, &response.splits);
    let (mandate_reference, network_txn_id) = match response.additional_data {
        Some(data) => (
            match data.recurring_detail_reference {
                Some(mandate_id) => Some(MandateReference::from_connector_mandate_id(mandate_id)),
                None => None,
            },
            data.network_tx_reference,
        ),
        None => (None, None),
    };
    let payments_response_data = PaymentsResponseData::TransactionResponse {
        resource_id: ResponseId::ConnectorTransactionId(response.psp_reference),
        redirection_data: None,
        mandate_reference,
        connector_metadata: None,
        network_txn_id,
        connector_response_reference_id: Some(response.merchant_reference),
        incremental_authorization_allowed: None,
        charges,
    };
    Ok((status, error, payments_response_data))
}

/// The entry that a webhook makes in the list of captures of a payment
/// that is captured in parts: one entry under the id of the capture if the
/// webhook reports on a capture, and none otherwise.
pub open spec fn spec_capture_entries(response: AdyenWebhookResponse) -> Seq<CaptureSyncEntry> {
    if response.spec_is_capture_response() {
        seq![
            CaptureSyncEntry {
                connector_capture_id: response.transaction_id,
                response: CaptureSyncResponse::Success {
                    resource_id: ResponseId::ConnectorTransactionId(response.transaction_id),
                    status: response.spec_capture_attempt_status(),
                    connector_response_reference_id: Some(response.merchant_reference_id),
                    amount: response.spec_amount_captured(),
                },
            },
        ]
    } else {
        Seq::empty()
    }
}

/// Files a webhook in the list of captures of a payment.
pub fn construct_captures_response(response: &AdyenWebhookResponse) -> (res: Vec<
    CaptureSyncEntry,
>)
    ensures
        res@ == spec_capture_entries(*response),
{
    let mut entries: Vec<CaptureSyncEntry> = Vec::new();
    if response.is_capture_response() {
        let connector_capture_id = response.get_connector_capture_id();
        entries.push(
            CaptureSyncEntry {
                connector_capture_id: connector_capture_id.clone(),
                response: CaptureSyncResponse::Success {
                    resource_id: ResponseId::ConnectorTransactionId(connector_capture_id),
                    status: response.get_capture_attempt_status(),
                    connector_response_reference_id: response.get_connector_reference_id(),
                    amount: response.get_amount_captured(),
                },
            },
        );
    }
    assert(entries@ =~= spec_capture_entries(*response));
    entries
}

/// Whether `data` is the response data of a webhook. While a payment that
/// is captured in parts is synced, a webhook is read as a list of
/// captures; otherwise it is read as the response to the payment that it
/// refers to.
pub open spec fn spec_is_webhook_response_data(
    response: AdyenWebhookResponse,
    is_multiple_capture_psync_flow: bool,
    data: PaymentsResponseData,
) -> bool {
    if is_multiple_capture_psync_flow {
        &&& data matches PaymentsResponseData::MultipleCaptureResponse {
            capture_sync_response_list,
        }
        &&& capture_sync_response_list@ == spec_capture_entries(response)
    } else {
        &&& data matches PaymentsResponseData::TransactionResponse {
            resource_id,
            redirection_data,
            mandate_reference,
            connector_metadata,
            network_txn_id,
            connector_response_reference_id,
            incremental_authorization_allowed,
            charges,
        }
        &&& resource_id == ResponseId::ConnectorTransactionId(
            match response.payment_reference {
                Some(reference) => reference,
                None => response.transaction_id,
            },
        )
        &&& redirection_data is None
        &&& mandate_reference is None
        &&& connector_metadata is None
        &&& network_txn_id is None
        &&& connector_response_reference_id == Some(response.merchant_reference_id)
        &&& incremental_authorization_allowed is None
        &&& charges is None
    }
}

/// Whether `res` is what a webhook comes to as the response to a payment.
/// A webhook that is not about the state of a payment is an error.
pub open spec fn spec_is_parsed_webhook(
    response: AdyenWebhookResponse,
    is_manual_capture: bool,
    is_multiple_capture_psync_flow: bool,
    status_code: u16,
    res: Result<ParsedResponse, ConnectorError>,
) -> bool {
    match spec_webhook_attempt_status(is_manual_capture, response.status) {
        Err(e) => res == Err::<ParsedResponse, ConnectorError>(e),
        Ok(expected) => {
            &&& res matches Ok((status, error, data))
            &&& status == expected
            &&& opt_error(error) == spec_refusal_error(
                status,
                response.refusal_reason,
                response.refusal_reason_code,
                status_code,
                Some(response.transaction_id),
                response.refusal_code_raw,
                response.refusal_reason_raw,
            )
            &&& spec_is_webhook_response_data(response, is_multiple_capture_psync_flow, data)
        },
    }
}

/// Parses a webhook as the response to a payment.
pub fn get_webhook_response(
    response: AdyenWebhookResponse,
    is_capture_manual: bool,
    is_multiple_capture_psync_flow: bool,
    status_code: u16,
) -> (res: Result<ParsedResponse, ConnectorError>)
    ensures
        spec_is_parsed_webhook(
            response,
            is_capture_manual,
            is_multiple_capture_psync_flow,
            status_code,
            res,
        ),
        spec_error_is_filled(res),
{
    let status = attempt_status_from_webhook(is_capture_manual, response.status)?;
    let error = refusal_error(
        status,
        response.refusal_reason.clone(),
        response.refusal_reason_code.clone(),
        status_code,
        Some(response.transaction_id.clone()),
        response.refusal_code_raw.clone(),
        response.refusal_reason_raw.clone(),
    );
    if is_multiple_capture_psync_flow {
        let capture_sync_response_list = construct_captures_response(&response);
        Ok(
            (
                status,
                error,
                PaymentsResponseData::MultipleCaptureResponse { capture_sync_response_list },
            ),
        )
    } else {
        let payments_response_data = PaymentsResponseData::TransactionResponse {
            resource_id: ResponseId::ConnectorTransactionId(
                match response.payment_reference {
                    Some(reference) => reference,
                    None => response.transaction_id,
                },
            ),
            redirection_data: None,
            mandate_reference: None,
            connector_metadata: None,
            network_txn_id: None,
            connector_response_reference_id: Some(response.merchant_reference_id),
            incremental_authorization_allowed: None,
            charges: None,
        };
        Ok((status, error, payments_response_data))
    }
}

/// How long the shopper is given to confirm a BLIK payment, in
/// nanoseconds: one minute.
pub const BLIK_WAIT_NANOSECONDS: i128 = 60_000_000_000;

/// What the shopper is shown while a redirect waits for them.
///
/// A BLIK payment shows a wait screen from now on for one minute, an MB WAY
/// payment shows one from now on without an end, and no other payment
/// shows one. A time so late that the minute does not fit is an error.
pub open spec fn spec_wait_screen_metadata(
    payment_method_type: PaymentType,
    current_time: i128,
) -> Result<Option<ConnectorMetadata>, ConnectorError> {
    match payment_method_type {
        PaymentType::Blik => if current_time + BLIK_WAIT_NANOSECONDS <= i128::MAX {
            Ok(
                Some(
                    ConnectorMetadata::WaitScreen(
                        WaitScreenData {
                            display_from_timestamp: current_time,
                            display_to_timestamp: Some(
                                (current_time + BLIK_WAIT_NANOSECONDS) as i128,
                            ),
                        },
                    ),
                ),
            )
        } else {
            Err(ConnectorError::ResponseHandlingFailed)
        },
        PaymentType::Mbway => Ok(
            Some(
                ConnectorMetadata::WaitScreen(
                    WaitScreenData {
                        display_from_timestamp: current_time,
                        display_to_timestamp: None,
                    },
                ),
            ),
        ),
        _ => Ok(None),
    }
}

/// Tells what the shopper is shown while a redirect waits for them.
/// `current_time` is the time of the call in nanoseconds since the epoch.
pub fn get_wait_screen_metadata(next_action: &RedirectionResponse, current_time: i128) -> (res:
    Result<Option<ConnectorMetadata>, ConnectorError>)
    ensures
        res == spec_wait_screen_metadata(next_action.action.payment_method_type, current_time),
{
    match next_action.action.payment_method_type {
        PaymentType::Blik => {
            match current_time.checked_add(BLIK_WAIT_NANOSECONDS) {
                Some(until) => Ok(
                    Some(
                        ConnectorMetadata::WaitScreen(
                            WaitScreenData {
                                display_from_timestamp: current_time,
                                display_to_timestamp: Some(until),
                            },
                        ),
                    ),
                ),
                None => Err(ConnectorError::ResponseHandlingFailed),
            }
        },
        PaymentType::Mbway => Ok(
            Some(
                ConnectorMetadata::WaitScreen(
                    WaitScreenData {
                        display_from_timestamp: current_time,
                        display_to_timestamp: None,
                    },
                ),
            ),
        ),
        PaymentType::Affirm
        | PaymentType::Afterpaytouch
        | PaymentType::Alipay
        | PaymentType::AlipayHk
        | PaymentType::Alfamart
        | PaymentType::Alma
        | PaymentType::Applepay
        | PaymentType::Bizum
        | PaymentType::Atome
        | PaymentType::BoletoBancario
        | PaymentType::ClearPay
        | PaymentType::Dana
        | PaymentType::Eps
        | PaymentType::Gcash
        | PaymentType::Googlepay
        | PaymentType::GoPay
        | PaymentType::Ideal
        | PaymentType::Indomaret
        | PaymentType::Klarna
        | PaymentType::Kakaopay
        | PaymentType::MobilePay
        | PaymentType::Momo
        | PaymentType::MomoAtm
        | PaymentType::OnlineBankingCzechRepublic
        | PaymentType::OnlineBankingFinland
        | PaymentType::OnlineBankingPoland
        | PaymentType::OnlineBankingSlovakia
        | PaymentType::OnlineBankingFpx
        | PaymentType::OnlineBankingThailand
        | PaymentType::OpenBankingUK
        | PaymentType::Oxxo
        | PaymentType::PaySafeCard
        | PaymentType::PayBright
        | PaymentType::Paypal
        | PaymentType::Scheme
        | PaymentType::NetworkToken
        | PaymentType::Trustly
        | PaymentType::TouchNGo
        | PaymentType::Walley
        | PaymentType::WeChatPayWeb
        | PaymentType::AchDirectDebit
        | PaymentType::SepaDirectDebit
        | PaymentType::BacsDirectDebit
        | PaymentType::Samsungpay
        | PaymentType::Twint
        | PaymentType::Vipps
        | PaymentType::Giftcard
        | PaymentType::Knet
        | PaymentType::Benefit
        | PaymentType::Swish
        | PaymentType::PermataBankTransfer
        | PaymentType::BcaBankTransfer
        | PaymentType::BniVa
        | PaymentType::BriVa
        | PaymentType::CimbVa
        | PaymentType::DanamonVa
        | PaymentType::MandiriVa
        | PaymentType::SevenEleven
        | PaymentType::Lawson
        | PaymentType::MiniStop
        | PaymentType::FamilyMart
        | PaymentType::Seicomart
        | PaymentType::PayEasy
        | PaymentType::Pix => Ok(None),
    }
}

/// A time in milliseconds since the epoch, given in seconds; none if the
/// milliseconds do not fit.
pub open spec fn spec_timestamp_in_milliseconds(seconds: i64) -> Option<i64> {
    if i64::MIN <= seconds * 1000 <= i64::MAX {
        Some((seconds * 1000) as i64)
    } else {
        None
    }
}

/// An optional time in milliseconds since the epoch, given in seconds. A
/// time whose milliseconds do not fit is an error.
pub open spec fn spec_optional_milliseconds(seconds: Option<i64>) -> Result<
    Option<i64>,
    ConnectorError,
> {
    match seconds {
        None => Ok(None),
        Some(seconds) => match spec_timestamp_in_milliseconds(seconds) {
            Some(milliseconds) => Ok(Some(milliseconds)),
            None => Err(ConnectorError::ResponseHandlingFailed),
        },
    }
}

/// Converts an optional time from seconds to milliseconds.
pub fn optional_milliseconds(seconds: Option<i64>) -> (res: Result<Option<i64>, ConnectorError>)
    ensures
        res == spec_optional_milliseconds(seconds),
{
    match seconds {
        None => Ok(None),
        Some(seconds) => match seconds.checked_mul(1000) {
            Some(milliseconds) => Ok(Some(milliseconds)),
            None => Err(ConnectorError::ResponseHandlingFailed),
        },
    }
}

/// Whether a payment type hands the shopper a voucher.
pub open spec fn spec_is_voucher_type(payment_method_type: PaymentType) -> bool {
    match payment_method_type {
        PaymentType::Alfamart
        | PaymentType::Indomaret
        | PaymentType::BoletoBancario
        | PaymentType::Oxxo
        | PaymentType::Lawson
        | PaymentType::MiniStop
        | PaymentType::FamilyMart
        | PaymentType::Seicomart
        | PaymentType::PayEasy => true,
        _ => false,
    }
}

/// Whether a payment type hands the shopper instructions for a Doku bank
/// transfer.
pub open spec fn spec_is_doku_type(payment_method_type: PaymentType) -> bool {
    match payment_method_type {
        PaymentType::PermataBankTransfer
        | PaymentType::BcaBankTransfer
        | PaymentType::BniVa
        | PaymentType::BriVa
        | PaymentType::CimbVa
        | PaymentType::DanamonVa
        | PaymentType::Giftcard
        | PaymentType::MandiriVa => true,
        _ => false,
    }
}

/// What the shopper is handed to pay out of band: a voucher with its
/// reference, where to download it, how to pay it and until when; or the
/// instructions for a bank transfer. A payment type that hands the shopper
/// nothing has no such data, and that is no error.
pub open spec fn spec_present_to_shopper_metadata(response: PresentToShopperResponse) -> Result<
    Option<ConnectorMetadata>,
    ConnectorError,
> {
    let action = response.action;
    if spec_is_voucher_type(action.payment_method_type) {
        match spec_optional_milliseconds(action.expires_at) {
            Err(e) => Err(e),
            Ok(expires_at) => Ok(
                Some(
                    ConnectorMetadata::Voucher(
                        VoucherNextStepData {
                            expires_at,
                            reference: action.reference,
                            download_url: action.download_url,
                            instructions_url: action.instructions_url,
                        },
                    ),
                ),
            ),
        }
    } else if spec_is_doku_type(action.payment_method_type) {
        match spec_optional_milliseconds(action.expires_at) {
            Err(e) => Err(e),
            Ok(expires_at) => Ok(
                Some(
                    ConnectorMetadata::DokuBankTransfer(
                        DokuBankTransferInstructions {
                            reference: action.reference,
                            instructions_url: action.instructions_url,
                            expires_at,
                        },
                    ),
                ),
            ),
        }
    } else {
        Ok(None)
    }
}

/// Tells what the shopper is handed to pay out of band.
pub fn get_present_to_shopper_metadata(response: &PresentToShopperResponse) -> (res: Result<
    Option<ConnectorMetadata>,
    ConnectorError,
>)
    ensures
        res == spec_present_to_shopper_metadata(*response),
{
    match response.action.payment_method_type {
        PaymentType::Alfamart
        | PaymentType::Indomaret
        | PaymentType::BoletoBancario
        | PaymentType::Oxxo
        | PaymentType::Lawson
        | PaymentType::MiniStop
        | PaymentType::FamilyMart
        | PaymentType::Seicomart
        | PaymentType::PayEasy => {
            let expires_at = optional_milliseconds(response.action.expires_at)?;
            Ok(
                Some(
                    ConnectorMetadata::Voucher(
                        VoucherNextStepData {
                            expires_at,
                            reference: response.action.reference.clone(),
                            download_url: response.action.download_url.clone(),
                            instructions_url: response.action.instructions_url.clone(),
                        },
                    ),
                ),
            )
        },
        PaymentType::PermataBankTransfer
        | PaymentType::BcaBankTransfer
        | PaymentType::BniVa
        | PaymentType::BriVa
        | PaymentType::CimbVa
        | PaymentType::DanamonVa
        | PaymentType::Giftcard
        | PaymentType::MandiriVa => {
            let expires_at = optional_milliseconds(response.action.expires_at)?;
            Ok(
                Some(
                    ConnectorMetadata::DokuBankTransfer(
                        DokuBankTransferInstructions {
                            reference: response.action.reference.clone(),
                            instructions_url: response.action.instructions_url.clone(),
                            expires_at,
                        },
                    ),
                ),
            )
        },
        PaymentType::Affirm
        | PaymentType::Afterpaytouch
        | PaymentType::Alipay
        | PaymentType::AlipayHk
        | PaymentType::Alma
        | PaymentType::Applepay
        | PaymentType::Bizum
        | PaymentType::Atome
        | PaymentType::Blik
        | PaymentType::ClearPay
        | PaymentType::Dana
        | PaymentType::Eps
        | PaymentType::Gcash
        | PaymentType::Googlepay
        | PaymentType::GoPay
        | PaymentType::Ideal
        | PaymentType::Klarna
        | PaymentType::Kakaopay
        | PaymentType::Mbway
        | PaymentType::MobilePay
        | PaymentType::Momo
        | PaymentType::MomoAtm
        | PaymentType::OnlineBankingCzechRepublic
        | PaymentType::OnlineBankingFinland
        | PaymentType::OnlineBankingPoland
        | PaymentType::OnlineBankingSlovakia
        | PaymentType::OnlineBankingFpx
        | PaymentType::OnlineBankingThailand
        | PaymentType::OpenBankingUK
        | PaymentType::PaySafeCard
        | PaymentType::PayBright
        | PaymentType::Paypal
        | PaymentType::Scheme
        | PaymentType::NetworkToken
        | PaymentType::Trustly
        | PaymentType::TouchNGo
        | PaymentType::Walley
        | PaymentType::WeChatPayWeb
        | PaymentType::AchDirectDebit
        | PaymentType::SepaDirectDebit
        | PaymentType::BacsDirectDebit
        | PaymentType::Samsungpay
        | PaymentType::Twint
        | PaymentType::Vipps
        | PaymentType::Knet
        | PaymentType::Benefit
        | PaymentType::Swish
        | PaymentType::SevenEleven
        | PaymentType::Pix => Ok(None),
    }
}

/// Whether `form` is where a redirect sends the shopper.
///
/// The form goes to the address of the redirect, with the method of the
/// redirect, or with `Get` where none is given. Its fields are the fields
/// that the response states; where it states none, they are the pairs of
/// the query of the address, each name once with its last value.
pub open spec fn spec_is_redirect_form(
    response: RedirectionResponse,
    form: Option<RedirectForm>,
) -> bool {
    match response.action.url {
        None => form is None,
        Some(url) => {
            &&& form matches Some(RedirectForm::Form { endpoint, method, form_fields })
            &&& endpoint == url
            &&& method == (match response.action.method {
                Some(method) => method,
                None => Method::Get,
            })
            &&& match response.action.data {
                Some(data) => form_fields == data,
                None => names_distinct(form_fields@) && pairs_map(field_pairs(form_fields@))
                    == pairs_map(url_query_pairs_of(url@)),
            }
        },
    }
}

/// Whether `data` is the response data of a redirect.
pub open spec fn spec_is_redirection_response_data(
    response: RedirectionResponse,
    current_time: i128,
    data: PaymentsResponseData,
) -> bool {
    &&& data matches PaymentsResponseData::TransactionResponse {
        resource_id,
        redirection_data,
        mandate_reference,
        connector_metadata,
        network_txn_id,
        connector_response_reference_id,
        incremental_authorization_allowed,
        charges,
    }
    &&& resource_id == spec_resource_id(response.psp_reference)
    &&& spec_is_redirect_form(response, redirection_data)
    &&& mandate_reference is None
    &&& Ok::<Option<ConnectorMetadata>, ConnectorError>(connector_metadata)
        == spec_wait_screen_metadata(response.action.payment_method_type, current_time)
    &&& network_txn_id is None
    &&& connector_response_reference_id == spec_reference_or(
        response.merchant_reference,
        response.psp_reference,
    )
    &&& incremental_authorization_allowed is None
    &&& spec_charges(response.store, response.splits, charges)
}

/// Whether `res` is what the response that sends the shopper elsewhere
/// comes to.
pub open spec fn spec_is_parsed_redirection(
    response: RedirectionResponse,
    is_manual_capture: bool,
    status_code: u16,
    pmt: Option<PaymentMethodType>,
    current_time: i128,
    res: Result<ParsedResponse, ConnectorError>,
) -> bool {
    match spec_wait_screen_metadata(response.action.payment_method_type, current_time) {
        Err(e) => res == Err::<ParsedResponse, ConnectorError>(e),
        Ok(_) => {
            &&& res matches Ok((status, error, data))
            &&& status == spec_adyen_payment_status(is_manual_capture, response.result_code, pmt)
            &&& opt_error(error) == spec_refusal_error(
                status,
                response.refusal_reason,
                response.refusal_reason_code,
                status_code,
                response.psp_reference,
                spec_refusal_code_raw(response.additional_data),
                spec_refusal_reason_raw(response.additional_data),
            )
            &&& spec_is_redirection_response_data(response, current_time, data)
        },
    }
}

/// Parses the response that sends the shopper elsewhere. `current_time`
/// is the time of the call in nanoseconds since the epoch.
pub fn get_redirection_response(
    response: RedirectionResponse,
    is_manual_capture: bool,
    status_code: u16,
    pmt: Option<PaymentMethodType>,
    current_time: i128,
) -> (res: Result<ParsedResponse, ConnectorError>)
    ensures
        spec_is_parsed_redirection(
            response,
            is_manual_capture,
            status_code,
            pmt,
            current_time,
            res,
        ),
        spec_error_is_filled(res),
{
    let status = get_adyen_payment_status(is_manual_capture, response.result_code, pmt);
    let error = refusal_error(
        status,
        response.refusal_reason.clone(),
        response.refusal_reason_code.clone(),
        status_code,
        response.psp_reference.clone(),
        refusal_code_raw(&response.additional_data),
        refusal_reason_raw(&response.additional_data),
    );
    let connector_metadata = get_wait_screen_metadata(&response, current_time)?;
    let charges = charges_of(response.store, &response.splits);
    let resource_id = resource_id_of(&response.psp_reference);
    let method = match response.action.method {
        Some(method) => method,
        None => Method::Get,
    };
    let redirection_data = match response.action.url {
        Some(url) => {
            let form_fields = match response.action.data {
                Some(data) => data,
                None => unique_fields(url_query_pairs(url.as_str())),
            };
            Some(RedirectForm::Form { endpoint: url, method, form_fields })
        },
        None => None,
    };
    let payments_response_data = PaymentsResponseData::TransactionResponse {
        resource_id,
        redirection_data,
        mandate_reference: None,
        connector_metadata,
        network_txn_id: None,
        connector_response_reference_id: reference_or(
            response.merchant_reference,
            response.psp_reference,
        ),
        incremental_authorization_allowed: None,
        charges,
    };
    Ok((status, error, payments_response_data))
}

/// Whether `data` is the response data of a payment that hands the shopper
/// a voucher.
pub open spec fn spec_is_present_to_shopper_response_data(
    response: PresentToShopperResponse,
    data: PaymentsResponseData,
) -> bool {
    &&& data matches PaymentsResponseData::TransactionResponse {
        resource_id,
        redirection_data,
        mandate_reference,
        connector_metadata,
        network_txn_id,
        connector_response_reference_id,
        incremental_authorization_allowed,
        charges,
    }
    &&& resource_id == spec_resource_id(response.psp_reference)
    &&& redirection_data is None
    &&& mandate_reference is None
    &&& Ok::<Option<ConnectorMetadata>, ConnectorError>(connector_metadata)
        == spec_present_to_shopper_metadata(response)
    &&& network_txn_id is None
    &&& connector_response_reference_id == spec_reference_or(
        response.merchant_reference,
        response.psp_reference,
    )
    &&& incremental_authorization_allowed is None
    &&& spec_charges(response.store, response.splits, charges)
}

/// Whether `res` is what the response that hands the shopper a voucher
/// comes to.
pub open spec fn spec_is_parsed_present_to_shopper(
    response: PresentToShopperResponse,
    is_manual_capture: bool,
    status_code: u16,
    pmt: Option<PaymentMethodType>,
    res: Result<ParsedResponse, ConnectorError>,
) -> bool {
    match spec_present_to_shopper_metadata(response) {
        Err(e) => res == Err::<ParsedResponse, ConnectorError>(e),
        Ok(_) => {
            &&& res matches Ok((status, error, data))
            &&& status == spec_adyen_payment_status(is_manual_capture, response.result_code, pmt)
            &&& opt_error(error) == spec_refusal_error(
                status,
                response.refusal_reason,
                response.refusal_reason_code,
                status_code,
                response.psp_reference,
                None,
                None,
            )
            &&& spec_is_present_to_shopper_response_data(response, data)
        },
    }
}

/// Parses the response that hands the shopper a voucher or transfer
/// instructions.
pub fn get_present_to_shopper_response(
    response: PresentToShopperResponse,
    is_manual_capture: bool,
    status_code: u16,
    pmt: Option<PaymentMethodType>,
) -> (res: Result<ParsedResponse, ConnectorError>)
    ensures
        spec_is_parsed_present_to_shopper(response, is_manual_capture, status_code, pmt, res),
        spec_error_is_filled(res),
{
    let status = get_adyen_payment_status(is_manual_capture, response.result_code, pmt);
    let error = refusal_error(
        status,
        response.refusal_reason.clone(),
        response.refusal_reason_code.clone(),
        status_code,
        response.psp_reference.clone(),
        None,
        None,
    );
    let connector_metadata = get_present_to_shopper_metadata(&response)?;
    let charges = charges_of(response.store, &response.splits);
    let resource_id = resource_id_of(&response.psp_reference);
    let payments_response_data = PaymentsResponseData::TransactionResponse {
        resource_id,
        redirection_data: None,
        mandate_reference: None,
        connector_metadata,
        network_txn_id: None,
        connector_response_reference_id: reference_or(
            response.merchant_reference,
            response.psp_reference,
        ),
        incremental_authorization_allowed: None,
        charges,
    };
    Ok((status, error, payments_response_data))
}

/// Until when a QR code is shown, in milliseconds since the epoch.
pub open spec fn spec_qr_display_to(response: QrCodeResponseResponse) -> Result<
    Option<i64>,
    ConnectorError,
> {
    spec_optional_milliseconds(
        match response.additional_data {
            Some(data) => data.pix_expiration_date,
            None => None,
        },
    )
}

/// The error with which the QR code of a response cannot be described, if
/// it cannot: the image of the code could not be made, or the time until
/// which it is shown does not fit.
pub open spec fn spec_qr_metadata_error(
    response: QrCodeResponseResponse,
    image_data: Option<String>,
) -> Option<ConnectorError> {
    if image_data is None {
        Some(ConnectorError::ResponseHandlingFailed)
    } else {
        match spec_qr_display_to(response) {
            Err(e) => Some(e),
            Ok(_) => None,
        }
    }
}

/// Whether `metadata` describes the QR code of a response: the code as an
/// image, the address of the code, or both, and until when the code is
/// shown. `image_data` is the image of the code as a data address; it
/// counts only if it reads as an address.
pub open spec fn spec_is_qr_metadata(
    response: QrCodeResponseResponse,
    image_data: String,
    metadata: Option<ConnectorMetadata>,
) -> bool {
    let until = spec_qr_display_to(response);
    match (url_text_of(image_data@), response.action.qr_code_url) {
        (Some(image), Some(code_url)) => {
            &&& metadata matches Some(
                ConnectorMetadata::QrCode(
                    QrCodeInformation::QrCodeUrl {
                        image_data_url,
                        qr_code_url,
                        display_to_timestamp,
                    },
                ),
            )
            &&& image_data_url@ == image
            &&& qr_code_url == code_url
            &&& Ok::<Option<i64>, ConnectorError>(display_to_timestamp) == until
        },
        (None, Some(code_url)) => {
            &&& metadata matches Some(
                ConnectorMetadata::QrCode(
                    QrCodeInformation::QrCodeImageUrl { qr_code_url, display_to_timestamp },
                ),
            )
            &&& qr_code_url == code_url
            &&& Ok::<Option<i64>, ConnectorError>(display_to_timestamp) == until
        },
        (Some(image), None) => {
            &&& metadata matches Some(
                ConnectorMetadata::QrCode(
                    QrCodeInformation::QrDataUrl { image_data_url, display_to_timestamp },
                ),
            )
            &&& image_data_url@ == image
            &&& Ok::<Option<i64>, ConnectorError>(display_to_timestamp) == until
        },
        (None, None) => metadata is None,
    }
}

/// Whether `res` is the outcome of describing the QR code of a response.
pub open spec fn spec_is_qr_metadata_outcome(
    response: QrCodeResponseResponse,
    image_data: Option<String>,
    res: Result<Option<ConnectorMetadata>, ConnectorError>,
) -> bool {
    match spec_qr_metadata_error(response, image_data) {
        Some(e) => res == Err::<Option<ConnectorMetadata>, ConnectorError>(e),
        None => {
            &&& res matches Ok(metadata)
            &&& image_data matches Some(image)
            &&& spec_is_qr_metadata(response, image, metadata)
        },
    }
}

/// Describes the QR code of a response. `image_data` is the image that was
/// made of the code, as a data address, or none if no image could be made.
pub fn get_qr_metadata(response: &QrCodeResponseResponse, image_data: Option<String>) -> (res:
    Result<Option<ConnectorMetadata>, ConnectorError>)
    ensures
        spec_is_qr_metadata_outcome(*response, image_data, res),
{
    let image_data = match image_data {
        Some(image_data) => image_data,
        None => {
            return Err(ConnectorError::ResponseHandlingFailed);
        },
    };
    let image_data_url = parse_url(image_data.as_str());
    let qr_code_url = response.action.qr_code_url.clone();
    let display_to_timestamp = optional_milliseconds(
        match &response.additional_data {
            Some(data) => data.pix_expiration_date,
            None => None,
        },
    )?;
    match (image_data_url, qr_code_url) {
        (Some(image_data_url), Some(qr_code_url)) => Ok(
            Some(
                ConnectorMetadata::QrCode(
                    QrCodeInformation::QrCodeUrl {
                        image_data_url,
                        qr_code_url,
                        display_to_timestamp,
                    },
                ),
            ),
        ),
        (None, Some(qr_code_url)) => Ok(
            Some(
                ConnectorMetadata::QrCode(
                    QrCodeInformation::QrCodeImageUrl { qr_code_url, display_to_timestamp },
                ),
            ),
        ),
        (Some(image_data_url), None) => Ok(
            Some(
                ConnectorMetadata::QrCode(
                    QrCodeInformation::QrDataUrl { image_data_url, display_to_timestamp },
                ),
            ),
        ),
        (None, None) => Ok(None),
    }
}

/// Whether `data` is the response data of a payment that hands the shopper
/// a QR code.
pub open spec fn spec_is_qr_code_response_data(
    response: QrCodeResponseResponse,
    image_data: String,
    data: PaymentsResponseData,
) -> bool {
    &&& data matches PaymentsResponseData::TransactionResponse {
        resource_id,
        redirection_data,
        mandate_reference,
        connector_metadata,
        network_txn_id,
        connector_response_reference_id,
        incremental_authorization_allowed,
        charges,
    }
    &&& resource_id == spec_resource_id(response.psp_reference)
    &&& redirection_data is None
    &&& mandate_reference is None
    &&& spec_is_qr_metadata(response, image_data, connector_metadata)
    &&& network_txn_id is None
    &&& connector_response_reference_id == spec_reference_or(
        response.merchant_reference,
        response.psp_reference,
    )
    &&& incremental_authorization_allowed is None
    &&& spec_charges(response.store, response.splits, charges)
}

/// Whether `res` is what the response that hands the shopper a QR code
/// comes to.
pub open spec fn spec_is_parsed_qr_code(
    response: QrCodeResponseResponse,
    is_manual_capture: bool,
    status_code: u16,
    pmt: Option<PaymentMethodType>,
    image_data: Option<String>,
    res: Result<ParsedResponse, ConnectorError>,
) -> bool {
    match spec_qr_metadata_error(response, image_data) {
        Some(e) => res == Err::<ParsedResponse, ConnectorError>(e),
        None => {
            &&& res matches Ok((status, error, data))
            &&& status == spec_adyen_payment_status(is_manual_capture, response.result_code, pmt)
            &&& opt_error(error) == spec_refusal_error(
                status,
                response.refusal_reason,
                response.refusal_reason_code,
                status_code,
                response.psp_reference,
                None,
                None,
            )
            &&& image_data matches Some(image)
            &&& spec_is_qr_code_response_data(response, image, data)
        },
    }
}

/// Parses the response that hands the shopper a QR code. `image_data` is
/// the image that was made of the code, as a data address, or none if no
/// image could be made.
pub fn get_qr_code_response(
    response: QrCodeResponseResponse,
    is_manual_capture: bool,
    status_code: u16,
    pmt: Option<PaymentMethodType>,
    image_data: Option<String>,
) -> (res: Result<ParsedResponse, ConnectorError>)
    ensures
        spec_is_parsed_qr_code(response, is_manual_capture, status_code, pmt, image_data, res),
        spec_error_is_filled(res),
{
    let status = get_adyen_payment_status(is_manual_capture, response.result_code, pmt);
    let error = refusal_error(
        status,
        response.refusal_reason.clone(),
        response.refusal_reason_code.clone(),
        status_code,
        response.psp_reference.clone(),
        None,
        None,
    );
    let connector_metadata = get_qr_metadata(&response, image_data)?;
    let charges = charges_of(response.store, &response.splits);
    let resource_id = resource_id_of(&response.psp_reference);
    let payments_response_data = PaymentsResponseData::TransactionResponse {
        resource_id,
        redirection_data: None,
        mandate_reference: None,
        connector_metadata,
        network_txn_id: None,
        connector_response_reference_id: reference_or(
            response.merchant_reference,
            response.psp_reference,
        ),
        incremental_authorization_allowed: None,
        charges,
    };
    Ok((status, error, payments_response_data))
}

/// The error of a redirect that ended in an error, as plain values. Such
/// a response carries no refusal code, so the code of the error is the
/// sentinel; the message is the reason of the refusal, or the sentinel
/// where the response gives none.
pub open spec fn spec_redirection_error(
    response: RedirectionErrorResponse,
    status_code: u16,
) -> ErrorResponseView {
    spec_error_response(
        None,
        opt_str(response.refusal_reason),
        opt_str(response.refusal_reason),
        status_code,
        None,
        opt_str(response.psp_reference),
        opt_str(spec_refusal_code_raw(response.additional_data)),
        opt_str(spec_refusal_reason_raw(response.additional_data)),
    )
}

/// Whether `data` is the response data of a redirect that ended in an
/// error.
pub open spec fn spec_is_redirection_error_response_data(
    response: RedirectionErrorResponse,
    data: PaymentsResponseData,
) -> bool {
    &&& data matches PaymentsResponseData::TransactionResponse {
        resource_id,
        redirection_data,
        mandate_reference,
        connector_metadata,
        network_txn_id,
        connector_response_reference_id,
        incremental_authorization_allowed,
        charges,
    }
    &&& resource_id == ResponseId::NoResponseId
    &&& redirection_data is None
    &&& mandate_reference is None
    &&& connector_metadata is None
    &&& network_txn_id is None
    &&& connector_response_reference_id == spec_reference_or(
        response.merchant_reference,
        response.psp_reference,
    )
    &&& incremental_authorization_allowed is None
    &&& charges is None
}

/// Whether `res` is what the response to a redirect that ended in an error
/// comes to.
pub open spec fn spec_is_parsed_redirection_error(
    response: RedirectionErrorResponse,
    is_manual_capture: bool,
    status_code: u16,
    pmt: Option<PaymentMethodType>,
    res: Result<ParsedResponse, ConnectorError>,
) -> bool {
    &&& res matches Ok((status, error, data))
    &&& status == spec_adyen_payment_status(is_manual_capture, response.result_code, pmt)
    &&& opt_error(error) == Some(spec_redirection_error(response, status_code))
    &&& spec_is_redirection_error_response_data(response, data)
}

/// Parses the response to a redirect that ended in an error. Such a
/// response always reports an error.
pub fn get_redirection_error_response(
    response: RedirectionErrorResponse,
    is_manual_capture: bool,
    status_code: u16,
    pmt: Option<PaymentMethodType>,
) -> (res: Result<ParsedResponse, ConnectorError>)
    ensures
        spec_is_parsed_redirection_error(response, is_manual_capture, status_code, pmt, res),
        spec_error_is_filled(res),
{
    let status = get_adyen_payment_status(is_manual_capture, response.result_code, pmt);
    let error = Some(
        ErrorResponse::from_connector(
            None,
            response.refusal_reason.clone(),
            response.refusal_reason,
            status_code,
            None,
            response.psp_reference.clone(),
            refusal_code_raw(&response.additional_data),
            refusal_reason_raw(&response.additional_data),
        ),
    );
    let payments_response_data = PaymentsResponseData::TransactionResponse {
        resource_id: ResponseId::NoResponseId,
        redirection_data: None,
        mandate_reference: None,
        connector_metadata: None,
        network_txn_id: None,
        connector_response_reference_id: reference_or(
            response.merchant_reference,
            response.psp_reference,
        ),
        incremental_authorization_allowed: None,
        charges: None,
    };
    Ok((status, error, payments_response_data))
}

/// What a payload reads as, shape by shape: for each shape of response
/// the reading of the payload as that shape, where the payload can be read
/// so. A payload names its shape nowhere, so one payload can have several
/// readings.
#[derive(Clone, Debug, PartialEq, Eq)]
pub struct ResponseReadings {
    pub response: Option<AdyenResponse>,
    pub present_to_shopper: Option<PresentToShopperResponse>,
    pub qr_code: Option<QrCodeResponseResponse>,
    pub redirection: Option<RedirectionResponse>,
    pub redirection_error: Option<RedirectionErrorResponse>,
    pub webhook: Option<AdyenWebhookResponse>,
}

/// The response that a payload stands for: its first reading in the order
/// of precedence. A payment that needs no further step comes first, then
/// what is presented to the shopper, the QR code, the redirect, the failed
/// redirect, and last the webhook. A payload without any reading stands
/// for no response.
pub open spec fn spec_first_reading(readings: ResponseReadings) -> Option<AdyenPaymentResponse> {
    match readings {
        ResponseReadings { response: Some(response), .. } => Some(
            AdyenPaymentResponse::Response(response),
        ),
        ResponseReadings { present_to_shopper: Some(response), .. } => Some(
            AdyenPaymentResponse::PresentToShopper(response),
        ),
        ResponseReadings { qr_code: Some(response), .. } => Some(
            AdyenPaymentResponse::QrCodeResponse(response),
        ),
        ResponseReadings { redirection: Some(response), .. } => Some(
            AdyenPaymentResponse::RedirectionResponse(response),
        ),
        ResponseReadings { redirection_error: Some(response), .. } => Some(
            AdyenPaymentResponse::RedirectionErrorResponse(response),
        ),
        ResponseReadings { webhook: Some(response), .. } => Some(
            AdyenPaymentResponse::WebhookResponse(response),
        ),
        _ => None,
    }
}

/// Picks the response that a payload stands for among its readings.
pub fn first_reading(readings: ResponseReadings) -> (res: Option<AdyenPaymentResponse>)
    ensures
        res == spec_first_reading(readings),
{
    if let Some(response) = readings.response {
        Some(AdyenPaymentResponse::Response(response))
    } else if let Some(response) = readings.present_to_shopper {
        Some(AdyenPaymentResponse::PresentToShopper(response))
    } else if let Some(response) = readings.qr_code {
        Some(AdyenPaymentResponse::QrCodeResponse(response))
    } else if let Some(response) = readings.redirection {
        Some(AdyenPaymentResponse::RedirectionResponse(response))
    } else if let Some(response) = readings.redirection_error {
        Some(AdyenPaymentResponse::RedirectionErrorResponse(response))
    } else if let Some(response) = readings.webhook {
        Some(AdyenPaymentResponse::WebhookResponse(response))
    } else {
        None
    }
}

/// A payload that reads as a payment that needs no further step stands
/// for that, whatever else it reads as; and a payload stands for no
/// response only if it has no reading at all.
pub proof fn lemma_first_reading_heeds_precedence(readings: ResponseReadings)
    ensures
        readings.response matches Some(response) ==> spec_first_reading(readings) == Some(
            AdyenPaymentResponse::Response(response),
        ),
        spec_first_reading(readings) is None <==> (readings.response is None
            && readings.present_to_shopper is None && readings.qr_code is None
            && readings.redirection is None && readings.redirection_error is None
            && readings.webhook is None),
{
}

/// What a caller hands the parser beyond the response itself.
#[derive(Clone, Debug, PartialEq, Eq)]
pub struct ParseContext {
    /// The time of the call in nanoseconds since the epoch.
    pub current_time: i128,
    /// The image that was made of the QR code of the response, as a data
    /// address; none if the response has no QR code or no image could be
    /// made of it.
    pub qr_image_data: Option<String>,
}

/// Whether `res` is what a payment response of any shape comes to.
pub open spec fn spec_is_parsed(
    response: AdyenPaymentResponse,
    is_manual_capture: bool,
    is_multiple_capture_psync_flow: bool,
    status_code: u16,
    pmt: Option<PaymentMethodType>,
    context: ParseContext,
    res: Result<ParsedResponse, ConnectorError>,
) -> bool {
    match response {
        AdyenPaymentResponse::Response(response) => spec_is_parsed_response(
            response,
            is_manual_capture,
            status_code,
            pmt,
            res,
        ),
        AdyenPaymentResponse::PresentToShopper(response) => spec_is_parsed_present_to_shopper(
            response,
            is_manual_capture,
            status_code,
            pmt,
            res,
        ),
        AdyenPaymentResponse::QrCodeResponse(response) => spec_is_parsed_qr_code(
            response,
            is_manual_capture,
            status_code,
            pmt,
            context.qr_image_data,
            res,
        ),
        AdyenPaymentResponse::RedirectionResponse(response) => spec_is_parsed_redirection(
            response,
            is_manual_capture,
            status_code,
            pmt,
            context.current_time,
            res,
        ),
        AdyenPaymentResponse::RedirectionErrorResponse(response) =>
            spec_is_parsed_redirection_error(response, is_manual_capture, status_code, pmt, res),
        AdyenPaymentResponse::WebhookResponse(response) => spec_is_parsed_webhook(
            response,
            is_manual_capture,
            is_multiple_capture_psync_flow,
            status_code,
            res,
        ),
    }
}

/// Parses a payment response of any shape.
pub fn parse_payment_response(
    response: AdyenPaymentResponse,
    is_manual_capture: bool,
    is_multiple_capture_psync_flow: bool,
    status_code: u16,
    pmt: Option<PaymentMethodType>,
    context: ParseContext,
) -> (res: Result<ParsedResponse, ConnectorError>)
    ensures
        spec_is_parsed(
            response,
            is_manual_capture,
            is_multiple_capture_psync_flow,
            status_code,
            pmt,
            context,
            res,
        ),
        spec_error_is_filled(res),
{
    match response {
        AdyenPaymentResponse::Response(response) => get_adyen_response(
            response,
            is_manual_capture,
            status_code,
            pmt,
        ),
        AdyenPaymentResponse::PresentToShopper(response) => get_present_to_shopper_response(
            response,
            is_manual_capture,
            status_code,
            pmt,
        ),
        AdyenPaymentResponse::QrCodeResponse(response) => get_qr_code_response(
            response,
            is_manual_capture,
            status_code,
            pmt,
            context.qr_image_data,
        ),
        AdyenPaymentResponse::RedirectionResponse(response) => get_redirection_response(
            response,
            is_manual_capture,
            status_code,
            pmt,
            context.current_time,
        ),
        AdyenPaymentResponse::RedirectionErrorResponse(response) => get_redirection_error_response(
            response,
            is_manual_capture,
            status_code,
            pmt,
        ),
        AdyenPaymentResponse::WebhookResponse(response) => get_webhook_response(
            response,
            is_manual_capture,
            is_multiple_capture_psync_flow,
            status_code,
        ),
    }
}

/// Whether `response` is what a parsed response makes the outcome of a
/// request: the error of a declined payment, or else the response data.
pub open spec fn spec_is_outcome(
    error: Option<ErrorResponse>,
    data: PaymentsResponseData,
    response: Result<PaymentsResponseData, ErrorResponse>,
) -> bool {
    match error {
        Some(e) => response == Err::<PaymentsResponseData, ErrorResponse>(e),
        None => response == Ok::<PaymentsResponseData, ErrorResponse>(data),
    }
}

/// Whether `res` is the request `data` with a parsed response put into it.
pub open spec fn spec_is_merged<Request>(
    data: RouterData<Request, PaymentsResponseData>,
    parsed: Result<ParsedResponse, ConnectorError>,
    res: Result<RouterData<Request, PaymentsResponseData>, ConnectorError>,
) -> bool {
    match parsed {
        Err(e) => res == Err::<RouterData<Request, PaymentsResponseData>, ConnectorError>(e),
        Ok((status, error, response_data)) => {
            &&& res matches Ok(updated)
            &&& updated.status == status
            &&& spec_is_outcome(error, response_data, updated.response)
            &&& updated == (RouterData {
                status: updated.status,
                response: updated.response,
                ..data
            })
        },
    }
}

/// Puts a payment response into the request it answers. The status and
/// the outcome of the request are set from the response; everything else
/// stays as it is.
pub fn foreign_try_from<Request>(
    item: ResponseRouterData<AdyenPaymentResponse, Request, PaymentsResponseData>,
    capture_method: Option<CaptureMethod>,
    is_multiple_capture_psync_flow: bool,
    pmt: Option<PaymentMethodType>,
    context: ParseContext,
) -> (res: Result<RouterData<Request, PaymentsResponseData>, ConnectorError>)
    ensures
        exists|parsed: Result<ParsedResponse, ConnectorError>|
            #![auto]
            spec_is_parsed(
                item.response,
                spec_is_manual_capture(capture_method),
                is_multiple_capture_psync_flow,
                item.http_code,
                pmt,
                context,
                parsed,
            ) && spec_is_merged(item.data, parsed, res),
        res matches Ok(updated) ==> (updated.response matches Err(e) ==> e.wf()),
{
    let is_manual_capture = is_manual_capture(capture_method);
    let ghost data = item.data;
    let parsed = parse_payment_response(
        item.response,
        is_manual_capture,
        is_multiple_capture_psync_flow,
        item.http_code,
        pmt,
        context,
    );
    let ghost witness = parsed;
    let out = match parsed {
        Ok((status, error, payment_response_data)) => {
            let response = match error {
                Some(e) => Err(e),
                None => Ok(payment_response_data),
            };
            Ok(RouterData { status, response, ..item.data })
        },
        Err(e) => Err(e),
    };
    assert(spec_is_merged(data, witness, out));
    out
}

} // verus!
