//! The response parser for Bank of America: how each response is put in
//! terms of the canonical model.
//!
//! A payment that the processor declined is no failure of the parser: the
//! request ends with the status `Failure` and the error of the decline.

use vstd::prelude::*;
use crate::bankofamerica::error::{
    error_response_from,
    rejection,
    spec_error_response_from,
    spec_rejection,
};
use crate::bankofamerica::status::{
    attempt_status_from,
    refund_status_from,
    refund_status_of_response,
    spec_attempt_status,
    spec_refund_error_reason,
    spec_refund_status,
};
use crate::bankofamerica::types::{
    BankOfAmericaClientReferenceResponse,
    BankOfAmericaErrorInformation,
    BankOfAmericaErrorInformationResponse,
    BankOfAmericaPaymentsResponse,
    BankOfAmericaRefundResponse,
    BankOfAmericaRsyncResponse,
    BankOfAmericaSetupMandatesResponse,
    BankOfAmericaTokenInformation,
    BankOfAmericaTransactionResponse,
    BankofamericaRefundStatus,
    ClientProcessorInformation,
    ConsumerAuthenticationInformation,
};
use crate::consts::REFUND_VOIDED;
use crate::enums::{AttemptStatus, PaymentMethod, RefundStatus};
use crate::errors::ConnectorError;
use crate::router_data::{
    is_auto_capture,
    spec_is_auto_capture,
    PaymentsAuthorizeData,
    PaymentsCancelData,
    PaymentsCaptureData,
    PaymentsSyncData,
    RefundsData,
    ResponseRouterData,
    RouterData,
};
use crate::router_response::{
    spec_error_response,
    AdditionalPaymentMethodConnectorResponse,
    CardAuthenticationData,
    CardPaymentChecks,
    CheckResult,
    ConnectorResponseData,
    ErrorResponse,
    ErrorResponseView,
    MandateReference,
    PaymentsResponseData,
    RefundsResponseData,
    ResponseId,
};
use crate::text::{opt_str, owned};

verus! {

/// The mandate that a response set up, if it set one up: the mandate is
/// addressed by the payment instrument that the processor stored.
pub open spec fn spec_mandate_reference(token_information: Option<BankOfAmericaTokenInformation>) -> Option<
    MandateReference,
> {
    match token_information {
        Some(BankOfAmericaTokenInformation { payment_instrument: Some(instrument) }) => Some(
            MandateReference {
                connector_mandate_id: Some(instrument.id),
                network_transaction_id: None,
                payment_method_id: None,
            },
        ),
        _ => None,
    }
}

fn mandate_reference(token_information: &Option<BankOfAmericaTokenInformation>) -> (res: Option<
    MandateReference,
>)
    ensures
        res == spec_mandate_reference(*token_information),
        res matches Some(reference) ==> reference.wf(),
{
    match token_information {
        Some(BankOfAmericaTokenInformation { payment_instrument: Some(instrument) }) => Some(
            MandateReference::from_connector_mandate_id(instrument.id.clone()),
        ),
        _ => None,
    }
}

/// The response data of a payment that the processor took on: the id of
/// the payment, the mandate it set up, and the merchant's reference, or
/// the id where the response gives none.
pub open spec fn spec_transaction_data(
    info_response: BankOfAmericaClientReferenceResponse,
) -> PaymentsResponseData {
    PaymentsResponseData::TransactionResponse {
        resource_id: ResponseId::ConnectorTransactionId(info_response.id),
        redirection_data: None,
        mandate_reference: spec_mandate_reference(info_response.token_information),
        connector_metadata: None,
        network_txn_id: None,
        connector_response_reference_id: Some(
            match info_response.client_reference_information.code {
                Some(code) => code,
                None => info_response.id,
            },
        ),
        incremental_authorization_allowed: None,
        charges: None,
    }
}

/// The error of a payment whose status reports a failure, as plain values;
/// a payment with any other status has no error.
pub open spec fn spec_error_if_failure(
    info_response: BankOfAmericaClientReferenceResponse,
    status: AttemptStatus,
    http_code: u16,
) -> Option<ErrorResponseView> {
    if status.spec_is_failure() {
        Some(
            spec_error_response_from(
                info_response.error_information,
                info_response.risk_information,
                Some(status),
                http_code,
                info_response.id,
            ),
        )
    } else {
        None
    }
}

/// Makes the error of a payment whose status reports a failure.
pub fn get_error_response_if_failure(
    info_response: &BankOfAmericaClientReferenceResponse,
    status: AttemptStatus,
    http_code: u16,
) -> (res: Option<ErrorResponse>)
    ensures
        crate::router_response::opt_error(res) == spec_error_if_failure(
            *info_response,
            status,
            http_code,
        ),
        res matches Some(e) ==> e.wf(),
{
    if status.is_failure() {
        Some(
            error_response_from(
                &info_response.error_information,
                &info_response.risk_information,
                Some(status),
                http_code,
                info_response.id.clone(),
            ),
        )
    } else {
        None
    }
}

/// Whether `res` is the outcome of a payment that the processor took on:
/// the error of the payment if its status reports a failure, and the
/// response data otherwise.
pub open spec fn spec_is_payment_response(
    info_response: BankOfAmericaClientReferenceResponse,
    status: AttemptStatus,
    http_code: u16,
    res: Result<PaymentsResponseData, ErrorResponse>,
) -> bool {
    match spec_error_if_failure(info_response, status, http_code) {
        Some(error) => res matches Err(e) && e@ == error,
        None => res == Ok::<PaymentsResponseData, ErrorResponse>(
            spec_transaction_data(info_response),
        ),
    }
}

/// Tells the outcome of a payment that the processor took on.
pub fn get_payment_response(
    info_response: &BankOfAmericaClientReferenceResponse,
    status: AttemptStatus,
    http_code: u16,
) -> (res: Result<PaymentsResponseData, ErrorResponse>)
    ensures
        spec_is_payment_response(*info_response, status, http_code, res),
        res matches Err(e) ==> e.wf(),
{
    let error_response = get_error_response_if_failure(info_response, status, http_code);
    match error_response {
        Some(error) => Err(error),
        None => {
            let mandate_reference = mandate_reference(&info_response.token_information);
            Ok(
                PaymentsResponseData::TransactionResponse {
                    resource_id: ResponseId::ConnectorTransactionId(info_response.id.clone()),
                    redirection_data: None,
                    mandate_reference,
                    connector_metadata: None,
                    network_txn_id: None,
                    connector_response_reference_id: Some(
                        match &info_response.client_reference_information.code {
                            Some(code) => code.clone(),
                            None => info_response.id.clone(),
                        },
                    ),
                    incremental_authorization_allowed: None,
                    charges: None,
                },
            )
        },
    }
}

/// What the processor reports about a card payment beyond the payment: the
/// outcome of the checks on the card, and how the shopper was
/// authenticated.
pub open spec fn spec_additional_card_data(
    processor_information: ClientProcessorInformation,
    consumer_authentication_information: ConsumerAuthenticationInformation,
) -> AdditionalPaymentMethodConnectorResponse {
    AdditionalPaymentMethodConnectorResponse::Card {
        authentication_data: Some(
            CardAuthenticationData {
                retrieval_reference_number: processor_information.retrieval_reference_number,
                acs_transaction_id: consumer_authentication_information.acs_transaction_id,
                system_trace_audit_number: processor_information.system_trace_audit_number,
            },
        ),
        payment_checks: Some(
            CardPaymentChecks {
                avs_response: match processor_information.avs {
                    Some(avs) => Some(CheckResult { code: avs.code, code_raw: avs.code_raw }),
                    None => None,
                },
                card_verification: match processor_information.card_verification {
                    Some(check) => Some(
                        CheckResult { code: check.result_code, code_raw: check.result_code_raw },
                    ),
                    None => None,
                },
                approval_code: processor_information.approval_code,
                consumer_authentication_response: match processor_information.consumer_authentication_response {
                    Some(response) => Some(
                        CheckResult { code: response.code, code_raw: response.code_raw },
                    ),
                    None => None,
                },
                cavv: consumer_authentication_information.cavv,
                eci: consumer_authentication_information.eci,
                eci_raw: consumer_authentication_information.eci_raw,
            },
        ),
    }
}

/// Collects what the processor reports about a card payment beyond the
/// payment.
pub fn additional_card_data(
    processor_information: &ClientProcessorInformation,
    consumer_authentication_information: &ConsumerAuthenticationInformation,
) -> (res: AdditionalPaymentMethodConnectorResponse)
    ensures
        res == spec_additional_card_data(
            *processor_information,
            *consumer_authentication_information,
        ),
{
    AdditionalPaymentMethodConnectorResponse::Card {
        authentication_data: Some(
            CardAuthenticationData {
                retrieval_reference_number: processor_information.retrieval_reference_number.clone(),
                acs_transaction_id: consumer_authentication_information.acs_transaction_id.clone(),
                system_trace_audit_number: processor_information.system_trace_audit_number.clone(),
            },
        ),
        payment_checks: Some(
            CardPaymentChecks {
                avs_response: match &processor_information.avs {
                    Some(avs) => Some(
                        CheckResult { code: avs.code.clone(), code_raw: avs.code_raw.clone() },
                    ),
                    None => None,
                },
                card_verification: match &processor_information.card_verification {
                    Some(check) => Some(
                        CheckResult {
                            code: check.result_code.clone(),
                            code_raw: check.result_code_raw.clone(),
                        },
                    ),
                    None => None,
                },
                approval_code: processor_information.approval_code.clone(),
                consumer_authentication_response: match &processor_information.consumer_authentication_response {
                    Some(response) => Some(
                        CheckResult {
                            code: response.code.clone(),
                            code_raw: response.code_raw.clone(),
                        },
                    ),
                    None => None,
                },
                cavv: consumer_authentication_information.cavv.clone(),
                eci: consumer_authentication_information.eci.clone(),
                eci_raw: consumer_authentication_information.eci_raw.clone(),
            },
        ),
    }
}

/// What the processor reports beyond the canonical response data: for a
/// card payment the checks on the card, where the response tells of the
/// processor and of the authentication; nothing for any other payment.
pub open spec fn spec_connector_response(
    payment_method: PaymentMethod,
    processor_information: Option<ClientProcessorInformation>,
    consumer_authentication_information: Option<ConsumerAuthenticationInformation>,
) -> Option<ConnectorResponseData> {
    match (payment_method, processor_information, consumer_authentication_information) {
        (PaymentMethod::Card, Some(processor), Some(authentication)) => Some(
            ConnectorResponseData {
                additional_payment_method_data: Some(
                    spec_additional_card_data(processor, authentication),
                ),
            },
        ),
        _ => None,
    }
}

/// Collects what the processor reports beyond the canonical response data.
pub fn connector_response(
    payment_method: PaymentMethod,
    processor_information: &Option<ClientProcessorInformation>,
    consumer_authentication_information: &Option<ConsumerAuthenticationInformation>,
) -> (res: Option<ConnectorResponseData>)
    ensures
        res == spec_connector_response(
            payment_method,
            *processor_information,
            *consumer_authentication_information,
        ),
{
    match payment_method {
        PaymentMethod::Card => match (processor_information, consumer_authentication_information) {
            (Some(processor), Some(authentication)) => Some(
                ConnectorResponseData::with_additional_payment_method_data(
                    additional_card_data(processor, authentication),
                ),
            ),
            _ => None,
        },
        PaymentMethod::CardRedirect
        | PaymentMethod::PayLater
        | PaymentMethod::Wallet
        | PaymentMethod::BankRedirect
        | PaymentMethod::BankTransfer
        | PaymentMethod::Crypto
        | PaymentMethod::BankDebit
        | PaymentMethod::Reward
        | PaymentMethod::RealTimePayment
        | PaymentMethod::MobilePayment
        | PaymentMethod::Upi
        | PaymentMethod::Voucher
        | PaymentMethod::OpenBanking
        | PaymentMethod::GiftCard => None,
    }
}

/// Whether `updated` is the request `data` with a rejection put into it:
/// the request ends in the error of the rejection, and takes the given
/// status if one is given.
pub open spec fn spec_is_rejected<Request>(
    data: RouterData<Request, PaymentsResponseData>,
    error_response: BankOfAmericaErrorInformationResponse,
    http_code: u16,
    transaction_status: Option<AttemptStatus>,
    updated: RouterData<Request, PaymentsResponseData>,
) -> bool {
    &&& updated.response matches Err(e)
    &&& e@ == spec_rejection(error_response, http_code)
    &&& updated.status == (match transaction_status {
        Some(status) => status,
        None => data.status,
    })
    &&& updated == (RouterData { response: updated.response, status: updated.status, ..data })
}

/// Puts the response to a request that the processor rejected into the
/// request.
pub fn rejected<Request>(
    error_response: &BankOfAmericaErrorInformationResponse,
    data: RouterData<Request, PaymentsResponseData>,
    http_code: u16,
    transaction_status: Option<AttemptStatus>,
) -> (res: RouterData<Request, PaymentsResponseData>)
    ensures
        spec_is_rejected(data, *error_response, http_code, transaction_status, res),
        res.response matches Err(e) && e.wf(),
{
    let response = Err(rejection(error_response, http_code));
    match transaction_status {
        Some(status) => RouterData { response, status, ..data },
        None => RouterData { response, ..data },
    }
}

/// Whether `updated` is the request `data` with the response to a payment
/// that the processor took on put into it.
pub open spec fn spec_is_taken_on<Request>(
    data: RouterData<Request, PaymentsResponseData>,
    info_response: BankOfAmericaClientReferenceResponse,
    status: AttemptStatus,
    http_code: u16,
    updated: RouterData<Request, PaymentsResponseData>,
) -> bool {
    &&& updated.status == status
    &&& spec_is_payment_response(info_response, status, http_code, updated.response)
    &&& updated == (RouterData { response: updated.response, status: updated.status, ..data })
}

/// Whether `res` is the outcome of putting the response to the request to
/// authorize a payment into the request.
pub open spec fn spec_is_authorize_response(
    item: ResponseRouterData<
        BankOfAmericaPaymentsResponse,
        PaymentsAuthorizeData,
        PaymentsResponseData,
    >,
    res: Result<RouterData<PaymentsAuthorizeData, PaymentsResponseData>, ConnectorError>,
) -> bool {
    match item.response {
        BankOfAmericaPaymentsResponse::ClientReferenceInformation(info_response) => {
            match spec_is_auto_capture(item.data.request.capture_method) {
                Err(e) => res == Err::<
                    RouterData<PaymentsAuthorizeData, PaymentsResponseData>,
                    ConnectorError,
                >(e),
                Ok(auto_capture) => {
                    let status = spec_attempt_status(info_response.status, auto_capture);
                    &&& res matches Ok(updated)
                    &&& updated.status == status
                    &&& spec_is_payment_response(
                        info_response,
                        status,
                        item.http_code,
                        updated.response,
                    )
                    &&& updated.connector_response == spec_connector_response(
                        item.data.payment_method,
                        info_response.processor_information,
                        info_response.consumer_authentication_information,
                    )
                    &&& updated == (RouterData {
                        response: updated.response,
                        status: updated.status,
                        connector_response: updated.connector_response,
                        ..item.data
                    })
                },
            }
        },
        BankOfAmericaPaymentsResponse::ErrorInformation(error_response) => {
            &&& res matches Ok(updated)
            &&& spec_is_rejected(
                item.data,
                error_response,
                item.http_code,
                Some(AttemptStatus::Failure),
                updated,
            )
        },
    }
}

/// Puts the response to the request to authorize a payment into the
/// request.
pub fn authorize_response(
    item: ResponseRouterData<
        BankOfAmericaPaymentsResponse,
        PaymentsAuthorizeData,
        PaymentsResponseData,
    >,
) -> (res: Result<RouterData<PaymentsAuthorizeData, PaymentsResponseData>, ConnectorError>)
    ensures
        spec_is_authorize_response(item, res),
        res matches Ok(updated) ==> (updated.response matches Err(e) ==> e.wf()),
{
    match item.response {
        BankOfAmericaPaymentsResponse::ClientReferenceInformation(info_response) => {
            let status = attempt_status_from(
                info_response.status,
                is_auto_capture(item.data.request.capture_method)?,
            );
            let response = get_payment_response(&info_response, status, item.http_code);
            let connector_response = connector_response(
                item.data.payment_method,
                &info_response.processor_information,
                &info_response.consumer_authentication_information,
            );
            Ok(RouterData { status, response, connector_response, ..item.data })
        },
        BankOfAmericaPaymentsResponse::ErrorInformation(error_response) => Ok(
            rejected(&error_response, item.data, item.http_code, Some(AttemptStatus::Failure)),
        ),
    }
}

/// Whether `updated` is the outcome of putting the response to a capture
/// or a void into the request. A capture is read as with automatic capture,
/// a void as with manual capture. A rejection leaves the status as it is.
pub open spec fn spec_is_followup_response<Request>(
    item: ResponseRouterData<BankOfAmericaPaymentsResponse, Request, PaymentsResponseData>,
    auto_capture: bool,
    updated: RouterData<Request, PaymentsResponseData>,
) -> bool {
    match item.response {
        BankOfAmericaPaymentsResponse::ClientReferenceInformation(info_response) =>
            spec_is_taken_on(
                item.data,
                info_response,
                spec_attempt_status(info_response.status, auto_capture),
                item.http_code,
                updated,
            ),
        BankOfAmericaPaymentsResponse::ErrorInformation(error_response) => spec_is_rejected(
            item.data,
            error_response,
            item.http_code,
            None,
            updated,
        ),
    }
}

fn followup_response<Request>(
    item: ResponseRouterData<BankOfAmericaPaymentsResponse, Request, PaymentsResponseData>,
    auto_capture: bool,
) -> (res: RouterData<Request, PaymentsResponseData>)
    ensures
        spec_is_followup_response(item, auto_capture, res),
        res.response matches Err(e) ==> e.wf(),
{
    match item.response {
        BankOfAmericaPaymentsResponse::ClientReferenceInformation(info_response) => {
            let status = attempt_status_from(info_response.status, auto_capture);
            let response = get_payment_response(&info_response, status, item.http_code);
            RouterData { status, response, ..item.data }
        },
        BankOfAmericaPaymentsResponse::ErrorInformation(error_response) => rejected(
            &error_response,
            item.data,
            item.http_code,
            None,
        ),
    }
}

/// Puts the response to a capture into the request.
pub fn capture_response(
    item: ResponseRouterData<
        BankOfAmericaPaymentsResponse,
        PaymentsCaptureData,
        PaymentsResponseData,
    >,
) -> (res: Result<RouterData<PaymentsCaptureData, PaymentsResponseData>, ConnectorError>)
    ensures
        res matches Ok(updated) && spec_is_followup_response(item, true, updated),
        res matches Ok(updated) ==> (updated.response matches Err(e) ==> e.wf()),
{
    Ok(followup_response(item, true))
}

/// Puts the response to a void into the request.
pub fn cancel_response(
    item: ResponseRouterData<
        BankOfAmericaPaymentsResponse,
        PaymentsCancelData,
        PaymentsResponseData,
    >,
) -> (res: Result<RouterData<PaymentsCancelData, PaymentsResponseData>, ConnectorError>)
    ensures
        res matches Ok(updated) && spec_is_followup_response(item, false, updated),
        res matches Ok(updated) ==> (updated.response matches Err(e) ==> e.wf()),
{
    Ok(followup_response(item, false))
}

/// The status of the request to set a mandate up: a mandate without a
/// payment has nothing to capture, so an authorized mandate is at its end
/// and counts as charged.
pub open spec fn spec_mandate_status(info_response: BankOfAmericaClientReferenceResponse) -> AttemptStatus {
    let status = spec_attempt_status(info_response.status, false);
    if status == AttemptStatus::Authorized {
        AttemptStatus::Charged
    } else {
        status
    }
}

/// Whether `updated` is the outcome of putting the response to the request
/// to set a mandate up into the request.
pub open spec fn spec_is_setup_mandate_response<Request>(
    item: ResponseRouterData<BankOfAmericaSetupMandatesResponse, Request, PaymentsResponseData>,
    updated: RouterData<Request, PaymentsResponseData>,
) -> bool {
    match item.response {
        BankOfAmericaSetupMandatesResponse::ClientReferenceInformation(info_response) => {
            let status = spec_mandate_status(info_response);
            &&& updated.status == status
            &&& spec_is_payment_response(info_response, status, item.http_code, updated.response)
            &&& updated.connector_response == spec_connector_response(
                item.data.payment_method,
                info_response.processor_information,
                info_response.consumer_authentication_information,
            )
            &&& updated == (RouterData {
                response: updated.response,
                status: updated.status,
                connector_response: updated.connector_response,
                ..item.data
            })
        },
        BankOfAmericaSetupMandatesResponse::ErrorInformation(error_response) => spec_is_rejected(
            item.data,
            error_response,
            item.http_code,
            Some(AttemptStatus::Failure),
            updated,
        ),
    }
}

/// Puts the response to the request to set a mandate up into the request.
pub fn setup_mandate_response<Request>(
    item: ResponseRouterData<BankOfAmericaSetupMandatesResponse, Request, PaymentsResponseData>,
) -> (res: Result<RouterData<Request, PaymentsResponseData>, ConnectorError>)
    ensures
        res matches Ok(updated) && spec_is_setup_mandate_response(item, updated),
        res matches Ok(updated) ==> (updated.response matches Err(e) ==> e.wf()),
{
    match item.response {
        BankOfAmericaSetupMandatesResponse::ClientReferenceInformation(info_response) => {
            let mut mandate_status = attempt_status_from(info_response.status, false);
            if matches!(mandate_status, AttemptStatus::Authorized) {
                mandate_status = AttemptStatus::Charged
            }
            let response = get_payment_response(&info_response, mandate_status, item.http_code);
            let connector_response = connector_response(
                item.data.payment_method,
                &info_response.processor_information,
                &info_response.consumer_authentication_information,
            );
            Ok(RouterData { status: mandate_status, response, connector_response, ..item.data })
        },
        BankOfAmericaSetupMandatesResponse::ErrorInformation(error_response) => Ok(
            rejected(&error_response, item.data, item.http_code, Some(AttemptStatus::Failure)),
        ),
    }
}

/// The response data of a payment whose state was asked for.
pub open spec fn spec_sync_data(
    id: String,
    reference: Option<String>,
) -> PaymentsResponseData {
    PaymentsResponseData::TransactionResponse {
        resource_id: ResponseId::ConnectorTransactionId(id),
        redirection_data: None,
        mandate_reference: None,
        connector_metadata: None,
        network_txn_id: None,
        connector_response_reference_id: reference,
        incremental_authorization_allowed: None,
        charges: None,
    }
}

/// Whether `res` is the outcome of putting the state of a payment into the
/// request that asked for it.
///
/// A response that tells the state is read by it: a state that reports a
/// failure ends the request in the error of the payment and the status
/// `Failure`. A response that tells no state leaves the status as it is.
pub open spec fn spec_is_sync_response(
    item: ResponseRouterData<BankOfAmericaTransactionResponse, PaymentsSyncData, PaymentsResponseData>,
    res: Result<RouterData<PaymentsSyncData, PaymentsResponseData>, ConnectorError>,
) -> bool {
    let response = item.response;
    match response.application_information.status {
        Some(app_status) => match spec_is_auto_capture(item.data.request.capture_method) {
            Err(e) => res == Err::<RouterData<PaymentsSyncData, PaymentsResponseData>, ConnectorError>(
                e,
            ),
            Ok(auto_capture) => {
                let status = spec_attempt_status(app_status, auto_capture);
                &&& res matches Ok(updated)
                &&& updated.connector_response == spec_connector_response(
                    item.data.payment_method,
                    response.processor_information,
                    response.consumer_authentication_information,
                )
                &&& if status.spec_is_failure() {
                    &&& updated.status == AttemptStatus::Failure
                    &&& updated.response matches Err(e)
                    &&& e@ == spec_error_response_from(
                        response.error_information,
                        None,
                        Some(status),
                        item.http_code,
                        response.id,
                    )
                } else {
                    &&& updated.status == status
                    &&& updated.response == Ok::<PaymentsResponseData, ErrorResponse>(
                        spec_sync_data(
                            response.id,
                            match response.client_reference_information {
                                Some(reference) => reference.code,
                                None => Some(response.id),
                            },
                        ),
                    )
                }
                &&& updated == (RouterData {
                    response: updated.response,
                    status: updated.status,
                    connector_response: updated.connector_response,
                    ..item.data
                })
            },
        },
        None => res == Ok::<RouterData<PaymentsSyncData, PaymentsResponseData>, ConnectorError>(
            RouterData {
                response: Ok(spec_sync_data(response.id, Some(response.id))),
                ..item.data
            },
        ),
    }
}

/// Puts the state of a payment into the request that asked for it.
pub fn sync_response(
    item: ResponseRouterData<BankOfAmericaTransactionResponse, PaymentsSyncData, PaymentsResponseData>,
) -> (res: Result<RouterData<PaymentsSyncData, PaymentsResponseData>, ConnectorError>)
    ensures
        spec_is_sync_response(item, res),
        res matches Ok(updated) ==> (updated.response matches Err(e) ==> e.wf()),
{
    match item.response.application_information.status {
        Some(app_status) => {
            let status = attempt_status_from(
                app_status,
                is_auto_capture(item.data.request.capture_method)?,
            );
            let connector_response = connector_response(
                item.data.payment_method,
                &item.response.processor_information,
                &item.response.consumer_authentication_information,
            );
            if status.is_failure() {
                Ok(
                    RouterData {
                        response: Err(
                            error_response_from(
                                &item.response.error_information,
                                &None,
                                Some(status),
                                item.http_code,
                                item.response.id.clone(),
                            ),
                        ),
                        status: AttemptStatus::Failure,
                        connector_response,
                        ..item.data
                    },
                )
            } else {
                Ok(
                    RouterData {
                        status,
                        response: Ok(
                            PaymentsResponseData::TransactionResponse {
                                resource_id: ResponseId::ConnectorTransactionId(
                                    item.response.id.clone(),
                                ),
                                redirection_data: None,
                                mandate_reference: None,
                                connector_metadata: None,
                                network_txn_id: None,
                                connector_response_reference_id: match item.response.client_reference_information {
                                    Some(reference) => reference.code,
                                    None => Some(item.response.id),
                                },
                                incremental_authorization_allowed: None,
                                charges: None,
                            },
                        ),
                        connector_response,
                        ..item.data
                    },
                )
            }
        },
        None => Ok(
            RouterData {
                response: Ok(
                    PaymentsResponseData::TransactionResponse {
                        resource_id: ResponseId::ConnectorTransactionId(item.response.id.clone()),
                        redirection_data: None,
                        mandate_reference: None,
                        connector_metadata: None,
                        network_txn_id: None,
                        connector_response_reference_id: Some(item.response.id),
                        incremental_authorization_allowed: None,
                        charges: None,
                    },
                ),
                ..item.data
            },
        ),
    }
}

/// Whether `updated` is the refund request with the response to the refund
/// put into it: a refund that failed ends in its error, any other refund
/// in its id and status.
pub open spec fn spec_is_refund_response(
    item: ResponseRouterData<BankOfAmericaRefundResponse, RefundsData, RefundsResponseData>,
    updated: RouterData<RefundsData, RefundsResponseData>,
) -> bool {
    let refund_status = spec_refund_status(
        item.response.status,
        spec_refund_error_reason(item.response),
    );
    &&& if refund_status.spec_is_failure() {
        &&& updated.response matches Err(e)
        &&& e@ == spec_error_response_from(
            item.response.error_information,
            None,
            None,
            item.http_code,
            item.response.id,
        )
    } else {
        updated.response == Ok::<RefundsResponseData, ErrorResponse>(
            RefundsResponseData { connector_refund_id: item.response.id, refund_status },
        )
    }
    &&& updated == (RouterData { response: updated.response, ..item.data })
}

/// Puts the response to a refund into the request.
pub fn refund_response(
    item: ResponseRouterData<BankOfAmericaRefundResponse, RefundsData, RefundsResponseData>,
) -> (res: Result<RouterData<RefundsData, RefundsResponseData>, ConnectorError>)
    ensures
        res matches Ok(updated) && spec_is_refund_response(item, updated),
{
    let refund_status = refund_status_of_response(&item.response);
    let response = if refund_status.is_failure() {
        Err(
            error_response_from(
                &item.response.error_information,
                &None,
                None,
                item.http_code,
                item.response.id,
            ),
        )
    } else {
        Ok(RefundsResponseData { connector_refund_id: item.response.id, refund_status })
    };
    Ok(RouterData { response, ..item.data })
}

/// The status of a refund before its state was asked for: the status that
/// the request ended in, or pending if it ended in an error.
pub open spec fn spec_previous_refund_status(
    response: Result<RefundsResponseData, ErrorResponse>,
) -> RefundStatus {
    match response {
        Ok(response) => response.refund_status,
        Err(_) => RefundStatus::Pending,
    }
}

/// The reason code that the state of a refund gives, if it gives one.
pub open spec fn spec_rsync_error_reason(response: BankOfAmericaRsyncResponse) -> Option<
    Seq<char>,
> {
    match response.error_information {
        Some(error) => opt_str(error.reason),
        None => None,
    }
}

/// The state of a refund, if the response tells it.
pub open spec fn spec_rsync_status(response: BankOfAmericaRsyncResponse) -> Option<
    BankofamericaRefundStatus,
> {
    match response.application_information {
        Some(application) => application.status,
        None => None,
    }
}

/// The error of a refund that was voided, as plain values: code, message
/// and reason all say that the refund was voided.
pub open spec fn spec_refund_voided_error(id: String, http_code: u16) -> ErrorResponseView {
    spec_error_response(
        Some(REFUND_VOIDED@),
        Some(REFUND_VOIDED@),
        crate::bankofamerica::error::spec_error_reason(
            Some(REFUND_VOIDED@),
            None,
            None,
        ),
        http_code,
        None,
        Some(id@),
        None,
        None,
    )
}

/// Whether `updated` is the refund request with the state of the refund
/// put into it.
///
/// A response that tells the state is read by it. A refund that failed
/// ends in its error; a refund that was voided says so in its error. A
/// response that tells no state leaves the status of the refund as it was.
pub open spec fn spec_is_rsync_response(
    item: ResponseRouterData<BankOfAmericaRsyncResponse, RefundsData, RefundsResponseData>,
    updated: RouterData<RefundsData, RefundsResponseData>,
) -> bool {
    let response = item.response;
    &&& match spec_rsync_status(response) {
        Some(status) => {
            let refund_status = spec_refund_status(status, spec_rsync_error_reason(response));
            if refund_status.spec_is_failure() {
                &&& updated.response matches Err(e)
                &&& e@ == (if status == BankofamericaRefundStatus::Voided {
                    spec_refund_voided_error(response.id, item.http_code)
                } else {
                    spec_error_response_from(
                        response.error_information,
                        None,
                        None,
                        item.http_code,
                        response.id,
                    )
                })
            } else {
                updated.response == Ok::<RefundsResponseData, ErrorResponse>(
                    RefundsResponseData { connector_refund_id: response.id, refund_status },
                )
            }
        },
        None => updated.response == Ok::<RefundsResponseData, ErrorResponse>(
            RefundsResponseData {
                connector_refund_id: response.id,
                refund_status: spec_previous_refund_status(item.data.response),
            },
        ),
    }
    &&& updated == (RouterData { response: updated.response, ..item.data })
}

/// Puts the state of a refund into the request that asked for it.
pub fn rsync_response(
    item: ResponseRouterData<BankOfAmericaRsyncResponse, RefundsData, RefundsResponseData>,
) -> (res: Result<RouterData<RefundsData, RefundsResponseData>, ConnectorError>)
    ensures
        res matches Ok(updated) && spec_is_rsync_response(item, updated),
        res matches Ok(updated) ==> (updated.response matches Err(e) ==> e.wf()),
{
    let status = match &item.response.application_information {
        Some(application) => application.status,
        None => None,
    };
    let response = match status {
        Some(status) => {
            let error_reason = match &item.response.error_information {
                Some(error) => error.reason.clone(),
                None => None,
            };
            let refund_status = refund_status_from(status, &error_reason);
            if refund_status.is_failure() {
                if matches!(status, BankofamericaRefundStatus::Voided) {
                    Err(
                        error_response_from(
                            &Some(
                                BankOfAmericaErrorInformation {
                                    message: Some(owned(REFUND_VOIDED)),
                                    reason: Some(owned(REFUND_VOIDED)),
                                    details: None,
                                },
                            ),
                            &None,
                            None,
                            item.http_code,
                            item.response.id.clone(),
                        ),
                    )
                } else {
                    Err(
                        error_response_from(
                            &item.response.error_information,
                            &None,
                            None,
                            item.http_code,
                            item.response.id.clone(),
                        ),
                    )
                }
            } else {
                Ok(RefundsResponseData { connector_refund_id: item.response.id, refund_status })
            }
        },
        None => Ok(
            RefundsResponseData {
                connector_refund_id: item.response.id.clone(),
                refund_status: match &item.data.response {
                    Ok(response) => response.refund_status,
                    Err(_) => RefundStatus::Pending,
                },
            },
        ),
    };
    Ok(RouterData { response, ..item.data })
}

} // verus!
