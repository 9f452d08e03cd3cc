//! Capture, void, refund and balance with Adyen: the requests, and what
//! the responses come to.
//!
//! Adyen answers a capture, a void and a refund with a receipt; how the
//! operation ended is told later by a webhook. So each of these responses
//! leaves the operation pending.

use vstd::prelude::*;
use crate::adyen::split::{
    construct_charge_response,
    get_adyen_split_request,
    spec_charges,
    spec_splits_to_wire,
};
use crate::adyen::types::{
    AdyenAuthType,
    AdyenBalanceRequest,
    AdyenBalanceResponse,
    AdyenCancelRequest,
    AdyenCancelResponse,
    AdyenCaptureRequest,
    AdyenCaptureResponse,
    AdyenConnectorMetadataObject,
    AdyenPaymentMethod,
    AdyenRefundRequest,
    AdyenRefundResponse,
    AdyenRouterData,
    Amount,
    BalancePmData,
};
use crate::currency::MinorUnit;
use crate::enums::{AttemptStatus, RefundStatus};
use crate::errors::ConnectorError;
use crate::payment_method_data::{GiftCardData, PaymentMethodData};
use crate::router_data::{
    PaymentsAuthorizeData,
    PaymentsCancelData,
    PaymentsCancelRouterData,
    PaymentsCaptureData,
    PaymentsCaptureRouterData,
    PaymentsPreProcessingData,
    PaymentsPreProcessingRouterData,
    RefundsRouterData,
    ResponseRouterData,
    RouterData,
    SetupMandateRequestData,
    SplitRefundsRequest,
};
use crate::router_response::{
    PaymentMethodBalance,
    PaymentsResponseData,
    RefundsResponseData,
    ResponseId,
};

verus! {

impl AdyenConnectorMetadataObject {
    /// What is configured for an Adyen account, or the error for an account
    /// whose configuration is absent or cannot be read.
    pub open spec fn spec_try_from(meta_data: Option<Self>) -> Result<Self, ConnectorError> {
        match meta_data {
            Some(metadata) => Ok(metadata),
            None => Err(ConnectorError::InvalidConnectorConfig { config: "metadata" }),
        }
    }

    /// Takes what is configured for an Adyen account. `meta_data` is the
    /// configuration as it was read, or none if there is none or it cannot
    /// be read.
    pub fn try_from(meta_data: Option<Self>) -> (res: Result<Self, ConnectorError>)
        ensures
            res == Self::spec_try_from(meta_data),
    {
        match meta_data {
            Some(metadata) => Ok(metadata),
            None => Err(ConnectorError::InvalidConnectorConfig { config: "metadata" }),
        }
    }
}

impl AdyenCancelRequest {
    /// The request to void a payment: the payment is named by the
    /// reference of the request.
    pub open spec fn spec_try_from(item: PaymentsCancelRouterData) -> Result<Self, ConnectorError> {
        match AdyenAuthType::spec_try_from(item.connector_auth_type) {
            Ok(auth) => Ok(
                AdyenCancelRequest {
                    merchant_account: auth.merchant_account,
                    reference: item.connector_request_reference_id,
                },
            ),
            Err(e) => Err(e),
        }
    }

    /// Builds the request to void a payment.
    pub fn try_from(item: &PaymentsCancelRouterData) -> (res: Result<Self, ConnectorError>)
        ensures
            res == Self::spec_try_from(*item),
    {
        let auth_type = AdyenAuthType::try_from(&item.connector_auth_type)?;
        Ok(
            AdyenCancelRequest {
                merchant_account: auth_type.merchant_account,
                reference: item.connector_request_reference_id.clone(),
            },
        )
    }
}

impl AdyenCaptureRequest {
    /// The request to capture a payment. One capture among several goes by
    /// the reference of the capture; the capture of a whole payment goes by
    /// the reference of the request.
    pub open spec fn spec_try_from(item: AdyenRouterData<&PaymentsCaptureRouterData>) -> Result<
        Self,
        ConnectorError,
    > {
        let data = *item.router_data;
        match AdyenAuthType::spec_try_from(data.connector_auth_type) {
            Ok(auth) => Ok(
                AdyenCaptureRequest {
                    merchant_account: auth.merchant_account,
                    reference: match data.request.multiple_capture_data {
                        Some(capture) => capture.capture_reference,
                        None => data.connector_request_reference_id,
                    },
                    amount: Amount { currency: data.request.currency, value: item.amount },
                },
            ),
            Err(e) => Err(e),
        }
    }

    /// Builds the request to capture a payment.
    pub fn try_from(item: &AdyenRouterData<&PaymentsCaptureRouterData>) -> (res: Result<
        Self,
        ConnectorError,
    >)
        ensures
            res == Self::spec_try_from(*item),
    {
        let auth_type = AdyenAuthType::try_from(&item.router_data.connector_auth_type)?;
        let reference = match &item.router_data.request.multiple_capture_data {
            Some(multiple_capture_request_data) => {
                multiple_capture_request_data.capture_reference.clone()
            },
            None => item.router_data.connector_request_reference_id.clone(),
        };
        Ok(
            AdyenCaptureRequest {
                merchant_account: auth_type.merchant_account,
                reference,
                amount: Amount {
                    currency: item.router_data.request.currency,
                    value: item.amount,
                },
            },
        )
    }
}

/// Whether `req` is the request to refund a payment: the amount with its
/// currency, the reason, the id of the refund as reference, and the split
/// of the refund where it is split the Adyen way.
pub open spec fn spec_is_refund_request(
    item: AdyenRouterData<&RefundsRouterData>,
    req: AdyenRefundRequest,
) -> bool {
    let data = *item.router_data;
    &&& AdyenAuthType::spec_try_from(data.connector_auth_type) matches Ok(auth)
    &&& req.merchant_account == auth.merchant_account
    &&& req.amount == (Amount { currency: data.request.currency, value: item.amount })
    &&& req.merchant_refund_reason == data.request.reason
    &&& req.reference == data.request.refund_id
    &&& match data.request.split_refunds {
        Some(SplitRefundsRequest::AdyenSplitRefund(split)) => {
            &&& req.store == split.store
            &&& req.splits matches Some(splits)
            &&& splits@ == spec_splits_to_wire(split.split_items@, data.request.currency)
        },
        _ => req.store is None && req.splits is None,
    }
}

impl AdyenRefundRequest {
    /// Builds the request to refund a payment.
    pub fn try_from(item: &AdyenRouterData<&RefundsRouterData>) -> (res: Result<
        Self,
        ConnectorError,
    >)
        ensures
            match AdyenAuthType::spec_try_from(item.router_data.connector_auth_type) {
                Err(e) => res == Err::<Self, ConnectorError>(e),
                Ok(_) => res matches Ok(req) && spec_is_refund_request(*item, req),
            },
    {
        let auth_type = AdyenAuthType::try_from(&item.router_data.connector_auth_type)?;
        let (store, splits) = match &item.router_data.request.split_refunds {
            Some(SplitRefundsRequest::AdyenSplitRefund(adyen_split_data)) => {
                get_adyen_split_request(adyen_split_data, item.router_data.request.currency)
            },
            _ => (None, None),
        };
        Ok(
            AdyenRefundRequest {
                merchant_account: auth_type.merchant_account,
                amount: Amount {
                    currency: item.router_data.request.currency,
                    value: item.amount,
                },
                merchant_refund_reason: item.router_data.request.reason.clone(),
                reference: item.router_data.request.refund_id.clone(),
                store,
                splits,
            },
        )
    }
}

/// The error for a payment method whose balance Adyen does not tell.
pub open spec fn spec_balance_not_supported() -> ConnectorError {
    ConnectorError::FlowNotSupported { flow: "Balance", connector: "adyen" }
}

impl AdyenBalanceRequest {
    /// The request for the balance of a payment method. Only a Givex gift
    /// card has a balance to ask for.
    pub open spec fn spec_try_from(item: PaymentsPreProcessingRouterData) -> Result<
        Self,
        ConnectorError,
    > {
        match item.request.payment_method_data {
            Some(PaymentMethodData::GiftCard(GiftCardData::Givex { number, cvc })) => {
                match AdyenAuthType::spec_try_from(item.connector_auth_type) {
                    Ok(auth) => Ok(
                        AdyenBalanceRequest {
                            payment_method: AdyenPaymentMethod::PaymentMethodBalance(
                                BalancePmData { number, cvc },
                            ),
                            merchant_account: auth.merchant_account,
                        },
                    ),
                    Err(e) => Err(e),
                }
            },
            _ => Err(spec_balance_not_supported()),
        }
    }

    /// Builds the request for the balance of a payment method.
    pub fn try_from(item: &PaymentsPreProcessingRouterData) -> (res: Result<Self, ConnectorError>)
        ensures
            res == Self::spec_try_from(*item),
    {
        let payment_method = match &item.request.payment_method_data {
            Some(PaymentMethodData::GiftCard(gift_card_data)) => match gift_card_data {
                GiftCardData::Givex { number, cvc } => {
                    let balance_pm = BalancePmData { number: number.clone(), cvc: cvc.clone() };
                    AdyenPaymentMethod::PaymentMethodBalance(balance_pm)
                },
                GiftCardData::PaySafeCard => {
                    return Err(
                        ConnectorError::FlowNotSupported { flow: "Balance", connector: "adyen" },
                    );
                },
            },
            _ => {
                return Err(
                    ConnectorError::FlowNotSupported { flow: "Balance", connector: "adyen" },
                );
            },
        };
        let auth_type = AdyenAuthType::try_from(&item.connector_auth_type)?;
        Ok(AdyenBalanceRequest { payment_method, merchant_account: auth_type.merchant_account })
    }
}

/// The response data of an operation that Adyen acknowledged: the id of
/// the payment and the reference of the operation.
pub open spec fn spec_receipt(
    connector_transaction_id: String,
    reference: Option<String>,
) -> PaymentsResponseData {
    PaymentsResponseData::TransactionResponse {
        resource_id: ResponseId::ConnectorTransactionId(connector_transaction_id),
        redirection_data: None,
        mandate_reference: None,
        connector_metadata: None,
        network_txn_id: None,
        connector_response_reference_id: reference,
        incremental_authorization_allowed: None,
        charges: None,
    }
}

/// Puts the response to a void into the request it answers. The void is
/// pending until a webhook tells how it ended.
pub fn cancel_response(
    item: ResponseRouterData<AdyenCancelResponse, PaymentsCancelData, PaymentsResponseData>,
) -> (res: Result<PaymentsCancelRouterData, ConnectorError>)
    ensures
        res == Ok::<PaymentsCancelRouterData, ConnectorError>(
            RouterData {
                status: AttemptStatus::Pending,
                response: Ok(
                    spec_receipt(
                        item.response.payment_psp_reference,
                        Some(item.response.reference),
                    ),
                ),
                ..item.data
            },
        ),
{
    Ok(
        RouterData {
            status: AttemptStatus::Pending,
            response: Ok(
                PaymentsResponseData::TransactionResponse {
                    resource_id: ResponseId::ConnectorTransactionId(
                        item.response.payment_psp_reference,
                    ),
                    redirection_data: None,
                    mandate_reference: None,
                    connector_metadata: None,
                    network_txn_id: None,
                    connector_response_reference_id: Some(item.response.reference),
                    incremental_authorization_allowed: None,
                    charges: None,
                },
            ),
            ..item.data
        },
    )
}

/// Puts the balance of a payment method into the request it answers.
pub fn balance_response(
    item: ResponseRouterData<AdyenBalanceResponse, PaymentsPreProcessingData, PaymentsResponseData>,
) -> (res: Result<PaymentsPreProcessingRouterData, ConnectorError>)
    ensures
        res == Ok::<PaymentsPreProcessingRouterData, ConnectorError>(
            RouterData {
                response: Ok(spec_receipt(item.response.psp_reference, None)),
                payment_method_balance: Some(
                    PaymentMethodBalance {
                        currency: item.response.balance.currency,
                        amount: item.response.balance.value,
                    },
                ),
                ..item.data
            },
        ),
{
    Ok(
        RouterData {
            response: Ok(
                PaymentsResponseData::TransactionResponse {
                    resource_id: ResponseId::ConnectorTransactionId(item.response.psp_reference),
                    redirection_data: None,
                    mandate_reference: None,
                    connector_metadata: None,
                    network_txn_id: None,
                    connector_response_reference_id: None,
                    incremental_authorization_allowed: None,
                    charges: None,
                },
            ),
            payment_method_balance: Some(
                PaymentMethodBalance {
                    currency: item.response.balance.currency,
                    amount: item.response.balance.value,
                },
            ),
            ..item.data
        },
    )
}

/// Whether `updated` is a capture request with the response put into it.
///
/// The capture is pending, and nothing counts as captured yet. One capture
/// among several is known by the id of the capture, the capture of a whole
/// payment by the id of the payment.
pub open spec fn spec_is_capture_response(
    item: ResponseRouterData<AdyenCaptureResponse, PaymentsCaptureData, PaymentsResponseData>,
    updated: PaymentsCaptureRouterData,
) -> bool {
    &&& updated.status == AttemptStatus::Pending
    &&& updated.amount_captured == Some(0i64)
    &&& updated.response matches Ok(
        PaymentsResponseData::TransactionResponse {
            resource_id,
            redirection_data,
            mandate_reference,
            connector_metadata,
            network_txn_id,
            connector_response_reference_id,
            incremental_authorization_allowed,
            charges,
        },
    )
    &&& resource_id == ResponseId::ConnectorTransactionId(
        if item.data.request.multiple_capture_data is Some {
            item.response.psp_reference
        } else {
            item.response.payment_psp_reference
        },
    )
    &&& redirection_data is None
    &&& mandate_reference is None
    &&& connector_metadata is None
    &&& network_txn_id is None
    &&& connector_response_reference_id == Some(item.response.reference)
    &&& incremental_authorization_allowed is None
    &&& spec_charges(item.response.store, item.response.splits, charges)
    &&& updated == (RouterData {
        status: updated.status,
        response: updated.response,
        amount_captured: updated.amount_captured,
        ..item.data
    })
}

/// Puts the response to a capture into the request it answers.
pub fn capture_response(
    item: ResponseRouterData<AdyenCaptureResponse, PaymentsCaptureData, PaymentsResponseData>,
) -> (res: Result<PaymentsCaptureRouterData, ConnectorError>)
    ensures
        res matches Ok(updated) && spec_is_capture_response(item, updated),
{
    let connector_transaction_id = if item.data.request.multiple_capture_data.is_some() {
        item.response.psp_reference
    } else {
        item.response.payment_psp_reference
    };
    let charges = match &item.response.splits {
        Some(split_items) => Some(construct_charge_response(item.response.store, split_items)),
        None => None,
    };
    Ok(
        RouterData {
            status: AttemptStatus::Pending,
            response: Ok(
                PaymentsResponseData::TransactionResponse {
                    resource_id: ResponseId::ConnectorTransactionId(connector_transaction_id),
                    redirection_data: None,
                    mandate_reference: None,
                    connector_metadata: None,
                    network_txn_id: None,
                    connector_response_reference_id: Some(item.response.reference),
                    incremental_authorization_allowed: None,
                    charges,
                },
            ),
            amount_captured: Some(0),
            ..item.data
        },
    )
}

/// Puts the response to a refund into the request it answers. The refund
/// is pending until a webhook tells how it ended.
pub fn refund_response(
    item: ResponseRouterData<
        AdyenRefundResponse,
        crate::router_data::RefundsData,
        RefundsResponseData,
    >,
) -> (res: Result<RefundsRouterData, ConnectorError>)
    ensures
        res == Ok::<RefundsRouterData, ConnectorError>(
            RouterData {
                response: Ok(
                    RefundsResponseData {
                        connector_refund_id: item.response.psp_reference,
                        refund_status: RefundStatus::Pending,
                    },
                ),
                ..item.data
            },
        ),
{
    Ok(
        RouterData {
            response: Ok(
                RefundsResponseData {
                    connector_refund_id: item.response.psp_reference,
                    refund_status: RefundStatus::Pending,
                },
            ),
            ..item.data
        },
    )
}

/// The request to authorize a payment that stands for the request to set
/// a mandate up: a payment of nothing, with 3-D Secure, that takes over who
/// pays, how, and what they agreed to.
pub open spec fn spec_authorize_data_of_setup_mandate(
    request: SetupMandateRequestData,
) -> PaymentsAuthorizeData {
    PaymentsAuthorizeData {
        currency: request.currency,
        payment_method_data: request.payment_method_data,
        confirm: request.confirm,
        statement_descriptor_suffix: request.statement_descriptor_suffix,
        mandate_id: request.mandate_id,
        setup_future_usage: request.setup_future_usage,
        off_session: request.off_session,
        setup_mandate_details: request.setup_mandate_details,
        router_return_url: request.router_return_url,
        email: request.email,
        customer_name: request.customer_name,
        amount: 0,
        order_tax_amount: Some(MinorUnit(0)),
        minor_amount: MinorUnit(0),
        statement_descriptor: None,
        capture_method: None,
        browser_info: request.browser_info,
        order_details: None,
        enrolled_for_3ds: true,
        payment_experience: None,
        payment_method_type: None,
        request_incremental_authorization: request.request_incremental_authorization,
        metadata: None,
        customer_acceptance: request.customer_acceptance,
        split_payments: None,
        merchant_order_reference_id: None,
        shipping_cost: request.shipping_cost,
    }
}

/// Turns the request to set a mandate up into a request to authorize a
/// payment of nothing.
pub fn convert_setup_mandate_router_data_to_authorize_router_data(
    request: SetupMandateRequestData,
) -> (res: PaymentsAuthorizeData)
    ensures
        res == spec_authorize_data_of_setup_mandate(request),
{
    PaymentsAuthorizeData {
        currency: request.currency,
        payment_method_data: request.payment_method_data,
        confirm: request.confirm,
        statement_descriptor_suffix: request.statement_descriptor_suffix,
        mandate_id: request.mandate_id,
        setup_future_usage: request.setup_future_usage,
        off_session: request.off_session,
        setup_mandate_details: request.setup_mandate_details,
        router_return_url: request.router_return_url,
        email: request.email,
        customer_name: request.customer_name,
        amount: 0,
        order_tax_amount: Some(MinorUnit::zero()),
        minor_amount: MinorUnit::new(0),
        statement_descriptor: None,
        capture_method: None,
        browser_info: request.browser_info,
        order_details: None,
        enrolled_for_3ds: true,
        payment_experience: None,
        payment_method_type: None,
        request_incremental_authorization: request.request_incremental_authorization,
        metadata: None,
        customer_acceptance: request.customer_acceptance,
        split_payments: None,
        merchant_order_reference_id: None,
        shipping_cost: request.shipping_cost,
    }
}

/// Puts another request into the context of a payment. The context stays
/// as it is, but for the token of the payment method, which belongs to the
/// request that is replaced.
pub fn convert_payment_authorize_router_response<T1, T2>(
    data: RouterData<T1, PaymentsResponseData>,
    request: T2,
) -> (res: RouterData<T2, PaymentsResponseData>)
    ensures
        res == (RouterData {
            request,
            merchant_id: data.merchant_id,
            customer_id: data.customer_id,
            connector_customer: data.connector_customer,
            payment_id: data.payment_id,
            attempt_id: data.attempt_id,
            status: data.status,
            payment_method: data.payment_method,
            connector_auth_type: data.connector_auth_type,
            description: data.description,
            address: data.address,
            auth_type: data.auth_type,
            connector_meta_data: data.connector_meta_data,
            amount_captured: data.amount_captured,
            payment_method_token: None,
            recurring_mandate_payment_data: data.recurring_mandate_payment_data,
            connector_request_reference_id: data.connector_request_reference_id,
            payment_method_balance: data.payment_method_balance,
            connector_http_status_code: data.connector_http_status_code,
            connector_response: data.connector_response,
            payout_method_data: data.payout_method_data,
            test_mode: data.test_mode,
            response: data.response,
        }),
{
    RouterData {
        request,
        merchant_id: data.merchant_id,
        customer_id: data.customer_id,
        connector_customer: data.connector_customer,
        payment_id: data.payment_id,
        attempt_id: data.attempt_id,
        status: data.status,
        payment_method: data.payment_method,
        connector_auth_type: data.connector_auth_type,
        description: data.description,
        address: data.address,
        auth_type: data.auth_type,
        connector_meta_data: data.connector_meta_data,
        amount_captured: data.amount_captured,
        payment_method_token: None,
        recurring_mandate_payment_data: data.recurring_mandate_payment_data,
        connector_request_reference_id: data.connector_request_reference_id,
        payment_method_balance: data.payment_method_balance,
        connector_http_status_code: data.connector_http_status_code,
        connector_response: data.connector_response,
        payout_method_data: data.payout_method_data,
        test_mode: data.test_mode,
        response: data.response,
    }
}

} // verus!
