//! The response parser for Stripe: how each answer of Stripe is put into
//! the request that it answers.

use vstd::prelude::*;
use crate::enums::{AttemptStatus, Method};
use crate::errors::ConnectorError;
use crate::form::{form_of_url, spec_is_form_of_url, url_without_query_of};
use crate::router_data::{ResponseRouterData, RouterData};
use crate::router_response::{
    spec_error_response,
    ErrorResponse,
    ErrorResponseView,
    MandateReference,
    PaymentsResponseData,
    RedirectForm,
    RefundsResponseData,
    ResponseId,
};
use crate::stripe::types::{
    LastPaymentError,
    LatestAttempt,
    PaymentIntentResponse,
    PaymentIntentSyncResponse,
    PaymentSyncResponse,
    RefundResponse,
    RefundStatus,
    SetupIntentResponse,
    StripeCustomerResponse,
    StripeNextActionResponse,
    StripePaymentMethodOptions,
    StripePaymentStatus,
    StripeTokenResponse,
};

verus! {

/// The attempt status that a Stripe payment status stands for.
pub open spec fn spec_attempt_status(item: StripePaymentStatus) -> AttemptStatus {
    match item {
        StripePaymentStatus::Succeeded => AttemptStatus::Charged,
        StripePaymentStatus::Failed => AttemptStatus::Failure,
        StripePaymentStatus::Processing => AttemptStatus::Authorizing,
        StripePaymentStatus::RequiresCustomerAction => AttemptStatus::AuthenticationPending,
        StripePaymentStatus::RequiresPaymentMethod => AttemptStatus::PaymentMethodAwaited,
        StripePaymentStatus::RequiresConfirmation => AttemptStatus::ConfirmationAwaited,
        StripePaymentStatus::Canceled => AttemptStatus::Voided,
        StripePaymentStatus::RequiresCapture => AttemptStatus::Authorized,
        StripePaymentStatus::Pending => AttemptStatus::Pending,
    }
}

/// Tells the attempt status that a Stripe payment status stands for.
pub fn attempt_status_from(item: StripePaymentStatus) -> (res: AttemptStatus)
    ensures
        res == spec_attempt_status(item),
{
    match item {
        StripePaymentStatus::Succeeded => AttemptStatus::Charged,
        StripePaymentStatus::Failed => AttemptStatus::Failure,
        StripePaymentStatus::Processing => AttemptStatus::Authorizing,
        StripePaymentStatus::RequiresCustomerAction => AttemptStatus::AuthenticationPending,
        StripePaymentStatus::RequiresPaymentMethod => AttemptStatus::PaymentMethodAwaited,
        StripePaymentStatus::RequiresConfirmation => AttemptStatus::ConfirmationAwaited,
        StripePaymentStatus::Canceled => AttemptStatus::Voided,
        StripePaymentStatus::RequiresCapture => AttemptStatus::Authorized,
        StripePaymentStatus::Pending => AttemptStatus::Pending,
    }
}

/// A Stripe payment status stands for a terminal attempt status exactly
/// when the payment succeeded, failed or was canceled.
pub proof fn lemma_terminal_statuses(item: StripePaymentStatus)
    ensures
        spec_attempt_status(item).spec_is_terminal() <==> (item is Succeeded || item is Failed
            || item is Canceled),
{
}

/// The refund status that a Stripe refund status stands for.
pub open spec fn spec_refund_status(item: RefundStatus) -> crate::enums::RefundStatus {
    match item {
        RefundStatus::Succeeded => crate::enums::RefundStatus::Success,
        RefundStatus::Failed => crate::enums::RefundStatus::Failure,
        RefundStatus::Pending => crate::enums::RefundStatus::Pending,
        RefundStatus::RequiresAction => crate::enums::RefundStatus::ManualReview,
    }
}

/// Tells the refund status that a Stripe refund status stands for.
pub fn refund_status_from(item: RefundStatus) -> (res: crate::enums::RefundStatus)
    ensures
        res == spec_refund_status(item),
{
    match item {
        RefundStatus::Succeeded => crate::enums::RefundStatus::Success,
        RefundStatus::Failed => crate::enums::RefundStatus::Failure,
        RefundStatus::Pending => crate::enums::RefundStatus::Pending,
        RefundStatus::RequiresAction => crate::enums::RefundStatus::ManualReview,
    }
}

impl StripeNextActionResponse {
    /// The address at which the shopper does what is to be done next.
    pub open spec fn spec_url(self) -> String {
        match self {
            StripeNextActionResponse::RedirectToUrl(redirect_to_url) => redirect_to_url.url,
            StripeNextActionResponse::VerifyWithMicrodeposits(verify_with_microdeposits) =>
                verify_with_microdeposits.hosted_verification_url,
        }
    }

    /// Tells the address at which the shopper does what is to be done
    /// next.
    pub fn get_url(&self) -> (res: String)
        ensures
            res == self.spec_url(),
    {
        match self {
            StripeNextActionResponse::RedirectToUrl(redirect_to_url) => redirect_to_url.url.clone(),
            StripeNextActionResponse::VerifyWithMicrodeposits(verify_with_microdeposits) =>
                verify_with_microdeposits.hosted_verification_url.clone(),
        }
    }
}

impl PaymentSyncResponse {
    /// The fields that the answer shares with the answer to the request to
    /// authorize the payment.
    pub fn deref(&self) -> (res: &PaymentIntentResponse)
        ensures
            *res == self.intent_fields,
    {
        &self.intent_fields
    }
}

impl PaymentIntentSyncResponse {
    /// The fields that the answer shares with the answer to the request to
    /// authorize the payment.
    pub fn deref(&self) -> (res: &PaymentIntentResponse)
        ensures
            *res == self.payment_intent_fields,
    {
        &self.payment_intent_fields
    }
}

/// Whether an answer of Stripe that names a next action names an address
/// for it.
pub open spec fn spec_has_address(next_action: Option<StripeNextActionResponse>) -> bool {
    match next_action {
        Some(action) => url_without_query_of(action.spec_url()@) is Some,
        None => true,
    }
}

/// Whether `form` is where the next action sends the shopper: to the
/// address of the action, with `Get`.
pub open spec fn spec_is_redirection(
    next_action: Option<StripeNextActionResponse>,
    form: Option<RedirectForm>,
) -> bool {
    match next_action {
        Some(action) => form is Some && spec_is_form_of_url(action.spec_url()@, Method::Get, form),
        None => form is None,
    }
}

/// Tells where the next action sends the shopper. An action whose address
/// is none is an answer that cannot be read.
pub fn redirection_data(next_action: &Option<StripeNextActionResponse>) -> (res: Result<
    Option<RedirectForm>,
    ConnectorError,
>)
    ensures
        match res {
            Ok(form) => spec_has_address(*next_action) && spec_is_redirection(*next_action, form),
            Err(e) => !spec_has_address(*next_action) && e == ConnectorError::ResponseHandlingFailed,
        },
{
    match next_action {
        Some(action) => {
            let url = action.get_url();
            match form_of_url(url.as_str(), Method::Get) {
                Some(form) => Ok(Some(form)),
                None => Err(ConnectorError::ResponseHandlingFailed),
            }
        },
        None => Ok(None),
    }
}

/// The id that the card network gave to a transaction, as the latest
/// attempt at a card payment reports it.
pub open spec fn spec_network_txn_id(latest_attempt: Option<LatestAttempt>) -> Option<String> {
    match latest_attempt {
        Some(
            LatestAttempt {
                payment_method_options: Some(
                    StripePaymentMethodOptions::Card { network_transaction_id, .. },
                ),
            },
        ) => network_transaction_id,
        _ => None,
    }
}

fn network_txn_id(latest_attempt: &Option<LatestAttempt>) -> (res: Option<String>)
    ensures
        res == spec_network_txn_id(*latest_attempt),
{
    match latest_attempt {
        Some(latest_attempt) => match &latest_attempt.payment_method_options {
            Some(StripePaymentMethodOptions::Card { network_transaction_id, .. }) =>
                network_transaction_id.clone(),
            _ => None,
        },
        None => None,
    }
}

/// The reference to the mandate of a payment method that Stripe stored.
pub open spec fn spec_mandate_reference(payment_method: Option<String>) -> Option<
    MandateReference,
> {
    match payment_method {
        Some(id) => Some(
            MandateReference {
                connector_mandate_id: Some(id),
                network_transaction_id: None,
                payment_method_id: None,
            },
        ),
        None => None,
    }
}

fn mandate_reference(payment_method: Option<String>) -> (res: Option<MandateReference>)
    ensures
        res == spec_mandate_reference(payment_method),
        res matches Some(reference) ==> reference.wf(),
{
    match payment_method {
        Some(id) => Some(MandateReference::from_connector_mandate_id(id)),
        None => None,
    }
}

/// Whether `data` is the response data of a transaction with Stripe.
pub open spec fn spec_is_transaction(
    id: String,
    next_action: Option<StripeNextActionResponse>,
    mandate: Option<String>,
    network_txn_id: Option<String>,
    data: PaymentsResponseData,
) -> bool {
    &&& data matches PaymentsResponseData::TransactionResponse {
        resource_id,
        redirection_data,
        mandate_reference,
        connector_metadata,
        network_txn_id: txn_id,
        connector_response_reference_id,
        incremental_authorization_allowed,
        charges,
    }
    &&& resource_id == ResponseId::ConnectorTransactionId(id)
    &&& spec_is_redirection(next_action, redirection_data)
    &&& mandate_reference == spec_mandate_reference(mandate)
    &&& connector_metadata is None
    &&& txn_id == network_txn_id
    &&& connector_response_reference_id is None
    &&& incremental_authorization_allowed is None
    &&& charges is None
}

fn transaction(
    id: String,
    next_action: &Option<StripeNextActionResponse>,
    mandate: Option<String>,
    network_txn_id: Option<String>,
) -> (res: Result<PaymentsResponseData, ConnectorError>)
    ensures
        match res {
            Ok(data) => spec_has_address(*next_action) && spec_is_transaction(
                id,
                *next_action,
                mandate,
                network_txn_id,
                data,
            ),
            Err(e) => !spec_has_address(*next_action) && e == ConnectorError::ResponseHandlingFailed,
        },
{
    let redirection_data = redirection_data(next_action)?;
    Ok(
        PaymentsResponseData::TransactionResponse {
            resource_id: ResponseId::ConnectorTransactionId(id),
            redirection_data,
            mandate_reference: mandate_reference(mandate),
            connector_metadata: None,
            network_txn_id,
            connector_response_reference_id: None,
            incremental_authorization_allowed: None,
            charges: None,
        },
    )
}

/// Whether `res` is the outcome of putting the answer to the request to
/// authorize a payment into the request.
///
/// The attempt takes the status that the status of the payment stands for,
/// and the amount that Stripe received counts as captured. The payment
/// method that Stripe stored is the mandate of the payment.
pub open spec fn spec_is_payment_intent_response<Request>(
    item: ResponseRouterData<PaymentIntentResponse, Request, PaymentsResponseData>,
    res: Result<RouterData<Request, PaymentsResponseData>, ConnectorError>,
) -> bool {
    if !spec_has_address(item.response.next_action) {
        res == Err::<RouterData<Request, PaymentsResponseData>, ConnectorError>(
            ConnectorError::ResponseHandlingFailed,
        )
    } else {
        &&& res matches Ok(updated)
        &&& updated.status == spec_attempt_status(item.response.status)
        &&& updated.amount_captured == Some(item.response.amount_received)
        &&& updated.response matches Ok(data)
        &&& spec_is_transaction(
            item.response.id,
            item.response.next_action,
            item.response.payment_method,
            spec_network_txn_id(item.response.latest_attempt),
            data,
        )
        &&& updated == (RouterData {
            status: updated.status,
            amount_captured: updated.amount_captured,
            response: updated.response,
            ..item.data
        })
    }
}

/// Puts the answer to the request to authorize a payment into the
/// request.
pub fn payment_intent_response<Request>(
    item: ResponseRouterData<PaymentIntentResponse, Request, PaymentsResponseData>,
) -> (res: Result<RouterData<Request, PaymentsResponseData>, ConnectorError>)
    ensures
        spec_is_payment_intent_response(item, res),
{
    let network_txn_id = network_txn_id(&item.response.latest_attempt);
    let response = transaction(
        item.response.id,
        &item.response.next_action,
        item.response.payment_method,
        network_txn_id,
    )?;
    Ok(
        RouterData {
            status: attempt_status_from(item.response.status),
            response: Ok(response),
            amount_captured: Some(item.response.amount_received),
            ..item.data
        },
    )
}

/// The reference of the mandate that the options of a card payment name.
pub open spec fn spec_mandate_of_options(
    payment_method_options: Option<StripePaymentMethodOptions>,
) -> Option<String> {
    match payment_method_options {
        Some(StripePaymentMethodOptions::Card { mandate_options: Some(options), .. }) => Some(
            options.reference,
        ),
        _ => None,
    }
}

fn mandate_of_options(payment_method_options: &Option<StripePaymentMethodOptions>) -> (res: Option<
    String,
>)
    ensures
        res == spec_mandate_of_options(*payment_method_options),
{
    match payment_method_options {
        Some(options) => match options {
            StripePaymentMethodOptions::Card { mandate_options, .. } => match mandate_options {
                Some(mandate_options) => Some(mandate_options.reference.clone()),
                None => None,
            },
            StripePaymentMethodOptions::Klarna
            | StripePaymentMethodOptions::Affirm
            | StripePaymentMethodOptions::AfterpayClearpay
            | StripePaymentMethodOptions::Eps
            | StripePaymentMethodOptions::Giropay
            | StripePaymentMethodOptions::Ideal
            | StripePaymentMethodOptions::Sofort
            | StripePaymentMethodOptions::Ach
            | StripePaymentMethodOptions::Bacs
            | StripePaymentMethodOptions::Becs
            | StripePaymentMethodOptions::Sepa => None,
        },
        None => None,
    }
}

/// The error that the last failure of a payment comes to, as plain
/// values: code and message as Stripe gave them, and the sentinel text in
/// place of one that is empty.
pub open spec fn spec_last_payment_error(
    error: LastPaymentError,
    http_code: u16,
) -> ErrorResponseView {
    spec_error_response(
        Some(error.code@),
        Some(error.message@),
        None,
        http_code,
        None,
        None,
        None,
        None,
    )
}

/// Whether `res` is the outcome of putting the answer to the request for
/// the state of a payment into the request.
///
/// The attempt takes the status that the status of the payment stands for,
/// and the amount that Stripe received counts as captured. Where the
/// payment last failed, the failure is the response; otherwise the mandate
/// is the one that the options of the card payment name.
pub open spec fn spec_is_sync_response<Request>(
    item: ResponseRouterData<PaymentIntentSyncResponse, Request, PaymentsResponseData>,
    res: Result<RouterData<Request, PaymentsResponseData>, ConnectorError>,
) -> bool {
    let fields = item.response.payment_intent_fields;
    if !spec_has_address(fields.next_action) {
        res == Err::<RouterData<Request, PaymentsResponseData>, ConnectorError>(
            ConnectorError::ResponseHandlingFailed,
        )
    } else {
        &&& res matches Ok(updated)
        &&& updated.status == spec_attempt_status(fields.status)
        &&& updated.amount_captured == Some(fields.amount_received)
        &&& match item.response.last_payment_error {
            Some(error) => {
                &&& updated.response matches Err(e)
                &&& e@ == spec_last_payment_error(error, item.http_code)
            },
            None => {
                &&& updated.response matches Ok(data)
                &&& spec_is_transaction(
                    fields.id,
                    fields.next_action,
                    spec_mandate_of_options(fields.payment_method_options),
                    None,
                    data,
                )
            },
        }
        &&& updated == (RouterData {
            status: updated.status,
            amount_captured: updated.amount_captured,
            response: updated.response,
            ..item.data
        })
    }
}

/// Puts the answer to the request for the state of a payment into the
/// request.
pub fn sync_response<Request>(
    item: ResponseRouterData<PaymentIntentSyncResponse, Request, PaymentsResponseData>,
) -> (res: Result<RouterData<Request, PaymentsResponseData>, ConnectorError>)
    ensures
        spec_is_sync_response(item, res),
        res matches Ok(updated) ==> (updated.response matches Err(e) ==> e.wf()),
{
    let fields = item.response.payment_intent_fields;
    let mandate = mandate_of_options(&fields.payment_method_options);
    let transaction = transaction(fields.id, &fields.next_action, mandate, None)?;
    let response = match item.response.last_payment_error {
        Some(error) => Err(
            ErrorResponse::from_connector(
                Some(error.code),
                Some(error.message),
                None,
                item.http_code,
                None,
                None,
                None,
                None,
            ),
        ),
        None => Ok(transaction),
    };
    Ok(
        RouterData {
            status: attempt_status_from(fields.status),
            response,
            amount_captured: Some(fields.amount_received),
            ..item.data
        },
    )
}

/// Whether `res` is the outcome of putting the answer to the request to
/// set a mandate up into the request. Nothing counts as captured.
pub open spec fn spec_is_setup_intent_response<Request>(
    item: ResponseRouterData<SetupIntentResponse, Request, PaymentsResponseData>,
    res: Result<RouterData<Request, PaymentsResponseData>, ConnectorError>,
) -> bool {
    if !spec_has_address(item.response.next_action) {
        res == Err::<RouterData<Request, PaymentsResponseData>, ConnectorError>(
            ConnectorError::ResponseHandlingFailed,
        )
    } else {
        &&& res matches Ok(updated)
        &&& updated.status == spec_attempt_status(item.response.status)
        &&& updated.response matches Ok(data)
        &&& spec_is_transaction(
            item.response.id,
            item.response.next_action,
            item.response.payment_method,
            spec_network_txn_id(item.response.latest_attempt),
            data,
        )
        &&& updated == (RouterData {
            status: updated.status,
            response: updated.response,
            ..item.data
        })
    }
}

/// Puts the answer to the request to set a mandate up into the request.
pub fn setup_intent_response<Request>(
    item: ResponseRouterData<SetupIntentResponse, Request, PaymentsResponseData>,
) -> (res: Result<RouterData<Request, PaymentsResponseData>, ConnectorError>)
    ensures
        spec_is_setup_intent_response(item, res),
{
    let network_txn_id = network_txn_id(&item.response.latest_attempt);
    let response = transaction(
        item.response.id,
        &item.response.next_action,
        item.response.payment_method,
        network_txn_id,
    )?;
    Ok(
        RouterData {
            status: attempt_status_from(item.response.status),
            response: Ok(response),
            ..item.data
        },
    )
}

/// Puts the token that Stripe made of a payment method into the request.
pub fn token_response<Request>(
    item: ResponseRouterData<StripeTokenResponse, Request, PaymentsResponseData>,
) -> (res: Result<RouterData<Request, PaymentsResponseData>, ConnectorError>)
    ensures
        res == Ok::<RouterData<Request, PaymentsResponseData>, ConnectorError>(
            RouterData {
                response: Ok(PaymentsResponseData::TokenizationResponse { token: item.response.id }),
                ..item.data
            },
        ),
{
    Ok(
        RouterData {
            response: Ok(PaymentsResponseData::TokenizationResponse { token: item.response.id }),
            ..item.data
        },
    )
}

/// Puts the id under which Stripe filed a customer into the request.
pub fn customer_response<Request>(
    item: ResponseRouterData<StripeCustomerResponse, Request, PaymentsResponseData>,
) -> (res: Result<RouterData<Request, PaymentsResponseData>, ConnectorError>)
    ensures
        res == Ok::<RouterData<Request, PaymentsResponseData>, ConnectorError>(
            RouterData {
                response: Ok(
                    PaymentsResponseData::ConnectorCustomerResponse {
                        connector_customer_id: item.response.id,
                    },
                ),
                ..item.data
            },
        ),
{
    Ok(
        RouterData {
            response: Ok(
                PaymentsResponseData::ConnectorCustomerResponse {
                    connector_customer_id: item.response.id,
                },
            ),
            ..item.data
        },
    )
}

/// The request with the answer to a refund put into it.
pub open spec fn spec_refund_response<Request>(
    item: ResponseRouterData<RefundResponse, Request, RefundsResponseData>,
) -> RouterData<Request, RefundsResponseData> {
    RouterData {
        response: Ok(
            RefundsResponseData {
                connector_refund_id: item.response.id,
                refund_status: spec_refund_status(item.response.status),
            },
        ),
        ..item.data
    }
}

/// Puts the answer to the request to refund a payment into the request.
pub fn refund_response<Request>(
    item: ResponseRouterData<RefundResponse, Request, RefundsResponseData>,
) -> (res: Result<RouterData<Request, RefundsResponseData>, ConnectorError>)
    ensures
        res == Ok::<RouterData<Request, RefundsResponseData>, ConnectorError>(
            spec_refund_response(item),
        ),
{
    Ok(
        RouterData {
            response: Ok(
                RefundsResponseData {
                    connector_refund_id: item.response.id,
                    refund_status: refund_status_from(item.response.status),
                },
            ),
            ..item.data
        },
    )
}

/// Puts the answer to the request for the state of a refund into the
/// request.
pub fn refund_sync_response<Request>(
    item: ResponseRouterData<RefundResponse, Request, RefundsResponseData>,
) -> (res: Result<RouterData<Request, RefundsResponseData>, ConnectorError>)
    ensures
        res == Ok::<RouterData<Request, RefundsResponseData>, ConnectorError>(
            spec_refund_response(item),
        ),
{
    refund_response(item)
}

} // verus!
