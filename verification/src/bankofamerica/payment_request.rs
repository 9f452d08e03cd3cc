//! The requests to authorize a payment and to set a mandate up with Bank
//! of America.
//!
//! Bank of America is handed cards, Apple Pay, Google Pay and payments on a
//! mandate that it stored. Every other payment method is rejected with
//! `NotImplemented` that names it.

use vstd::prelude::*;
use crate::bankofamerica::request::{
    build_bill_to,
    get_boa_mandate_action_details,
    get_commerce_indicator,
    payment_solution_code,
    request_metadata,
    spec_commerce_indicator,
    spec_is_bill_to,
    spec_is_card_information,
    spec_is_predecrypt_information,
    spec_is_request_metadata,
    spec_mandate_authorization_options,
    spec_metadata_error,
    spec_payment_solution_code,
    spec_predecrypt_error,
    spec_ucaf_collection_indicator,
    ucaf_collection_indicator,
};
use crate::bankofamerica::types::{
    Amount,
    BankOfAmericaActionsList,
    BankOfAmericaActionsTokenType,
    BankOfAmericaAuthorizationOptions,
    BankOfAmericaCaptureRequest,
    BankOfAmericaConsumerAuthInformation,
    BankOfAmericaPaymentInstrument,
    BankOfAmericaPaymentsRequest,
    BankOfAmericaRefundRequest,
    BankOfAmericaRouterData,
    BankOfAmericaVoidRequest,
    BillTo,
    ClientReferenceInformation,
    MandatePaymentInformation,
    MerchantInitiatedTransaction,
    OrderInformation,
    OrderInformationWithBill,
    PaymentInformation,
    PaymentSolution,
    ProcessingInformation,
    ReversalInformation,
};
use crate::currency::{get_amount_as_string, spec_amount_as_string, Currency};
use crate::encoding::base64_encoded;
use crate::enums::{CaptureMethod, CurrencyUnit, FutureUsage};
use crate::errors::ConnectorError;
use crate::payment_method_data::{
    ApplePayWalletData,
    Card,
    GooglePayWalletData,
    PaymentMethodData,
    WalletData,
};
use crate::router_data::{
    spec_connector_mandate_id,
    ApplePayPredecryptData,
    PaymentMethodToken,
    PaymentsAuthorizeRouterData,
    PaymentsCancelRouterData,
    PaymentsCaptureRouterData,
    RefundsRouterData,
    SetupMandateRouterData,
};
use crate::text::{opt_str, owned};

verus! {

/// The error for a payment method that Bank of America is not handed.
pub open spec fn spec_not_implemented(feature: &'static str) -> ConnectorError {
    ConnectorError::NotImplemented { connector: "Bank of America", feature }
}

/// The first of two possible errors.
pub open spec fn spec_first(
    first: Option<ConnectorError>,
    second: Option<ConnectorError>,
) -> Option<ConnectorError> {
    match first {
        Some(e) => Some(e),
        None => second,
    }
}

/// Whether a payment sets a mandate up: it is meant for later use without
/// the shopper, and the shopper accepted that.
pub open spec fn spec_sets_mandate_up(item: PaymentsAuthorizeRouterData) -> bool {
    item.request.setup_future_usage == Some(FutureUsage::OffSession) && (
    item.request.customer_acceptance is Some || (item.request.setup_mandate_details matches Some(
        details,
    ) && details.customer_acceptance is Some))
}

/// What the first payment on the mandate was authorized for, written in
/// base units; it is required of a payment on a mandate.
pub open spec fn spec_original_authorized_amount(item: PaymentsAuthorizeRouterData) -> Result<
    Seq<char>,
    ConnectorError,
> {
    match item.recurring_mandate_payment_data {
        None => Err(
            ConnectorError::MissingRequiredField { field_name: "recurring_mandate_payment_data" },
        ),
        Some(recurring) => match recurring.original_payment_authorized_amount {
            None => Err(
                ConnectorError::MissingRequiredField {
                    field_name: "original_payment_authorized_amount",
                },
            ),
            Some(amount) => match recurring.original_payment_authorized_currency {
                None => Err(
                    ConnectorError::MissingRequiredField {
                        field_name: "original_payment_authorized_currency",
                    },
                ),
                Some(currency) => spec_amount_as_string(CurrencyUnit::Base, amount, currency),
            },
        },
    }
}

/// The error with which the processing information of a payment cannot be
/// put together, if it cannot.
pub open spec fn spec_processing_error(item: PaymentsAuthorizeRouterData) -> Option<
    ConnectorError,
> {
    if spec_sets_mandate_up(item) {
        None
    } else if spec_connector_mandate_id(item.request.mandate_id) is Some {
        match spec_original_authorized_amount(item) {
            Ok(_) => None,
            Err(e) => Some(e),
        }
    } else {
        None
    }
}

/// Whether a payment is captured as soon as it is authorized, as the
/// processor is told: it is unless the request asks for another capture
/// method.
pub open spec fn spec_capture(capture_method: Option<CaptureMethod>) -> bool {
    capture_method == Some(CaptureMethod::Automatic) || capture_method is None
}

/// The code of the wallet of a payment, if it comes from a wallet.
pub open spec fn spec_solution_code(solution: Option<PaymentSolution>) -> Option<Seq<char>> {
    match solution {
        Some(solution) => Some(spec_payment_solution_code(solution)@),
        None => None,
    }
}

/// Whether `processing` says how the processor is to set a mandate up.
pub open spec fn spec_has_mandate_actions(processing: ProcessingInformation) -> bool {
    &&& processing.action_list matches Some(actions)
    &&& actions@ == seq![BankOfAmericaActionsList::TokenCreate]
    &&& processing.action_token_types matches Some(types)
    &&& types@ == seq![
        BankOfAmericaActionsTokenType::PaymentInstrument,
        BankOfAmericaActionsTokenType::Customer,
    ]
    &&& processing.authorization_options == Some(spec_mandate_authorization_options())
}

/// Whether `processing` is the processing information of a payment.
///
/// A payment that sets a mandate up asks for the tokens of the mandate. A
/// payment on a mandate states what the first payment was authorized for.
/// Any other payment has no options.
pub open spec fn spec_is_processing_information(
    item: PaymentsAuthorizeRouterData,
    solution: Option<PaymentSolution>,
    network: Option<String>,
    processing: ProcessingInformation,
) -> bool {
    &&& processing.capture == Some(spec_capture(item.request.capture_method))
    &&& opt_str(processing.payment_solution) == spec_solution_code(solution)
    &&& processing.capture_options is None
    &&& processing.commerce_indicator@ == spec_commerce_indicator(network)
    &&& if spec_sets_mandate_up(item) {
        spec_has_mandate_actions(processing)
    } else if spec_connector_mandate_id(item.request.mandate_id) is Some {
        &&& processing.action_list is None
        &&& processing.action_token_types is None
        &&& processing.authorization_options matches Some(options)
        &&& options.initiator is None
        &&& options.merchant_intitiated_transaction matches Some(transaction)
        &&& transaction.reason is None
        &&& transaction.original_authorized_amount matches Some(amount)
        &&& Ok::<Seq<char>, ConnectorError>(amount@) == spec_original_authorized_amount(item)
    } else {
        &&& processing.action_list is None
        &&& processing.action_token_types is None
        &&& processing.authorization_options is None
    }
}

/// Whether `processing` is the processing information of the request to
/// set a mandate up: nothing is captured, and the tokens of the mandate are
/// asked for.
pub open spec fn spec_is_setup_processing_information(
    solution: Option<PaymentSolution>,
    network: Option<String>,
    processing: ProcessingInformation,
) -> bool {
    &&& processing.capture == Some(false)
    &&& opt_str(processing.payment_solution) == spec_solution_code(solution)
    &&& processing.capture_options is None
    &&& processing.commerce_indicator@ == spec_commerce_indicator(network)
    &&& spec_has_mandate_actions(processing)
}

fn solution_code(solution: Option<PaymentSolution>) -> (res: Option<String>)
    ensures
        opt_str(res) == spec_solution_code(solution),
{
    match solution {
        Some(solution) => Some(owned(payment_solution_code(solution))),
        None => None,
    }
}

impl ProcessingInformation {
    /// Puts the processing information of a payment together.
    pub fn try_from(
        item: &BankOfAmericaRouterData<&PaymentsAuthorizeRouterData>,
        solution: Option<PaymentSolution>,
        network: Option<String>,
    ) -> (res: Result<Self, ConnectorError>)
        ensures
            match spec_processing_error(*item.router_data) {
                Some(e) => res == Err::<Self, ConnectorError>(e),
                None => res matches Ok(processing) && spec_is_processing_information(
                    *item.router_data,
                    solution,
                    network,
                    processing,
                ),
            },
    {
        let request = &item.router_data.request;
        let accepted = request.customer_acceptance.is_some() || match &request.setup_mandate_details {
            Some(details) => details.customer_acceptance.is_some(),
            None => false,
        };
        let (action_list, action_token_types, authorization_options) = if matches!(
            request.setup_future_usage,
            Some(FutureUsage::OffSession)
        ) && accepted {
            get_boa_mandate_action_details()
        } else if request.connector_mandate_id().is_some() {
            let recurring = match item.router_data.recurring_mandate_payment_data {
                Some(recurring) => recurring,
                None => {
                    return Err(
                        ConnectorError::MissingRequiredField {
                            field_name: "recurring_mandate_payment_data",
                        },
                    );
                },
            };
            let original_amount = match recurring.original_payment_authorized_amount {
                Some(amount) => amount,
                None => {
                    return Err(
                        ConnectorError::MissingRequiredField {
                            field_name: "original_payment_authorized_amount",
                        },
                    );
                },
            };
            let original_currency = match recurring.original_payment_authorized_currency {
                Some(currency) => currency,
                None => {
                    return Err(
                        ConnectorError::MissingRequiredField {
                            field_name: "original_payment_authorized_currency",
                        },
                    );
                },
            };
            (
                None,
                None,
                Some(
                    BankOfAmericaAuthorizationOptions {
                        initiator: None,
                        merchant_intitiated_transaction: Some(
                            MerchantInitiatedTransaction {
                                reason: None,
                                original_authorized_amount: Some(
                                    get_amount_as_string(
                                        &CurrencyUnit::Base,
                                        original_amount,
                                        original_currency,
                                    )?,
                                ),
                            },
                        ),
                    },
                ),
            )
        } else {
            (None, None, None)
        };
        let commerce_indicator = get_commerce_indicator(network);
        Ok(
            ProcessingInformation {
                capture: Some(
                    matches!(request.capture_method, Some(CaptureMethod::Automatic) | None),
                ),
                payment_solution: solution_code(solution),
                action_list,
                action_token_types,
                authorization_options,
                capture_options: None,
                commerce_indicator,
            },
        )
    }

    /// Puts the processing information of the request to set a mandate up
    /// together.
    pub fn try_from_setup(solution: Option<PaymentSolution>, network: Option<String>) -> (res:
        Result<Self, ConnectorError>)
        ensures
            res matches Ok(processing) && spec_is_setup_processing_information(
                solution,
                network,
                processing,
            ),
    {
        let (action_list, action_token_types, authorization_options) =
            get_boa_mandate_action_details();
        let commerce_indicator = get_commerce_indicator(network);
        Ok(
            ProcessingInformation {
                capture: Some(false),
                capture_options: None,
                action_list,
                action_token_types,
                authorization_options,
                commerce_indicator,
                payment_solution: solution_code(solution),
            },
        )
    }
}

/// Whether `order` is the order of the request to set a mandate up:
/// nothing is paid, and the shopper is billed.
pub open spec fn spec_is_setup_order(
    item: SetupMandateRouterData,
    email: String,
    order: OrderInformationWithBill,
) -> bool {
    &&& order.amount_details.total_amount@ == "0"@
    &&& order.amount_details.currency == item.request.currency
    &&& order.bill_to matches Some(bill_to)
    &&& spec_is_bill_to(item.address.billing, email, bill_to)
}

impl OrderInformationWithBill {
    /// The amount of a payment and who is billed.
    pub fn from(
        item: &BankOfAmericaRouterData<&PaymentsAuthorizeRouterData>,
        bill_to: Option<BillTo>,
    ) -> (res: Self)
        ensures
            res == (OrderInformationWithBill {
                amount_details: Amount {
                    total_amount: item.amount,
                    currency: item.router_data.request.currency,
                },
                bill_to,
            }),
    {
        OrderInformationWithBill {
            amount_details: Amount {
                total_amount: item.amount.clone(),
                currency: item.router_data.request.currency,
            },
            bill_to,
        }
    }

    /// The order of the request to set a mandate up: nothing is paid, and
    /// the shopper, whose e-mail address is required, is billed.
    pub fn try_from_setup(item: &SetupMandateRouterData) -> (res: Result<Self, ConnectorError>)
        ensures
            match item.request.email {
                None => res == Err::<Self, ConnectorError>(
                    ConnectorError::MissingRequiredField { field_name: "email" },
                ),
                Some(email) => res matches Ok(order) && spec_is_setup_order(*item, email, order),
            },
    {
        let email = item.request.get_email()?;
        let bill_to = build_bill_to(item.get_optional_billing(), email)?;
        Ok(
            OrderInformationWithBill {
                amount_details: Amount { total_amount: owned("0"), currency: item.request.currency },
                bill_to: Some(bill_to),
            },
        )
    }
}

impl ClientReferenceInformation {
    /// The reference of a request.
    pub fn from(reference: &String) -> (res: Self)
        ensures
            res == (ClientReferenceInformation { code: Some(*reference) }),
    {
        ClientReferenceInformation { code: Some(reference.clone()) }
    }
}

/// What a request to authorize a payment is made of, apart from the
/// payment method: the wallet it comes from, and the card network that the
/// wallet names.
pub struct RequestKind {
    pub solution: Option<PaymentSolution>,
    pub network: Option<String>,
}

/// Whether `req` has the parts that the requests to authorize a payment
/// share: how to process the payment, the amount as the processor writes
/// it, who is billed, the reference of the request, and what the merchant
/// attached. The e-mail address of the shopper is required.
pub open spec fn spec_has_common_parts(
    item: BankOfAmericaRouterData<&PaymentsAuthorizeRouterData>,
    kind: RequestKind,
    req: BankOfAmericaPaymentsRequest,
) -> bool {
    let data = *item.router_data;
    &&& spec_is_processing_information(
        data,
        kind.solution,
        kind.network,
        req.processing_information,
    )
    &&& req.order_information.amount_details == (Amount {
        total_amount: item.amount,
        currency: data.request.currency,
    })
    &&& data.request.email matches Some(email)
    &&& req.order_information.bill_to matches Some(bill_to)
    &&& spec_is_bill_to(data.address.billing, email, bill_to)
    &&& req.client_reference_information == (ClientReferenceInformation {
        code: Some(data.connector_request_reference_id),
    })
    &&& spec_is_request_metadata(data.request.metadata, req.merchant_defined_information)
}

/// The error for a request without the e-mail address of the shopper.
pub open spec fn spec_email_error(email: Option<String>) -> Option<ConnectorError> {
    match email {
        Some(_) => None,
        None => Some(ConnectorError::MissingRequiredField { field_name: "email" }),
    }
}

/// The error with which the request for a card payment or a Google Pay
/// payment fails, if it does.
pub open spec fn spec_plain_request_error(item: PaymentsAuthorizeRouterData) -> Option<
    ConnectorError,
> {
    spec_first(
        spec_email_error(item.request.email),
        spec_first(spec_processing_error(item), spec_metadata_error(item.request.metadata)),
    )
}

/// The error with which the request for a payment by a decrypted Apple
/// Pay token fails, if it does.
pub open spec fn spec_predecrypt_request_error(
    item: PaymentsAuthorizeRouterData,
    apple_pay_data: ApplePayPredecryptData,
) -> Option<ConnectorError> {
    spec_first(
        spec_email_error(item.request.email),
        spec_first(
            spec_processing_error(item),
            spec_first(
                spec_predecrypt_error(apple_pay_data),
                spec_metadata_error(item.request.metadata),
            ),
        ),
    )
}

/// Whether `auth` is what goes with an Apple Pay payment on the given
/// network: nothing but the indicator for Mastercard.
pub open spec fn spec_is_apple_pay_auth(
    network: String,
    auth: Option<BankOfAmericaConsumerAuthInformation>,
) -> bool {
    &&& auth matches Some(information)
    &&& opt_str(information.ucaf_collection_indicator) == spec_ucaf_collection_indicator(network@)
    &&& information.cavv is None
    &&& information.ucaf_authentication_data is None
    &&& information.xid is None
    &&& information.directory_server_transaction_id is None
    &&& information.specification_version is None
}

fn apple_pay_auth(network: &String) -> (res: Option<BankOfAmericaConsumerAuthInformation>)
    ensures
        spec_is_apple_pay_auth(*network, res),
{
    Some(
        BankOfAmericaConsumerAuthInformation {
            ucaf_collection_indicator: ucaf_collection_indicator(network),
            cavv: None,
            ucaf_authentication_data: None,
            xid: None,
            directory_server_transaction_id: None,
            specification_version: None,
        },
    )
}

/// Whether `information` is a Google Pay token as the processor takes it:
/// in base64.
pub open spec fn spec_is_google_pay_information(
    google_pay_data: GooglePayWalletData,
    information: PaymentInformation,
) -> bool {
    &&& information matches PaymentInformation::GooglePay(google_pay)
    &&& google_pay.fluid_data.value@ == base64_encoded(google_pay_data.token@)
}

/// The error with which the request for a payment on a mandate fails, if
/// it does.
pub open spec fn spec_mandate_request_error(item: PaymentsAuthorizeRouterData) -> Option<
    ConnectorError,
> {
    spec_first(spec_processing_error(item), spec_metadata_error(item.request.metadata))
}

/// Whether `req` is the request for a payment on the mandate that the
/// processor stored under `connector_mandate_id`. Who is billed is told
/// only if the e-mail address of the shopper is known.
pub open spec fn spec_is_mandate_request(
    item: BankOfAmericaRouterData<&PaymentsAuthorizeRouterData>,
    connector_mandate_id: String,
    req: BankOfAmericaPaymentsRequest,
) -> bool {
    let data = *item.router_data;
    &&& spec_is_processing_information(data, None, None, req.processing_information)
    &&& req.payment_information == PaymentInformation::MandatePayment(
        MandatePaymentInformation {
            payment_instrument: BankOfAmericaPaymentInstrument { id: connector_mandate_id },
        },
    )
    &&& req.order_information.amount_details == (Amount {
        total_amount: item.amount,
        currency: data.request.currency,
    })
    &&& match data.request.email {
        Some(email) => req.order_information.bill_to matches Some(bill_to) && spec_is_bill_to(
            data.address.billing,
            email,
            bill_to,
        ),
        None => req.order_information.bill_to is None,
    }
    &&& req.client_reference_information == (ClientReferenceInformation {
        code: Some(data.connector_request_reference_id),
    })
    &&& spec_is_request_metadata(data.request.metadata, req.merchant_defined_information)
    &&& req.consumer_authentication_information is None
}

impl BankOfAmericaPaymentsRequest {
    /// Builds the request for a card payment.
    pub fn try_from_card(
        item: &BankOfAmericaRouterData<&PaymentsAuthorizeRouterData>,
        ccard: &Card,
    ) -> (res: Result<Self, ConnectorError>)
        ensures
            match spec_plain_request_error(*item.router_data) {
                Some(e) => res == Err::<Self, ConnectorError>(e),
                None => res matches Ok(req) && spec_has_common_parts(
                    *item,
                    RequestKind { solution: None, network: None },
                    req,
                ) && spec_is_card_information(*ccard, req.payment_information)
                    && req.consumer_authentication_information is None,
            },
    {
        let email = item.router_data.request.get_email()?;
        let bill_to = build_bill_to(item.router_data.get_optional_billing(), email)?;
        let order_information = OrderInformationWithBill::from(item, Some(bill_to));
        let payment_information = PaymentInformation::try_from_card(ccard)?;
        let processing_information = ProcessingInformation::try_from(item, None, None)?;
        let client_reference_information = ClientReferenceInformation::from(
            &item.router_data.connector_request_reference_id,
        );
        let merchant_defined_information = request_metadata(&item.router_data.request.metadata)?;
        Ok(
            BankOfAmericaPaymentsRequest {
                processing_information,
                payment_information,
                order_information,
                client_reference_information,
                merchant_defined_information,
                consumer_authentication_information: None,
            },
        )
    }

    /// Builds the request for a payment by an Apple Pay token that was
    /// decrypted before.
    pub fn try_from_apple_pay_decrypted(
        item: &BankOfAmericaRouterData<&PaymentsAuthorizeRouterData>,
        apple_pay_data: &ApplePayPredecryptData,
        apple_pay_wallet_data: &ApplePayWalletData,
    ) -> (res: Result<Self, ConnectorError>)
        ensures
            match spec_predecrypt_request_error(*item.router_data, *apple_pay_data) {
                Some(e) => res == Err::<Self, ConnectorError>(e),
                None => res matches Ok(req) && spec_has_common_parts(
                    *item,
                    RequestKind {
                        solution: Some(PaymentSolution::ApplePay),
                        network: Some(apple_pay_wallet_data.payment_method.network),
                    },
                    req,
                ) && spec_is_predecrypt_information(*apple_pay_data, req.payment_information)
                    && spec_is_apple_pay_auth(
                    apple_pay_wallet_data.payment_method.network,
                    req.consumer_authentication_information,
                ),
            },
    {
        let email = item.router_data.request.get_email()?;
        let bill_to = build_bill_to(item.router_data.get_optional_billing(), email)?;
        let order_information = OrderInformationWithBill::from(item, Some(bill_to));
        let processing_information = ProcessingInformation::try_from(
            item,
            Some(PaymentSolution::ApplePay),
            Some(apple_pay_wallet_data.payment_method.network.clone()),
        )?;
        let client_reference_information = ClientReferenceInformation::from(
            &item.router_data.connector_request_reference_id,
        );
        let payment_information = PaymentInformation::try_from_predecrypt(apple_pay_data)?;
        let merchant_defined_information = request_metadata(&item.router_data.request.metadata)?;
        Ok(
            BankOfAmericaPaymentsRequest {
                processing_information,
                payment_information,
                order_information,
                client_reference_information,
                merchant_defined_information,
                consumer_authentication_information: apple_pay_auth(
                    &apple_pay_wallet_data.payment_method.network,
                ),
            },
        )
    }

    /// Builds the request for a payment by an Apple Pay token that the
    /// processor decrypts.
    pub fn try_from_apple_pay(
        item: &BankOfAmericaRouterData<&PaymentsAuthorizeRouterData>,
        apple_pay_data: &ApplePayWalletData,
    ) -> (res: Result<Self, ConnectorError>)
        ensures
            match spec_plain_request_error(*item.router_data) {
                Some(e) => res == Err::<Self, ConnectorError>(e),
                None => res matches Ok(req) && spec_has_common_parts(
                    *item,
                    RequestKind {
                        solution: Some(PaymentSolution::ApplePay),
                        network: Some(apple_pay_data.payment_method.network),
                    },
                    req,
                ) && req.payment_information == PaymentInformation::spec_from_apple_pay(
                    *apple_pay_data,
                ) && spec_is_apple_pay_auth(
                    apple_pay_data.payment_method.network,
                    req.consumer_authentication_information,
                ),
            },
    {
        let email = item.router_data.request.get_email()?;
        let bill_to = build_bill_to(item.router_data.get_optional_billing(), email)?;
        let order_information = OrderInformationWithBill::from(item, Some(bill_to));
        let processing_information = ProcessingInformation::try_from(
            item,
            Some(PaymentSolution::ApplePay),
            Some(apple_pay_data.payment_method.network.clone()),
        )?;
        let client_reference_information = ClientReferenceInformation::from(
            &item.router_data.connector_request_reference_id,
        );
        let payment_information = PaymentInformation::from_apple_pay(apple_pay_data);
        let merchant_defined_information = request_metadata(&item.router_data.request.metadata)?;
        Ok(
            BankOfAmericaPaymentsRequest {
                processing_information,
                payment_information,
                order_information,
                merchant_defined_information,
                client_reference_information,
                consumer_authentication_information: apple_pay_auth(
                    &apple_pay_data.payment_method.network,
                ),
            },
        )
    }

    /// Builds the request for a payment by Google Pay.
    pub fn try_from_google_pay(
        item: &BankOfAmericaRouterData<&PaymentsAuthorizeRouterData>,
        google_pay_data: &GooglePayWalletData,
    ) -> (res: Result<Self, ConnectorError>)
        ensures
            match spec_plain_request_error(*item.router_data) {
                Some(e) => res == Err::<Self, ConnectorError>(e),
                None => res matches Ok(req) && spec_has_common_parts(
                    *item,
                    RequestKind { solution: Some(PaymentSolution::GooglePay), network: None },
                    req,
                ) && spec_is_google_pay_information(*google_pay_data, req.payment_information)
                    && req.consumer_authentication_information is None,
            },
    {
        let email = item.router_data.request.get_email()?;
        let bill_to = build_bill_to(item.router_data.get_optional_billing(), email)?;
        let order_information = OrderInformationWithBill::from(item, Some(bill_to));
        let payment_information = PaymentInformation::from_google_pay(google_pay_data);
        let processing_information = ProcessingInformation::try_from(
            item,
            Some(PaymentSolution::GooglePay),
            None,
        )?;
        let client_reference_information = ClientReferenceInformation::from(
            &item.router_data.connector_request_reference_id,
        );
        let merchant_defined_information = request_metadata(&item.router_data.request.metadata)?;
        Ok(
            BankOfAmericaPaymentsRequest {
                processing_information,
                payment_information,
                order_information,
                client_reference_information,
                merchant_defined_information,
                consumer_authentication_information: None,
            },
        )
    }

    /// Builds the request for a payment on a mandate that the processor
    /// stored.
    pub fn try_from_mandate(
        item: &BankOfAmericaRouterData<&PaymentsAuthorizeRouterData>,
        connector_mandate_id: String,
    ) -> (res: Result<Self, ConnectorError>)
        ensures
            match spec_mandate_request_error(*item.router_data) {
                Some(e) => res == Err::<Self, ConnectorError>(e),
                None => res matches Ok(req) && spec_is_mandate_request(
                    *item,
                    connector_mandate_id,
                    req,
                ),
            },
    {
        let processing_information = ProcessingInformation::try_from(item, None, None)?;
        let payment_instrument = BankOfAmericaPaymentInstrument { id: connector_mandate_id };
        let bill_to = match item.router_data.request.get_email() {
            Ok(email) => match build_bill_to(item.router_data.get_optional_billing(), email) {
                Ok(bill_to) => Some(bill_to),
                Err(_) => None,
            },
            Err(_) => None,
        };
        let order_information = OrderInformationWithBill::from(item, bill_to);
        let payment_information = PaymentInformation::MandatePayment(
            MandatePaymentInformation { payment_instrument },
        );
        let client_reference_information = ClientReferenceInformation::from(
            &item.router_data.connector_request_reference_id,
        );
        let merchant_defined_information = request_metadata(&item.router_data.request.metadata)?;
        Ok(
            BankOfAmericaPaymentsRequest {
                processing_information,
                payment_information,
                order_information,
                client_reference_information,
                merchant_defined_information,
                consumer_authentication_information: None,
            },
        )
    }
}

/// Whether Bank of America is handed a payment method: cards, Apple Pay,
/// Google Pay, and payments on a mandate.
pub open spec fn spec_supports(payment_method_data: PaymentMethodData) -> bool {
    match payment_method_data {
        PaymentMethodData::Card(_) | PaymentMethodData::MandatePayment => true,
        PaymentMethodData::Wallet(wallet) => wallet is ApplePay || wallet is GooglePay,
        _ => false,
    }
}

/// Tells whether Bank of America is handed a payment method.
pub fn supports(payment_method_data: &PaymentMethodData) -> (res: bool)
    ensures
        res == spec_supports(*payment_method_data),
{
    match payment_method_data {
        PaymentMethodData::Card(_) | PaymentMethodData::MandatePayment => true,
        PaymentMethodData::Wallet(wallet) => matches!(
            wallet,
            WalletData::ApplePay(_) | WalletData::GooglePay(_)
        ),
        PaymentMethodData::CardRedirect(_)
        | PaymentMethodData::PayLater(_)
        | PaymentMethodData::BankRedirect(_)
        | PaymentMethodData::BankDebit(_)
        | PaymentMethodData::BankTransfer(_)
        | PaymentMethodData::Crypto
        | PaymentMethodData::Reward
        | PaymentMethodData::RealTimePayment
        | PaymentMethodData::MobilePayment
        | PaymentMethodData::Upi
        | PaymentMethodData::Voucher(_)
        | PaymentMethodData::GiftCard(_)
        | PaymentMethodData::OpenBanking
        | PaymentMethodData::CardToken
        | PaymentMethodData::NetworkToken(_)
        | PaymentMethodData::CardDetailsForNetworkTransactionId(_) => false,
    }
}

/// The name under which an error reports a payment method: the name of the
/// wallet for a wallet, and the name of the family otherwise.
pub open spec fn spec_feature_name(payment_method_data: PaymentMethodData) -> &'static str {
    match payment_method_data {
        PaymentMethodData::Wallet(wallet) => wallet.spec_scheme_name(),
        _ => payment_method_data.spec_kind_name(),
    }
}

/// The error with which the request to authorize a payment fails, if it
/// does.
pub open spec fn spec_payment_request_error(item: PaymentsAuthorizeRouterData) -> Option<
    ConnectorError,
> {
    if spec_connector_mandate_id(item.request.mandate_id) is Some {
        spec_mandate_request_error(item)
    } else {
        match item.request.payment_method_data {
            PaymentMethodData::Card(_) => spec_plain_request_error(item),
            PaymentMethodData::Wallet(WalletData::ApplePay(_)) => match item.payment_method_token {
                Some(PaymentMethodToken::ApplePayDecrypt(decrypted)) =>
                    spec_predecrypt_request_error(item, decrypted),
                Some(PaymentMethodToken::Token(_)) => Some(spec_not_implemented("Apple Pay Manual")),
                Some(PaymentMethodToken::PazeDecrypt(_)) => Some(spec_not_implemented("Paze")),
                None => spec_plain_request_error(item),
            },
            PaymentMethodData::Wallet(WalletData::GooglePay(_)) => spec_plain_request_error(item),
            PaymentMethodData::MandatePayment => Some(
                ConnectorError::MissingRequiredField { field_name: "connector_mandate_id" },
            ),
            _ => Some(spec_not_implemented(spec_feature_name(item.request.payment_method_data))),
        }
    }
}

/// Whether `req` is the request to authorize a payment.
pub open spec fn spec_is_payment_request(
    item: BankOfAmericaRouterData<&PaymentsAuthorizeRouterData>,
    req: BankOfAmericaPaymentsRequest,
) -> bool {
    let data = *item.router_data;
    match spec_connector_mandate_id(data.request.mandate_id) {
        Some(connector_mandate_id) => spec_is_mandate_request(item, connector_mandate_id, req),
        None => match data.request.payment_method_data {
            PaymentMethodData::Card(card) => {
                &&& spec_has_common_parts(item, RequestKind { solution: None, network: None }, req)
                &&& spec_is_card_information(card, req.payment_information)
                &&& req.consumer_authentication_information is None
            },
            PaymentMethodData::Wallet(WalletData::ApplePay(apple_pay)) => {
                &&& spec_has_common_parts(
                    item,
                    RequestKind {
                        solution: Some(PaymentSolution::ApplePay),
                        network: Some(apple_pay.payment_method.network),
                    },
                    req,
                )
                &&& match data.payment_method_token {
                    Some(PaymentMethodToken::ApplePayDecrypt(decrypted)) =>
                        spec_is_predecrypt_information(decrypted, req.payment_information),
                    _ => req.payment_information == PaymentInformation::spec_from_apple_pay(
                        apple_pay,
                    ),
                }
                &&& spec_is_apple_pay_auth(
                    apple_pay.payment_method.network,
                    req.consumer_authentication_information,
                )
            },
            PaymentMethodData::Wallet(WalletData::GooglePay(google_pay)) => {
                &&& spec_has_common_parts(
                    item,
                    RequestKind { solution: Some(PaymentSolution::GooglePay), network: None },
                    req,
                )
                &&& spec_is_google_pay_information(google_pay, req.payment_information)
                &&& req.consumer_authentication_information is None
            },
            _ => false,
        },
    }
}

/// Whether `req` is the request to set a mandate up without a payment.
pub open spec fn spec_is_setup_request_of(
    item: SetupMandateRouterData,
    kind: RequestKind,
    req: BankOfAmericaPaymentsRequest,
) -> bool {
    &&& spec_is_setup_processing_information(
        kind.solution,
        kind.network,
        req.processing_information,
    )
    &&& item.request.email matches Some(email)
    &&& spec_is_setup_order(item, email, req.order_information)
    &&& req.client_reference_information == (ClientReferenceInformation {
        code: Some(item.connector_request_reference_id),
    })
    &&& spec_is_request_metadata(item.request.metadata, req.merchant_defined_information)
}

/// The error with which the request to set a mandate up fails, if it does.
pub open spec fn spec_setup_request_error(item: SetupMandateRouterData) -> Option<ConnectorError> {
    match item.request.payment_method_data {
        PaymentMethodData::Card(_) | PaymentMethodData::Wallet(WalletData::GooglePay(_)) =>
            spec_first(
                spec_email_error(item.request.email),
                spec_metadata_error(item.request.metadata),
            ),
        PaymentMethodData::Wallet(WalletData::ApplePay(_)) => spec_first(
            spec_email_error(item.request.email),
            spec_first(
                spec_metadata_error(item.request.metadata),
                match item.payment_method_token {
                    Some(PaymentMethodToken::ApplePayDecrypt(decrypted)) => spec_predecrypt_error(
                        decrypted,
                    ),
                    Some(PaymentMethodToken::Token(_)) => Some(
                        spec_not_implemented("Apple Pay Manual"),
                    ),
                    Some(PaymentMethodToken::PazeDecrypt(_)) => Some(spec_not_implemented("Paze")),
                    None => None,
                },
            ),
        ),
        _ => Some(spec_not_implemented(spec_feature_name(item.request.payment_method_data))),
    }
}

/// Whether `req` is the request to set a mandate up.
pub open spec fn spec_is_setup_request(
    item: SetupMandateRouterData,
    req: BankOfAmericaPaymentsRequest,
) -> bool {
    match item.request.payment_method_data {
        PaymentMethodData::Card(card) => {
            &&& spec_is_setup_request_of(item, RequestKind { solution: None, network: None }, req)
            &&& spec_is_card_information(card, req.payment_information)
            &&& req.consumer_authentication_information is None
        },
        PaymentMethodData::Wallet(WalletData::ApplePay(apple_pay)) => {
            &&& spec_is_setup_request_of(
                item,
                RequestKind {
                    solution: Some(PaymentSolution::ApplePay),
                    network: Some(apple_pay.payment_method.network),
                },
                req,
            )
            &&& match item.payment_method_token {
                Some(PaymentMethodToken::ApplePayDecrypt(decrypted)) =>
                    spec_is_predecrypt_information(decrypted, req.payment_information),
                _ => req.payment_information == PaymentInformation::spec_from_apple_pay(apple_pay),
            }
            &&& spec_is_apple_pay_auth(
                apple_pay.payment_method.network,
                req.consumer_authentication_information,
            )
        },
        PaymentMethodData::Wallet(WalletData::GooglePay(google_pay)) => {
            &&& spec_is_setup_request_of(
                item,
                RequestKind { solution: Some(PaymentSolution::GooglePay), network: None },
                req,
            )
            &&& spec_is_google_pay_information(google_pay, req.payment_information)
            &&& req.consumer_authentication_information is None
        },
        _ => false,
    }
}

impl BankOfAmericaPaymentsRequest {
    /// Builds the request to authorize a payment.
    pub fn try_from(item: &BankOfAmericaRouterData<&PaymentsAuthorizeRouterData>) -> (res: Result<
        Self,
        ConnectorError,
    >)
        ensures
            match spec_payment_request_error(*item.router_data) {
                Some(e) => res == Err::<Self, ConnectorError>(e),
                None => res matches Ok(req) && spec_is_payment_request(*item, req),
            },
    {
        match item.router_data.request.connector_mandate_id() {
            Some(connector_mandate_id) => Self::try_from_mandate(item, connector_mandate_id),
            None => {
                match &item.router_data.request.payment_method_data {
                    PaymentMethodData::Card(ccard) => Self::try_from_card(item, ccard),
                    PaymentMethodData::Wallet(wallet_data) => match wallet_data {
                        WalletData::ApplePay(apple_pay_data) => {
                            match &item.router_data.payment_method_token {
                                Some(payment_method_token) => match payment_method_token {
                                    PaymentMethodToken::ApplePayDecrypt(decrypt_data) => {
                                        Self::try_from_apple_pay_decrypted(
                                            item,
                                            decrypt_data,
                                            apple_pay_data,
                                        )
                                    },
                                    PaymentMethodToken::Token(_) => Err(
                                        ConnectorError::NotImplemented {
                                            connector: "Bank of America",
                                            feature: "Apple Pay Manual",
                                        },
                                    ),
                                    PaymentMethodToken::PazeDecrypt(_) => Err(
                                        ConnectorError::NotImplemented {
                                            connector: "Bank of America",
                                            feature: "Paze",
                                        },
                                    ),
                                },
                                None => Self::try_from_apple_pay(item, apple_pay_data),
                            }
                        },
                        WalletData::GooglePay(google_pay_data) => Self::try_from_google_pay(
                            item,
                            google_pay_data,
                        ),
                        WalletData::AliPayQr
                        | WalletData::AliPayRedirect
                        | WalletData::AliPayHkRedirect
                        | WalletData::AmazonPayRedirect
                        | WalletData::MomoRedirect
                        | WalletData::KakaoPayRedirect
                        | WalletData::GoPayRedirect
                        | WalletData::GcashRedirect
                        | WalletData::ApplePayRedirect
                        | WalletData::ApplePayThirdPartySdk
                        | WalletData::DanaRedirect
                        | WalletData::GooglePayRedirect
                        | WalletData::GooglePayThirdPartySdk
                        | WalletData::MbWayRedirect
                        | WalletData::MobilePayRedirect
                        | WalletData::PaypalRedirect
                        | WalletData::PaypalSdk
                        | WalletData::Paze
                        | WalletData::SamsungPay(_)
                        | WalletData::TwintRedirect
                        | WalletData::VippsRedirect
                        | WalletData::TouchNGoRedirect
                        | WalletData::WeChatPayRedirect
                        | WalletData::WeChatPayQr
                        | WalletData::CashappQr
                        | WalletData::SwishQr
                        | WalletData::Mifinity => Err(
                            ConnectorError::NotImplemented {
                                connector: "Bank of America",
                                feature: wallet_data.scheme_name(),
                            },
                        ),
                    },
                    PaymentMethodData::MandatePayment => Err(
                        ConnectorError::MissingRequiredField { field_name: "connector_mandate_id" },
                    ),
                    PaymentMethodData::CardRedirect(_)
                    | PaymentMethodData::PayLater(_)
                    | PaymentMethodData::BankRedirect(_)
                    | PaymentMethodData::BankDebit(_)
                    | PaymentMethodData::BankTransfer(_)
                    | PaymentMethodData::Crypto
                    | PaymentMethodData::Reward
                    | PaymentMethodData::RealTimePayment
                    | PaymentMethodData::MobilePayment
                    | PaymentMethodData::Upi
                    | PaymentMethodData::Voucher(_)
                    | PaymentMethodData::GiftCard(_)
                    | PaymentMethodData::OpenBanking
                    | PaymentMethodData::CardToken
                    | PaymentMethodData::NetworkToken(_)
                    | PaymentMethodData::CardDetailsForNetworkTransactionId(_) => Err(
                        ConnectorError::NotImplemented {
                            connector: "Bank of America",
                            feature: item.router_data.request.payment_method_data.kind_name(),
                        },
                    ),
                }
            },
        }
    }

    /// Builds the request to set a mandate up.
    pub fn try_from_setup_mandate(item: &SetupMandateRouterData) -> (res: Result<
        Self,
        ConnectorError,
    >)
        ensures
            match spec_setup_request_error(*item) {
                Some(e) => res == Err::<Self, ConnectorError>(e),
                None => res matches Ok(req) && spec_is_setup_request(*item, req),
            },
    {
        match &item.request.payment_method_data {
            PaymentMethodData::Card(card_data) => {
                let order_information = OrderInformationWithBill::try_from_setup(item)?;
                let client_reference_information = ClientReferenceInformation::from(
                    &item.connector_request_reference_id,
                );
                let merchant_defined_information = request_metadata(&item.request.metadata)?;
                let payment_information = PaymentInformation::try_from_card(card_data)?;
                let processing_information = ProcessingInformation::try_from_setup(None, None)?;
                Ok(
                    BankOfAmericaPaymentsRequest {
                        processing_information,
                        payment_information,
                        order_information,
                        client_reference_information,
                        consumer_authentication_information: None,
                        merchant_defined_information,
                    },
                )
            },
            PaymentMethodData::Wallet(wallet_data) => match wallet_data {
                WalletData::ApplePay(apple_pay_data) => {
                    let order_information = OrderInformationWithBill::try_from_setup(item)?;
                    let client_reference_information = ClientReferenceInformation::from(
                        &item.connector_request_reference_id,
                    );
                    let merchant_defined_information = request_metadata(&item.request.metadata)?;
                    let payment_information = match &item.payment_method_token {
                        Some(payment_method_token) => match payment_method_token {
                            PaymentMethodToken::ApplePayDecrypt(decrypt_data) => {
                                PaymentInformation::try_from_predecrypt(decrypt_data)?
                            },
                            PaymentMethodToken::Token(_) => {
                                return Err(
                                    ConnectorError::NotImplemented {
                                        connector: "Bank of America",
                                        feature: "Apple Pay Manual",
                                    },
                                );
                            },
                            PaymentMethodToken::PazeDecrypt(_) => {
                                return Err(
                                    ConnectorError::NotImplemented {
                                        connector: "Bank of America",
                                        feature: "Paze",
                                    },
                                );
                            },
                        },
                        None => PaymentInformation::from_apple_pay(apple_pay_data),
                    };
                    let processing_information = ProcessingInformation::try_from_setup(
                        Some(PaymentSolution::ApplePay),
                        Some(apple_pay_data.payment_method.network.clone()),
                    )?;
                    let consumer_authentication_information = apple_pay_auth(
                        &apple_pay_data.payment_method.network,
                    );
                    Ok(
                        BankOfAmericaPaymentsRequest {
                            processing_information,
                            payment_information,
                            order_information,
                            client_reference_information,
                            merchant_defined_information,
                            consumer_authentication_information,
                        },
                    )
                },
                WalletData::GooglePay(google_pay_data) => {
                    let order_information = OrderInformationWithBill::try_from_setup(item)?;
                    let client_reference_information = ClientReferenceInformation::from(
                        &item.connector_request_reference_id,
                    );
                    let merchant_defined_information = request_metadata(&item.request.metadata)?;
                    let payment_information = PaymentInformation::from_google_pay(google_pay_data);
                    let processing_information = ProcessingInformation::try_from_setup(
                        Some(PaymentSolution::GooglePay),
                        None,
                    )?;
                    Ok(
                        BankOfAmericaPaymentsRequest {
                            processing_information,
                            payment_information,
                            order_information,
                            client_reference_information,
                            merchant_defined_information,
                            consumer_authentication_information: None,
                        },
                    )
                },
                WalletData::AliPayQr
                | WalletData::AliPayRedirect
                | WalletData::AliPayHkRedirect
                | WalletData::AmazonPayRedirect
                | WalletData::MomoRedirect
                | WalletData::KakaoPayRedirect
                | WalletData::GoPayRedirect
                | WalletData::GcashRedirect
                | WalletData::ApplePayRedirect
                | WalletData::ApplePayThirdPartySdk
                | WalletData::DanaRedirect
                | WalletData::GooglePayRedirect
                | WalletData::GooglePayThirdPartySdk
                | WalletData::MbWayRedirect
                | WalletData::MobilePayRedirect
                | WalletData::PaypalRedirect
                | WalletData::PaypalSdk
                | WalletData::Paze
                | WalletData::SamsungPay(_)
                | WalletData::TwintRedirect
                | WalletData::VippsRedirect
                | WalletData::TouchNGoRedirect
                | WalletData::WeChatPayRedirect
                | WalletData::WeChatPayQr
                | WalletData::CashappQr
                | WalletData::SwishQr
                | WalletData::Mifinity => Err(
                    ConnectorError::NotImplemented {
                        connector: "Bank of America",
                        feature: wallet_data.scheme_name(),
                    },
                ),
            },
            PaymentMethodData::MandatePayment
            | PaymentMethodData::CardRedirect(_)
            | PaymentMethodData::PayLater(_)
            | PaymentMethodData::BankRedirect(_)
            | PaymentMethodData::BankDebit(_)
            | PaymentMethodData::BankTransfer(_)
            | PaymentMethodData::Crypto
            | PaymentMethodData::Reward
            | PaymentMethodData::RealTimePayment
            | PaymentMethodData::MobilePayment
            | PaymentMethodData::Upi
            | PaymentMethodData::Voucher(_)
            | PaymentMethodData::GiftCard(_)
            | PaymentMethodData::OpenBanking
            | PaymentMethodData::CardToken
            | PaymentMethodData::NetworkToken(_)
            | PaymentMethodData::CardDetailsForNetworkTransactionId(_) => Err(
                ConnectorError::NotImplemented {
                    connector: "Bank of America",
                    feature: item.request.payment_method_data.kind_name(),
                },
            ),
        }
    }
}

/// Totality of the mapping: the request to authorize a payment that is
/// not made on a mandate ends in an error for every payment method that
/// Bank of America is not handed, and that error is `NotImplemented` under
/// the name of the payment method. It never ends in a request that drops
/// the payment method.
pub proof fn lemma_mapping_is_total(item: PaymentsAuthorizeRouterData)
    requires
        spec_connector_mandate_id(item.request.mandate_id) is None,
    ensures
        !spec_supports(item.request.payment_method_data) ==> spec_payment_request_error(item)
            == Some(spec_not_implemented(spec_feature_name(item.request.payment_method_data))),
        spec_payment_request_error(item) matches Some(
            ConnectorError::NotImplemented { connector, .. },
        ) ==> connector == "Bank of America",
{
}

/// The amount of a request as the processor writes it.
pub open spec fn spec_order_information(total_amount: String, currency: Currency) -> OrderInformation {
    OrderInformation { amount_details: Amount { total_amount, currency } }
}

/// Whether `res` is the outcome of building the request to capture a
/// payment.
pub open spec fn spec_is_capture_request(
    value: BankOfAmericaRouterData<&PaymentsCaptureRouterData>,
    res: Result<BankOfAmericaCaptureRequest, ConnectorError>,
) -> bool {
    let data = *value.router_data;
    match spec_metadata_error(data.request.metadata) {
        Some(e) => res == Err::<BankOfAmericaCaptureRequest, ConnectorError>(e),
        None => {
            &&& res matches Ok(req)
            &&& req.order_information == spec_order_information(
                value.amount,
                data.request.currency,
            )
            &&& req.client_reference_information == (ClientReferenceInformation {
                code: Some(data.connector_request_reference_id),
            })
            &&& spec_is_request_metadata(data.request.metadata, req.merchant_defined_information)
        },
    }
}

impl BankOfAmericaCaptureRequest {
    /// Builds the request to capture a payment.
    pub fn try_from(value: &BankOfAmericaRouterData<&PaymentsCaptureRouterData>) -> (res: Result<
        Self,
        ConnectorError,
    >)
        ensures
            spec_is_capture_request(*value, res),
    {
        let merchant_defined_information = request_metadata(&value.router_data.request.metadata)?;
        Ok(
            BankOfAmericaCaptureRequest {
                order_information: OrderInformation {
                    amount_details: Amount {
                        total_amount: value.amount.clone(),
                        currency: value.router_data.request.currency,
                    },
                },
                client_reference_information: ClientReferenceInformation {
                    code: Some(value.router_data.connector_request_reference_id.clone()),
                },
                merchant_defined_information,
            },
        )
    }
}

/// The error with which the request to void a payment fails, if it does:
/// the currency and the reason of the void are required.
pub open spec fn spec_void_error(item: PaymentsCancelRouterData) -> Option<ConnectorError> {
    spec_first(
        spec_metadata_error(item.request.metadata),
        if item.request.currency is None {
            Some(ConnectorError::MissingRequiredField { field_name: "Currency" })
        } else if item.request.cancellation_reason is None {
            Some(ConnectorError::MissingRequiredField { field_name: "Cancellation Reason" })
        } else {
            None
        },
    )
}

/// Whether `res` is the outcome of building the request to void a payment.
pub open spec fn spec_is_void_request(
    value: BankOfAmericaRouterData<&PaymentsCancelRouterData>,
    res: Result<BankOfAmericaVoidRequest, ConnectorError>,
) -> bool {
    let data = *value.router_data;
    match spec_void_error(data) {
        Some(e) => res == Err::<BankOfAmericaVoidRequest, ConnectorError>(e),
        None => {
            &&& res matches Ok(req)
            &&& req.client_reference_information == (ClientReferenceInformation {
                code: Some(data.connector_request_reference_id),
            })
            &&& Some(req.reversal_information.amount_details.currency) == data.request.currency
            &&& req.reversal_information.amount_details.total_amount == value.amount
            &&& Some(req.reversal_information.reason) == data.request.cancellation_reason
            &&& spec_is_request_metadata(data.request.metadata, req.merchant_defined_information)
        },
    }
}

impl BankOfAmericaVoidRequest {
    /// Builds the request to void a payment.
    pub fn try_from(value: &BankOfAmericaRouterData<&PaymentsCancelRouterData>) -> (res: Result<
        Self,
        ConnectorError,
    >)
        ensures
            spec_is_void_request(*value, res),
    {
        let merchant_defined_information = request_metadata(&value.router_data.request.metadata)?;
        let currency = match value.router_data.request.currency {
            Some(currency) => currency,
            None => {
                return Err(ConnectorError::MissingRequiredField { field_name: "Currency" });
            },
        };
        let reason = match &value.router_data.request.cancellation_reason {
            Some(reason) => reason.clone(),
            None => {
                return Err(
                    ConnectorError::MissingRequiredField { field_name: "Cancellation Reason" },
                );
            },
        };
        Ok(
            BankOfAmericaVoidRequest {
                client_reference_information: ClientReferenceInformation {
                    code: Some(value.router_data.connector_request_reference_id.clone()),
                },
                reversal_information: ReversalInformation {
                    amount_details: Amount { total_amount: value.amount.clone(), currency },
                    reason,
                },
                merchant_defined_information,
            },
        )
    }
}

impl BankOfAmericaRefundRequest {
    /// The request to refund a payment: the amount as the processor writes
    /// it, under the id of the refund.
    pub open spec fn spec_try_from(item: BankOfAmericaRouterData<&RefundsRouterData>) -> Self {
        BankOfAmericaRefundRequest {
            order_information: spec_order_information(
                item.amount,
                item.router_data.request.currency,
            ),
            client_reference_information: ClientReferenceInformation {
                code: Some(item.router_data.request.refund_id),
            },
        }
    }

    /// Builds the request to refund a payment.
    pub fn try_from(item: &BankOfAmericaRouterData<&RefundsRouterData>) -> (res: Result<
        Self,
        ConnectorError,
    >)
        ensures
            res == Ok::<Self, ConnectorError>(Self::spec_try_from(*item)),
    {
        Ok(
            BankOfAmericaRefundRequest {
                order_information: OrderInformation {
                    amount_details: Amount {
                        total_amount: item.amount.clone(),
                        currency: item.router_data.request.currency,
                    },
                },
                client_reference_information: ClientReferenceInformation {
                    code: Some(item.router_data.request.refund_id.clone()),
                },
            },
        )
    }
}

} // verus!
