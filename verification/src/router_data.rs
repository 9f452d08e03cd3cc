//! What a connector is asked: the canonical requests and the context in
//! which they are made.

use vstd::prelude::*;
use crate::address::{Address, AddressDetails, PaymentAddress, PhoneDetails};
use crate::country::CountryAlpha2;
use crate::currency::{Currency, MinorUnit};
use crate::enums::{
    AttemptStatus,
    AuthenticationType,
    CaptureMethod,
    CardNetwork,
    FutureUsage,
    PaymentExperience,
    PaymentMethod,
    PaymentMethodType,
    PayoutEntityType,
    PayoutType,
};
use crate::errors::{spec_required, ConnectorError};
use crate::payment_method_data::PaymentMethodData;
use crate::router_response::{
    AdyenSplitData,
    ConnectorResponseData,
    ErrorResponse,
    PaymentMethodBalance,
};
use crate::text::opt_str;

verus! {

/// The credentials of a merchant's account with a connector.
#[derive(Clone, Debug, PartialEq, Eq)]
pub enum ConnectorAuthType {
    HeaderKey { api_key: String },
    BodyKey { api_key: String, key1: String },
    SignatureKey { api_key: String, key1: String, api_secret: String },
    MultiAuthKey { api_key: String, key1: String, api_secret: String, key2: String },
    NoKey,
}

/// What the shopper's browser told about itself.
#[derive(Clone, Debug, PartialEq, Eq)]
pub struct BrowserInformation {
    pub color_depth: Option<u8>,
    pub java_enabled: Option<bool>,
    pub java_script_enabled: Option<bool>,
    pub language: Option<String>,
    pub screen_height: Option<u32>,
    pub screen_width: Option<u32>,
    pub time_zone: Option<i32>,
    pub ip_address: Option<String>,
    pub accept_header: Option<String>,
    pub user_agent: Option<String>,
}

/// One line of an order.
#[derive(Clone, Debug, PartialEq, Eq)]
pub struct OrderDetailsWithAmount {
    pub product_name: String,
    pub quantity: u16,
    pub amount: MinorUnit,
}

/// A mandate that the connector stored under a token of its own.
#[derive(Clone, Debug, PartialEq, Eq)]
pub struct ConnectorMandateReferenceId {
    pub connector_mandate_id: Option<String>,
    pub payment_method_id: Option<String>,
}

/// A network token that is charged again by a network transaction id.
#[derive(Clone, Debug, PartialEq, Eq)]
pub struct NetworkTokenWithNTIRef {
    pub network_transaction_id: String,
    pub token_exp_month: Option<String>,
    pub token_exp_year: Option<String>,
}

/// How a stored mandate is addressed. The three ways exclude each other.
#[derive(Clone, Debug, PartialEq, Eq)]
pub enum MandateReferenceId {
    /// By the token that the connector issued.
    ConnectorMandateId(ConnectorMandateReferenceId),
    /// By the transaction id that the card network gave to the first
    /// payment.
    NetworkMandateId(String),
    /// By a network token together with a network transaction id.
    NetworkTokenWithNTI(NetworkTokenWithNTIRef),
}

/// The mandate that a payment is made on.
#[derive(Clone, Debug, PartialEq, Eq)]
pub struct MandateIds {
    pub mandate_id: Option<String>,
    pub mandate_reference_id: Option<MandateReferenceId>,
}

/// That the shopper accepted a mandate online.
#[derive(Clone, Debug, PartialEq, Eq)]
pub struct OnlineMandate {
    pub ip_address: Option<String>,
    pub user_agent: String,
}

/// How the shopper accepted a mandate.
#[derive(Clone, Debug, PartialEq, Eq)]
pub struct CustomerAcceptance {
    pub online: Option<OnlineMandate>,
}

/// The mandate that a payment sets up.
#[derive(Clone, Debug, PartialEq, Eq)]
pub struct MandateData {
    pub customer_acceptance: Option<CustomerAcceptance>,
}

/// What the first payment on a mandate was authorized for.
#[derive(Clone, Copy, Debug, PartialEq, Eq, Structural)]
pub struct RecurringMandatePaymentData {
    pub original_payment_authorized_amount: Option<i64>,
    pub original_payment_authorized_currency: Option<Currency>,
}

/// An Apple Pay payment that was decrypted before it reached the connector.
#[derive(Clone, Debug, PartialEq, Eq)]
pub struct ApplePayPredecryptData {
    pub application_primary_account_number: String,
    /// The expiry date as six digits: year, month, day.
    pub application_expiration_date: String,
    pub online_payment_cryptogram: String,
    pub eci_indicator: Option<String>,
}

/// A Paze payment that was decrypted before it reached the connector.
#[derive(Clone, Debug, PartialEq, Eq)]
pub struct PazeDecryptedData {
    pub payment_token: String,
    pub token_expiration_month: String,
    pub token_expiration_year: String,
    pub payment_account_reference: String,
    pub payment_card_network: CardNetwork,
    pub billing_name: Option<String>,
    pub eci: Option<String>,
}

/// What stands in for the payment method after an earlier step.
#[derive(Clone, Debug, PartialEq, Eq)]
pub enum PaymentMethodToken {
    Token(String),
    ApplePayDecrypt(ApplePayPredecryptData),
    PazeDecrypt(PazeDecryptedData),
}

/// How a payment is split, in the form that one connector takes.
#[derive(Clone, Debug, PartialEq, Eq)]
pub enum SplitPaymentsRequest {
    StripeSplitPayment,
    AdyenSplitPayment(AdyenSplitData),
}

/// How a refund is split, in the form that one connector takes.
#[derive(Clone, Debug, PartialEq, Eq)]
pub enum SplitRefundsRequest {
    StripeSplitRefund,
    AdyenSplitRefund(AdyenSplitData),
}

/// A request to authorize a payment.
#[derive(Clone, Debug, PartialEq, Eq)]
pub struct PaymentsAuthorizeData {
    pub payment_method_data: PaymentMethodData,
    /// The amount in minor units.
    pub amount: i64,
    pub minor_amount: MinorUnit,
    pub currency: Currency,
    pub email: Option<String>,
    pub customer_name: Option<String>,
    pub confirm: bool,
    pub statement_descriptor_suffix: Option<String>,
    pub statement_descriptor: Option<String>,
    pub capture_method: Option<CaptureMethod>,
    pub router_return_url: Option<String>,
    pub browser_info: Option<BrowserInformation>,
    pub order_details: Option<Vec<OrderDetailsWithAmount>>,
    pub setup_future_usage: Option<FutureUsage>,
    pub off_session: Option<bool>,
    pub mandate_id: Option<MandateIds>,
    pub setup_mandate_details: Option<MandateData>,
    pub customer_acceptance: Option<CustomerAcceptance>,
    pub payment_experience: Option<PaymentExperience>,
    pub payment_method_type: Option<PaymentMethodType>,
    /// What the merchant attached to the payment, as JSON text.
    pub metadata: Option<String>,
    pub split_payments: Option<SplitPaymentsRequest>,
    pub merchant_order_reference_id: Option<String>,
    pub request_incremental_authorization: bool,
    pub shipping_cost: Option<MinorUnit>,
    pub enrolled_for_3ds: bool,
    pub order_tax_amount: Option<MinorUnit>,
}

/// A request to set up a mandate without taking a payment.
#[derive(Clone, Debug, PartialEq, Eq)]
pub struct SetupMandateRequestData {
    pub currency: Currency,
    pub payment_method_data: PaymentMethodData,
    pub confirm: bool,
    pub statement_descriptor_suffix: Option<String>,
    pub mandate_id: Option<MandateIds>,
    pub setup_future_usage: Option<FutureUsage>,
    pub off_session: Option<bool>,
    pub setup_mandate_details: Option<MandateData>,
    pub router_return_url: Option<String>,
    pub email: Option<String>,
    pub customer_name: Option<String>,
    pub browser_info: Option<BrowserInformation>,
    pub customer_acceptance: Option<CustomerAcceptance>,
    pub request_incremental_authorization: bool,
    /// What the merchant attached to the payment, as JSON text.
    pub metadata: Option<String>,
    pub shipping_cost: Option<MinorUnit>,
}

/// One capture of a payment that is captured in parts.
#[derive(Clone, Debug, PartialEq, Eq)]
pub struct MultipleCaptureRequestData {
    pub capture_sequence: i16,
    pub capture_reference: String,
}

/// A request to capture an authorized payment.
#[derive(Clone, Debug, PartialEq, Eq)]
pub struct PaymentsCaptureData {
    pub amount_to_capture: i64,
    pub currency: Currency,
    pub connector_transaction_id: String,
    pub multiple_capture_data: Option<MultipleCaptureRequestData>,
    /// What the merchant attached to the payment, as JSON text.
    pub metadata: Option<String>,
}

/// A request to void an authorized payment.
#[derive(Clone, Debug, PartialEq, Eq)]
pub struct PaymentsCancelData {
    pub amount: Option<i64>,
    pub currency: Option<Currency>,
    pub connector_transaction_id: String,
    pub cancellation_reason: Option<String>,
    /// What the merchant attached to the payment, as JSON text.
    pub metadata: Option<String>,
}

/// A request for the current state of a payment.
#[derive(Clone, Debug, PartialEq, Eq)]
pub struct PaymentsSyncData {
    pub connector_transaction_id: String,
    pub capture_method: Option<CaptureMethod>,
    pub payment_method_type: Option<PaymentMethodType>,
}

/// A request that is made before a payment is authorized.
#[derive(Clone, Debug, PartialEq, Eq)]
pub struct PaymentsPreProcessingData {
    pub payment_method_data: Option<PaymentMethodData>,
    pub amount: Option<i64>,
    pub currency: Option<Currency>,
}

/// A request to refund a payment.
#[derive(Clone, Debug, PartialEq, Eq)]
pub struct RefundsData {
    pub refund_id: String,
    pub connector_transaction_id: String,
    pub currency: Currency,
    pub refund_amount: i64,
    pub reason: Option<String>,
    pub split_refunds: Option<SplitRefundsRequest>,
}

/// A request to accept a dispute.
#[derive(Clone, Debug, PartialEq, Eq)]
pub struct AcceptDisputeRequestData {
    pub dispute_id: String,
    pub connector_dispute_id: String,
}

/// A request to defend a dispute.
#[derive(Clone, Debug, PartialEq, Eq)]
pub struct DefendDisputeRequestData {
    pub dispute_id: String,
    pub connector_dispute_id: String,
}

/// A request to hand in evidence on a dispute. Each document is a file's
/// bytes, and goes with the type of the file.
#[derive(Clone, Debug, PartialEq, Eq)]
pub struct SubmitEvidenceRequestData {
    pub dispute_id: String,
    pub connector_dispute_id: String,
    pub shipping_documentation: Option<Vec<u8>>,
    pub shipping_documentation_file_type: Option<String>,
    pub receipt: Option<Vec<u8>>,
    pub receipt_file_type: Option<String>,
    pub invoice_showing_distinct_transactions: Option<Vec<u8>>,
    pub invoice_showing_distinct_transactions_file_type: Option<String>,
    pub customer_communication: Option<Vec<u8>>,
    pub customer_communication_file_type: Option<String>,
    pub refund_policy: Option<Vec<u8>>,
    pub refund_policy_file_type: Option<String>,
    pub recurring_transaction_agreement: Option<Vec<u8>>,
    pub recurring_transaction_agreement_file_type: Option<String>,
    pub uncategorized_file: Option<Vec<u8>>,
    pub uncategorized_file_type: Option<String>,
    pub cancellation_policy: Option<Vec<u8>>,
    pub cancellation_policy_file_type: Option<String>,
    pub customer_signature: Option<Vec<u8>>,
    pub customer_signature_file_type: Option<String>,
    pub service_documentation: Option<Vec<u8>>,
    pub service_documentation_file_type: Option<String>,
}

/// A request to turn a payment method into a token.
#[derive(Clone, Debug, PartialEq, Eq)]
pub struct PaymentMethodTokenizationData {
    pub payment_method_data: PaymentMethodData,
    pub currency: Currency,
}

/// A request to create a customer with a connector.
#[derive(Clone, Debug, PartialEq, Eq)]
pub struct ConnectorCustomerData {
    pub description: Option<String>,
    pub email: Option<String>,
    pub phone: Option<String>,
    pub name: Option<String>,
}

/// A card that a payout goes to.
#[derive(Clone, Debug, PartialEq, Eq)]
pub struct PayoutCard {
    pub card_number: String,
    pub expiry_month: String,
    pub expiry_year: String,
    pub card_holder_name: Option<String>,
}

/// A SEPA account that a payout goes to.
#[derive(Clone, Debug, PartialEq, Eq)]
pub struct SepaBankTransfer {
    pub bank_name: Option<String>,
    pub bank_country_code: Option<CountryAlpha2>,
    pub bank_city: Option<String>,
    pub iban: String,
    pub bic: Option<String>,
}

/// A bank account that a payout goes to.
#[derive(Clone, Debug, PartialEq, Eq)]
pub enum PayoutBank {
    Ach,
    Bacs,
    Sepa(SepaBankTransfer),
    Pix,
}

/// A wallet that a payout goes to.
#[derive(Clone, Debug, PartialEq, Eq)]
pub enum PayoutWallet {
    Paypal { email: Option<String> },
    Venmo,
}

/// Where a payout goes to.
#[derive(Clone, Debug, PartialEq, Eq)]
pub enum PayoutMethodData {
    Card(PayoutCard),
    Bank(PayoutBank),
    Wallet(PayoutWallet),
}

/// Who receives a payout.
#[derive(Clone, Debug, PartialEq, Eq)]
pub struct PayoutCustomerDetails {
    pub name: Option<String>,
    pub email: Option<String>,
}

/// A request to pay money out.
#[derive(Clone, Debug, PartialEq, Eq)]
pub struct PayoutsData {
    pub payout_id: String,
    pub amount: i64,
    pub connector_payout_id: Option<String>,
    pub destination_currency: Currency,
    pub source_currency: Currency,
    pub payout_type: Option<PayoutType>,
    pub entity_type: PayoutEntityType,
    pub customer_details: Option<PayoutCustomerDetails>,
}

/// A request to a connector in its context: who asks, with which
/// credentials, for which payment, and what is known of the payment so far.
#[derive(Debug, PartialEq, Eq)]
pub struct RouterData<Request, Response> {
    pub merchant_id: String,
    pub customer_id: Option<String>,
    pub connector_customer: Option<String>,
    pub payment_id: String,
    pub attempt_id: String,
    pub status: AttemptStatus,
    pub payment_method: PaymentMethod,
    pub connector_auth_type: ConnectorAuthType,
    pub description: Option<String>,
    pub address: PaymentAddress,
    pub auth_type: AuthenticationType,
    /// What is configured for the connector account, as JSON text.
    pub connector_meta_data: Option<String>,
    pub amount_captured: Option<i64>,
    pub payment_method_token: Option<PaymentMethodToken>,
    pub recurring_mandate_payment_data: Option<RecurringMandatePaymentData>,
    pub connector_request_reference_id: String,
    pub payment_method_balance: Option<PaymentMethodBalance>,
    pub connector_http_status_code: Option<u16>,
    pub connector_response: Option<ConnectorResponseData>,
    pub payout_method_data: Option<PayoutMethodData>,
    pub test_mode: Option<bool>,
    pub request: Request,
    pub response: Result<Response, ErrorResponse>,
}

/// What a connector answered, together with the request it answers.
#[derive(Debug, PartialEq, Eq)]
pub struct ResponseRouterData<ConnectorResponse, Request, Response> {
    pub response: ConnectorResponse,
    pub data: RouterData<Request, Response>,
    pub http_code: u16,
}

/// Whether a payment is made with a stored credential: it sets a mandate
/// up for later use without the shopper, or is made on a mandate that the
/// connector stored.
pub open spec fn spec_is_mandate_payment(request: PaymentsAuthorizeData) -> bool {
    ((request.customer_acceptance is Some || request.setup_mandate_details is Some)
        && request.setup_future_usage == Some(FutureUsage::OffSession))
        || spec_connector_mandate_id(request.mandate_id) is Some
}

/// The token under which the connector stored the mandate that a payment
/// is made on.
pub open spec fn spec_connector_mandate_id(mandate_id: Option<MandateIds>) -> Option<String> {
    match mandate_id {
        Some(MandateIds {
            mandate_reference_id: Some(MandateReferenceId::ConnectorMandateId(reference)),
            ..
        }) => reference.connector_mandate_id,
        _ => None,
    }
}

/// Whether the payment is captured as soon as it is authorized, or the
/// error for a capture method that has no such answer.
pub open spec fn spec_is_auto_capture(capture_method: Option<CaptureMethod>) -> Result<
    bool,
    ConnectorError,
> {
    match capture_method {
        Some(CaptureMethod::Automatic) | None => Ok(true),
        Some(CaptureMethod::Manual) => Ok(false),
        Some(_) => Err(ConnectorError::CaptureMethodNotSupported),
    }
}

/// Whether the payment is captured as soon as it is authorized.
pub fn is_auto_capture(capture_method: Option<CaptureMethod>) -> (res: Result<bool, ConnectorError>)
    ensures
        res == spec_is_auto_capture(capture_method),
{
    match capture_method {
        Some(CaptureMethod::Automatic) | None => Ok(true),
        Some(CaptureMethod::Manual) => Ok(false),
        Some(_) => Err(ConnectorError::CaptureMethodNotSupported),
    }
}

impl PaymentsAuthorizeData {
    /// The token under which the connector stored the mandate that the
    /// payment is made on.
    pub fn connector_mandate_id(&self) -> (res: Option<String>)
        ensures
            res == spec_connector_mandate_id(self.mandate_id),
    {
        match &self.mandate_id {
            Some(MandateIds {
                mandate_reference_id: Some(MandateReferenceId::ConnectorMandateId(reference)),
                ..
            }) => reference.connector_mandate_id.clone(),
            _ => None,
        }
    }

    /// Whether the payment is made with a stored credential.
    pub fn is_mandate_payment(&self) -> (res: bool)
        ensures
            res == spec_is_mandate_payment(*self),
    {
        ((self.customer_acceptance.is_some() || self.setup_mandate_details.is_some()) && matches!(
            self.setup_future_usage,
            Some(FutureUsage::OffSession)
        )) || self.connector_mandate_id().is_some()
    }

    /// Where the shopper comes back to, which is required.
    pub fn get_router_return_url(&self) -> (res: Result<String, ConnectorError>)
        ensures
            res == spec_required(self.router_return_url, "return_url"),
    {
        match &self.router_return_url {
            Some(url) => Ok(url.clone()),
            None => Err(ConnectorError::MissingRequiredField { field_name: "return_url" }),
        }
    }

    /// The shopper's e-mail address, which is required.
    pub fn get_email(&self) -> (res: Result<String, ConnectorError>)
        ensures
            res == spec_required(self.email, "email"),
    {
        match &self.email {
            Some(email) => Ok(email.clone()),
            None => Err(ConnectorError::MissingRequiredField { field_name: "email" }),
        }
    }

    /// The address of the shopper's device, where it is known.
    pub open spec fn spec_ip_address(self) -> Option<String> {
        match self.browser_info {
            Some(info) => info.ip_address,
            None => None,
        }
    }

    /// The address of the shopper's device, where it is known.
    pub fn get_ip_address_as_optional(&self) -> (res: Option<String>)
        ensures
            res == self.spec_ip_address(),
    {
        match &self.browser_info {
            Some(info) => info.ip_address.clone(),
            None => None,
        }
    }
}

impl SetupMandateRequestData {
    /// The shopper's e-mail address, which is required.
    pub fn get_email(&self) -> (res: Result<String, ConnectorError>)
        ensures
            res == spec_required(self.email, "email"),
    {
        match &self.email {
            Some(email) => Ok(email.clone()),
            None => Err(ConnectorError::MissingRequiredField { field_name: "email" }),
        }
    }
}

/// The postal part of an optional address.
pub open spec fn spec_address_details(address: Option<Address>) -> Option<AddressDetails> {
    match address {
        Some(a) => a.address,
        None => None,
    }
}

/// The phone of an optional address.
pub open spec fn spec_phone(address: Option<Address>) -> Option<PhoneDetails> {
    match address {
        Some(a) => a.phone,
        None => None,
    }
}

/// The e-mail address of an optional address.
pub open spec fn spec_email(address: Option<Address>) -> Option<String> {
    match address {
        Some(a) => a.email,
        None => None,
    }
}

/// The first name on an optional address.
pub open spec fn spec_first_name(address: Option<Address>) -> Option<String> {
    match spec_address_details(address) {
        Some(d) => d.first_name,
        None => None,
    }
}

/// The last name on an optional address.
pub open spec fn spec_last_name(address: Option<Address>) -> Option<String> {
    match spec_address_details(address) {
        Some(d) => d.last_name,
        None => None,
    }
}

/// The country of an optional address.
pub open spec fn spec_country(address: Option<Address>) -> Option<CountryAlpha2> {
    match spec_address_details(address) {
        Some(d) => d.country,
        None => None,
    }
}

/// The full name on an optional address, as far as it is known.
pub open spec fn spec_optional_full_name(address: Option<Address>) -> Option<Seq<char>> {
    match address {
        Some(a) => a.spec_optional_full_name(),
        None => None,
    }
}

impl<Request, Response> RouterData<Request, Response> {
    /// Who is billed, where that is known.
    pub fn get_optional_billing(&self) -> (res: Option<&Address>)
        ensures
            match self.address.billing {
                Some(a) => res == Some(&a),
                None => res is None,
            },
    {
        self.address.billing.as_ref()
    }

    /// Where the goods go, where that is known.
    pub fn get_optional_shipping(&self) -> (res: Option<&Address>)
        ensures
            match self.address.shipping {
                Some(a) => res == Some(&a),
                None => res is None,
            },
    {
        self.address.shipping.as_ref()
    }

    /// The customer's id, which is required.
    pub fn get_customer_id(&self) -> (res: Result<String, ConnectorError>)
        ensures
            res == spec_required(self.customer_id, "customer_id"),
    {
        match &self.customer_id {
            Some(id) => Ok(id.clone()),
            None => Err(ConnectorError::MissingRequiredField { field_name: "customer_id" }),
        }
    }

    /// The postal address that is billed, which is required.
    pub fn get_billing_address(&self) -> (res: Result<&AddressDetails, ConnectorError>)
        ensures
            res == spec_required(
                match spec_address_details(self.address.billing) {
                    Some(d) => Some(&d),
                    None => None,
                },
                "billing.address",
            ),
    {
        match &self.address.billing {
            Some(Address { address: Some(details), .. }) => Ok(details),
            _ => Err(ConnectorError::MissingRequiredField { field_name: "billing.address" }),
        }
    }

    /// The phone of the person who is billed, which is required.
    pub fn get_billing_phone(&self) -> (res: Result<&PhoneDetails, ConnectorError>)
        ensures
            res == spec_required(
                match spec_phone(self.address.billing) {
                    Some(p) => Some(&p),
                    None => None,
                },
                "billing.phone",
            ),
    {
        match &self.address.billing {
            Some(Address { phone: Some(phone), .. }) => Ok(phone),
            _ => Err(ConnectorError::MissingRequiredField { field_name: "billing.phone" }),
        }
    }

    /// The number of the phone of the person who is billed, which is
    /// required.
    pub open spec fn spec_billing_phone_number(self) -> Result<String, ConnectorError> {
        match spec_phone(self.address.billing) {
            Some(PhoneDetails { number: Some(number), .. }) => Ok(number),
            _ => Err(
                ConnectorError::MissingRequiredField { field_name: "payment_method_data.billing.phone" },
            ),
        }
    }

    /// The number of the phone of the person who is billed, which is
    /// required.
    pub fn get_billing_phone_number(&self) -> (res: Result<String, ConnectorError>)
        ensures
            res == self.spec_billing_phone_number(),
    {
        match &self.address.billing {
            Some(Address { phone: Some(PhoneDetails { number: Some(number), .. }), .. }) => Ok(
                number.clone(),
            ),
            _ => Err(
                ConnectorError::MissingRequiredField { field_name: "payment_method_data.billing.phone" },
            ),
        }
    }

    /// The e-mail address of the person who is billed, where it is known.
    pub fn get_optional_billing_email(&self) -> (res: Option<String>)
        ensures
            res == spec_email(self.address.billing),
    {
        match &self.address.billing {
            Some(a) => a.email.clone(),
            None => None,
        }
    }

    /// The e-mail address of the person who is billed, which is required.
    pub fn get_billing_email(&self) -> (res: Result<String, ConnectorError>)
        ensures
            res == spec_required(
                spec_email(self.address.billing),
                "payment_method_data.billing.email",
            ),
    {
        match self.get_optional_billing_email() {
            Some(email) => Ok(email),
            None => Err(
                ConnectorError::MissingRequiredField { field_name: "payment_method_data.billing.email" },
            ),
        }
    }

    /// The first name of the person who is billed, which is required.
    pub fn get_billing_first_name(&self) -> (res: Result<String, ConnectorError>)
        ensures
            res == spec_required(
                spec_first_name(self.address.billing),
                "payment_method_data.billing.address.first_name",
            ),
    {
        match &self.address.billing {
            Some(Address { address: Some(AddressDetails { first_name: Some(name), .. }), .. }) => Ok(
                name.clone(),
            ),
            _ => Err(
                ConnectorError::MissingRequiredField {
                    field_name: "payment_method_data.billing.address.first_name",
                },
            ),
        }
    }

    /// The last name of the person who is billed, where it is known.
    pub fn get_optional_billing_last_name(&self) -> (res: Option<String>)
        ensures
            res == spec_last_name(self.address.billing),
    {
        match &self.address.billing {
            Some(Address { address: Some(details), .. }) => details.last_name.clone(),
            _ => None,
        }
    }

    /// The country of the person who is billed, where it is known.
    pub fn get_optional_billing_country(&self) -> (res: Option<CountryAlpha2>)
        ensures
            res == spec_country(self.address.billing),
    {
        match &self.address.billing {
            Some(Address { address: Some(details), .. }) => details.country,
            _ => None,
        }
    }

    /// The full name of the person who is billed, as far as it is known.
    pub fn get_optional_billing_full_name(&self) -> (res: Option<String>)
        ensures
            opt_str(res) == spec_optional_full_name(self.address.billing),
    {
        match &self.address.billing {
            Some(a) => a.get_optional_full_name(),
            None => None,
        }
    }

    /// The full name of the person who is billed, which is required.
    pub fn get_billing_full_name(&self) -> (res: Result<String, ConnectorError>)
        ensures
            match spec_optional_full_name(self.address.billing) {
                Some(name) => res matches Ok(s) && s@ == name,
                None => res == Err::<String, ConnectorError>(
                    ConnectorError::MissingRequiredField {
                        field_name: "payment_method_data.billing.address.first_name",
                    },
                ),
            },
    {
        match self.get_optional_billing_full_name() {
            Some(name) => Ok(name),
            None => Err(
                ConnectorError::MissingRequiredField {
                    field_name: "payment_method_data.billing.address.first_name",
                },
            ),
        }
    }

    /// Where a payout goes to, which is required.
    pub fn get_payout_method_data(&self) -> (res: Result<&PayoutMethodData, ConnectorError>)
        ensures
            res == spec_required(
                match self.payout_method_data {
                    Some(d) => Some(&d),
                    None => None,
                },
                "payout_method_data",
            ),
    {
        match &self.payout_method_data {
            Some(d) => Ok(d),
            None => Err(ConnectorError::MissingRequiredField { field_name: "payout_method_data" }),
        }
    }
}

/// A payment to authorize, in its context.
pub type PaymentsAuthorizeRouterData = RouterData<
    PaymentsAuthorizeData,
    crate::router_response::PaymentsResponseData,
>;

/// A mandate to set up, in its context.
pub type SetupMandateRouterData = RouterData<
    SetupMandateRequestData,
    crate::router_response::PaymentsResponseData,
>;

/// A payment to capture, in its context.
pub type PaymentsCaptureRouterData = RouterData<
    PaymentsCaptureData,
    crate::router_response::PaymentsResponseData,
>;

/// A payment to void, in its context.
pub type PaymentsCancelRouterData = RouterData<
    PaymentsCancelData,
    crate::router_response::PaymentsResponseData,
>;

/// A payment to look up, in its context.
pub type PaymentsSyncRouterData = RouterData<
    PaymentsSyncData,
    crate::router_response::PaymentsResponseData,
>;

/// A step before a payment, in its context.
pub type PaymentsPreProcessingRouterData = RouterData<
    PaymentsPreProcessingData,
    crate::router_response::PaymentsResponseData,
>;

/// A payment method to tokenize, in its context.
pub type TokenizationRouterData = RouterData<
    PaymentMethodTokenizationData,
    crate::router_response::PaymentsResponseData,
>;

/// A customer to create, in its context.
pub type ConnectorCustomerRouterData = RouterData<
    ConnectorCustomerData,
    crate::router_response::PaymentsResponseData,
>;

/// A refund, in its context.
pub type RefundsRouterData = RouterData<RefundsData, crate::router_response::RefundsResponseData>;

/// A dispute to accept, in its context.
pub type AcceptDisputeRouterData = RouterData<
    AcceptDisputeRequestData,
    crate::router_response::DisputeResponse,
>;

/// A dispute to defend, in its context.
pub type DefendDisputeRouterData = RouterData<
    DefendDisputeRequestData,
    crate::router_response::DisputeResponse,
>;

/// Evidence to hand in, in its context.
pub type SubmitEvidenceRouterData = RouterData<
    SubmitEvidenceRequestData,
    crate::router_response::DisputeResponse,
>;

/// A payout, in its context.
pub type PayoutsRouterData = RouterData<PayoutsData, crate::router_response::PayoutsResponseData>;

} // verus!
