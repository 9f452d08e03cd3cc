//! The requests that go to Stripe and the responses that come back, as
//! plain data.

use vstd::prelude::*;
use crate::country::CountryAlpha2;
use crate::enums::FutureUsage;
use crate::errors::ConnectorError;
use crate::router_data::ConnectorAuthType;

verus! {

/// The credentials of an account with Stripe.
#[derive(Clone, Debug, PartialEq, Eq)]
pub struct StripeAuthType {
    pub api_key: String,
}

impl StripeAuthType {
    /// The credentials that a merchant's credentials stand for. Stripe
    /// works with a key alone.
    pub open spec fn spec_try_from(item: ConnectorAuthType) -> Result<Self, ConnectorError> {
        match item {
            ConnectorAuthType::HeaderKey { api_key } => Ok(StripeAuthType { api_key }),
            _ => Err(ConnectorError::FailedToObtainAuthType),
        }
    }

    /// Reads the credentials of an account with Stripe.
    pub fn try_from(item: &ConnectorAuthType) -> (res: Result<Self, ConnectorError>)
        ensures
            res == Self::spec_try_from(*item),
    {
        match item {
            ConnectorAuthType::HeaderKey { api_key } => Ok(StripeAuthType { api_key: api_key.clone() }),
            ConnectorAuthType::BodyKey { .. }
            | ConnectorAuthType::SignatureKey { .. }
            | ConnectorAuthType::MultiAuthKey { .. }
            | ConnectorAuthType::NoKey => Err(ConnectorError::FailedToObtainAuthType),
        }
    }
}

/// Whether Stripe captures a payment as soon as it is authorized.
#[derive(Clone, Copy, Debug, PartialEq, Eq, Hash, Structural)]
pub enum StripeCaptureMethod {
    Manual,
    Automatic,
}

/// When Stripe asks for 3-D Secure.
#[derive(Clone, Copy, Debug, PartialEq, Eq, Hash, Structural)]
pub enum Auth3ds {
    Automatic,
    Any,
}

/// How the shopper accepted a mandate.
#[derive(Clone, Copy, Debug, PartialEq, Eq, Hash, Structural)]
pub enum StripeMandateType {
    Online,
}

/// That the shopper accepted a mandate online.
#[derive(Clone, Debug, PartialEq, Eq)]
pub struct StripeMandateRequest {
    pub mandate_type: StripeMandateType,
    pub ip_address: Option<String>,
    pub user_agent: String,
}

/// A request to authorize a payment.
#[derive(Clone, Debug, PartialEq, Eq)]
pub struct PaymentIntentRequest {
    pub amount: i64,
    pub currency: String,
    pub statement_descriptor_suffix: Option<String>,
    pub statement_descriptor: Option<String>,
    pub metadata_order_id: String,
    pub metadata_txn_id: String,
    pub metadata_txn_uuid: String,
    pub return_url: String,
    pub confirm: bool,
    pub mandate: Option<String>,
    pub payment_method: Option<String>,
    pub customer: Option<String>,
    pub setup_mandate_details: Option<StripeMandateRequest>,
    pub description: Option<String>,
    pub shipping: StripeShippingAddress,
    pub billing: StripeBillingAddress,
    pub payment_data: Option<StripePaymentMethodData>,
    pub capture_method: StripeCaptureMethod,
    pub payment_method_options: Option<StripePaymentMethodOptions>,
    pub setup_future_usage: Option<FutureUsage>,
}

/// A request to set a payment method up for later use.
#[derive(Clone, Debug, PartialEq, Eq)]
pub struct SetupIntentRequest {
    pub metadata_order_id: String,
    pub metadata_txn_id: String,
    pub metadata_txn_uuid: String,
    pub confirm: bool,
    pub usage: Option<FutureUsage>,
    pub customer: Option<String>,
    pub off_session: Option<bool>,
    pub payment_data: StripePaymentMethodData,
    pub payment_method_options: Option<StripePaymentMethodOptions>,
}

/// A card.
#[derive(Clone, Debug, PartialEq, Eq)]
pub struct StripeCardData {
    pub payment_method_types: StripePaymentMethodType,
    pub payment_method_data_type: StripePaymentMethodType,
    pub payment_method_data_card_number: String,
    pub payment_method_data_card_exp_month: String,
    pub payment_method_data_card_exp_year: String,
    pub payment_method_data_card_cvc: String,
    pub payment_method_auth_type: Auth3ds,
}

/// A pay-later scheme.
#[derive(Clone, Debug, PartialEq, Eq)]
pub struct StripePayLaterData {
    pub payment_method_types: StripePaymentMethodType,
    pub payment_method_data_type: StripePaymentMethodType,
}

/// A request to turn a payment method into a token.
#[derive(Clone, Debug, PartialEq, Eq)]
pub struct TokenRequest {
    pub token_data: StripePaymentMethodData,
}

/// The token that Stripe made of a payment method.
#[derive(Clone, Debug, PartialEq, Eq)]
pub struct StripeTokenResponse {
    pub id: String,
    pub object: String,
}

/// A request to create a customer.
#[derive(Clone, Debug, PartialEq, Eq)]
pub struct CustomerRequest {
    pub description: Option<String>,
    pub email: Option<String>,
    pub phone: Option<String>,
    pub name: Option<String>,
}

/// The customer that Stripe created.
#[derive(Clone, Debug, PartialEq, Eq)]
pub struct StripeCustomerResponse {
    pub id: String,
    pub description: Option<String>,
    pub email: Option<String>,
    pub phone: Option<String>,
    pub name: Option<String>,
}

/// The bank of a bank redirect that names one.
#[derive(Clone, Debug, PartialEq, Eq)]
pub enum StripeBankName {
    Eps { bank_name: StripeBankNames },
    Ideal { ideal_bank_name: StripeBankNames },
}

/// What a bank redirect needs beyond the bank.
#[derive(Clone, Debug, PartialEq, Eq)]
pub enum BankSpecificData {
    Sofort { preferred_language: String, country: CountryAlpha2 },
}

/// A bank redirect.
#[derive(Clone, Debug, PartialEq, Eq)]
pub struct StripeBankRedirectData {
    pub payment_method_types: StripePaymentMethodType,
    pub payment_method_data_type: StripePaymentMethodType,
    pub bank_name: Option<StripeBankName>,
    pub bank_specific_data: Option<BankSpecificData>,
}

/// The account that a bank debit is drawn from.
#[derive(Clone, Debug, PartialEq, Eq)]
pub enum BankDebitData {
    Ach {
        account_holder_type: String,
        account_number: String,
        routing_number: String,
    },
    Sepa { iban: String },
    Becs { account_number: String, bsb_number: String },
    Bacs { account_number: String, sort_code: String },
}

/// A bank debit.
#[derive(Clone, Debug, PartialEq, Eq)]
pub struct StripeBankDebitData {
    pub payment_method_types: StripePaymentMethodType,
    pub bank_specific_data: BankDebitData,
}

/// What a payment pays with.
#[derive(Clone, Debug, PartialEq, Eq)]
pub enum StripePaymentMethodData {
    Card(StripeCardData),
    PayLater(StripePayLaterData),
    Wallet(StripeWallet),
    BankRedirect(StripeBankRedirectData),
    BankDebit(StripeBankDebitData),
}

/// A wallet.
#[derive(Clone, Debug, PartialEq, Eq)]
pub enum StripeWallet {
    ApplepayToken(StripeApplePay),
    ApplepayPayment(ApplepayPayment),
}

/// An Apple Pay token as Stripe turns it into a token of its own.
#[derive(Clone, Debug, PartialEq, Eq)]
pub struct StripeApplePay {
    pub pk_token: String,
    pub pk_token_instrument_name: String,
    pub pk_token_payment_network: String,
    pub pk_token_transaction_id: String,
}

/// A payment with the token that Stripe made of an Apple Pay token.
#[derive(Clone, Debug, PartialEq, Eq)]
pub struct ApplepayPayment {
    pub token: String,
    pub payment_method_types: StripePaymentMethodType,
}

/// The type of a payment method as Stripe names it.
#[derive(Clone, Copy, Debug, PartialEq, Eq, Hash, Structural)]
pub enum StripePaymentMethodType {
    Card,
    Klarna,
    Affirm,
    AfterpayClearpay,
    Eps,
    Giropay,
    Ideal,
    Sofort,
    ApplePay,
    Ach,
    Sepa,
    Becs,
    Bacs,
}

/// The banks that Stripe takes bank redirects to.
#[derive(Clone, Copy, Debug, PartialEq, Eq, Hash, Structural)]
pub enum StripeBankNames {
    AbnAmro,
    ArzteUndApothekerBank,
    AsnBank,
    AustrianAnadiBankAg,
    BankAustria,
    BankhausCarlSpangler,
    BankhausSchelhammerUndSchatteraAg,
    BawagPskAg,
    BksBankAg,
    BrullKallmusBankAg,
    BtvVierLanderBank,
    Bunq,
    CapitalBankGraweGruppeAg,
    Dolomitenbank,
    EasybankAg,
    ErsteBankUndSparkassen,
    Handelsbanken,
    HypoAlpeadriabankInternationalAg,
    HypoNoeLbFurNiederosterreichUWien,
    HypoOberosterreichSalzburgSteiermark,
    HypoTirolBankAg,
    HypoVorarlbergBankAg,
    HypoBankBurgenlandAktiengesellschaft,
    Ing,
    Knab,
    MarchfelderBank,
    OberbankAg,
    RaiffeisenBankengruppeOsterreich,
    SchoellerbankAg,
    SpardaBankWien,
    VolksbankGruppe,
    VolkskreditbankAg,
    VrBankBraunau,
    Moneyou,
    Rabobank,
    Regiobank,
    Revolut,
    SnsBank,
    TriodosBank,
    VanLanschot,
}

/// What goes with a payment for the records of the merchant.
#[derive(Clone, Debug, PartialEq, Eq)]
pub struct StripeMetadata {
    pub order_id: String,
    pub txn_id: String,
    pub txn_uuid: String,
}

/// The status of a payment as Stripe names it.
#[derive(Clone, Copy, Debug, PartialEq, Eq, Hash, Structural)]
pub enum StripePaymentStatus {
    Succeeded,
    Failed,
    Processing,
    RequiresCustomerAction,
    RequiresPaymentMethod,
    RequiresConfirmation,
    Canceled,
    RequiresCapture,
    Pending,
}

/// The response to a payment request.
#[derive(Clone, Debug, PartialEq, Eq)]
pub struct PaymentIntentResponse {
    pub id: String,
    pub object: String,
    pub amount: i64,
    pub amount_received: i64,
    pub amount_capturable: i64,
    pub currency: String,
    pub status: StripePaymentStatus,
    pub client_secret: String,
    pub created: i32,
    pub customer: Option<String>,
    pub payment_method: Option<String>,
    pub description: Option<String>,
    pub statement_descriptor: Option<String>,
    pub statement_descriptor_suffix: Option<String>,
    pub metadata: StripeMetadata,
    pub next_action: Option<StripeNextActionResponse>,
    pub payment_method_options: Option<StripePaymentMethodOptions>,
    pub last_payment_error: Option<ErrorDetails>,
    pub latest_attempt: Option<LatestAttempt>,
}

/// The answer to a request for the state of a payment.
#[derive(Clone, Debug, PartialEq, Eq)]
pub struct PaymentSyncResponse {
    pub intent_fields: PaymentIntentResponse,
    pub last_payment_error: Option<ErrorDetails>,
}

/// Why the last attempt at a payment failed.
#[derive(Clone, Debug, PartialEq, Eq)]
pub struct LastPaymentError {
    pub code: String,
    pub message: String,
}

/// The answer to a request for the state of a payment, with the error of
/// the last attempt.
#[derive(Clone, Debug, PartialEq, Eq)]
pub struct PaymentIntentSyncResponse {
    pub payment_intent_fields: PaymentIntentResponse,
    pub last_payment_error: Option<LastPaymentError>,
}

/// The response to the request to set a payment method up.
#[derive(Clone, Debug, PartialEq, Eq)]
pub struct SetupIntentResponse {
    pub id: String,
    pub object: String,
    pub status: StripePaymentStatus,
    pub client_secret: String,
    pub customer: Option<String>,
    pub payment_method: Option<String>,
    pub statement_descriptor: Option<String>,
    pub statement_descriptor_suffix: Option<String>,
    pub metadata: StripeMetadata,
    pub next_action: Option<StripeNextActionResponse>,
    pub payment_method_options: Option<StripePaymentMethodOptions>,
    pub latest_attempt: Option<LatestAttempt>,
}

/// What the shopper has to do next.
#[derive(Clone, Debug, PartialEq, Eq)]
pub enum StripeNextActionResponse {
    RedirectToUrl(StripeRedirectToUrlResponse),
    VerifyWithMicrodeposits(StripeVerifyWithMicroDepositsResponse),
}

/// Where the shopper is sent.
#[derive(Clone, Debug, PartialEq, Eq)]
pub struct StripeRedirectToUrlResponse {
    pub return_url: String,
    pub url: String,
}

/// Where the shopper verifies a bank account.
#[derive(Clone, Debug, PartialEq, Eq)]
pub struct StripeVerifyWithMicroDepositsResponse {
    pub hosted_verification_url: String,
}

/// A request to refund a payment.
#[derive(Clone, Debug, PartialEq, Eq)]
pub struct RefundRequest {
    pub amount: Option<i64>,
    pub payment_intent: String,
    pub metadata_order_id: String,
    pub metadata_txn_id: String,
    pub metadata_txn_uuid: String,
}

/// The status of a refund as Stripe names it.
#[derive(Clone, Copy, Debug, PartialEq, Eq, Hash, Structural)]
pub enum RefundStatus {
    Succeeded,
    Failed,
    Pending,
    RequiresAction,
}

/// The response to a request to refund a payment.
#[derive(Clone, Debug, PartialEq, Eq)]
pub struct RefundResponse {
    pub id: String,
    pub object: String,
    pub amount: i64,
    pub currency: String,
    pub metadata: StripeMetadata,
    pub payment_intent: String,
    pub status: RefundStatus,
}

/// Why Stripe did not carry a request out.
#[derive(Clone, Debug, PartialEq, Eq)]
pub struct ErrorDetails {
    pub code: Option<String>,
    pub error_type: Option<String>,
    pub message: Option<String>,
    pub param: Option<String>,
}

/// The body of an error that Stripe answers a request with.
#[derive(Clone, Debug, PartialEq, Eq)]
pub struct ErrorResponse {
    pub error: ErrorDetails,
}

/// Where the goods go.
#[derive(Clone, Debug, PartialEq, Eq)]
pub struct StripeShippingAddress {
    pub city: Option<String>,
    pub country: Option<CountryAlpha2>,
    pub line1: Option<String>,
    pub line2: Option<String>,
    pub zip: Option<String>,
    pub state: Option<String>,
    pub name: Option<String>,
    pub phone: Option<String>,
}

/// Who is billed.
#[derive(Clone, Debug, PartialEq, Eq)]
pub struct StripeBillingAddress {
    pub email: Option<String>,
    pub country: Option<CountryAlpha2>,
    pub name: Option<String>,
    pub city: Option<String>,
    pub address_line1: Option<String>,
    pub address_line2: Option<String>,
    pub zip_code: Option<String>,
}

/// What the shopper brings back from a redirect.
#[derive(Clone, Debug, PartialEq, Eq)]
pub struct StripeRedirectResponse {
    pub payment_intent: String,
    pub payment_intent_client_secret: String,
    pub source_redirect_slug: Option<String>,
    pub redirect_status: Option<StripePaymentStatus>,
    pub source_type: Option<String>,
}

/// A request to void a payment.
#[derive(Clone, Debug, PartialEq, Eq)]
pub struct CancelRequest {
    pub cancellation_reason: Option<String>,
}

/// The options of a payment method.
#[derive(Clone, Debug, PartialEq, Eq)]
pub enum StripePaymentMethodOptions {
    Card {
        mandate_options: Option<StripeMandateOptions>,
        network_transaction_id: Option<String>,
        mit_exemption: Option<MitExemption>,
    },
    Klarna,
    Affirm,
    AfterpayClearpay,
    Eps,
    Giropay,
    Ideal,
    Sofort,
    Ach,
    Sepa,
    Becs,
    Bacs,
}

/// The earlier transaction that a payment without the shopper rests on.
#[derive(Clone, Debug, PartialEq, Eq)]
pub struct MitExemption {
    pub network_transaction_id: String,
}

/// The latest attempt at a payment.
#[derive(Clone, Debug, PartialEq, Eq)]
pub struct LatestAttempt {
    pub payment_method_options: Option<StripePaymentMethodOptions>,
}

/// The mandate that a payment set up.
#[derive(Clone, Debug, PartialEq, Eq)]
pub struct StripeMandateOptions {
    pub reference: String,
}

/// A request to capture a payment. Without an amount, the whole payment is captured.
#[derive(Clone, Debug, PartialEq, Eq)]
pub struct CaptureRequest {
    pub amount_to_capture: Option<i64>,
}

/// The id of the object of a webhook.
#[derive(Clone, Debug, PartialEq, Eq)]
pub struct StripeWebhookDataObjectId {
    pub id: String,
}

/// The object of a webhook, as far as its id goes.
#[derive(Clone, Debug, PartialEq, Eq)]
pub struct StripeWebhookDataId {
    pub object: StripeWebhookDataObjectId,
}

/// The object of a webhook, as JSON text.
#[derive(Clone, Debug, PartialEq, Eq)]
pub struct StripeWebhookDataResource {
    /// The object, as JSON text.
    pub object: String,
}

/// A webhook, as far as its object goes.
#[derive(Clone, Debug, PartialEq, Eq)]
pub struct StripeWebhookObjectResource {
    pub data: StripeWebhookDataResource,
}

/// A webhook, as far as its type goes.
#[derive(Clone, Debug, PartialEq, Eq)]
pub struct StripeWebhookObjectEventType {
    pub event_type: String,
}

/// A webhook, as far as the id of its object goes.
#[derive(Clone, Debug, PartialEq, Eq)]
pub struct StripeWebhookObjectId {
    pub data: StripeWebhookDataId,
}

} // verus!
