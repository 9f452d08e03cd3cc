//! The requests that go to Bank of America and the responses that come
//! back, as plain data.

use vstd::prelude::*;
use crate::country::CountryAlpha2;
use crate::currency::Currency;
use crate::enums::CurrencyUnit;
use crate::errors::ConnectorError;
use crate::router_data::ConnectorAuthType;

verus! {

/// The credentials of an account with Bank of America.
#[derive(Clone, Debug, PartialEq, Eq)]
pub struct BankOfAmericaAuthType {
    pub api_key: String,
    pub merchant_account: String,
    pub api_secret: String,
}

impl BankOfAmericaAuthType {
    /// The credentials that a merchant's credentials stand for. Bank of
    /// America works with a key, an account and a secret.
    pub open spec fn spec_try_from(auth_type: ConnectorAuthType) -> Result<Self, ConnectorError> {
        match auth_type {
            ConnectorAuthType::SignatureKey { api_key, key1, api_secret } => Ok(
                BankOfAmericaAuthType { api_key, merchant_account: key1, api_secret },
            ),
            _ => Err(ConnectorError::FailedToObtainAuthType),
        }
    }

    /// Reads the credentials of an account with Bank of America.
    pub fn try_from(auth_type: &ConnectorAuthType) -> (res: Result<Self, ConnectorError>)
        ensures
            res == Self::spec_try_from(*auth_type),
    {
        match auth_type {
            ConnectorAuthType::SignatureKey { api_key, key1, api_secret } => Ok(
                BankOfAmericaAuthType {
                    api_key: api_key.clone(),
                    merchant_account: key1.clone(),
                    api_secret: api_secret.clone(),
                },
            ),
            ConnectorAuthType::HeaderKey { .. }
            | ConnectorAuthType::BodyKey { .. }
            | ConnectorAuthType::MultiAuthKey { .. }
            | ConnectorAuthType::NoKey => Err(ConnectorError::FailedToObtainAuthType),
        }
    }
}

/// A request in its context, together with the amount to pay as the
/// processor writes it.
#[derive(Debug, PartialEq, Eq)]
pub struct BankOfAmericaRouterData<T> {
    pub amount: String,
    pub router_data: T,
}

impl<T> BankOfAmericaRouterData<T> {
    /// Puts a request together with its amount, written in the unit that
    /// the processor works with.
    pub fn try_from(currency_unit: &CurrencyUnit, currency: Currency, amount: i64, item: T) -> (res:
        Result<Self, ConnectorError>)
        ensures
            match crate::currency::spec_amount_as_string(*currency_unit, amount, currency) {
                Ok(text) => res matches Ok(data) && data.amount@ == text && data.router_data == item,
                Err(e) => res == Err::<Self, ConnectorError>(e),
            },
    {
        let amount = crate::currency::get_amount_as_string(currency_unit, amount, currency)?;
        Ok(BankOfAmericaRouterData { amount, router_data: item })
    }
}

/// A request to authorize a payment or to set a mandate up.
#[derive(Clone, Debug, PartialEq, Eq)]
pub struct BankOfAmericaPaymentsRequest {
    pub processing_information: ProcessingInformation,
    pub payment_information: PaymentInformation,
    pub order_information: OrderInformationWithBill,
    pub client_reference_information: ClientReferenceInformation,
    pub consumer_authentication_information: Option<BankOfAmericaConsumerAuthInformation>,
    pub merchant_defined_information: Option<Vec<MerchantDefinedInformation>>,
}

/// How a payment is to be processed.
#[derive(Clone, Debug, PartialEq, Eq)]
pub struct ProcessingInformation {
    pub action_list: Option<Vec<BankOfAmericaActionsList>>,
    pub action_token_types: Option<Vec<BankOfAmericaActionsTokenType>>,
    pub authorization_options: Option<BankOfAmericaAuthorizationOptions>,
    pub commerce_indicator: String,
    pub capture: Option<bool>,
    pub capture_options: Option<CaptureOptions>,
    pub payment_solution: Option<String>,
}

/// What the processor is to do beside the payment.
#[derive(Clone, Copy, Debug, PartialEq, Eq, Hash, Structural)]
pub enum BankOfAmericaActionsList {
    TokenCreate,
}

/// The kinds of token that the processor is to create.
#[derive(Clone, Copy, Debug, PartialEq, Eq, Hash, Structural)]
pub enum BankOfAmericaActionsTokenType {
    PaymentInstrument,
    Customer,
}

/// Who starts the payment, and on which earlier authorization it rests.
#[derive(Clone, Debug, PartialEq, Eq)]
pub struct BankOfAmericaAuthorizationOptions {
    pub initiator: Option<BankOfAmericaPaymentInitiator>,
    pub merchant_intitiated_transaction: Option<MerchantInitiatedTransaction>,
}

/// Who starts the payment, and whether the credential is stored.
#[derive(Clone, Debug, PartialEq, Eq)]
pub struct BankOfAmericaPaymentInitiator {
    pub initiator_type: Option<BankOfAmericaPaymentInitiatorTypes>,
    pub credential_stored_on_file: Option<bool>,
    pub stored_credential_used: Option<bool>,
}

/// The parties that start a payment.
#[derive(Clone, Copy, Debug, PartialEq, Eq, Hash, Structural)]
pub enum BankOfAmericaPaymentInitiatorTypes {
    Customer,
}

/// The earlier authorization that a payment without the shopper rests on.
#[derive(Clone, Debug, PartialEq, Eq)]
pub struct MerchantInitiatedTransaction {
    pub reason: Option<String>,
    pub original_authorized_amount: Option<String>,
}

/// One entry of what the merchant attached to the payment.
#[derive(Clone, Debug, PartialEq, Eq)]
pub struct MerchantDefinedInformation {
    pub key: u8,
    pub value: String,
}

/// The outcome of an authentication of the shopper.
#[derive(Clone, Debug, PartialEq, Eq)]
pub struct BankOfAmericaConsumerAuthInformation {
    pub ucaf_collection_indicator: Option<String>,
    pub cavv: Option<String>,
    pub ucaf_authentication_data: Option<String>,
    pub xid: Option<String>,
    pub directory_server_transaction_id: Option<String>,
    pub specification_version: Option<String>,
}

/// Which capture of how many a capture is.
#[derive(Clone, Debug, PartialEq, Eq)]
pub struct CaptureOptions {
    pub capture_sequence_number: u32,
    pub total_capture_count: u32,
}

/// A payment instrument that the processor stored.
#[derive(Clone, Debug, PartialEq, Eq)]
pub struct BankOfAmericaPaymentInstrument {
    pub id: String,
}

/// A payment by card.
#[derive(Clone, Debug, PartialEq, Eq)]
pub struct CardPaymentInformation {
    pub card: Card,
}

/// A payment by Google Pay.
#[derive(Clone, Debug, PartialEq, Eq)]
pub struct GooglePayPaymentInformation {
    pub fluid_data: FluidData,
}

/// The kind of transaction of an Apple Pay token.
#[derive(Clone, Debug, PartialEq, Eq)]
pub struct ApplePayTokenizedCard {
    pub transaction_type: TransactionType,
}

/// A payment by an Apple Pay token that the processor decrypts.
#[derive(Clone, Debug, PartialEq, Eq)]
pub struct ApplePayTokenPaymentInformation {
    pub fluid_data: FluidData,
    pub tokenized_card: ApplePayTokenizedCard,
}

/// A payment by an Apple Pay token that was decrypted before.
#[derive(Clone, Debug, PartialEq, Eq)]
pub struct ApplePayPaymentInformation {
    pub tokenized_card: TokenizedCard,
}

/// What a payment pays with.
#[derive(Clone, Debug, PartialEq, Eq)]
pub enum PaymentInformation {
    Cards(CardPaymentInformation),
    GooglePay(GooglePayPaymentInformation),
    ApplePay(ApplePayPaymentInformation),
    ApplePayToken(ApplePayTokenPaymentInformation),
    MandatePayment(MandatePaymentInformation),
}

/// A payment on a mandate.
#[derive(Clone, Debug, PartialEq, Eq)]
pub struct MandatePaymentInformation {
    pub payment_instrument: BankOfAmericaPaymentInstrument,
}

/// A card.
#[derive(Clone, Debug, PartialEq, Eq)]
pub struct Card {
    pub number: String,
    pub expiration_month: String,
    pub expiration_year: String,
    pub security_code: String,
    pub card_type: Option<String>,
}

/// A card in the form of a network token.
#[derive(Clone, Debug, PartialEq, Eq)]
pub struct TokenizedCard {
    pub number: String,
    pub expiration_month: String,
    pub expiration_year: String,
    pub cryptogram: String,
    pub transaction_type: TransactionType,
}

/// A wallet token as the wallet handed it out.
#[derive(Clone, Debug, PartialEq, Eq)]
pub struct FluidData {
    pub value: String,
}

/// The amount of an order and who is billed.
#[derive(Clone, Debug, PartialEq, Eq)]
pub struct OrderInformationWithBill {
    pub amount_details: Amount,
    pub bill_to: Option<BillTo>,
}

/// An amount of money, written in base units.
#[derive(Clone, Debug, PartialEq, Eq)]
pub struct Amount {
    pub total_amount: String,
    pub currency: Currency,
}

/// Who is billed.
#[derive(Clone, Debug, PartialEq, Eq)]
pub struct BillTo {
    pub first_name: Option<String>,
    pub last_name: Option<String>,
    pub address1: Option<String>,
    pub locality: Option<String>,
    pub administrative_area: Option<String>,
    pub postal_code: Option<String>,
    pub country: Option<CountryAlpha2>,
    pub email: String,
}

/// The wallet that a payment comes from.
#[derive(Clone, Copy, Debug, PartialEq, Eq, Hash, Structural)]
pub enum PaymentSolution {
    ApplePay,
    GooglePay,
}

/// The kind of transaction of a tokenized card.
#[derive(Clone, Copy, Debug, PartialEq, Eq, Hash, Structural)]
pub enum TransactionType {
    ApplePay,
}

/// The merchant's reference for a payment.
#[derive(Clone, Debug, PartialEq, Eq)]
pub struct ClientReferenceInformation {
    pub code: Option<String>,
}

/// What the processor reports on a payment.
#[derive(Clone, Debug, PartialEq, Eq)]
pub struct ClientProcessorInformation {
    pub avs: Option<Avs>,
    pub card_verification: Option<CardVerification>,
    pub processor: Option<ProcessorResponse>,
    pub network_transaction_id: Option<String>,
    pub approval_code: Option<String>,
    pub merchant_advice: Option<MerchantAdvice>,
    pub response_code: Option<String>,
    pub ach_verification: Option<AchVerification>,
    pub system_trace_audit_number: Option<String>,
    pub event_status: Option<String>,
    pub retrieval_reference_number: Option<String>,
    pub consumer_authentication_response: Option<ConsumerAuthenticationResponse>,
    pub response_details: Option<String>,
    pub transaction_id: Option<String>,
}

/// What the processor advises the merchant to do.
#[derive(Clone, Debug, PartialEq, Eq)]
pub struct MerchantAdvice {
    pub code: Option<String>,
    pub code_raw: Option<String>,
}

/// The result of the authentication of the shopper.
#[derive(Clone, Debug, PartialEq, Eq)]
pub struct ConsumerAuthenticationResponse {
    pub code: Option<String>,
    pub code_raw: Option<String>,
}

/// The result of the verification of a bank account.
#[derive(Clone, Debug, PartialEq, Eq)]
pub struct AchVerification {
    pub result_code_raw: Option<String>,
}

/// The name of the processor.
#[derive(Clone, Debug, PartialEq, Eq)]
pub struct ProcessorResponse {
    pub name: Option<String>,
}

/// The result of the verification of the card.
#[derive(Clone, Debug, PartialEq, Eq)]
pub struct CardVerification {
    pub result_code: Option<String>,
    pub result_code_raw: Option<String>,
}

/// What the risk check reports on a payment.
#[derive(Clone, Debug, PartialEq, Eq)]
pub struct ClientRiskInformation {
    pub rules: Option<Vec<ClientRiskInformationRules>>,
    pub profile: Option<Profile>,
    pub score: Option<Score>,
    pub info_codes: Option<InfoCodes>,
}

/// The information codes of the risk check.
#[derive(Clone, Debug, PartialEq, Eq)]
pub struct InfoCodes {
    pub address: Option<Vec<String>>,
    pub identity_change: Option<Vec<String>>,
}

/// The score that the risk check gave.
#[derive(Clone, Debug, PartialEq, Eq)]
pub struct Score {
    pub factor_codes: Option<Vec<String>>,
    pub result: Option<RiskResult>,
    pub model_used: Option<String>,
}

/// The result of the risk score, which comes as a text or as a number.
#[derive(Clone, Debug, PartialEq, Eq)]
pub enum RiskResult {
    StringVariant(String),
    IntVariant(u64),
}

/// The risk profile that was applied.
#[derive(Clone, Debug, PartialEq, Eq)]
pub struct Profile {
    pub early_decision: Option<String>,
    pub name: Option<String>,
    pub decision: Option<String>,
}

/// A rule of the risk check that fired.
#[derive(Clone, Debug, PartialEq, Eq)]
pub struct ClientRiskInformationRules {
    pub name: Option<String>,
}

/// The result of the address verification.
#[derive(Clone, Debug, PartialEq, Eq)]
pub struct Avs {
    pub code: Option<String>,
    pub code_raw: Option<String>,
}

/// The status of a payment as the processor names it.
#[derive(Clone, Copy, Debug, PartialEq, Eq, Hash, Structural)]
pub enum BankofamericaPaymentStatus {
    Authorized,
    Succeeded,
    Failed,
    Voided,
    Reversed,
    Pending,
    Declined,
    Rejected,
    Challenge,
    AuthorizedPendingReview,
    AuthorizedRiskDeclined,
    Transmitted,
    InvalidRequest,
    ServerError,
    PendingAuthentication,
    PendingReview,
    Accepted,
    Cancelled,
}

/// A response to a payment request.
///
/// The processor sends no tag that tells the shapes apart. A payload is read
/// as the first of these shapes, in this order, whose required fields it has.
#[derive(Clone, Debug, PartialEq, Eq)]
pub enum BankOfAmericaPaymentsResponse {
    ClientReferenceInformation(BankOfAmericaClientReferenceResponse),
    ErrorInformation(BankOfAmericaErrorInformationResponse),
}

/// A response to the request to set a mandate up.
///
/// A payload is read as the first of these shapes, in this order, whose
/// required fields it has.
#[derive(Clone, Debug, PartialEq, Eq)]
pub enum BankOfAmericaSetupMandatesResponse {
    ClientReferenceInformation(BankOfAmericaClientReferenceResponse),
    ErrorInformation(BankOfAmericaErrorInformationResponse),
}

/// The response to a payment that the processor took on.
#[derive(Clone, Debug, PartialEq, Eq)]
pub struct BankOfAmericaClientReferenceResponse {
    pub id: String,
    pub status: BankofamericaPaymentStatus,
    pub client_reference_information: ClientReferenceInformation,
    pub processor_information: Option<ClientProcessorInformation>,
    pub processing_information: Option<ProcessingInformationResponse>,
    pub payment_information: Option<PaymentInformationResponse>,
    pub payment_insights_information: Option<PaymentInsightsInformation>,
    pub risk_information: Option<ClientRiskInformation>,
    pub token_information: Option<BankOfAmericaTokenInformation>,
    pub error_information: Option<BankOfAmericaErrorInformation>,
    pub issuer_information: Option<IssuerInformation>,
    pub sender_information: Option<SenderInformation>,
    pub payment_account_information: Option<PaymentAccountInformation>,
    pub reconciliation_id: Option<String>,
    pub consumer_authentication_information: Option<ConsumerAuthenticationInformation>,
}

/// What the response tells of the authentication of the shopper.
#[derive(Clone, Debug, PartialEq, Eq)]
pub struct ConsumerAuthenticationInformation {
    pub eci_raw: Option<String>,
    pub eci: Option<String>,
    pub acs_transaction_id: Option<String>,
    pub cavv: Option<String>,
}

/// Who sent the payment.
#[derive(Clone, Debug, PartialEq, Eq)]
pub struct SenderInformation {
    pub payment_information: Option<PaymentInformationResponse>,
}

/// What the processor found out about the payment.
#[derive(Clone, Debug, PartialEq, Eq)]
pub struct PaymentInsightsInformation {
    pub response_insights: Option<ResponseInsights>,
    pub rule_results: Option<RuleResults>,
}

/// The category of the response.
#[derive(Clone, Debug, PartialEq, Eq)]
pub struct ResponseInsights {
    pub category_code: Option<String>,
    pub category: Option<String>,
}

/// The decision of a rule.
#[derive(Clone, Debug, PartialEq, Eq)]
pub struct RuleResults {
    pub id: Option<String>,
    pub decision: Option<String>,
}

/// What the response tells of the payment method.
#[derive(Clone, Debug, PartialEq, Eq)]
pub struct PaymentInformationResponse {
    pub tokenized_card: Option<CardResponseObject>,
    pub customer: Option<CustomerResponseObject>,
    pub card: Option<CardResponseObject>,
    pub scheme: Option<String>,
    pub bin: Option<String>,
    pub account_type: Option<String>,
    pub issuer: Option<String>,
    pub bin_country: Option<CountryAlpha2>,
}

/// The customer under which the processor stored the payment method.
#[derive(Clone, Debug, PartialEq, Eq)]
pub struct CustomerResponseObject {
    pub customer_id: Option<String>,
}

/// What the response tells of the account behind the payment method.
#[derive(Clone, Debug, PartialEq, Eq)]
pub struct PaymentAccountInformation {
    pub card: Option<PaymentAccountCardInformation>,
    pub features: Option<PaymentAccountFeatureInformation>,
}

/// The features of the account.
#[derive(Clone, Debug, PartialEq, Eq)]
pub struct PaymentAccountFeatureInformation {
    pub health_card: Option<String>,
}

/// The card of the account.
#[derive(Clone, Debug, PartialEq, Eq)]
pub struct PaymentAccountCardInformation {
    pub card_type: Option<String>,
    pub hashed_number: Option<String>,
}

/// How the payment was processed.
#[derive(Clone, Debug, PartialEq, Eq)]
pub struct ProcessingInformationResponse {
    pub payment_solution: Option<String>,
    pub commerce_indicator: Option<String>,
    pub commerce_indicator_label: Option<String>,
    pub authorization_options: Option<AuthorizationOptions>,
    pub ecommerce_indicator: Option<String>,
}

/// How the payment was authorized.
#[derive(Clone, Debug, PartialEq, Eq)]
pub struct AuthorizationOptions {
    pub auth_type: Option<String>,
    pub initiator: Option<Initiator>,
}

/// Who started the payment.
#[derive(Clone, Debug, PartialEq, Eq)]
pub struct Initiator {
    pub merchant_initiated_transaction: Option<MerchantInitiatedTransactionResponse>,
}

/// The earlier authorization that the payment rests on.
#[derive(Clone, Debug, PartialEq, Eq)]
pub struct MerchantInitiatedTransactionResponse {
    pub agreement_id: Option<String>,
    pub previous_transaction_id: Option<String>,
    pub original_authorized_amount: Option<String>,
    pub reason: Option<String>,
}

/// The tokens that the processor created.
#[derive(Clone, Debug, PartialEq, Eq)]
pub struct BankOfAmericaTokenInformation {
    pub payment_instrument: Option<BankOfAmericaPaymentInstrument>,
}

/// What the issuer of the card reports.
#[derive(Clone, Debug, PartialEq, Eq)]
pub struct IssuerInformation {
    pub country: Option<CountryAlpha2>,
    pub discretionary_data: Option<String>,
    pub country_specific_discretionary_data: Option<String>,
    pub response_code: Option<String>,
    pub pin_request_indicator: Option<String>,
}

/// The card as the response describes it.
#[derive(Clone, Debug, PartialEq, Eq)]
pub struct CardResponseObject {
    pub suffix: Option<String>,
    pub prefix: Option<String>,
    pub expiration_month: Option<String>,
    pub expiration_year: Option<String>,
    pub card_type: Option<String>,
}

/// The response to a payment that the processor rejected.
#[derive(Clone, Debug, PartialEq, Eq)]
pub struct BankOfAmericaErrorInformationResponse {
    pub id: String,
    pub error_information: BankOfAmericaErrorInformation,
}

/// Why the processor did not carry a request out.
#[derive(Clone, Debug, PartialEq, Eq)]
pub struct BankOfAmericaErrorInformation {
    pub reason: Option<String>,
    pub message: Option<String>,
    pub details: Option<Vec<Details>>,
}

/// The answer to a request for the state of a payment.
#[derive(Clone, Debug, PartialEq, Eq)]
pub struct BankOfAmericaTransactionResponse {
    pub id: String,
    pub application_information: ApplicationInformation,
    pub client_reference_information: Option<ClientReferenceInformation>,
    pub processor_information: Option<ClientProcessorInformation>,
    pub processing_information: Option<ProcessingInformationResponse>,
    pub payment_information: Option<PaymentInformationResponse>,
    pub payment_insights_information: Option<PaymentInsightsInformation>,
    pub error_information: Option<BankOfAmericaErrorInformation>,
    pub fraud_marking_information: Option<FraudMarkingInformation>,
    pub risk_information: Option<ClientRiskInformation>,
    pub token_information: Option<BankOfAmericaTokenInformation>,
    pub reconciliation_id: Option<String>,
    pub consumer_authentication_information: Option<ConsumerAuthenticationInformation>,
}

/// Why a payment was marked as fraud.
#[derive(Clone, Debug, PartialEq, Eq)]
pub struct FraudMarkingInformation {
    pub reason: Option<String>,
}

/// The state of a payment.
#[derive(Clone, Debug, PartialEq, Eq)]
pub struct ApplicationInformation {
    pub status: Option<BankofamericaPaymentStatus>,
}

/// The amount of an order.
#[derive(Clone, Debug, PartialEq, Eq)]
pub struct OrderInformation {
    pub amount_details: Amount,
}

/// A request to capture a payment.
#[derive(Clone, Debug, PartialEq, Eq)]
pub struct BankOfAmericaCaptureRequest {
    pub order_information: OrderInformation,
    pub client_reference_information: ClientReferenceInformation,
    pub merchant_defined_information: Option<Vec<MerchantDefinedInformation>>,
}

/// A request to void a payment.
#[derive(Clone, Debug, PartialEq, Eq)]
pub struct BankOfAmericaVoidRequest {
    pub client_reference_information: ClientReferenceInformation,
    pub reversal_information: ReversalInformation,
    pub merchant_defined_information: Option<Vec<MerchantDefinedInformation>>,
}

/// What is reversed, and why.
#[derive(Clone, Debug, PartialEq, Eq)]
pub struct ReversalInformation {
    pub amount_details: Amount,
    pub reason: String,
}

/// A request to refund a payment.
#[derive(Clone, Debug, PartialEq, Eq)]
pub struct BankOfAmericaRefundRequest {
    pub order_information: OrderInformation,
    pub client_reference_information: ClientReferenceInformation,
}

/// The response to a request to refund a payment.
#[derive(Clone, Debug, PartialEq, Eq)]
pub struct BankOfAmericaRefundResponse {
    pub id: String,
    pub status: BankofamericaRefundStatus,
    pub error_information: Option<BankOfAmericaErrorInformation>,
}

/// The status of a refund as the processor names it.
#[derive(Clone, Copy, Debug, PartialEq, Eq, Hash, Structural)]
pub enum BankofamericaRefundStatus {
    Succeeded,
    Transmitted,
    Failed,
    Pending,
    Voided,
    Cancelled,
    TwoZeroOne,
}

/// The state of a refund.
#[derive(Clone, Debug, PartialEq, Eq)]
pub struct RsyncApplicationInformation {
    pub status: Option<BankofamericaRefundStatus>,
}

/// The answer to a request for the state of a refund.
#[derive(Clone, Debug, PartialEq, Eq)]
pub struct BankOfAmericaRsyncResponse {
    pub id: String,
    pub application_information: Option<RsyncApplicationInformation>,
    pub error_information: Option<BankOfAmericaErrorInformation>,
}

/// The body of an error that the processor answers a request with.
#[derive(Clone, Debug, PartialEq, Eq)]
pub struct BankOfAmericaStandardErrorResponse {
    pub error_information: Option<ErrorInformation>,
    pub status: Option<String>,
    pub message: Option<String>,
    pub reason: Option<String>,
    pub details: Option<Vec<Details>>,
}

/// The body of an error on the side of the processor.
#[derive(Clone, Debug, PartialEq, Eq)]
pub struct BankOfAmericaServerErrorResponse {
    pub status: Option<String>,
    pub message: Option<String>,
    pub reason: Option<Reason>,
}

/// Why the processor could not serve a request.
#[derive(Clone, Copy, Debug, PartialEq, Eq, Hash, Structural)]
pub enum Reason {
    SystemError,
    ServerTimeout,
    ServiceTimeout,
}

/// The body of an error about the credentials.
#[derive(Clone, Debug, PartialEq, Eq)]
pub struct BankOfAmericaAuthenticationErrorResponse {
    pub response: AuthenticationErrorInformation,
}

/// The body of an error.
///
/// A payload is read as the first of these shapes, in this order, whose
/// required fields it has.
#[derive(Clone, Debug, PartialEq, Eq)]
pub enum BankOfAmericaErrorResponse {
    AuthenticationError(BankOfAmericaAuthenticationErrorResponse),
    StandardError(BankOfAmericaStandardErrorResponse),
}

/// One field that the processor objects to, and why.
#[derive(Clone, Debug, PartialEq, Eq)]
pub struct Details {
    pub field: String,
    pub reason: String,
}

/// Why the processor did not carry a request out.
#[derive(Clone, Debug, PartialEq, Eq)]
pub struct ErrorInformation {
    pub message: String,
    pub reason: String,
    pub details: Option<Vec<Details>>,
}

/// Why the credentials were turned down.
#[derive(Clone, Debug, PartialEq, Eq)]
pub struct AuthenticationErrorInformation {
    pub rmsg: String,
}

} // verus!
