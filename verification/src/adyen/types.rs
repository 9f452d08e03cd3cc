//! The requests that go to Adyen and the responses that come back, as
//! plain data.

use vstd::prelude::*;
use crate::adyen::banks::{
    OnlineBankingCzechRepublicBanks,
    OnlineBankingFpxIssuer,
    OnlineBankingPolandBanks,
    OnlineBankingSlovakiaBanks,
    OnlineBankingThailandIssuer,
    OpenBankingUKIssuer,
};
use crate::adyen::payout::PayoutEligibility;
use crate::adyen::webhook::AdyenWebhookResponse;
use crate::country::CountryAlpha2;
use crate::currency::{Currency, MinorUnit};
use crate::enums::{AdyenSplitType, Method};
use crate::errors::ConnectorError;
use crate::router_data::ConnectorAuthType;
use crate::router_response::FormField;

verus! {

/// A request in its context, together with the amount to pay.
#[derive(Debug, PartialEq, Eq)]
pub struct AdyenRouterData<T> {
    pub amount: MinorUnit,
    pub router_data: T,
}

impl<T> AdyenRouterData<T> {
    /// Puts an amount and a request together.
    pub fn try_from(amount: MinorUnit, item: T) -> (res: Result<Self, ConnectorError>)
        ensures
            res == Ok::<Self, ConnectorError>(AdyenRouterData { amount, router_data: item }),
    {
        Ok(AdyenRouterData { amount, router_data: item })
    }
}

/// The credentials of an Adyen account.
#[derive(Clone, Debug, PartialEq, Eq)]
pub struct AdyenAuthType {
    pub api_key: String,
    pub merchant_account: String,
    pub review_key: Option<String>,
}

impl AdyenAuthType {
    /// The Adyen credentials that a merchant's credentials stand for. Adyen
    /// works with a key and an account, and optionally a review key.
    pub open spec fn spec_try_from(auth_type: ConnectorAuthType) -> Result<Self, ConnectorError> {
        match auth_type {
            ConnectorAuthType::BodyKey { api_key, key1 } => Ok(
                AdyenAuthType { api_key, merchant_account: key1, review_key: None },
            ),
            ConnectorAuthType::SignatureKey { api_key, key1, api_secret } => Ok(
                AdyenAuthType { api_key, merchant_account: key1, review_key: Some(api_secret) },
            ),
            _ => Err(ConnectorError::FailedToObtainAuthType),
        }
    }

    /// Reads the credentials of an Adyen account.
    pub fn try_from(auth_type: &ConnectorAuthType) -> (res: Result<Self, ConnectorError>)
        ensures
            res == Self::spec_try_from(*auth_type),
    {
        match auth_type {
            ConnectorAuthType::BodyKey { api_key, key1 } => Ok(
                AdyenAuthType {
                    api_key: api_key.clone(),
                    merchant_account: key1.clone(),
                    review_key: None,
                },
            ),
            ConnectorAuthType::SignatureKey { api_key, key1, api_secret } => Ok(
                AdyenAuthType {
                    api_key: api_key.clone(),
                    merchant_account: key1.clone(),
                    review_key: Some(api_secret.clone()),
                },
            ),
            ConnectorAuthType::HeaderKey { .. }
            | ConnectorAuthType::MultiAuthKey { .. }
            | ConnectorAuthType::NoKey => Err(ConnectorError::FailedToObtainAuthType),
        }
    }
}

/// The account that a merchant's credentials name.
pub open spec fn spec_merchant_account_code(auth_type: ConnectorAuthType) -> Result<
    String,
    ConnectorError,
> {
    match AdyenAuthType::spec_try_from(auth_type) {
        Ok(auth) => Ok(auth.merchant_account),
        Err(_) => Err(ConnectorError::FailedToObtainAuthType),
    }
}

/// Reads the account that a merchant's credentials name.
pub fn get_merchant_account_code(auth_type: &ConnectorAuthType) -> (res: Result<
    String,
    ConnectorError,
>)
    ensures
        res == spec_merchant_account_code(*auth_type),
{
    match AdyenAuthType::try_from(auth_type) {
        Ok(auth) => Ok(auth.merchant_account),
        Err(_) => Err(ConnectorError::FailedToObtainAuthType),
    }
}

/// What is configured for an Adyen account beyond the credentials.
#[derive(Clone, Debug, PartialEq, Eq)]
pub struct AdyenConnectorMetadataObject {
    pub endpoint_prefix: Option<String>,
}

/// How the shopper takes part in the payment.
#[derive(Clone, Copy, Debug, PartialEq, Eq, Hash, Structural)]
pub enum AdyenShopperInteraction {
    Ecommerce,
    ContinuedAuthentication,
    Moto,
    Pos,
}

/// How a stored payment method is charged again.
#[derive(Clone, Copy, Debug, PartialEq, Eq, Hash, Structural)]
pub enum AdyenRecurringModel {
    UnscheduledCardOnFile,
    CardOnFile,
}

/// The kind of authorization that is asked for.
#[derive(Clone, Copy, Debug, PartialEq, Eq, Hash, Structural)]
pub enum AuthType {
    PreAuth,
}

/// Settings and details that go with a payment, in either direction.
#[derive(Clone, Debug, PartialEq, Eq)]
pub struct AdditionalData {
    pub authorisation_type: Option<AuthType>,
    pub manual_capture: Option<String>,
    pub execute_three_d: Option<String>,
    pub recurring_processing_model: Option<AdyenRecurringModel>,
    pub recurring_detail_reference: Option<String>,
    pub recurring_shopper_reference: Option<String>,
    pub network_tx_reference: Option<String>,
    pub payout_eligible: Option<PayoutEligibility>,
    pub funds_availability: Option<String>,
    pub refusal_reason_raw: Option<String>,
    pub refusal_code_raw: Option<String>,
}

/// The shopper's name.
#[derive(Clone, Debug, PartialEq, Eq)]
pub struct ShopperName {
    pub first_name: Option<String>,
    pub last_name: Option<String>,
}

/// A postal address as Adyen takes it.
#[derive(Clone, Debug, PartialEq, Eq)]
pub struct Address {
    pub city: String,
    pub country: CountryAlpha2,
    pub house_number_or_name: String,
    pub postal_code: String,
    pub state_or_province: Option<String>,
    pub street: Option<String>,
}

/// One line of the order.
#[derive(Clone, Debug, PartialEq, Eq)]
pub struct LineItem {
    pub amount_excluding_tax: Option<MinorUnit>,
    pub amount_including_tax: Option<MinorUnit>,
    pub description: Option<String>,
    pub id: Option<String>,
    pub tax_amount: Option<MinorUnit>,
    pub quantity: Option<u16>,
}

/// A request to authorize a payment.
#[derive(Clone, Debug, PartialEq, Eq)]
pub struct AdyenPaymentRequest {
    pub amount: Amount,
    pub merchant_account: String,
    pub payment_method: PaymentMethod,
    pub mpi_data: Option<AdyenMpiData>,
    pub reference: String,
    pub return_url: String,
    pub browser_info: Option<AdyenBrowserInfo>,
    pub shopper_interaction: AdyenShopperInteraction,
    pub recurring_processing_model: Option<AdyenRecurringModel>,
    pub additional_data: Option<AdditionalData>,
    pub shopper_reference: Option<String>,
    pub store_payment_method: Option<bool>,
    pub shopper_name: Option<ShopperName>,
    pub shopper_ip: Option<String>,
    pub shopper_locale: Option<String>,
    pub shopper_email: Option<String>,
    pub shopper_statement: Option<String>,
    pub social_security_number: Option<String>,
    pub telephone_number: Option<String>,
    pub billing_address: Option<Address>,
    pub delivery_address: Option<Address>,
    pub country_code: Option<CountryAlpha2>,
    pub line_items: Option<Vec<LineItem>>,
    pub channel: Option<Channel>,
    /// What the merchant attached to the payment, as JSON text.
    pub metadata: Option<String>,
    pub merchant_order_reference: Option<String>,
    pub splits: Option<Vec<AdyenSplitData>>,
    pub store: Option<String>,
}

/// One share of a split payment, as it goes over the wire.
#[derive(Clone, Debug, PartialEq, Eq)]
pub struct AdyenSplitData {
    pub amount: Option<Amount>,
    pub split_type: AdyenSplitType,
    pub account: Option<String>,
    pub reference: String,
    pub description: Option<String>,
}

/// The outcome of an authentication that was done before the payment.
#[derive(Clone, Debug, PartialEq, Eq)]
pub struct AdyenMpiData {
    pub directory_response: String,
    pub authentication_response: String,
    pub token_authentication_verification_value: String,
    pub eci: Option<String>,
}

/// What the shopper's browser told about itself.
#[derive(Clone, Debug, PartialEq, Eq)]
pub struct AdyenBrowserInfo {
    pub user_agent: String,
    pub accept_header: String,
    pub language: String,
    pub color_depth: u8,
    pub screen_height: u32,
    pub screen_width: u32,
    pub time_zone_offset: i32,
    pub java_enabled: bool,
}

/// The result code of a payment response.
#[derive(Clone, Copy, Debug, PartialEq, Eq, Hash, Structural)]
pub enum AdyenStatus {
    AuthenticationFinished,
    AuthenticationNotRequired,
    Authorised,
    Cancelled,
    ChallengeShopper,
    Error,
    Pending,
    Received,
    RedirectShopper,
    Refused,
    PresentToShopper,
    PayoutConfirmReceived,
    PayoutDeclineReceived,
    PayoutSubmitReceived,
}

/// The channel through which the shopper pays.
#[derive(Clone, Copy, Debug, PartialEq, Eq, Hash, Structural)]
pub enum Channel {
    Web,
}

/// A request for the balance of a payment method.
#[derive(Clone, Debug, PartialEq, Eq)]
pub struct AdyenBalanceRequest {
    pub payment_method: AdyenPaymentMethod,
    pub merchant_account: String,
}

/// The balance of a payment method.
#[derive(Clone, Debug, PartialEq, Eq)]
pub struct AdyenBalanceResponse {
    pub psp_reference: String,
    pub balance: Amount,
}

/// What the shopper brings back from a redirect.
#[derive(Clone, Debug, PartialEq, Eq)]
pub struct AdyenRedirectRequest {
    pub details: AdyenRedirectRequestTypes,
}

/// The forms in which the result of a redirect arrives.
#[derive(Clone, Debug, PartialEq, Eq)]
pub enum AdyenRedirectRequestTypes {
    AdyenRedirection(AdyenRedirection),
    AdyenThreeDS(AdyenThreeDS),
    AdyenRefusal(AdyenRefusal),
}

/// The result of a redirect that ended in a refusal.
#[derive(Clone, Debug, PartialEq, Eq)]
pub struct AdyenRefusal {
    pub payload: String,
    pub type_of_redirection_result: Option<String>,
    pub result_code: Option<String>,
}

/// The result of a plain redirect.
#[derive(Clone, Debug, PartialEq, Eq)]
pub struct AdyenRedirection {
    pub redirect_result: String,
    pub type_of_redirection_result: Option<String>,
    pub result_code: Option<String>,
}

/// The result of a 3-D Secure challenge.
#[derive(Clone, Debug, PartialEq, Eq)]
pub struct AdyenThreeDS {
    pub three_ds_result: String,
    pub type_of_redirection_result: Option<String>,
    pub result_code: Option<String>,
}

/// A response to a payment request.
///
/// Adyen sends no tag that tells the shapes apart. A payload is read as the
/// first of these shapes, in this order, whose required fields it has.
#[derive(Clone, Debug, PartialEq, Eq)]
pub enum AdyenPaymentResponse {
    Response(AdyenResponse),
    PresentToShopper(PresentToShopperResponse),
    QrCodeResponse(QrCodeResponseResponse),
    RedirectionResponse(RedirectionResponse),
    RedirectionErrorResponse(RedirectionErrorResponse),
    WebhookResponse(AdyenWebhookResponse),
}

/// The response to a payment that needs no further step.
#[derive(Clone, Debug, PartialEq, Eq)]
pub struct AdyenResponse {
    pub psp_reference: String,
    pub result_code: AdyenStatus,
    pub amount: Option<Amount>,
    pub merchant_reference: String,
    pub refusal_reason: Option<String>,
    pub refusal_reason_code: Option<String>,
    pub additional_data: Option<AdditionalData>,
    pub splits: Option<Vec<AdyenSplitData>>,
    pub store: Option<String>,
}

/// The response to a redirect that ended in an error.
#[derive(Clone, Debug, PartialEq, Eq)]
pub struct RedirectionErrorResponse {
    pub result_code: AdyenStatus,
    pub refusal_reason: Option<String>,
    pub psp_reference: Option<String>,
    pub merchant_reference: Option<String>,
    pub additional_data: Option<AdditionalData>,
}

/// The response that sends the shopper elsewhere.
#[derive(Clone, Debug, PartialEq, Eq)]
pub struct RedirectionResponse {
    pub result_code: AdyenStatus,
    pub action: AdyenRedirectAction,
    pub refusal_reason: Option<String>,
    pub refusal_reason_code: Option<String>,
    pub psp_reference: Option<String>,
    pub merchant_reference: Option<String>,
    pub store: Option<String>,
    pub splits: Option<Vec<AdyenSplitData>>,
    pub additional_data: Option<AdditionalData>,
}

/// The response that hands the shopper a voucher or transfer instructions.
#[derive(Clone, Debug, PartialEq, Eq)]
pub struct PresentToShopperResponse {
    pub psp_reference: Option<String>,
    pub result_code: AdyenStatus,
    pub action: AdyenPtsAction,
    pub refusal_reason: Option<String>,
    pub refusal_reason_code: Option<String>,
    pub merchant_reference: Option<String>,
    pub store: Option<String>,
    pub splits: Option<Vec<AdyenSplitData>>,
}

/// The response that hands the shopper a QR code.
#[derive(Clone, Debug, PartialEq, Eq)]
pub struct QrCodeResponseResponse {
    pub result_code: AdyenStatus,
    pub action: AdyenQrCodeAction,
    pub refusal_reason: Option<String>,
    pub refusal_reason_code: Option<String>,
    pub additional_data: Option<QrCodeAdditionalData>,
    pub psp_reference: Option<String>,
    pub merchant_reference: Option<String>,
    pub store: Option<String>,
    pub splits: Option<Vec<AdyenSplitData>>,
}

/// The QR code that the shopper is to scan.
#[derive(Clone, Debug, PartialEq, Eq)]
pub struct AdyenQrCodeAction {
    pub payment_method_type: PaymentType,
    pub type_of_response: ActionType,
    pub qr_code_url: Option<String>,
    pub qr_code_data: String,
}

/// What goes with a QR code.
#[derive(Clone, Debug, PartialEq, Eq)]
pub struct QrCodeAdditionalData {
    /// When a Pix code expires, in seconds since the epoch.
    pub pix_expiration_date: Option<i64>,
}

/// The voucher or instructions that the shopper is handed.
#[derive(Clone, Debug, PartialEq, Eq)]
pub struct AdyenPtsAction {
    pub reference: String,
    pub download_url: Option<String>,
    pub payment_method_type: PaymentType,
    /// Until when the shopper can pay, in seconds since the epoch.
    pub expires_at: Option<i64>,
    pub initial_amount: Option<Amount>,
    pub pass_creation_token: Option<String>,
    pub total_amount: Option<Amount>,
    pub type_of_response: ActionType,
    pub instructions_url: Option<String>,
}

/// Where the shopper is sent, and with what.
#[derive(Clone, Debug, PartialEq, Eq)]
pub struct AdyenRedirectAction {
    pub payment_method_type: PaymentType,
    pub url: Option<String>,
    pub method: Option<Method>,
    pub type_of_response: ActionType,
    /// The fields of the form that the shopper submits. No name occurs
    /// twice.
    pub data: Option<Vec<FormField>>,
    pub payment_data: Option<String>,
}

/// The kind of step that the shopper has to take.
#[derive(Clone, Copy, Debug, PartialEq, Eq, Hash, Structural)]
pub enum ActionType {
    Redirect,
    Await,
    QrCode,
    Voucher,
}

/// An amount of money in minor units.
#[derive(Clone, Debug, PartialEq, Eq)]
pub struct Amount {
    pub currency: Currency,
    pub value: MinorUnit,
}

/// What a payment request pays with.
#[derive(Clone, Debug, PartialEq, Eq)]
pub enum PaymentMethod {
    AdyenPaymentMethod(AdyenPaymentMethod),
    AdyenMandatePaymentMethod(AdyenMandate),
}

/// A payment method in the terms of Adyen.
#[derive(Clone, Debug, PartialEq, Eq)]
pub enum AdyenPaymentMethod {
    AdyenAffirm,
    AdyenCard(AdyenCard),
    AdyenKlarna,
    AdyenPaypal,
    AdyenPaze(AdyenPazeData),
    AfterPay,
    AlmaPayLater,
    AliPay,
    AliPayHk,
    ApplePay(AdyenApplePay),
    Atome,
    BancontactCard(AdyenCard),
    Bizum,
    Blik(BlikRedirectionData),
    BoletoBancario,
    ClearPay,
    Dana,
    Eps(BankRedirectionWithIssuer),
    Gcash(GcashData),
    Gpay(AdyenGPay),
    GoPay(GoPayData),
    Ideal,
    Kakaopay(KakaoPayData),
    Mbway(MbwayData),
    MobilePay,
    Momo(MomoData),
    MomoAtm,
    TouchNGo(TouchNGoData),
    OnlineBankingCzechRepublic(OnlineBankingCzechRepublicData),
    OnlineBankingFinland,
    OnlineBankingPoland(OnlineBankingPolandData),
    OnlineBankingSlovakia(OnlineBankingSlovakiaData),
    OnlineBankingFpx(OnlineBankingFpxData),
    OnlineBankingThailand(OnlineBankingThailandData),
    OpenBankingUK(OpenBankingUKData),
    Oxxo,
    PaySafeCard,
    PayBright,
    PermataBankTransfer(DokuBankData),
    Trustly,
    Walley,
    WeChatPayWeb,
    AchDirectDebit(AchDirectDebitData),
    SepaDirectDebit(SepaDirectDebitData),
    BacsDirectDebit(BacsDirectDebitData),
    SamsungPay(SamsungPayPmData),
    BcaBankTransfer(DokuBankData),
    BniVa(DokuBankData),
    BriVa(DokuBankData),
    CimbVa(DokuBankData),
    DanamonVa(DokuBankData),
    MandiriVa(DokuBankData),
    Twint,
    Vipps,
    Indomaret(DokuBankData),
    Alfamart(DokuBankData),
    PaymentMethodBalance(BalancePmData),
    AdyenGiftCard(AdyenGiftCardData),
    Swish,
    Benefit,
    Knet,
    SevenEleven(JCSVoucherData),
    Lawson(JCSVoucherData),
    MiniStop(JCSVoucherData),
    FamilyMart(JCSVoucherData),
    Seicomart(JCSVoucherData),
    PayEasy(JCSVoucherData),
    Pix,
    NetworkToken(AdyenNetworkTokenData),
}

/// Who pays a voucher at a Japanese convenience store.
#[derive(Clone, Debug, PartialEq, Eq)]
pub struct JCSVoucherData {
    pub first_name: String,
    pub last_name: Option<String>,
    pub shopper_email: String,
    pub telephone_number: String,
}

/// A card whose balance is asked for.
#[derive(Clone, Debug, PartialEq, Eq)]
pub struct BalancePmData {
    pub number: String,
    pub cvc: String,
}

/// A gift card.
#[derive(Clone, Debug, PartialEq, Eq)]
pub struct AdyenGiftCardData {
    pub brand: GiftCardBrand,
    pub number: String,
    pub cvc: String,
}

/// A US bank account to debit.
#[derive(Clone, Debug, PartialEq, Eq)]
pub struct AchDirectDebitData {
    pub bank_account_number: String,
    pub bank_location_id: String,
    pub owner_name: String,
}

/// A SEPA bank account to debit.
#[derive(Clone, Debug, PartialEq, Eq)]
pub struct SepaDirectDebitData {
    pub owner_name: String,
    pub iban_number: String,
}

/// A UK bank account to debit.
#[derive(Clone, Debug, PartialEq, Eq)]
pub struct BacsDirectDebitData {
    pub bank_account_number: String,
    pub bank_location_id: String,
    pub holder_name: String,
}

/// The phone that MB WAY asks for approval.
#[derive(Clone, Debug, PartialEq, Eq)]
pub struct MbwayData {
    pub telephone_number: String,
}

/// A Samsung Pay token.
#[derive(Clone, Debug, PartialEq, Eq)]
pub struct SamsungPayPmData {
    pub samsung_pay_token: String,
}

/// The bank of a Czech online-banking payment.
#[derive(Clone, Debug, PartialEq, Eq)]
pub struct OnlineBankingCzechRepublicData {
    pub issuer: OnlineBankingCzechRepublicBanks,
}

/// The bank of a Polish online-banking payment.
#[derive(Clone, Debug, PartialEq, Eq)]
pub struct OnlineBankingPolandData {
    pub issuer: OnlineBankingPolandBanks,
}

/// The bank of a Slovak online-banking payment.
#[derive(Clone, Debug, PartialEq, Eq)]
pub struct OnlineBankingSlovakiaData {
    pub issuer: OnlineBankingSlovakiaBanks,
}

/// The bank of a Malaysian FPX payment.
#[derive(Clone, Debug, PartialEq, Eq)]
pub struct OnlineBankingFpxData {
    pub issuer: OnlineBankingFpxIssuer,
}

/// The bank of a Thai online-banking payment.
#[derive(Clone, Debug, PartialEq, Eq)]
pub struct OnlineBankingThailandData {
    pub issuer: OnlineBankingThailandIssuer,
}

/// The bank of a UK open-banking payment.
#[derive(Clone, Debug, PartialEq, Eq)]
pub struct OpenBankingUKData {
    pub issuer: Option<OpenBankingUKIssuer>,
}

/// The code that the shopper got from BLIK.
#[derive(Clone, Debug, PartialEq, Eq)]
pub struct BlikRedirectionData {
    pub blik_code: String,
}

/// A bank redirect that names the issuer.
#[derive(Clone, Debug, PartialEq, Eq)]
pub struct BankRedirectionWithIssuer {
    pub issuer: Option<&'static str>,
}

/// A payment method that Adyen stored earlier.
#[derive(Clone, Debug, PartialEq, Eq)]
pub struct AdyenMandate {
    pub payment_type: PaymentType,
    pub stored_payment_method_id: String,
}

/// A card.
#[derive(Clone, Debug, PartialEq, Eq)]
pub struct AdyenCard {
    pub number: String,
    pub expiry_month: String,
    pub expiry_year: String,
    pub cvc: Option<String>,
    pub holder_name: Option<String>,
    pub brand: Option<CardBrand>,
    pub network_payment_reference: Option<String>,
}

/// A Paze token.
#[derive(Clone, Debug, PartialEq, Eq)]
pub struct AdyenPazeData {
    pub number: String,
    pub expiry_month: String,
    pub expiry_year: String,
    pub cvc: Option<String>,
    pub holder_name: Option<String>,
    pub brand: Option<CardBrand>,
    pub network_payment_reference: Option<String>,
}

/// The brand of a card in the terms of Adyen.
#[derive(Clone, Copy, Debug, PartialEq, Eq, Hash, Structural)]
pub enum CardBrand {
    Visa,
    MC,
    Amex,
    Argencard,
    Bcmc,
    Bijcard,
    Cabal,
    Cartebancaire,
    Codensa,
    Cup,
    Dankort,
    Diners,
    Discover,
    Electron,
    Elo,
    Forbrugsforeningen,
    Hiper,
    Hipercard,
    Jcb,
    Karenmillen,
    Laser,
    Maestro,
    Maestrouk,
    Mcalphabankbonus,
    Mir,
    Naranja,
    Oasis,
    Rupay,
    Shopping,
    Solo,
    Troy,
    Uatp,
    Visaalphabankbonus,
    Visadankort,
    Warehouse,
}

/// A request to void a payment.
#[derive(Clone, Debug, PartialEq, Eq)]
pub struct AdyenCancelRequest {
    pub merchant_account: String,
    pub reference: String,
}

/// The response to a request to void a payment.
#[derive(Clone, Debug, PartialEq, Eq)]
pub struct AdyenCancelResponse {
    pub payment_psp_reference: String,
    pub status: CancelStatus,
    pub reference: String,
}

/// How far a void has come.
#[derive(Clone, Copy, Debug, PartialEq, Eq, Hash, Structural)]
pub enum CancelStatus {
    Received,
    Processing,
}

/// A GoPay payment; it needs no details.
#[derive(Clone, Debug, PartialEq, Eq)]
pub struct GoPayData {}

/// A KakaoPay payment; it needs no details.
#[derive(Clone, Debug, PartialEq, Eq)]
pub struct KakaoPayData {}

/// A GCash payment; it needs no details.
#[derive(Clone, Debug, PartialEq, Eq)]
pub struct GcashData {}

/// A MoMo payment; it needs no details.
#[derive(Clone, Debug, PartialEq, Eq)]
pub struct MomoData {}

/// A Touch 'n Go payment; it needs no details.
#[derive(Clone, Debug, PartialEq, Eq)]
pub struct TouchNGoData {}

/// A Google Pay token.
#[derive(Clone, Debug, PartialEq, Eq)]
pub struct AdyenGPay {
    pub google_pay_token: String,
}

/// An Apple Pay token.
#[derive(Clone, Debug, PartialEq, Eq)]
pub struct AdyenApplePay {
    pub apple_pay_token: String,
}

/// A network token.
#[derive(Clone, Debug, PartialEq, Eq)]
pub struct AdyenNetworkTokenData {
    pub number: String,
    pub expiry_month: String,
    pub expiry_year: String,
    pub holder_name: Option<String>,
    pub brand: Option<CardBrand>,
    pub network_payment_reference: Option<String>,
}

/// Who pays by a Doku bank transfer or voucher.
#[derive(Clone, Debug, PartialEq, Eq)]
pub struct DokuBankData {
    pub first_name: String,
    pub last_name: Option<String>,
    pub shopper_email: String,
}

/// A request to refund a payment.
#[derive(Clone, Debug, PartialEq, Eq)]
pub struct AdyenRefundRequest {
    pub merchant_account: String,
    pub amount: Amount,
    pub merchant_refund_reason: Option<String>,
    pub reference: String,
    pub splits: Option<Vec<AdyenSplitData>>,
    pub store: Option<String>,
}

/// The response to a request to refund a payment.
#[derive(Clone, Debug, PartialEq, Eq)]
pub struct AdyenRefundResponse {
    pub merchant_account: String,
    pub psp_reference: String,
    pub payment_psp_reference: String,
    pub reference: String,
    pub status: String,
}

/// The type of a payment method as Adyen names it on the wire.
#[derive(Clone, Copy, Debug, PartialEq, Eq, Hash, Structural)]
pub enum PaymentType {
    Affirm,
    Afterpaytouch,
    Alipay,
    AlipayHk,
    Alfamart,
    Alma,
    Applepay,
    Bizum,
    Atome,
    Blik,
    BoletoBancario,
    ClearPay,
    Dana,
    Eps,
    Gcash,
    Googlepay,
    GoPay,
    Ideal,
    Indomaret,
    Klarna,
    Kakaopay,
    Mbway,
    MobilePay,
    Momo,
    MomoAtm,
    OnlineBankingCzechRepublic,
    OnlineBankingFinland,
    OnlineBankingPoland,
    OnlineBankingSlovakia,
    OnlineBankingFpx,
    OnlineBankingThailand,
    OpenBankingUK,
    Oxxo,
    PaySafeCard,
    PayBright,
    Paypal,
    Scheme,
    NetworkToken,
    Trustly,
    TouchNGo,
    Walley,
    WeChatPayWeb,
    AchDirectDebit,
    SepaDirectDebit,
    BacsDirectDebit,
    Samsungpay,
    Twint,
    Vipps,
    Giftcard,
    Knet,
    Benefit,
    Swish,
    PermataBankTransfer,
    BcaBankTransfer,
    BniVa,
    BriVa,
    CimbVa,
    DanamonVa,
    MandiriVa,
    SevenEleven,
    Lawson,
    MiniStop,
    FamilyMart,
    Seicomart,
    PayEasy,
    Pix,
}

/// The brand of a gift card.
#[derive(Clone, Copy, Debug, PartialEq, Eq, Hash, Structural)]
pub enum GiftCardBrand {
    Givex,
    Auriga,
    Babygiftcard,
}

/// A request to capture a payment.
#[derive(Clone, Debug, PartialEq, Eq)]
pub struct AdyenCaptureRequest {
    pub merchant_account: String,
    pub amount: Amount,
    pub reference: String,
}

/// The response to a request to capture a payment.
#[derive(Clone, Debug, PartialEq, Eq)]
pub struct AdyenCaptureResponse {
    pub merchant_account: String,
    pub payment_psp_reference: String,
    pub psp_reference: String,
    pub reference: String,
    pub status: String,
    pub amount: Amount,
    pub merchant_reference: Option<String>,
    pub store: Option<String>,
    pub splits: Option<Vec<AdyenSplitData>>,
}

/// The body of an error that Adyen answers a request with.
#[derive(Clone, Debug, PartialEq, Eq)]
pub struct AdyenErrorResponse {
    pub status: i32,
    pub error_code: String,
    pub message: String,
    pub error_type: String,
    pub psp_reference: Option<String>,
}

} // verus!
