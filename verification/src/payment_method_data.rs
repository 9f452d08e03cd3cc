//! What a shopper pays with: the payment method data of the canonical
//! model. Exactly one case is active for an attempt.

use vstd::prelude::*;
use crate::address::AddressDetails;
use crate::bank_names::BankNames;
use crate::country::CountryAlpha2;
use crate::enums::{CardIssuer, CardNetwork};
use crate::errors::ConnectorError;

verus! {

/// A payment card.
#[derive(Clone, Debug, PartialEq, Eq)]
pub struct Card {
    pub card_number: String,
    pub card_exp_month: String,
    pub card_exp_year: String,
    pub card_cvc: String,
    /// The network that the caller knows the card to run on.
    pub card_network: Option<CardNetwork>,
    /// The issuer that the leading digits of the number denote, where they
    /// denote one.
    pub card_issuer: Option<CardIssuer>,
    pub card_holder_name: Option<String>,
}

/// A card that was used before and is charged again by the transaction id
/// that its network gave to the first payment.
#[derive(Clone, Debug, PartialEq, Eq)]
pub struct CardDetailsForNetworkTransactionId {
    pub card_number: String,
    pub card_exp_month: String,
    pub card_exp_year: String,
    pub card_network: Option<CardNetwork>,
    /// The issuer that the leading digits of the number denote, where they
    /// denote one.
    pub card_issuer: Option<CardIssuer>,
    pub card_holder_name: Option<String>,
}

/// A token that a card network issued in place of a card number.
#[derive(Clone, Debug, PartialEq, Eq)]
pub struct NetworkTokenData {
    pub token_number: String,
    pub token_exp_month: String,
    pub token_exp_year: String,
    pub token_cryptogram: Option<String>,
    pub card_network: Option<CardNetwork>,
    /// The issuer that the leading digits of the token denote, where they
    /// denote one.
    pub card_issuer: Option<CardIssuer>,
}

/// The expiry year with four digits: a year of two characters gets the
/// century put in front.
pub open spec fn spec_expiry_year_4_digit(year: Seq<char>) -> Seq<char> {
    if year.len() == 2 {
        "20"@ + year
    } else {
        year
    }
}

/// Writes an expiry year with four digits.
pub fn expiry_year_4_digit(year: &String) -> (res: String)
    ensures
        res@ == spec_expiry_year_4_digit(year@),
{
    if year.as_str().unicode_len() == 2 {
        let mut s = "20".to_owned();
        s.append(year.as_str());
        s
    } else {
        year.clone()
    }
}

/// The issuer of a card, or the error with which a connector rejects a
/// number that denotes none.
pub open spec fn spec_card_issuer(
    card_issuer: Option<CardIssuer>,
    connector: &'static str,
) -> Result<CardIssuer, ConnectorError> {
    match card_issuer {
        Some(issuer) => Ok(issuer),
        None => Err(ConnectorError::NotImplemented { connector, feature: "Card Type" }),
    }
}

impl Card {
    /// The expiry year with four digits.
    pub fn get_expiry_year_4_digit(&self) -> (res: String)
        ensures
            res@ == spec_expiry_year_4_digit(self.card_exp_year@),
    {
        expiry_year_4_digit(&self.card_exp_year)
    }

    /// The issuer that the card number denotes, for the connector of the
    /// given name.
    pub fn get_card_issuer(&self, connector: &'static str) -> (res: Result<
        CardIssuer,
        ConnectorError,
    >)
        ensures
            res == spec_card_issuer(self.card_issuer, connector),
    {
        match self.card_issuer {
            Some(issuer) => Ok(issuer),
            None => Err(ConnectorError::NotImplemented { connector, feature: "Card Type" }),
        }
    }
}

impl CardDetailsForNetworkTransactionId {
    /// The expiry year with four digits.
    pub fn get_expiry_year_4_digit(&self) -> (res: String)
        ensures
            res@ == spec_expiry_year_4_digit(self.card_exp_year@),
    {
        expiry_year_4_digit(&self.card_exp_year)
    }

    /// The issuer that the card number denotes, for the connector of the
    /// given name.
    pub fn get_card_issuer(&self, connector: &'static str) -> (res: Result<
        CardIssuer,
        ConnectorError,
    >)
        ensures
            res == spec_card_issuer(self.card_issuer, connector),
    {
        match self.card_issuer {
            Some(issuer) => Ok(issuer),
            None => Err(ConnectorError::NotImplemented { connector, feature: "Card Type" }),
        }
    }
}

impl NetworkTokenData {
    /// The expiry year with four digits.
    pub fn get_expiry_year_4_digit(&self) -> (res: String)
        ensures
            res@ == spec_expiry_year_4_digit(self.token_exp_year@),
    {
        expiry_year_4_digit(&self.token_exp_year)
    }

    /// The issuer that the token denotes, for the connector of the given
    /// name.
    pub fn get_card_issuer(&self, connector: &'static str) -> (res: Result<
        CardIssuer,
        ConnectorError,
    >)
        ensures
            res == spec_card_issuer(self.card_issuer, connector),
    {
        match self.card_issuer {
            Some(issuer) => Ok(issuer),
            None => Err(ConnectorError::NotImplemented { connector, feature: "Card Type" }),
        }
    }
}

/// The payment token that Google Pay handed to the shopper's device.
#[derive(Clone, Debug, PartialEq, Eq)]
pub struct GooglePayWalletData {
    /// The kind of instrument behind the token.
    pub pm_type: String,
    pub description: String,
    /// The token itself.
    pub token: String,
}

/// The instrument behind an Apple Pay payment.
#[derive(Clone, Debug, PartialEq, Eq)]
pub struct ApplepayPaymentMethod {
    pub display_name: String,
    pub network: String,
    pub pm_type: String,
}

/// The payment that Apple Pay handed to the shopper's device.
#[derive(Clone, Debug, PartialEq, Eq)]
pub struct ApplePayWalletData {
    /// The encrypted payment, in base64.
    pub payment_data: String,
    pub payment_method: ApplepayPaymentMethod,
    pub transaction_identifier: String,
}

/// The payment credential that Samsung Pay handed to the shopper's device.
#[derive(Clone, Debug, PartialEq, Eq)]
pub struct SamsungPayWalletData {
    pub token: String,
}

/// A payment from a wallet.
#[derive(Clone, Debug, PartialEq, Eq)]
pub enum WalletData {
    AliPayQr,
    AliPayRedirect,
    AliPayHkRedirect,
    AmazonPayRedirect,
    MomoRedirect,
    KakaoPayRedirect,
    GoPayRedirect,
    GcashRedirect,
    ApplePay(ApplePayWalletData),
    ApplePayRedirect,
    ApplePayThirdPartySdk,
    DanaRedirect,
    GooglePay(GooglePayWalletData),
    GooglePayRedirect,
    GooglePayThirdPartySdk,
    MbWayRedirect,
    MobilePayRedirect,
    PaypalRedirect,
    PaypalSdk,
    Paze,
    SamsungPay(SamsungPayWalletData),
    TwintRedirect,
    VippsRedirect,
    TouchNGoRedirect,
    WeChatPayRedirect,
    WeChatPayQr,
    CashappQr,
    SwishQr,
    Mifinity,
}

impl WalletData {
    /// The name of the scheme, as errors give it.
    pub open spec fn spec_scheme_name(self) -> &'static str {
        match self {
            WalletData::AliPayQr => "AliPayQr",
            WalletData::AliPayRedirect => "AliPayRedirect",
            WalletData::AliPayHkRedirect => "AliPayHkRedirect",
            WalletData::AmazonPayRedirect => "AmazonPayRedirect",
            WalletData::MomoRedirect => "MomoRedirect",
            WalletData::KakaoPayRedirect => "KakaoPayRedirect",
            WalletData::GoPayRedirect => "GoPayRedirect",
            WalletData::GcashRedirect => "GcashRedirect",
            WalletData::ApplePay(_) => "ApplePay",
            WalletData::ApplePayRedirect => "ApplePayRedirect",
            WalletData::ApplePayThirdPartySdk => "ApplePayThirdPartySdk",
            WalletData::DanaRedirect => "DanaRedirect",
            WalletData::GooglePay(_) => "GooglePay",
            WalletData::GooglePayRedirect => "GooglePayRedirect",
            WalletData::GooglePayThirdPartySdk => "GooglePayThirdPartySdk",
            WalletData::MbWayRedirect => "MbWayRedirect",
            WalletData::MobilePayRedirect => "MobilePayRedirect",
            WalletData::PaypalRedirect => "PaypalRedirect",
            WalletData::PaypalSdk => "PaypalSdk",
            WalletData::Paze => "Paze",
            WalletData::SamsungPay(_) => "SamsungPay",
            WalletData::TwintRedirect => "TwintRedirect",
            WalletData::VippsRedirect => "VippsRedirect",
            WalletData::TouchNGoRedirect => "TouchNGoRedirect",
            WalletData::WeChatPayRedirect => "WeChatPayRedirect",
            WalletData::WeChatPayQr => "WeChatPayQr",
            WalletData::CashappQr => "CashappQr",
            WalletData::SwishQr => "SwishQr",
            WalletData::Mifinity => "Mifinity",
        }
    }

    /// The name of the scheme, as errors give it.
    pub fn scheme_name(&self) -> (res: &'static str)
        ensures
            res == self.spec_scheme_name(),
    {
        match self {
            WalletData::AliPayQr => "AliPayQr",
            WalletData::AliPayRedirect => "AliPayRedirect",
            WalletData::AliPayHkRedirect => "AliPayHkRedirect",
            WalletData::AmazonPayRedirect => "AmazonPayRedirect",
            WalletData::MomoRedirect => "MomoRedirect",
            WalletData::KakaoPayRedirect => "KakaoPayRedirect",
            WalletData::GoPayRedirect => "GoPayRedirect",
            WalletData::GcashRedirect => "GcashRedirect",
            WalletData::ApplePay(_) => "ApplePay",
            WalletData::ApplePayRedirect => "ApplePayRedirect",
            WalletData::ApplePayThirdPartySdk => "ApplePayThirdPartySdk",
            WalletData::DanaRedirect => "DanaRedirect",
            WalletData::GooglePay(_) => "GooglePay",
            WalletData::GooglePayRedirect => "GooglePayRedirect",
            WalletData::GooglePayThirdPartySdk => "GooglePayThirdPartySdk",
            WalletData::MbWayRedirect => "MbWayRedirect",
            WalletData::MobilePayRedirect => "MobilePayRedirect",
            WalletData::PaypalRedirect => "PaypalRedirect",
            WalletData::PaypalSdk => "PaypalSdk",
            WalletData::Paze => "Paze",
            WalletData::SamsungPay(_) => "SamsungPay",
            WalletData::TwintRedirect => "TwintRedirect",
            WalletData::VippsRedirect => "VippsRedirect",
            WalletData::TouchNGoRedirect => "TouchNGoRedirect",
            WalletData::WeChatPayRedirect => "WeChatPayRedirect",
            WalletData::WeChatPayQr => "WeChatPayQr",
            WalletData::CashappQr => "CashappQr",
            WalletData::SwishQr => "SwishQr",
            WalletData::Mifinity => "Mifinity",
        }
    }
}

/// A payment that the shopper settles later with a lender.
#[derive(Clone, Debug, PartialEq, Eq)]
pub enum PayLaterData {
    KlarnaRedirect { billing_email: Option<String>, billing_country: Option<CountryAlpha2> },
    KlarnaSdk { token: String },
    AffirmRedirect,
    AfterpayClearpayRedirect { billing_email: Option<String>, billing_name: Option<String> },
    PayBrightRedirect,
    WalleyRedirect,
    AlmaRedirect,
    AtomeRedirect,
}

impl PayLaterData {
    /// The name of the scheme, as errors give it.
    pub open spec fn spec_scheme_name(self) -> &'static str {
        match self {
            PayLaterData::KlarnaRedirect { .. } => "KlarnaRedirect",
            PayLaterData::KlarnaSdk { .. } => "KlarnaSdk",
            PayLaterData::AffirmRedirect => "AffirmRedirect",
            PayLaterData::AfterpayClearpayRedirect { .. } => "AfterpayClearpayRedirect",
            PayLaterData::PayBrightRedirect => "PayBrightRedirect",
            PayLaterData::WalleyRedirect => "WalleyRedirect",
            PayLaterData::AlmaRedirect => "AlmaRedirect",
            PayLaterData::AtomeRedirect => "AtomeRedirect",
        }
    }

    /// The name of the scheme, as errors give it.
    pub fn scheme_name(&self) -> (res: &'static str)
        ensures
            res == self.spec_scheme_name(),
    {
        match self {
            PayLaterData::KlarnaRedirect { .. } => "KlarnaRedirect",
            PayLaterData::KlarnaSdk { .. } => "KlarnaSdk",
            PayLaterData::AffirmRedirect => "AffirmRedirect",
            PayLaterData::AfterpayClearpayRedirect { .. } => "AfterpayClearpayRedirect",
            PayLaterData::PayBrightRedirect => "PayBrightRedirect",
            PayLaterData::WalleyRedirect => "WalleyRedirect",
            PayLaterData::AlmaRedirect => "AlmaRedirect",
            PayLaterData::AtomeRedirect => "AtomeRedirect",
        }
    }
}

/// A payment for which the shopper is sent to a bank.
#[derive(Clone, Debug, PartialEq, Eq)]
pub enum BankRedirectData {
    BancontactCard {
        card_number: Option<String>,
        card_exp_month: Option<String>,
        card_exp_year: Option<String>,
        card_holder_name: Option<String>,
    },
    Bizum,
    Blik { blik_code: Option<String> },
    Eps { bank_name: Option<BankNames>, billing_name: Option<String> },
    Giropay { billing_name: Option<String> },
    Ideal { bank_name: Option<BankNames>, billing_name: Option<String> },
    Interac,
    OnlineBankingCzechRepublic { issuer: BankNames },
    OnlineBankingFinland,
    OnlineBankingPoland { issuer: BankNames },
    OnlineBankingSlovakia { issuer: BankNames },
    OpenBankingUk { issuer: Option<BankNames> },
    Przelewy24,
    Sofort { country: Option<CountryAlpha2>, preferred_language: Option<String> },
    Trustly,
    OnlineBankingFpx { issuer: BankNames },
    OnlineBankingThailand { issuer: BankNames },
    LocalBankRedirect,
    Eft,
}

impl BankRedirectData {
    /// The name of the scheme, as errors give it.
    pub open spec fn spec_scheme_name(self) -> &'static str {
        match self {
            BankRedirectData::BancontactCard { .. } => "BancontactCard",
            BankRedirectData::Bizum => "Bizum",
            BankRedirectData::Blik { .. } => "Blik",
            BankRedirectData::Eps { .. } => "Eps",
            BankRedirectData::Giropay { .. } => "Giropay",
            BankRedirectData::Ideal { .. } => "Ideal",
            BankRedirectData::Interac => "Interac",
            BankRedirectData::OnlineBankingCzechRepublic { .. } => "OnlineBankingCzechRepublic",
            BankRedirectData::OnlineBankingFinland => "OnlineBankingFinland",
            BankRedirectData::OnlineBankingPoland { .. } => "OnlineBankingPoland",
            BankRedirectData::OnlineBankingSlovakia { .. } => "OnlineBankingSlovakia",
            BankRedirectData::OpenBankingUk { .. } => "OpenBankingUk",
            BankRedirectData::Przelewy24 => "Przelewy24",
            BankRedirectData::Sofort { .. } => "Sofort",
            BankRedirectData::Trustly => "Trustly",
            BankRedirectData::OnlineBankingFpx { .. } => "OnlineBankingFpx",
            BankRedirectData::OnlineBankingThailand { .. } => "OnlineBankingThailand",
            BankRedirectData::LocalBankRedirect => "LocalBankRedirect",
            BankRedirectData::Eft => "Eft",
        }
    }

    /// The name of the scheme, as errors give it.
    pub fn scheme_name(&self) -> (res: &'static str)
        ensures
            res == self.spec_scheme_name(),
    {
        match self {
            BankRedirectData::BancontactCard { .. } => "BancontactCard",
            BankRedirectData::Bizum => "Bizum",
            BankRedirectData::Blik { .. } => "Blik",
            BankRedirectData::Eps { .. } => "Eps",
            BankRedirectData::Giropay { .. } => "Giropay",
            BankRedirectData::Ideal { .. } => "Ideal",
            BankRedirectData::Interac => "Interac",
            BankRedirectData::OnlineBankingCzechRepublic { .. } => "OnlineBankingCzechRepublic",
            BankRedirectData::OnlineBankingFinland => "OnlineBankingFinland",
            BankRedirectData::OnlineBankingPoland { .. } => "OnlineBankingPoland",
            BankRedirectData::OnlineBankingSlovakia { .. } => "OnlineBankingSlovakia",
            BankRedirectData::OpenBankingUk { .. } => "OpenBankingUk",
            BankRedirectData::Przelewy24 => "Przelewy24",
            BankRedirectData::Sofort { .. } => "Sofort",
            BankRedirectData::Trustly => "Trustly",
            BankRedirectData::OnlineBankingFpx { .. } => "OnlineBankingFpx",
            BankRedirectData::OnlineBankingThailand { .. } => "OnlineBankingThailand",
            BankRedirectData::LocalBankRedirect => "LocalBankRedirect",
            BankRedirectData::Eft => "Eft",
        }
    }
}

/// Who is billed for a bank debit.
#[derive(Clone, Debug, PartialEq, Eq)]
pub struct BankDebitBilling {
    pub name: Option<String>,
    pub email: Option<String>,
    pub address: Option<AddressDetails>,
}

/// A payment that is drawn from a bank account.
#[derive(Clone, Debug, PartialEq, Eq)]
pub enum BankDebitData {
    AchBankDebit {
        billing_details: Option<BankDebitBilling>,
        account_number: String,
        routing_number: String,
    },
    SepaBankDebit { billing_details: Option<BankDebitBilling>, iban: String },
    BecsBankDebit {
        billing_details: Option<BankDebitBilling>,
        account_number: String,
        bsb_number: String,
    },
    BacsBankDebit {
        billing_details: Option<BankDebitBilling>,
        account_number: String,
        sort_code: String,
    },
}

impl BankDebitData {
    /// The name of the scheme, as errors give it.
    pub open spec fn spec_scheme_name(self) -> &'static str {
        match self {
            BankDebitData::AchBankDebit { .. } => "Ach",
            BankDebitData::SepaBankDebit { .. } => "Sepa",
            BankDebitData::BecsBankDebit { .. } => "Becs",
            BankDebitData::BacsBankDebit { .. } => "Bacs",
        }
    }

    /// The name of the scheme, as errors give it.
    pub fn scheme_name(&self) -> (res: &'static str)
        ensures
            res == self.spec_scheme_name(),
    {
        match self {
            BankDebitData::AchBankDebit { .. } => "Ach",
            BankDebitData::SepaBankDebit { .. } => "Sepa",
            BankDebitData::BecsBankDebit { .. } => "Becs",
            BankDebitData::BacsBankDebit { .. } => "Bacs",
        }
    }
}

/// A payment that the shopper sends by bank transfer.
#[derive(Clone, Copy, Debug, PartialEq, Eq, Hash, Structural)]
pub enum BankTransferData {
    AchBankTransfer,
    SepaBankTransfer,
    BacsBankTransfer,
    MultibancoBankTransfer,
    PermataBankTransfer,
    BcaBankTransfer,
    BniVaBankTransfer,
    BriVaBankTransfer,
    CimbVaBankTransfer,
    DanamonVaBankTransfer,
    MandiriVaBankTransfer,
    Pix,
    Pse,
    LocalBankTransfer,
}

impl BankTransferData {
    /// The name of the scheme, as errors give it.
    pub open spec fn spec_scheme_name(self) -> &'static str {
        match self {
            BankTransferData::AchBankTransfer => "AchBankTransfer",
            BankTransferData::SepaBankTransfer => "SepaBankTransfer",
            BankTransferData::BacsBankTransfer => "BacsBankTransfer",
            BankTransferData::MultibancoBankTransfer => "MultibancoBankTransfer",
            BankTransferData::PermataBankTransfer => "PermataBankTransfer",
            BankTransferData::BcaBankTransfer => "BcaBankTransfer",
            BankTransferData::BniVaBankTransfer => "BniVaBankTransfer",
            BankTransferData::BriVaBankTransfer => "BriVaBankTransfer",
            BankTransferData::CimbVaBankTransfer => "CimbVaBankTransfer",
            BankTransferData::DanamonVaBankTransfer => "DanamonVaBankTransfer",
            BankTransferData::MandiriVaBankTransfer => "MandiriVaBankTransfer",
            BankTransferData::Pix => "Pix",
            BankTransferData::Pse => "Pse",
            BankTransferData::LocalBankTransfer => "LocalBankTransfer",
        }
    }

    /// The name of the scheme, as errors give it.
    pub fn scheme_name(&self) -> (res: &'static str)
        ensures
            res == self.spec_scheme_name(),
    {
        match self {
            BankTransferData::AchBankTransfer => "AchBankTransfer",
            BankTransferData::SepaBankTransfer => "SepaBankTransfer",
            BankTransferData::BacsBankTransfer => "BacsBankTransfer",
            BankTransferData::MultibancoBankTransfer => "MultibancoBankTransfer",
            BankTransferData::PermataBankTransfer => "PermataBankTransfer",
            BankTransferData::BcaBankTransfer => "BcaBankTransfer",
            BankTransferData::BniVaBankTransfer => "BniVaBankTransfer",
            BankTransferData::BriVaBankTransfer => "BriVaBankTransfer",
            BankTransferData::CimbVaBankTransfer => "CimbVaBankTransfer",
            BankTransferData::DanamonVaBankTransfer => "DanamonVaBankTransfer",
            BankTransferData::MandiriVaBankTransfer => "MandiriVaBankTransfer",
            BankTransferData::Pix => "Pix",
            BankTransferData::Pse => "Pse",
            BankTransferData::LocalBankTransfer => "LocalBankTransfer",
        }
    }
}

/// A card payment for which the shopper is sent to the card scheme.
#[derive(Clone, Copy, Debug, PartialEq, Eq, Hash, Structural)]
pub enum CardRedirectData {
    Knet,
    Benefit,
    MomoAtm,
    CardRedirect,
}

impl CardRedirectData {
    /// The name of the scheme, as errors give it.
    pub open spec fn spec_scheme_name(self) -> &'static str {
        match self {
            CardRedirectData::Knet => "Knet",
            CardRedirectData::Benefit => "Benefit",
            CardRedirectData::MomoAtm => "MomoAtm",
            CardRedirectData::CardRedirect => "CardRedirect",
        }
    }

    /// The name of the scheme, as errors give it.
    pub fn scheme_name(&self) -> (res: &'static str)
        ensures
            res == self.spec_scheme_name(),
    {
        match self {
            CardRedirectData::Knet => "Knet",
            CardRedirectData::Benefit => "Benefit",
            CardRedirectData::MomoAtm => "MomoAtm",
            CardRedirectData::CardRedirect => "CardRedirect",
        }
    }
}

/// A payment by a voucher that the shopper pays for elsewhere.
#[derive(Clone, Debug, PartialEq, Eq)]
pub enum VoucherData {
    Boleto { social_security_number: Option<String> },
    Efecty,
    PagoEfectivo,
    RedCompra,
    RedPagos,
    Alfamart,
    Indomaret,
    Oxxo,
    SevenEleven,
    Lawson,
    MiniStop,
    FamilyMart,
    Seicomart,
    PayEasy,
}

impl VoucherData {
    /// The name of the scheme, as errors give it.
    pub open spec fn spec_scheme_name(self) -> &'static str {
        match self {
            VoucherData::Boleto { .. } => "Boleto",
            VoucherData::Efecty => "Efecty",
            VoucherData::PagoEfectivo => "PagoEfectivo",
            VoucherData::RedCompra => "RedCompra",
            VoucherData::RedPagos => "RedPagos",
            VoucherData::Alfamart => "Alfamart",
            VoucherData::Indomaret => "Indomaret",
            VoucherData::Oxxo => "Oxxo",
            VoucherData::SevenEleven => "SevenEleven",
            VoucherData::Lawson => "Lawson",
            VoucherData::MiniStop => "MiniStop",
            VoucherData::FamilyMart => "FamilyMart",
            VoucherData::Seicomart => "Seicomart",
            VoucherData::PayEasy => "PayEasy",
        }
    }

    /// The name of the scheme, as errors give it.
    pub fn scheme_name(&self) -> (res: &'static str)
        ensures
            res == self.spec_scheme_name(),
    {
        match self {
            VoucherData::Boleto { .. } => "Boleto",
            VoucherData::Efecty => "Efecty",
            VoucherData::PagoEfectivo => "PagoEfectivo",
            VoucherData::RedCompra => "RedCompra",
            VoucherData::RedPagos => "RedPagos",
            VoucherData::Alfamart => "Alfamart",
            VoucherData::Indomaret => "Indomaret",
            VoucherData::Oxxo => "Oxxo",
            VoucherData::SevenEleven => "SevenEleven",
            VoucherData::Lawson => "Lawson",
            VoucherData::MiniStop => "MiniStop",
            VoucherData::FamilyMart => "FamilyMart",
            VoucherData::Seicomart => "Seicomart",
            VoucherData::PayEasy => "PayEasy",
        }
    }
}

/// A payment by gift card.
#[derive(Clone, Debug, PartialEq, Eq)]
pub enum GiftCardData {
    Givex { number: String, cvc: String },
    PaySafeCard,
}

/// What the shopper pays with.
#[derive(Clone, Debug, PartialEq, Eq)]
pub enum PaymentMethodData {
    Card(Card),
    CardDetailsForNetworkTransactionId(CardDetailsForNetworkTransactionId),
    CardRedirect(CardRedirectData),
    Wallet(WalletData),
    PayLater(PayLaterData),
    BankRedirect(BankRedirectData),
    BankDebit(BankDebitData),
    BankTransfer(BankTransferData),
    Crypto,
    /// A payment on a mandate that was set up before; the mandate is named
    /// by the request, not here.
    MandatePayment,
    Reward,
    RealTimePayment,
    Upi,
    Voucher(VoucherData),
    GiftCard(GiftCardData),
    CardToken,
    OpenBanking,
    NetworkToken(NetworkTokenData),
    MobilePayment,
}

impl PaymentMethodData {
    /// The name of the case, as errors give it.
    pub open spec fn spec_kind_name(self) -> &'static str {
        match self {
            PaymentMethodData::Card(_) => "Card",
            PaymentMethodData::CardDetailsForNetworkTransactionId(_) => "CardDetailsForNetworkTransactionId",
            PaymentMethodData::CardRedirect(_) => "CardRedirect",
            PaymentMethodData::Wallet(_) => "Wallet",
            PaymentMethodData::PayLater(_) => "PayLater",
            PaymentMethodData::BankRedirect(_) => "BankRedirect",
            PaymentMethodData::BankDebit(_) => "BankDebit",
            PaymentMethodData::BankTransfer(_) => "BankTransfer",
            PaymentMethodData::Crypto => "Crypto",
            PaymentMethodData::MandatePayment => "MandatePayment",
            PaymentMethodData::Reward => "Reward",
            PaymentMethodData::RealTimePayment => "RealTimePayment",
            PaymentMethodData::Upi => "Upi",
            PaymentMethodData::Voucher(_) => "Voucher",
            PaymentMethodData::GiftCard(_) => "GiftCard",
            PaymentMethodData::CardToken => "CardToken",
            PaymentMethodData::OpenBanking => "OpenBanking",
            PaymentMethodData::NetworkToken(_) => "NetworkToken",
            PaymentMethodData::MobilePayment => "MobilePayment",
        }
    }

    /// The name of the case, as errors give it.
    pub fn kind_name(&self) -> (res: &'static str)
        ensures
            res == self.spec_kind_name(),
    {
        match self {
            PaymentMethodData::Card(_) => "Card",
            PaymentMethodData::CardDetailsForNetworkTransactionId(_) => "CardDetailsForNetworkTransactionId",
            PaymentMethodData::CardRedirect(_) => "CardRedirect",
            PaymentMethodData::Wallet(_) => "Wallet",
            PaymentMethodData::PayLater(_) => "PayLater",
            PaymentMethodData::BankRedirect(_) => "BankRedirect",
            PaymentMethodData::BankDebit(_) => "BankDebit",
            PaymentMethodData::BankTransfer(_) => "BankTransfer",
            PaymentMethodData::Crypto => "Crypto",
            PaymentMethodData::MandatePayment => "MandatePayment",
            PaymentMethodData::Reward => "Reward",
            PaymentMethodData::RealTimePayment => "RealTimePayment",
            PaymentMethodData::Upi => "Upi",
            PaymentMethodData::Voucher(_) => "Voucher",
            PaymentMethodData::GiftCard(_) => "GiftCard",
            PaymentMethodData::CardToken => "CardToken",
            PaymentMethodData::OpenBanking => "OpenBanking",
            PaymentMethodData::NetworkToken(_) => "NetworkToken",
            PaymentMethodData::MobilePayment => "MobilePayment",
        }
    }
}

} // verus!
