//! The payment-method mapper for Adyen: how each case of the canonical
//! payment method data is put in the terms of Adyen.
//!
//! Every mapping matches on all cases of its input. A case that Adyen is
//! not handed is rejected with `NotImplemented` that names the case; a
//! field that Adyen insists on and that is absent is reported with
//! `MissingRequiredField` that names the field.

use vstd::prelude::*;
use crate::adyen::banks::{
    AdyenTestBankNames,
    OnlineBankingCzechRepublicBanks,
    OnlineBankingFpxIssuer,
    OnlineBankingPolandBanks,
    OnlineBankingSlovakiaBanks,
    OnlineBankingThailandIssuer,
    OpenBankingUKIssuer,
};
use crate::adyen::types::{
    AchDirectDebitData,
    AdyenApplePay,
    AdyenCard,
    AdyenGPay,
    AdyenGiftCardData,
    AdyenNetworkTokenData,
    AdyenPaymentMethod,
    AdyenPazeData,
    Address,
    BacsDirectDebitData,
    BankRedirectionWithIssuer,
    BlikRedirectionData,
    CardBrand,
    DokuBankData,
    GcashData,
    GiftCardBrand,
    GoPayData,
    JCSVoucherData,
    KakaoPayData,
    MbwayData,
    MomoData,
    OnlineBankingCzechRepublicData,
    OnlineBankingFpxData,
    OnlineBankingPolandData,
    OnlineBankingSlovakiaData,
    OnlineBankingThailandData,
    OpenBankingUKData,
    PaymentType,
    SamsungPayPmData,
    SepaDirectDebitData,
    ShopperName,
    TouchNGoData,
};
use crate::country::CountryAlpha2;
use crate::enums::{CardIssuer, CardNetwork, PaymentMethodType};
use crate::errors::ConnectorError;
use crate::payment_method_data::{
    spec_expiry_year_4_digit,
    BankDebitData,
    BankRedirectData,
    BankTransferData,
    Card,
    CardRedirectData,
    GiftCardData,
    NetworkTokenData,
    PayLaterData,
    VoucherData,
    WalletData,
};
use crate::router_data::{
    spec_email,
    spec_first_name,
    spec_last_name,
    spec_optional_full_name,
    spec_phone,
    PaymentMethodToken,
    PaymentsAuthorizeRouterData,
};
use crate::text::opt_str;

verus! {

/// The error for a case that Adyen is not handed.
pub open spec fn spec_not_implemented(feature: &'static str) -> ConnectorError {
    ConnectorError::NotImplemented { connector: "Adyen", feature }
}

/// The Adyen brand of a card network. Interac has none.
pub open spec fn spec_adyen_card_network(card_network: CardNetwork) -> Option<CardBrand> {
    match card_network {
        CardNetwork::Visa => Some(CardBrand::Visa),
        CardNetwork::Mastercard => Some(CardBrand::MC),
        CardNetwork::CartesBancaires => Some(CardBrand::Cartebancaire),
        CardNetwork::AmericanExpress => Some(CardBrand::Amex),
        CardNetwork::JCB => Some(CardBrand::Jcb),
        CardNetwork::DinersClub => Some(CardBrand::Diners),
        CardNetwork::Discover => Some(CardBrand::Discover),
        CardNetwork::UnionPay => Some(CardBrand::Cup),
        CardNetwork::RuPay => Some(CardBrand::Rupay),
        CardNetwork::Maestro => Some(CardBrand::Maestro),
        CardNetwork::Interac => None,
    }
}

/// Looks the Adyen brand of a card network up. A network without a brand
/// is told apart by `None`; its card is never given another brand.
pub fn get_adyen_card_network(card_network: CardNetwork) -> (res: Option<CardBrand>)
    ensures
        res == spec_adyen_card_network(card_network),
{
    match card_network {
        CardNetwork::Visa => Some(CardBrand::Visa),
        CardNetwork::Mastercard => Some(CardBrand::MC),
        CardNetwork::CartesBancaires => Some(CardBrand::Cartebancaire),
        CardNetwork::AmericanExpress => Some(CardBrand::Amex),
        CardNetwork::JCB => Some(CardBrand::Jcb),
        CardNetwork::DinersClub => Some(CardBrand::Diners),
        CardNetwork::Discover => Some(CardBrand::Discover),
        CardNetwork::UnionPay => Some(CardBrand::Cup),
        CardNetwork::RuPay => Some(CardBrand::Rupay),
        CardNetwork::Maestro => Some(CardBrand::Maestro),
        CardNetwork::Interac => None,
    }
}

/// The Adyen brand of an optional card network.
pub open spec fn spec_brand_of_network(card_network: Option<CardNetwork>) -> Option<CardBrand> {
    match card_network {
        Some(network) => spec_adyen_card_network(network),
        None => None,
    }
}

impl CardBrand {
    /// The Adyen brand of a card issuer.
    pub open spec fn spec_from_issuer(card_issuer: CardIssuer) -> CardBrand {
        match card_issuer {
            CardIssuer::AmericanExpress => CardBrand::Amex,
            CardIssuer::Master => CardBrand::MC,
            CardIssuer::Visa => CardBrand::Visa,
            CardIssuer::Maestro => CardBrand::Maestro,
            CardIssuer::Discover => CardBrand::Discover,
            CardIssuer::DinersClub => CardBrand::Diners,
            CardIssuer::JCB => CardBrand::Jcb,
            CardIssuer::CarteBlanche => CardBrand::Cartebancaire,
        }
    }

    /// Looks the Adyen brand of a card issuer up. Every issuer has one.
    pub fn try_from(card_issuer: &CardIssuer) -> (res: Result<Self, ConnectorError>)
        ensures
            res == Ok::<Self, ConnectorError>(Self::spec_from_issuer(*card_issuer)),
    {
        match card_issuer {
            CardIssuer::AmericanExpress => Ok(CardBrand::Amex),
            CardIssuer::Master => Ok(CardBrand::MC),
            CardIssuer::Visa => Ok(CardBrand::Visa),
            CardIssuer::Maestro => Ok(CardBrand::Maestro),
            CardIssuer::Discover => Ok(CardBrand::Discover),
            CardIssuer::DinersClub => Ok(CardBrand::Diners),
            CardIssuer::JCB => Ok(CardBrand::Jcb),
            CardIssuer::CarteBlanche => Ok(CardBrand::Cartebancaire),
        }
    }
}

impl PaymentType {
    /// The type under which Adyen stores a payment method of the given
    /// type for later payments on a mandate.
    pub open spec fn spec_try_from(item: PaymentMethodType) -> Result<Self, ConnectorError> {
        match item {
            PaymentMethodType::Credit
            | PaymentMethodType::Debit
            | PaymentMethodType::Klarna
            | PaymentMethodType::BancontactCard
            | PaymentMethodType::Blik
            | PaymentMethodType::Eps
            | PaymentMethodType::Ideal
            | PaymentMethodType::OnlineBankingCzechRepublic
            | PaymentMethodType::OnlineBankingFinland
            | PaymentMethodType::OnlineBankingPoland
            | PaymentMethodType::OnlineBankingSlovakia
            | PaymentMethodType::Trustly
            | PaymentMethodType::GooglePay
            | PaymentMethodType::AliPay
            | PaymentMethodType::ApplePay
            | PaymentMethodType::AliPayHk
            | PaymentMethodType::MbWay
            | PaymentMethodType::MobilePay
            | PaymentMethodType::WeChatPay
            | PaymentMethodType::SamsungPay
            | PaymentMethodType::Affirm
            | PaymentMethodType::AfterpayClearpay
            | PaymentMethodType::PayBright
            | PaymentMethodType::Walley => Ok(PaymentType::Scheme),
            PaymentMethodType::Sepa => Ok(PaymentType::SepaDirectDebit),
            PaymentMethodType::Bacs => Ok(PaymentType::BacsDirectDebit),
            PaymentMethodType::Ach => Ok(PaymentType::AchDirectDebit),
            PaymentMethodType::Paypal => Ok(PaymentType::Paypal),
            _ => Err(spec_not_implemented(item.spec_as_str())),
        }
    }

    /// Looks the type up under which Adyen stores a payment method.
    pub fn try_from(item: &PaymentMethodType) -> (res: Result<Self, ConnectorError>)
        ensures
            res == Self::spec_try_from(*item),
    {
        match item {
            PaymentMethodType::Credit
            | PaymentMethodType::Debit
            | PaymentMethodType::Klarna
            | PaymentMethodType::BancontactCard
            | PaymentMethodType::Blik
            | PaymentMethodType::Eps
            | PaymentMethodType::Ideal
            | PaymentMethodType::OnlineBankingCzechRepublic
            | PaymentMethodType::OnlineBankingFinland
            | PaymentMethodType::OnlineBankingPoland
            | PaymentMethodType::OnlineBankingSlovakia
            | PaymentMethodType::Trustly
            | PaymentMethodType::GooglePay
            | PaymentMethodType::AliPay
            | PaymentMethodType::ApplePay
            | PaymentMethodType::AliPayHk
            | PaymentMethodType::MbWay
            | PaymentMethodType::MobilePay
            | PaymentMethodType::WeChatPay
            | PaymentMethodType::SamsungPay
            | PaymentMethodType::Affirm
            | PaymentMethodType::AfterpayClearpay
            | PaymentMethodType::PayBright
            | PaymentMethodType::Walley => Ok(PaymentType::Scheme),
            PaymentMethodType::Sepa => Ok(PaymentType::SepaDirectDebit),
            PaymentMethodType::Bacs => Ok(PaymentType::BacsDirectDebit),
            PaymentMethodType::Ach => Ok(PaymentType::AchDirectDebit),
            PaymentMethodType::Paypal => Ok(PaymentType::Paypal),
            PaymentMethodType::Alfamart
            | PaymentMethodType::Alma
            | PaymentMethodType::AmazonPay
            | PaymentMethodType::Atome
            | PaymentMethodType::Becs
            | PaymentMethodType::Benefit
            | PaymentMethodType::Bizum
            | PaymentMethodType::Boleto
            | PaymentMethodType::BcaBankTransfer
            | PaymentMethodType::BniVa
            | PaymentMethodType::BriVa
            | PaymentMethodType::CardRedirect
            | PaymentMethodType::CimbVa
            | PaymentMethodType::Classic
            | PaymentMethodType::CryptoCurrency
            | PaymentMethodType::Cashapp
            | PaymentMethodType::Dana
            | PaymentMethodType::DanamonVa
            | PaymentMethodType::Efecty
            | PaymentMethodType::Eft
            | PaymentMethodType::Evoucher
            | PaymentMethodType::Giropay
            | PaymentMethodType::Givex
            | PaymentMethodType::GoPay
            | PaymentMethodType::Gcash
            | PaymentMethodType::Interac
            | PaymentMethodType::Indomaret
            | PaymentMethodType::KakaoPay
            | PaymentMethodType::LocalBankRedirect
            | PaymentMethodType::MandiriVa
            | PaymentMethodType::Knet
            | PaymentMethodType::Momo
            | PaymentMethodType::MomoAtm
            | PaymentMethodType::Multibanco
            | PaymentMethodType::OnlineBankingThailand
            | PaymentMethodType::OnlineBankingFpx
            | PaymentMethodType::Oxxo
            | PaymentMethodType::PagoEfectivo
            | PaymentMethodType::PermataBankTransfer
            | PaymentMethodType::OpenBankingUk
            | PaymentMethodType::Paze
            | PaymentMethodType::Pix
            | PaymentMethodType::PaySafeCard
            | PaymentMethodType::Przelewy24
            | PaymentMethodType::Pse
            | PaymentMethodType::RedCompra
            | PaymentMethodType::RedPagos
            | PaymentMethodType::Sofort
            | PaymentMethodType::Swish
            | PaymentMethodType::TouchNGo
            | PaymentMethodType::Twint
            | PaymentMethodType::UpiCollect
            | PaymentMethodType::UpiIntent
            | PaymentMethodType::Vipps
            | PaymentMethodType::Venmo
            | PaymentMethodType::SevenEleven
            | PaymentMethodType::Lawson
            | PaymentMethodType::MiniStop
            | PaymentMethodType::FamilyMart
            | PaymentMethodType::Seicomart
            | PaymentMethodType::PayEasy
            | PaymentMethodType::LocalBankTransfer
            | PaymentMethodType::Mifinity => Err(
                ConnectorError::NotImplemented { connector: "Adyen", feature: item.as_str() },
            ),
        }
    }
}

impl DokuBankData {
    /// Who pays, taken from the billing details: the first name and the
    /// e-mail address are required.
    pub open spec fn spec_try_from(item: PaymentsAuthorizeRouterData) -> Result<
        Self,
        ConnectorError,
    > {
        match spec_first_name(item.address.billing) {
            None => Err(
                ConnectorError::MissingRequiredField {
                    field_name: "payment_method_data.billing.address.first_name",
                },
            ),
            Some(first_name) => match spec_email(item.address.billing) {
                None => Err(
                    ConnectorError::MissingRequiredField {
                        field_name: "payment_method_data.billing.email",
                    },
                ),
                Some(shopper_email) => Ok(
                    DokuBankData {
                        first_name,
                        last_name: spec_last_name(item.address.billing),
                        shopper_email,
                    },
                ),
            },
        }
    }

    /// Takes from the billing details who pays.
    pub fn try_from(item: &PaymentsAuthorizeRouterData) -> (res: Result<Self, ConnectorError>)
        ensures
            res == Self::spec_try_from(*item),
    {
        let first_name = item.get_billing_first_name()?;
        let last_name = item.get_optional_billing_last_name();
        let shopper_email = item.get_billing_email()?;
        Ok(DokuBankData { first_name, last_name, shopper_email })
    }
}

impl JCSVoucherData {
    /// Who pays, taken from the billing details: the first name, the e-mail
    /// address and the phone number are required.
    pub open spec fn spec_try_from(item: PaymentsAuthorizeRouterData) -> Result<
        Self,
        ConnectorError,
    > {
        match spec_first_name(item.address.billing) {
            None => Err(
                ConnectorError::MissingRequiredField {
                    field_name: "payment_method_data.billing.address.first_name",
                },
            ),
            Some(first_name) => match spec_email(item.address.billing) {
                None => Err(
                    ConnectorError::MissingRequiredField {
                        field_name: "payment_method_data.billing.email",
                    },
                ),
                Some(shopper_email) => match item.spec_billing_phone_number() {
                    Err(e) => Err(e),
                    Ok(telephone_number) => Ok(
                        JCSVoucherData {
                            first_name,
                            last_name: spec_last_name(item.address.billing),
                            shopper_email,
                            telephone_number,
                        },
                    ),
                },
            },
        }
    }

    /// Takes from the billing details who pays.
    pub fn try_from(item: &PaymentsAuthorizeRouterData) -> (res: Result<Self, ConnectorError>)
        ensures
            res == Self::spec_try_from(*item),
    {
        let first_name = item.get_billing_first_name()?;
        let last_name = item.get_optional_billing_last_name();
        let shopper_email = item.get_billing_email()?;
        let telephone_number = item.get_billing_phone_number()?;
        Ok(JCSVoucherData { first_name, last_name, shopper_email, telephone_number })
    }
}

/// Wraps who pays a Doku payment into a payment method.
pub open spec fn spec_with_doku(
    item: PaymentsAuthorizeRouterData,
    wrap: spec_fn(DokuBankData) -> AdyenPaymentMethod,
) -> Result<AdyenPaymentMethod, ConnectorError> {
    match DokuBankData::spec_try_from(item) {
        Ok(data) => Ok(wrap(data)),
        Err(e) => Err(e),
    }
}

/// Wraps who pays a voucher at a convenience store into a payment method.
pub open spec fn spec_with_jcs(
    item: PaymentsAuthorizeRouterData,
    wrap: spec_fn(JCSVoucherData) -> AdyenPaymentMethod,
) -> Result<AdyenPaymentMethod, ConnectorError> {
    match JCSVoucherData::spec_try_from(item) {
        Ok(data) => Ok(wrap(data)),
        Err(e) => Err(e),
    }
}

/// The Adyen payment method of a voucher. Adyen takes Boleto, Oxxo, the
/// Doku vouchers and the vouchers of the Japanese convenience stores.
pub open spec fn spec_from_voucher(
    voucher_data: VoucherData,
    item: PaymentsAuthorizeRouterData,
) -> Result<AdyenPaymentMethod, ConnectorError> {
    match voucher_data {
        VoucherData::Boleto { .. } => Ok(AdyenPaymentMethod::BoletoBancario),
        VoucherData::Alfamart => spec_with_doku(
            item,
            |d: DokuBankData| AdyenPaymentMethod::Alfamart(d),
        ),
        VoucherData::Indomaret => spec_with_doku(
            item,
            |d: DokuBankData| AdyenPaymentMethod::Indomaret(d),
        ),
        VoucherData::Oxxo => Ok(AdyenPaymentMethod::Oxxo),
        VoucherData::SevenEleven => spec_with_jcs(
            item,
            |d: JCSVoucherData| AdyenPaymentMethod::SevenEleven(d),
        ),
        VoucherData::Lawson => spec_with_jcs(
            item,
            |d: JCSVoucherData| AdyenPaymentMethod::Lawson(d),
        ),
        VoucherData::MiniStop => spec_with_jcs(
            item,
            |d: JCSVoucherData| AdyenPaymentMethod::MiniStop(d),
        ),
        VoucherData::FamilyMart => spec_with_jcs(
            item,
            |d: JCSVoucherData| AdyenPaymentMethod::FamilyMart(d),
        ),
        VoucherData::Seicomart => spec_with_jcs(
            item,
            |d: JCSVoucherData| AdyenPaymentMethod::Seicomart(d),
        ),
        VoucherData::PayEasy => spec_with_jcs(
            item,
            |d: JCSVoucherData| AdyenPaymentMethod::PayEasy(d),
        ),
        VoucherData::Efecty
        | VoucherData::PagoEfectivo
        | VoucherData::RedCompra
        | VoucherData::RedPagos => Err(spec_not_implemented(voucher_data.spec_scheme_name())),
    }
}

/// The Adyen payment method of a gift card.
pub open spec fn spec_from_gift_card(gift_card_data: GiftCardData) -> AdyenPaymentMethod {
    match gift_card_data {
        GiftCardData::PaySafeCard => AdyenPaymentMethod::PaySafeCard,
        GiftCardData::Givex { number, cvc } => AdyenPaymentMethod::AdyenGiftCard(
            AdyenGiftCardData { brand: GiftCardBrand::Givex, number, cvc },
        ),
    }
}

/// The Adyen payment method of a card redirect.
pub open spec fn spec_from_card_redirect(card_redirect_data: CardRedirectData) -> Result<
    AdyenPaymentMethod,
    ConnectorError,
> {
    match card_redirect_data {
        CardRedirectData::Knet => Ok(AdyenPaymentMethod::Knet),
        CardRedirectData::Benefit => Ok(AdyenPaymentMethod::Benefit),
        CardRedirectData::MomoAtm => Ok(AdyenPaymentMethod::MomoAtm),
        CardRedirectData::CardRedirect => Err(
            spec_not_implemented(card_redirect_data.spec_scheme_name()),
        ),
    }
}

/// The Adyen payment method of a bank transfer. Adyen takes the Doku
/// transfers and Pix.
pub open spec fn spec_from_bank_transfer(
    bank_transfer_data: BankTransferData,
    item: PaymentsAuthorizeRouterData,
) -> Result<AdyenPaymentMethod, ConnectorError> {
    match bank_transfer_data {
        BankTransferData::PermataBankTransfer => spec_with_doku(
            item,
            |d: DokuBankData| AdyenPaymentMethod::PermataBankTransfer(d),
        ),
        BankTransferData::BcaBankTransfer => spec_with_doku(
            item,
            |d: DokuBankData| AdyenPaymentMethod::BcaBankTransfer(d),
        ),
        BankTransferData::BniVaBankTransfer => spec_with_doku(
            item,
            |d: DokuBankData| AdyenPaymentMethod::BniVa(d),
        ),
        BankTransferData::BriVaBankTransfer => spec_with_doku(
            item,
            |d: DokuBankData| AdyenPaymentMethod::BriVa(d),
        ),
        BankTransferData::CimbVaBankTransfer => spec_with_doku(
            item,
            |d: DokuBankData| AdyenPaymentMethod::CimbVa(d),
        ),
        BankTransferData::DanamonVaBankTransfer => spec_with_doku(
            item,
            |d: DokuBankData| AdyenPaymentMethod::DanamonVa(d),
        ),
        BankTransferData::MandiriVaBankTransfer => spec_with_doku(
            item,
            |d: DokuBankData| AdyenPaymentMethod::MandiriVa(d),
        ),
        BankTransferData::Pix => Ok(AdyenPaymentMethod::Pix),
        BankTransferData::AchBankTransfer
        | BankTransferData::SepaBankTransfer
        | BankTransferData::BacsBankTransfer
        | BankTransferData::MultibancoBankTransfer
        | BankTransferData::LocalBankTransfer
        | BankTransferData::Pse => Err(spec_not_implemented(bank_transfer_data.spec_scheme_name())),
    }
}

/// Whether `res` is what a bank debit comes to: the account as it is
/// given, in the name of the person who is billed. Adyen takes ACH, SEPA
/// and Bacs debits, and no Becs debit.
pub open spec fn spec_is_from_bank_debit(
    bank_debit_data: BankDebitData,
    item: PaymentsAuthorizeRouterData,
    res: Result<AdyenPaymentMethod, ConnectorError>,
) -> bool {
    let full_name = spec_optional_full_name(item.address.billing);
    let name_missing = Err::<AdyenPaymentMethod, ConnectorError>(
        ConnectorError::MissingRequiredField {
            field_name: "payment_method_data.billing.address.first_name",
        },
    );
    match bank_debit_data {
        BankDebitData::AchBankDebit { account_number, routing_number, .. } => match full_name {
            Some(name) => {
                &&& res matches Ok(AdyenPaymentMethod::AchDirectDebit(d))
                &&& d.bank_account_number == account_number
                &&& d.bank_location_id == routing_number
                &&& d.owner_name@ == name
            },
            None => res == name_missing,
        },
        BankDebitData::SepaBankDebit { iban, .. } => match full_name {
            Some(name) => {
                &&& res matches Ok(AdyenPaymentMethod::SepaDirectDebit(d))
                &&& d.iban_number == iban
                &&& d.owner_name@ == name
            },
            None => res == name_missing,
        },
        BankDebitData::BacsBankDebit { account_number, sort_code, .. } => match full_name {
            Some(name) => {
                &&& res matches Ok(AdyenPaymentMethod::BacsDirectDebit(d))
                &&& d.bank_account_number == account_number
                &&& d.bank_location_id == sort_code
                &&& d.holder_name@ == name
            },
            None => res == name_missing,
        },
        BankDebitData::BecsBankDebit { .. } => res == Err::<AdyenPaymentMethod, ConnectorError>(
            spec_not_implemented("Becs"),
        ),
    }
}

/// The error of a result, if it is one.
pub open spec fn spec_err<T>(r: Result<T, ConnectorError>) -> Option<ConnectorError> {
    match r {
        Ok(_) => None,
        Err(e) => Some(e),
    }
}

/// The error with which a bank debit is rejected, if it is.
pub open spec fn spec_bank_debit_error(
    bank_debit_data: BankDebitData,
    item: PaymentsAuthorizeRouterData,
) -> Option<ConnectorError> {
    match bank_debit_data {
        BankDebitData::BecsBankDebit { .. } => Some(spec_not_implemented("Becs")),
        _ => if spec_optional_full_name(item.address.billing) is None {
            Some(
                ConnectorError::MissingRequiredField {
                    field_name: "payment_method_data.billing.address.first_name",
                },
            )
        } else {
            None
        },
    }
}

impl AdyenPaymentMethod {
    /// Maps a bank debit.
    pub fn try_from_bank_debit(
        bank_debit_data: &BankDebitData,
        item: &PaymentsAuthorizeRouterData,
    ) -> (res: Result<Self, ConnectorError>)
        ensures
            spec_is_from_bank_debit(*bank_debit_data, *item, res),
            spec_err(res) == spec_bank_debit_error(*bank_debit_data, *item),
    {
        match bank_debit_data {
            BankDebitData::AchBankDebit { account_number, routing_number, .. } => Ok(
                AdyenPaymentMethod::AchDirectDebit(
                    AchDirectDebitData {
                        bank_account_number: account_number.clone(),
                        bank_location_id: routing_number.clone(),
                        owner_name: item.get_billing_full_name()?,
                    },
                ),
            ),
            BankDebitData::SepaBankDebit { iban, .. } => Ok(
                AdyenPaymentMethod::SepaDirectDebit(
                    SepaDirectDebitData {
                        owner_name: item.get_billing_full_name()?,
                        iban_number: iban.clone(),
                    },
                ),
            ),
            BankDebitData::BacsBankDebit { account_number, sort_code, .. } => Ok(
                AdyenPaymentMethod::BacsDirectDebit(
                    BacsDirectDebitData {
                        bank_account_number: account_number.clone(),
                        bank_location_id: sort_code.clone(),
                        holder_name: item.get_billing_full_name()?,
                    },
                ),
            ),
            BankDebitData::BecsBankDebit { .. } => Err(
                ConnectorError::NotImplemented {
                    connector: "Adyen",
                    feature: bank_debit_data.scheme_name(),
                },
            ),
        }
    }

    /// Maps a voucher.
    pub fn try_from_voucher(voucher_data: &VoucherData, item: &PaymentsAuthorizeRouterData) -> (res:
        Result<Self, ConnectorError>)
        ensures
            res == spec_from_voucher(*voucher_data, *item),
    {
        match voucher_data {
            VoucherData::Boleto { .. } => Ok(AdyenPaymentMethod::BoletoBancario),
            VoucherData::Alfamart => Ok(AdyenPaymentMethod::Alfamart(DokuBankData::try_from(item)?)),
            VoucherData::Indomaret => Ok(
                AdyenPaymentMethod::Indomaret(DokuBankData::try_from(item)?),
            ),
            VoucherData::Oxxo => Ok(AdyenPaymentMethod::Oxxo),
            VoucherData::SevenEleven => Ok(
                AdyenPaymentMethod::SevenEleven(JCSVoucherData::try_from(item)?),
            ),
            VoucherData::Lawson => Ok(AdyenPaymentMethod::Lawson(JCSVoucherData::try_from(item)?)),
            VoucherData::MiniStop => Ok(
                AdyenPaymentMethod::MiniStop(JCSVoucherData::try_from(item)?),
            ),
            VoucherData::FamilyMart => Ok(
                AdyenPaymentMethod::FamilyMart(JCSVoucherData::try_from(item)?),
            ),
            VoucherData::Seicomart => Ok(
                AdyenPaymentMethod::Seicomart(JCSVoucherData::try_from(item)?),
            ),
            VoucherData::PayEasy => Ok(AdyenPaymentMethod::PayEasy(JCSVoucherData::try_from(item)?)),
            VoucherData::Efecty
            | VoucherData::PagoEfectivo
            | VoucherData::RedCompra
            | VoucherData::RedPagos => Err(
                ConnectorError::NotImplemented {
                    connector: "Adyen",
                    feature: voucher_data.scheme_name(),
                },
            ),
        }
    }

    /// Maps a gift card.
    pub fn try_from_gift_card(gift_card_data: &GiftCardData) -> (res: Result<Self, ConnectorError>)
        ensures
            res == Ok::<Self, ConnectorError>(spec_from_gift_card(*gift_card_data)),
    {
        match gift_card_data {
            GiftCardData::PaySafeCard => Ok(AdyenPaymentMethod::PaySafeCard),
            GiftCardData::Givex { number, cvc } => Ok(
                AdyenPaymentMethod::AdyenGiftCard(
                    AdyenGiftCardData {
                        brand: GiftCardBrand::Givex,
                        number: number.clone(),
                        cvc: cvc.clone(),
                    },
                ),
            ),
        }
    }

    /// Maps a card redirect.
    pub fn try_from_card_redirect(card_redirect_data: &CardRedirectData) -> (res: Result<
        Self,
        ConnectorError,
    >)
        ensures
            res == spec_from_card_redirect(*card_redirect_data),
    {
        match card_redirect_data {
            CardRedirectData::Knet => Ok(AdyenPaymentMethod::Knet),
            CardRedirectData::Benefit => Ok(AdyenPaymentMethod::Benefit),
            CardRedirectData::MomoAtm => Ok(AdyenPaymentMethod::MomoAtm),
            CardRedirectData::CardRedirect => Err(
                ConnectorError::NotImplemented {
                    connector: "Adyen",
                    feature: card_redirect_data.scheme_name(),
                },
            ),
        }
    }

    /// Maps a bank transfer.
    pub fn try_from_bank_transfer(
        bank_transfer_data: &BankTransferData,
        item: &PaymentsAuthorizeRouterData,
    ) -> (res: Result<Self, ConnectorError>)
        ensures
            res == spec_from_bank_transfer(*bank_transfer_data, *item),
    {
        match bank_transfer_data {
            BankTransferData::PermataBankTransfer => Ok(
                AdyenPaymentMethod::PermataBankTransfer(DokuBankData::try_from(item)?),
            ),
            BankTransferData::BcaBankTransfer => Ok(
                AdyenPaymentMethod::BcaBankTransfer(DokuBankData::try_from(item)?),
            ),
            BankTransferData::BniVaBankTransfer => Ok(
                AdyenPaymentMethod::BniVa(DokuBankData::try_from(item)?),
            ),
            BankTransferData::BriVaBankTransfer => Ok(
                AdyenPaymentMethod::BriVa(DokuBankData::try_from(item)?),
            ),
            BankTransferData::CimbVaBankTransfer => Ok(
                AdyenPaymentMethod::CimbVa(DokuBankData::try_from(item)?),
            ),
            BankTransferData::DanamonVaBankTransfer => Ok(
                AdyenPaymentMethod::DanamonVa(DokuBankData::try_from(item)?),
            ),
            BankTransferData::MandiriVaBankTransfer => Ok(
                AdyenPaymentMethod::MandiriVa(DokuBankData::try_from(item)?),
            ),
            BankTransferData::Pix => Ok(AdyenPaymentMethod::Pix),
            BankTransferData::AchBankTransfer
            | BankTransferData::SepaBankTransfer
            | BankTransferData::BacsBankTransfer
            | BankTransferData::MultibancoBankTransfer
            | BankTransferData::LocalBankTransfer
            | BankTransferData::Pse => Err(
                ConnectorError::NotImplemented {
                    connector: "Adyen",
                    feature: bank_transfer_data.scheme_name(),
                },
            ),
        }
    }
}

/// Whether `method` is the Adyen card that stands for `card` in the name
/// of `card_holder_name`: the card as it is, with the expiry year in four
/// digits and the brand of its network.
pub open spec fn spec_is_from_card(
    card: Card,
    card_holder_name: Option<Seq<char>>,
    method: AdyenPaymentMethod,
) -> bool {
    &&& method matches AdyenPaymentMethod::AdyenCard(c)
    &&& c.number == card.card_number
    &&& c.expiry_month == card.card_exp_month
    &&& c.expiry_year@ == spec_expiry_year_4_digit(card.card_exp_year@)
    &&& c.cvc == Some(card.card_cvc)
    &&& opt_str(c.holder_name) == card_holder_name
    &&& c.brand == spec_brand_of_network(card.card_network)
    &&& c.network_payment_reference is None
}

/// Whether `method` is the Adyen network token that stands for
/// `token_data` in the name of `card_holder_name`.
pub open spec fn spec_is_from_network_token(
    token_data: NetworkTokenData,
    card_holder_name: Option<Seq<char>>,
    method: AdyenPaymentMethod,
) -> bool {
    &&& method matches AdyenPaymentMethod::NetworkToken(t)
    &&& t.number == token_data.token_number
    &&& t.expiry_month == token_data.token_exp_month
    &&& t.expiry_year@ == spec_expiry_year_4_digit(token_data.token_exp_year@)
    &&& opt_str(t.holder_name) == card_holder_name
    &&& t.brand is None
    &&& t.network_payment_reference is None
}

/// Which required field of a Bancontact payment is absent, if any.
pub open spec fn spec_bancontact_missing(
    card_number: Option<String>,
    card_exp_month: Option<String>,
    card_exp_year: Option<String>,
    item: PaymentsAuthorizeRouterData,
) -> Option<ConnectorError> {
    if card_number is None {
        Some(ConnectorError::MissingRequiredField { field_name: "bancontact_card.card_number" })
    } else if card_exp_month is None {
        Some(ConnectorError::MissingRequiredField { field_name: "bancontact_card.card_exp_month" })
    } else if card_exp_year is None {
        Some(ConnectorError::MissingRequiredField { field_name: "bancontact_card.card_exp_year" })
    } else if spec_optional_full_name(item.address.billing) is None {
        Some(
            ConnectorError::MissingRequiredField {
                field_name: "payment_method_data.billing.address.first_name",
            },
        )
    } else {
        None
    }
}

/// The issuer of a bank redirect, wrapped into a payment method.
pub open spec fn spec_with_issuer<Issuer>(
    issuer: Result<Issuer, ConnectorError>,
    wrap: spec_fn(Issuer) -> AdyenPaymentMethod,
) -> Result<AdyenPaymentMethod, ConnectorError> {
    match issuer {
        Ok(issuer) => Ok(wrap(issuer)),
        Err(e) => Err(e),
    }
}

/// The Adyen payment method of a bank redirect other than Bancontact.
///
/// Adyen takes Bizum, BLIK, EPS, iDEAL, Trustly, open banking in the UK and
/// online banking in the Czech Republic, Finland, Poland, Slovakia,
/// Malaysia and Thailand. Where the payment names a bank, the bank is
/// looked up in the table of the scheme.
pub open spec fn spec_from_bank_redirect(bank_redirect_data: BankRedirectData) -> Result<
    AdyenPaymentMethod,
    ConnectorError,
> {
    match bank_redirect_data {
        BankRedirectData::Bizum => Ok(AdyenPaymentMethod::Bizum),
        BankRedirectData::Blik { blik_code } => match blik_code {
            Some(blik_code) => Ok(AdyenPaymentMethod::Blik(BlikRedirectionData { blik_code })),
            None => Err(ConnectorError::MissingRequiredField { field_name: "blik_code" }),
        },
        BankRedirectData::Eps { bank_name, .. } => match bank_name {
            Some(bank_name) => spec_with_issuer(
                AdyenTestBankNames::spec_try_from(bank_name),
                |id: AdyenTestBankNames|
                    AdyenPaymentMethod::Eps(BankRedirectionWithIssuer { issuer: Some(id.0) }),
            ),
            None => Err(ConnectorError::MissingRequiredField { field_name: "eps.bank_name" }),
        },
        BankRedirectData::Ideal { .. } => Ok(AdyenPaymentMethod::Ideal),
        BankRedirectData::OnlineBankingCzechRepublic { issuer } => spec_with_issuer(
            OnlineBankingCzechRepublicBanks::spec_try_from(issuer),
            |issuer: OnlineBankingCzechRepublicBanks|
                AdyenPaymentMethod::OnlineBankingCzechRepublic(
                    OnlineBankingCzechRepublicData { issuer },
                ),
        ),
        BankRedirectData::OnlineBankingFinland => Ok(AdyenPaymentMethod::OnlineBankingFinland),
        BankRedirectData::OnlineBankingPoland { issuer } => spec_with_issuer(
            OnlineBankingPolandBanks::spec_try_from(issuer),
            |issuer: OnlineBankingPolandBanks|
                AdyenPaymentMethod::OnlineBankingPoland(OnlineBankingPolandData { issuer }),
        ),
        BankRedirectData::OnlineBankingSlovakia { issuer } => spec_with_issuer(
            OnlineBankingSlovakiaBanks::spec_try_from(issuer),
            |issuer: OnlineBankingSlovakiaBanks|
                AdyenPaymentMethod::OnlineBankingSlovakia(OnlineBankingSlovakiaData { issuer }),
        ),
        BankRedirectData::OnlineBankingFpx { issuer } => spec_with_issuer(
            OnlineBankingFpxIssuer::spec_try_from(issuer),
            |issuer: OnlineBankingFpxIssuer|
                AdyenPaymentMethod::OnlineBankingFpx(OnlineBankingFpxData { issuer }),
        ),
        BankRedirectData::OnlineBankingThailand { issuer } => spec_with_issuer(
            OnlineBankingThailandIssuer::spec_try_from(issuer),
            |issuer: OnlineBankingThailandIssuer|
                AdyenPaymentMethod::OnlineBankingThailand(OnlineBankingThailandData { issuer }),
        ),
        BankRedirectData::OpenBankingUk { issuer } => match issuer {
            Some(bank_name) => spec_with_issuer(
                OpenBankingUKIssuer::spec_try_from(bank_name),
                |issuer: OpenBankingUKIssuer|
                    AdyenPaymentMethod::OpenBankingUK(OpenBankingUKData { issuer: Some(issuer) }),
            ),
            None => Ok(AdyenPaymentMethod::OpenBankingUK(OpenBankingUKData { issuer: None })),
        },
        BankRedirectData::Trustly => Ok(AdyenPaymentMethod::Trustly),
        BankRedirectData::BancontactCard { .. }
        | BankRedirectData::Giropay { .. }
        | BankRedirectData::Eft
        | BankRedirectData::Interac
        | BankRedirectData::LocalBankRedirect
        | BankRedirectData::Przelewy24
        | BankRedirectData::Sofort { .. } => Err(
            spec_not_implemented(bank_redirect_data.spec_scheme_name()),
        ),
    }
}

/// Whether `res` is what a bank redirect comes to.
///
/// A Bancontact payment is a card of the brand `Bcmc` in the name of the
/// person who is billed; its number, its expiry date and that name are
/// required. Every other bank redirect is mapped by
/// `spec_from_bank_redirect`.
pub open spec fn spec_is_from_bank_redirect(
    bank_redirect_data: BankRedirectData,
    item: PaymentsAuthorizeRouterData,
    res: Result<AdyenPaymentMethod, ConnectorError>,
) -> bool {
    match bank_redirect_data {
        BankRedirectData::BancontactCard { card_number, card_exp_month, card_exp_year, .. } => {
            match spec_bancontact_missing(card_number, card_exp_month, card_exp_year, item) {
                Some(e) => res == Err::<AdyenPaymentMethod, ConnectorError>(e),
                None => {
                    &&& res matches Ok(AdyenPaymentMethod::BancontactCard(c))
                    &&& c.brand == Some(CardBrand::Bcmc)
                    &&& Some(c.number) == card_number
                    &&& Some(c.expiry_month) == card_exp_month
                    &&& Some(c.expiry_year) == card_exp_year
                    &&& opt_str(c.holder_name) == spec_optional_full_name(item.address.billing)
                    &&& c.cvc is None
                    &&& c.network_payment_reference is None
                },
            }
        },
        _ => res == spec_from_bank_redirect(bank_redirect_data),
    }
}

/// The error with which a bank redirect is rejected, if it is.
pub open spec fn spec_bank_redirect_error(
    bank_redirect_data: BankRedirectData,
    item: PaymentsAuthorizeRouterData,
) -> Option<ConnectorError> {
    match bank_redirect_data {
        BankRedirectData::BancontactCard {
            card_number,
            card_exp_month,
            card_exp_year,
            ..
        } => spec_bancontact_missing(card_number, card_exp_month, card_exp_year, item),
        _ => spec_err(spec_from_bank_redirect(bank_redirect_data)),
    }
}

/// Which of the fields that a pay-later scheme insists on is absent, if
/// any. The fields are looked at in a fixed order, and the first absent one
/// is reported.
pub open spec fn spec_pay_later_missing(
    pay_later_data: PayLaterData,
    has_country_code: bool,
    has_shopper_email: bool,
    has_shopper_reference: bool,
    has_shopper_name: bool,
    has_telephone_number: bool,
    has_billing_address: bool,
    has_delivery_address: bool,
) -> Option<&'static str> {
    let name = "billing.first_name, billing.last_name";
    match pay_later_data {
        PayLaterData::KlarnaRedirect { .. } => if !has_shopper_email {
            Some("email")
        } else if !has_shopper_reference {
            Some("customer_id")
        } else if !has_country_code {
            Some("billing.country")
        } else {
            None
        },
        PayLaterData::AffirmRedirect | PayLaterData::AtomeRedirect => if !has_shopper_email {
            Some("email")
        } else if !has_shopper_name {
            Some(name)
        } else if !has_telephone_number {
            Some("billing.phone")
        } else if !has_billing_address {
            Some("billing")
        } else {
            None
        },
        PayLaterData::AfterpayClearpayRedirect { .. } => if !has_shopper_email {
            Some("email")
        } else if !has_shopper_name {
            Some(name)
        } else if !has_delivery_address {
            Some("shipping")
        } else if !has_billing_address {
            Some("billing")
        } else if !has_country_code {
            Some("country")
        } else {
            None
        },
        PayLaterData::PayBrightRedirect => if !has_shopper_name {
            Some(name)
        } else if !has_telephone_number {
            Some("billing.phone")
        } else if !has_shopper_email {
            Some("email")
        } else if !has_billing_address {
            Some("billing")
        } else if !has_delivery_address {
            Some("shipping")
        } else if !has_country_code {
            Some("billing.country")
        } else {
            None
        },
        PayLaterData::WalleyRedirect => if !has_telephone_number {
            Some("billing.phone")
        } else if !has_shopper_email {
            Some("email")
        } else {
            None
        },
        PayLaterData::AlmaRedirect => if !has_telephone_number {
            Some("billing.phone")
        } else if !has_shopper_email {
            Some("email")
        } else if !has_billing_address {
            Some("billing")
        } else if !has_delivery_address {
            Some("shipping")
        } else {
            None
        },
        PayLaterData::KlarnaSdk { .. } => None,
    }
}

/// Whether Afterpay goes by the name of Clearpay in a country.
pub open spec fn spec_is_clearpay_country(country: CountryAlpha2) -> bool {
    country == CountryAlpha2::IT || country == CountryAlpha2::FR || country == CountryAlpha2::ES
        || country == CountryAlpha2::GB
}

/// The Adyen payment method of a pay-later scheme whose required fields
/// are all present.
pub open spec fn spec_pay_later_method(
    pay_later_data: PayLaterData,
    country_code: Option<CountryAlpha2>,
) -> Result<AdyenPaymentMethod, ConnectorError> {
    match pay_later_data {
        PayLaterData::KlarnaRedirect { .. } => Ok(AdyenPaymentMethod::AdyenKlarna),
        PayLaterData::AffirmRedirect => Ok(AdyenPaymentMethod::AdyenAffirm),
        PayLaterData::AfterpayClearpayRedirect { .. } => match country_code {
            Some(country) => if spec_is_clearpay_country(country) {
                Ok(AdyenPaymentMethod::ClearPay)
            } else {
                Ok(AdyenPaymentMethod::AfterPay)
            },
            None => Err(ConnectorError::MissingRequiredField { field_name: "country" }),
        },
        PayLaterData::PayBrightRedirect => Ok(AdyenPaymentMethod::PayBright),
        PayLaterData::WalleyRedirect => Ok(AdyenPaymentMethod::Walley),
        PayLaterData::AlmaRedirect => Ok(AdyenPaymentMethod::AlmaPayLater),
        PayLaterData::AtomeRedirect => Ok(AdyenPaymentMethod::Atome),
        PayLaterData::KlarnaSdk { .. } => Err(spec_not_implemented("KlarnaSdk")),
    }
}

/// The Adyen payment method of a pay-later scheme: the error for the first
/// required field that is absent, or else the method of the scheme.
pub open spec fn spec_from_pay_later(
    pay_later_data: PayLaterData,
    country_code: Option<CountryAlpha2>,
    has_shopper_email: bool,
    has_shopper_reference: bool,
    has_shopper_name: bool,
    has_telephone_number: bool,
    has_billing_address: bool,
    has_delivery_address: bool,
) -> Result<AdyenPaymentMethod, ConnectorError> {
    match spec_pay_later_missing(
        pay_later_data,
        country_code is Some,
        has_shopper_email,
        has_shopper_reference,
        has_shopper_name,
        has_telephone_number,
        has_billing_address,
        has_delivery_address,
    ) {
        Some(field_name) => Err(ConnectorError::MissingRequiredField { field_name }),
        None => spec_pay_later_method(pay_later_data, country_code),
    }
}

/// Reports a field that is absent.
fn require(present: bool, field_name: &'static str) -> (res: Result<(), ConnectorError>)
    ensures
        present ==> res is Ok,
        !present ==> res == Err::<(), ConnectorError>(
            ConnectorError::MissingRequiredField { field_name },
        ),
{
    if present {
        Ok(())
    } else {
        Err(ConnectorError::MissingRequiredField { field_name })
    }
}

impl AdyenPaymentMethod {
    /// Maps a card in the name of `card_holder_name`.
    pub fn try_from_card(card: &Card, card_holder_name: Option<String>) -> (res: Result<
        Self,
        ConnectorError,
    >)
        ensures
            res matches Ok(method) && spec_is_from_card(*card, opt_str(card_holder_name), method),
    {
        let adyen_card = AdyenCard {
            number: card.card_number.clone(),
            expiry_month: card.card_exp_month.clone(),
            expiry_year: card.get_expiry_year_4_digit(),
            cvc: Some(card.card_cvc.clone()),
            holder_name: card_holder_name,
            brand: match card.card_network {
                Some(network) => get_adyen_card_network(network),
                None => None,
            },
            network_payment_reference: None,
        };
        Ok(AdyenPaymentMethod::AdyenCard(adyen_card))
    }

    /// Maps a network token in the name of `card_holder_name`.
    pub fn try_from_network_token(
        token_data: &NetworkTokenData,
        card_holder_name: Option<String>,
    ) -> (res: Result<Self, ConnectorError>)
        ensures
            res matches Ok(method) && spec_is_from_network_token(
                *token_data,
                opt_str(card_holder_name),
                method,
            ),
    {
        let adyen_network_token = AdyenNetworkTokenData {
            number: token_data.token_number.clone(),
            expiry_month: token_data.token_exp_month.clone(),
            expiry_year: token_data.get_expiry_year_4_digit(),
            holder_name: card_holder_name,
            brand: None,
            network_payment_reference: None,
        };
        Ok(AdyenPaymentMethod::NetworkToken(adyen_network_token))
    }

    /// Maps a pay-later scheme. What the scheme insists on is checked
    /// against the parts of the request that were already put together.
    pub fn try_from_pay_later(
        pay_later_data: &PayLaterData,
        country_code: &Option<CountryAlpha2>,
        shopper_email: &Option<String>,
        shopper_reference: &Option<String>,
        shopper_name: &Option<ShopperName>,
        telephone_number: &Option<String>,
        billing_address: &Option<Address>,
        delivery_address: &Option<Address>,
    ) -> (res: Result<Self, ConnectorError>)
        ensures
            res == spec_from_pay_later(
                *pay_later_data,
                *country_code,
                shopper_email is Some,
                shopper_reference is Some,
                shopper_name is Some,
                telephone_number is Some,
                billing_address is Some,
                delivery_address is Some,
            ),
    {
        match pay_later_data {
            PayLaterData::KlarnaRedirect { .. } => {
                require(shopper_email.is_some(), "email")?;
                require(shopper_reference.is_some(), "customer_id")?;
                require(country_code.is_some(), "billing.country")?;
                Ok(AdyenPaymentMethod::AdyenKlarna)
            },
            PayLaterData::AffirmRedirect => {
                require(shopper_email.is_some(), "email")?;
                require(shopper_name.is_some(), "billing.first_name, billing.last_name")?;
                require(telephone_number.is_some(), "billing.phone")?;
                require(billing_address.is_some(), "billing")?;
                Ok(AdyenPaymentMethod::AdyenAffirm)
            },
            PayLaterData::AfterpayClearpayRedirect { .. } => {
                require(shopper_email.is_some(), "email")?;
                require(shopper_name.is_some(), "billing.first_name, billing.last_name")?;
                require(delivery_address.is_some(), "shipping")?;
                require(billing_address.is_some(), "billing")?;
                match country_code {
                    Some(country) => match country {
                        CountryAlpha2::IT
                        | CountryAlpha2::FR
                        | CountryAlpha2::ES
                        | CountryAlpha2::GB => Ok(AdyenPaymentMethod::ClearPay),
                        _ => Ok(AdyenPaymentMethod::AfterPay),
                    },
                    None => Err(ConnectorError::MissingRequiredField { field_name: "country" }),
                }
            },
            PayLaterData::PayBrightRedirect => {
                require(shopper_name.is_some(), "billing.first_name, billing.last_name")?;
                require(telephone_number.is_some(), "billing.phone")?;
                require(shopper_email.is_some(), "email")?;
                require(billing_address.is_some(), "billing")?;
                require(delivery_address.is_some(), "shipping")?;
                require(country_code.is_some(), "billing.country")?;
                Ok(AdyenPaymentMethod::PayBright)
            },
            PayLaterData::WalleyRedirect => {
                require(telephone_number.is_some(), "billing.phone")?;
                require(shopper_email.is_some(), "email")?;
                Ok(AdyenPaymentMethod::Walley)
            },
            PayLaterData::AlmaRedirect => {
                require(telephone_number.is_some(), "billing.phone")?;
                require(shopper_email.is_some(), "email")?;
                require(billing_address.is_some(), "billing")?;
                require(delivery_address.is_some(), "shipping")?;
                Ok(AdyenPaymentMethod::AlmaPayLater)
            },
            PayLaterData::AtomeRedirect => {
                require(shopper_email.is_some(), "email")?;
                require(shopper_name.is_some(), "billing.first_name, billing.last_name")?;
                require(telephone_number.is_some(), "billing.phone")?;
                require(billing_address.is_some(), "billing")?;
                Ok(AdyenPaymentMethod::Atome)
            },
            PayLaterData::KlarnaSdk { .. } => Err(
                ConnectorError::NotImplemented {
                    connector: "Adyen",
                    feature: pay_later_data.scheme_name(),
                },
            ),
        }
    }

    /// Maps a bank redirect.
    pub fn try_from_bank_redirect(
        bank_redirect_data: &BankRedirectData,
        item: &PaymentsAuthorizeRouterData,
    ) -> (res: Result<Self, ConnectorError>)
        ensures
            spec_is_from_bank_redirect(*bank_redirect_data, *item, res),
            spec_err(res) == spec_bank_redirect_error(*bank_redirect_data, *item),
    {
        match bank_redirect_data {
            BankRedirectData::BancontactCard { card_number, card_exp_month, card_exp_year, .. } => {
                let number = match card_number {
                    Some(number) => number.clone(),
                    None => {
                        return Err(
                            ConnectorError::MissingRequiredField {
                                field_name: "bancontact_card.card_number",
                            },
                        );
                    },
                };
                let expiry_month = match card_exp_month {
                    Some(month) => month.clone(),
                    None => {
                        return Err(
                            ConnectorError::MissingRequiredField {
                                field_name: "bancontact_card.card_exp_month",
                            },
                        );
                    },
                };
                let expiry_year = match card_exp_year {
                    Some(year) => year.clone(),
                    None => {
                        return Err(
                            ConnectorError::MissingRequiredField {
                                field_name: "bancontact_card.card_exp_year",
                            },
                        );
                    },
                };
                let holder_name = item.get_billing_full_name()?;
                Ok(
                    AdyenPaymentMethod::BancontactCard(
                        AdyenCard {
                            brand: Some(CardBrand::Bcmc),
                            number,
                            expiry_month,
                            expiry_year,
                            holder_name: Some(holder_name),
                            cvc: None,
                            network_payment_reference: None,
                        },
                    ),
                )
            },
            BankRedirectData::Bizum => Ok(AdyenPaymentMethod::Bizum),
            BankRedirectData::Blik { blik_code } => match blik_code {
                Some(blik_code) => Ok(
                    AdyenPaymentMethod::Blik(BlikRedirectionData { blik_code: blik_code.clone() }),
                ),
                None => Err(ConnectorError::MissingRequiredField { field_name: "blik_code" }),
            },
            BankRedirectData::Eps { bank_name, .. } => match bank_name {
                Some(bank_name) => {
                    let id = AdyenTestBankNames::try_from(bank_name)?;
                    Ok(AdyenPaymentMethod::Eps(BankRedirectionWithIssuer { issuer: Some(id.0) }))
                },
                None => Err(ConnectorError::MissingRequiredField { field_name: "eps.bank_name" }),
            },
            BankRedirectData::Ideal { .. } => Ok(AdyenPaymentMethod::Ideal),
            BankRedirectData::OnlineBankingCzechRepublic { issuer } => Ok(
                AdyenPaymentMethod::OnlineBankingCzechRepublic(
                    OnlineBankingCzechRepublicData {
                        issuer: OnlineBankingCzechRepublicBanks::try_from(issuer)?,
                    },
                ),
            ),
            BankRedirectData::OnlineBankingFinland => Ok(AdyenPaymentMethod::OnlineBankingFinland),
            BankRedirectData::OnlineBankingPoland { issuer } => Ok(
                AdyenPaymentMethod::OnlineBankingPoland(
                    OnlineBankingPolandData { issuer: OnlineBankingPolandBanks::try_from(issuer)? },
                ),
            ),
            BankRedirectData::OnlineBankingSlovakia { issuer } => Ok(
                AdyenPaymentMethod::OnlineBankingSlovakia(
                    OnlineBankingSlovakiaData {
                        issuer: OnlineBankingSlovakiaBanks::try_from(issuer)?,
                    },
                ),
            ),
            BankRedirectData::OnlineBankingFpx { issuer } => Ok(
                AdyenPaymentMethod::OnlineBankingFpx(
                    OnlineBankingFpxData { issuer: OnlineBankingFpxIssuer::try_from(issuer)? },
                ),
            ),
            BankRedirectData::OnlineBankingThailand { issuer } => Ok(
                AdyenPaymentMethod::OnlineBankingThailand(
                    OnlineBankingThailandData {
                        issuer: OnlineBankingThailandIssuer::try_from(issuer)?,
                    },
                ),
            ),
            BankRedirectData::OpenBankingUk { issuer } => Ok(
                AdyenPaymentMethod::OpenBankingUK(
                    OpenBankingUKData {
                        issuer: match issuer {
                            Some(bank_name) => Some(OpenBankingUKIssuer::try_from(bank_name)?),
                            None => None,
                        },
                    },
                ),
            ),
            BankRedirectData::Trustly => Ok(AdyenPaymentMethod::Trustly),
            BankRedirectData::Giropay { .. }
            | BankRedirectData::Eft
            | BankRedirectData::Interac
            | BankRedirectData::LocalBankRedirect
            | BankRedirectData::Przelewy24
            | BankRedirectData::Sofort { .. } => Err(
                ConnectorError::NotImplemented {
                    connector: "Adyen",
                    feature: bank_redirect_data.scheme_name(),
                },
            ),
        }
    }
}

/// The holder of a Paze token: the name that came with the token, or else
/// the name of the person who is billed.
pub open spec fn spec_paze_holder_name(
    billing_name: Option<String>,
    item: PaymentsAuthorizeRouterData,
) -> Option<Seq<char>> {
    match billing_name {
        Some(name) => Some(name@),
        None => spec_optional_full_name(item.address.billing),
    }
}

/// The Adyen payment method of a wallet that needs nothing but its name,
/// or the error for a wallet that Adyen is not handed.
pub open spec fn spec_from_plain_wallet(wallet_data: WalletData) -> Result<
    AdyenPaymentMethod,
    ConnectorError,
> {
    match wallet_data {
        WalletData::GooglePay(data) => Ok(
            AdyenPaymentMethod::Gpay(AdyenGPay { google_pay_token: data.token }),
        ),
        WalletData::ApplePay(data) => Ok(
            AdyenPaymentMethod::ApplePay(AdyenApplePay { apple_pay_token: data.payment_data }),
        ),
        WalletData::PaypalRedirect => Ok(AdyenPaymentMethod::AdyenPaypal),
        WalletData::AliPayRedirect => Ok(AdyenPaymentMethod::AliPay),
        WalletData::AliPayHkRedirect => Ok(AdyenPaymentMethod::AliPayHk),
        WalletData::GoPayRedirect => Ok(AdyenPaymentMethod::GoPay(GoPayData {  })),
        WalletData::KakaoPayRedirect => Ok(AdyenPaymentMethod::Kakaopay(KakaoPayData {  })),
        WalletData::GcashRedirect => Ok(AdyenPaymentMethod::Gcash(GcashData {  })),
        WalletData::MomoRedirect => Ok(AdyenPaymentMethod::Momo(MomoData {  })),
        WalletData::TouchNGoRedirect => Ok(AdyenPaymentMethod::TouchNGo(TouchNGoData {  })),
        WalletData::MobilePayRedirect => Ok(AdyenPaymentMethod::MobilePay),
        WalletData::WeChatPayRedirect => Ok(AdyenPaymentMethod::WeChatPayWeb),
        WalletData::SamsungPay(data) => Ok(
            AdyenPaymentMethod::SamsungPay(SamsungPayPmData { samsung_pay_token: data.token }),
        ),
        WalletData::TwintRedirect => Ok(AdyenPaymentMethod::Twint),
        WalletData::VippsRedirect => Ok(AdyenPaymentMethod::Vipps),
        WalletData::DanaRedirect => Ok(AdyenPaymentMethod::Dana),
        WalletData::SwishQr => Ok(AdyenPaymentMethod::Swish),
        _ => Err(spec_not_implemented(wallet_data.spec_scheme_name())),
    }
}

/// Whether `res` is what a wallet comes to.
///
/// MB WAY is handed the phone number of the person who is billed, with
/// the calling code in front. Paze is handed the token that was decrypted
/// before; without such a token it is not implemented. Every other wallet
/// is mapped by `spec_from_plain_wallet`.
pub open spec fn spec_is_from_wallet(
    wallet_data: WalletData,
    item: PaymentsAuthorizeRouterData,
    res: Result<AdyenPaymentMethod, ConnectorError>,
) -> bool {
    match wallet_data {
        WalletData::MbWayRedirect => match spec_phone(item.address.billing) {
            None => res == Err::<AdyenPaymentMethod, ConnectorError>(
                ConnectorError::MissingRequiredField { field_name: "billing.phone" },
            ),
            Some(phone) => match crate::address::spec_number_with_country_code(phone) {
                Err(e) => res == Err::<AdyenPaymentMethod, ConnectorError>(e),
                Ok(number) => {
                    &&& res matches Ok(AdyenPaymentMethod::Mbway(d))
                    &&& d.telephone_number@ == number
                },
            },
        },
        WalletData::Paze => match item.payment_method_token {
            Some(PaymentMethodToken::PazeDecrypt(paze)) => {
                &&& res matches Ok(AdyenPaymentMethod::AdyenPaze(d))
                &&& d.number == paze.payment_token
                &&& d.expiry_month == paze.token_expiration_month
                &&& d.expiry_year == paze.token_expiration_year
                &&& d.cvc is None
                &&& opt_str(d.holder_name) == spec_paze_holder_name(paze.billing_name, item)
                &&& d.brand == spec_adyen_card_network(paze.payment_card_network)
                &&& d.network_payment_reference is None
            },
            _ => res == Err::<AdyenPaymentMethod, ConnectorError>(spec_not_implemented("Paze")),
        },
        _ => res == spec_from_plain_wallet(wallet_data),
    }
}

/// The error with which a wallet is rejected, if it is.
pub open spec fn spec_wallet_error(
    wallet_data: WalletData,
    item: PaymentsAuthorizeRouterData,
) -> Option<ConnectorError> {
    match wallet_data {
        WalletData::MbWayRedirect => match spec_phone(item.address.billing) {
            None => Some(ConnectorError::MissingRequiredField { field_name: "billing.phone" }),
            Some(phone) => spec_err(crate::address::spec_number_with_country_code(phone)),
        },
        WalletData::Paze => match item.payment_method_token {
            Some(PaymentMethodToken::PazeDecrypt(_)) => None,
            _ => Some(spec_not_implemented("Paze")),
        },
        _ => spec_err(spec_from_plain_wallet(wallet_data)),
    }
}

impl AdyenPaymentMethod {
    /// Maps a wallet.
    pub fn try_from_wallet(wallet_data: &WalletData, item: &PaymentsAuthorizeRouterData) -> (res:
        Result<Self, ConnectorError>)
        ensures
            spec_is_from_wallet(*wallet_data, *item, res),
            spec_err(res) == spec_wallet_error(*wallet_data, *item),
    {
        match wallet_data {
            WalletData::GooglePay(data) => Ok(
                AdyenPaymentMethod::Gpay(AdyenGPay { google_pay_token: data.token.clone() }),
            ),
            WalletData::ApplePay(data) => Ok(
                AdyenPaymentMethod::ApplePay(
                    AdyenApplePay { apple_pay_token: data.payment_data.clone() },
                ),
            ),
            WalletData::PaypalRedirect => Ok(AdyenPaymentMethod::AdyenPaypal),
            WalletData::AliPayRedirect => Ok(AdyenPaymentMethod::AliPay),
            WalletData::AliPayHkRedirect => Ok(AdyenPaymentMethod::AliPayHk),
            WalletData::GoPayRedirect => Ok(AdyenPaymentMethod::GoPay(GoPayData {  })),
            WalletData::KakaoPayRedirect => Ok(AdyenPaymentMethod::Kakaopay(KakaoPayData {  })),
            WalletData::GcashRedirect => Ok(AdyenPaymentMethod::Gcash(GcashData {  })),
            WalletData::MomoRedirect => Ok(AdyenPaymentMethod::Momo(MomoData {  })),
            WalletData::TouchNGoRedirect => Ok(AdyenPaymentMethod::TouchNGo(TouchNGoData {  })),
            WalletData::MbWayRedirect => {
                let phone_details = item.get_billing_phone()?;
                let telephone_number = phone_details.get_number_with_country_code()?;
                Ok(AdyenPaymentMethod::Mbway(MbwayData { telephone_number }))
            },
            WalletData::MobilePayRedirect => Ok(AdyenPaymentMethod::MobilePay),
            WalletData::WeChatPayRedirect => Ok(AdyenPaymentMethod::WeChatPayWeb),
            WalletData::SamsungPay(samsung_data) => Ok(
                AdyenPaymentMethod::SamsungPay(
                    SamsungPayPmData { samsung_pay_token: samsung_data.token.clone() },
                ),
            ),
            WalletData::Paze => match &item.payment_method_token {
                Some(PaymentMethodToken::PazeDecrypt(paze)) => {
                    let holder_name = match &paze.billing_name {
                        Some(name) => Some(name.clone()),
                        None => item.get_optional_billing_full_name(),
                    };
                    Ok(
                        AdyenPaymentMethod::AdyenPaze(
                            AdyenPazeData {
                                number: paze.payment_token.clone(),
                                expiry_month: paze.token_expiration_month.clone(),
                                expiry_year: paze.token_expiration_year.clone(),
                                cvc: None,
                                holder_name,
                                brand: get_adyen_card_network(paze.payment_card_network),
                                network_payment_reference: None,
                            },
                        ),
                    )
                },
                _ => Err(
                    ConnectorError::NotImplemented {
                        connector: "Adyen",
                        feature: wallet_data.scheme_name(),
                    },
                ),
            },
            WalletData::TwintRedirect => Ok(AdyenPaymentMethod::Twint),
            WalletData::VippsRedirect => Ok(AdyenPaymentMethod::Vipps),
            WalletData::DanaRedirect => Ok(AdyenPaymentMethod::Dana),
            WalletData::SwishQr => Ok(AdyenPaymentMethod::Swish),
            WalletData::AliPayQr
            | WalletData::AmazonPayRedirect
            | WalletData::ApplePayRedirect
            | WalletData::ApplePayThirdPartySdk
            | WalletData::GooglePayRedirect
            | WalletData::GooglePayThirdPartySdk
            | WalletData::PaypalSdk
            | WalletData::WeChatPayQr
            | WalletData::CashappQr
            | WalletData::Mifinity => Err(
                ConnectorError::NotImplemented {
                    connector: "Adyen",
                    feature: wallet_data.scheme_name(),
                },
            ),
        }
    }
}

} // verus!
