//! The payment-method mapper for Stripe: how the canonical payment method
//! data is put in the terms of Stripe.
//!
//! Stripe is handed cards, Klarna, Affirm and Afterpay, the bank redirects
//! EPS, giropay, iDEAL and Sofort, Apple Pay, and bank debits. Every other
//! payment method is rejected with `NotImplemented` that names it.

use vstd::prelude::*;
use vstd::utf8::{decode_utf8, valid_utf8};
use crate::bank_names::BankNames;
use crate::encoding::{base64_decode, base64_decoded, string_from_utf8};
use crate::enums::{AuthenticationType, PaymentExperience, PaymentMethodType};
use crate::errors::ConnectorError;
use crate::payment_method_data::{
    ApplePayWalletData,
    BankDebitBilling,
    BankDebitData as CanonicalBankDebitData,
    BankRedirectData,
    Card,
    PayLaterData,
};
use crate::stripe::types::{
    Auth3ds,
    BankDebitData,
    BankSpecificData,
    StripeApplePay,
    StripeBankName,
    StripeBankNames,
    StripeBillingAddress,
    StripeCardData,
    StripePaymentMethodType,
    StripeShippingAddress,
};
use crate::text::owned;

verus! {

/// The error for a payment method that Stripe is not handed.
pub open spec fn spec_not_implemented(feature: &'static str) -> ConnectorError {
    ConnectorError::NotImplemented { connector: "Stripe", feature }
}

/// The error for a bank that Stripe takes no bank redirect to.
pub open spec fn spec_bank_not_supported() -> ConnectorError {
    ConnectorError::NotSupported { feature: "bank_redirect", context: "redirect_to_url" }
}

impl StripeBankNames {
    /// The Stripe bank that stands for a bank of the canonical model.
    pub open spec fn spec_try_from(bank: BankNames) -> Result<Self, ConnectorError> {
        match bank {
            BankNames::AbnAmro => Ok(StripeBankNames::AbnAmro),
            BankNames::ArzteUndApothekerBank => Ok(StripeBankNames::ArzteUndApothekerBank),
            BankNames::AsnBank => Ok(StripeBankNames::AsnBank),
            BankNames::AustrianAnadiBankAg => Ok(StripeBankNames::AustrianAnadiBankAg),
            BankNames::BankAustria => Ok(StripeBankNames::BankAustria),
            BankNames::BankhausCarlSpangler => Ok(StripeBankNames::BankhausCarlSpangler),
            BankNames::BankhausSchelhammerUndSchatteraAg => Ok(StripeBankNames::BankhausSchelhammerUndSchatteraAg),
            BankNames::BawagPskAg => Ok(StripeBankNames::BawagPskAg),
            BankNames::BksBankAg => Ok(StripeBankNames::BksBankAg),
            BankNames::BrullKallmusBankAg => Ok(StripeBankNames::BrullKallmusBankAg),
            BankNames::BtvVierLanderBank => Ok(StripeBankNames::BtvVierLanderBank),
            BankNames::Bunq => Ok(StripeBankNames::Bunq),
            BankNames::CapitalBankGraweGruppeAg => Ok(StripeBankNames::CapitalBankGraweGruppeAg),
            BankNames::Dolomitenbank => Ok(StripeBankNames::Dolomitenbank),
            BankNames::EasybankAg => Ok(StripeBankNames::EasybankAg),
            BankNames::ErsteBankUndSparkassen => Ok(StripeBankNames::ErsteBankUndSparkassen),
            BankNames::Handelsbanken => Ok(StripeBankNames::Handelsbanken),
            BankNames::HypoAlpeadriabankInternationalAg => Ok(StripeBankNames::HypoAlpeadriabankInternationalAg),
            BankNames::HypoNoeLbFurNiederosterreichUWien => Ok(StripeBankNames::HypoNoeLbFurNiederosterreichUWien),
            BankNames::HypoOberosterreichSalzburgSteiermark => Ok(StripeBankNames::HypoOberosterreichSalzburgSteiermark),
            BankNames::HypoTirolBankAg => Ok(StripeBankNames::HypoTirolBankAg),
            BankNames::HypoVorarlbergBankAg => Ok(StripeBankNames::HypoVorarlbergBankAg),
            BankNames::HypoBankBurgenlandAktiengesellschaft => Ok(StripeBankNames::HypoBankBurgenlandAktiengesellschaft),
            BankNames::Ing => Ok(StripeBankNames::Ing),
            BankNames::Knab => Ok(StripeBankNames::Knab),
            BankNames::MarchfelderBank => Ok(StripeBankNames::MarchfelderBank),
            BankNames::OberbankAg => Ok(StripeBankNames::OberbankAg),
            BankNames::RaiffeisenBankengruppeOsterreich => Ok(StripeBankNames::RaiffeisenBankengruppeOsterreich),
            BankNames::Rabobank => Ok(StripeBankNames::Rabobank),
            BankNames::Regiobank => Ok(StripeBankNames::Regiobank),
            BankNames::Revolut => Ok(StripeBankNames::Revolut),
            BankNames::SnsBank => Ok(StripeBankNames::SnsBank),
            BankNames::TriodosBank => Ok(StripeBankNames::TriodosBank),
            BankNames::VanLanschot => Ok(StripeBankNames::VanLanschot),
            BankNames::Moneyou => Ok(StripeBankNames::Moneyou),
            BankNames::SchoellerbankAg => Ok(StripeBankNames::SchoellerbankAg),
            BankNames::SpardaBankWien => Ok(StripeBankNames::SpardaBankWien),
            BankNames::VolksbankGruppe => Ok(StripeBankNames::VolksbankGruppe),
            BankNames::VolkskreditbankAg => Ok(StripeBankNames::VolkskreditbankAg),
            BankNames::VrBankBraunau => Ok(StripeBankNames::VrBankBraunau),
            _ => Err(spec_bank_not_supported()),
        }
    }

    /// Looks the Stripe bank up that stands for a bank of the canonical
    /// model. A bank that the table does not hold is rejected; it is never
    /// mapped to a default.
    pub fn try_from(bank: &BankNames) -> (res: Result<Self, ConnectorError>)
        ensures
            res == Self::spec_try_from(*bank),
    {
        match bank {
            BankNames::AbnAmro => Ok(StripeBankNames::AbnAmro),
            BankNames::ArzteUndApothekerBank => Ok(StripeBankNames::ArzteUndApothekerBank),
            BankNames::AsnBank => Ok(StripeBankNames::AsnBank),
            BankNames::AustrianAnadiBankAg => Ok(StripeBankNames::AustrianAnadiBankAg),
            BankNames::BankAustria => Ok(StripeBankNames::BankAustria),
            BankNames::BankhausCarlSpangler => Ok(StripeBankNames::BankhausCarlSpangler),
            BankNames::BankhausSchelhammerUndSchatteraAg => Ok(StripeBankNames::BankhausSchelhammerUndSchatteraAg),
            BankNames::BawagPskAg => Ok(StripeBankNames::BawagPskAg),
            BankNames::BksBankAg => Ok(StripeBankNames::BksBankAg),
            BankNames::BrullKallmusBankAg => Ok(StripeBankNames::BrullKallmusBankAg),
            BankNames::BtvVierLanderBank => Ok(StripeBankNames::BtvVierLanderBank),
            BankNames::Bunq => Ok(StripeBankNames::Bunq),
            BankNames::CapitalBankGraweGruppeAg => Ok(StripeBankNames::CapitalBankGraweGruppeAg),
            BankNames::Dolomitenbank => Ok(StripeBankNames::Dolomitenbank),
            BankNames::EasybankAg => Ok(StripeBankNames::EasybankAg),
            BankNames::ErsteBankUndSparkassen => Ok(StripeBankNames::ErsteBankUndSparkassen),
            BankNames::Handelsbanken => Ok(StripeBankNames::Handelsbanken),
            BankNames::HypoAlpeadriabankInternationalAg => Ok(StripeBankNames::HypoAlpeadriabankInternationalAg),
            BankNames::HypoNoeLbFurNiederosterreichUWien => Ok(StripeBankNames::HypoNoeLbFurNiederosterreichUWien),
            BankNames::HypoOberosterreichSalzburgSteiermark => Ok(StripeBankNames::HypoOberosterreichSalzburgSteiermark),
            BankNames::HypoTirolBankAg => Ok(StripeBankNames::HypoTirolBankAg),
            BankNames::HypoVorarlbergBankAg => Ok(StripeBankNames::HypoVorarlbergBankAg),
            BankNames::HypoBankBurgenlandAktiengesellschaft => Ok(StripeBankNames::HypoBankBurgenlandAktiengesellschaft),
            BankNames::Ing => Ok(StripeBankNames::Ing),
            BankNames::Knab => Ok(StripeBankNames::Knab),
            BankNames::MarchfelderBank => Ok(StripeBankNames::MarchfelderBank),
            BankNames::OberbankAg => Ok(StripeBankNames::OberbankAg),
            BankNames::RaiffeisenBankengruppeOsterreich => Ok(StripeBankNames::RaiffeisenBankengruppeOsterreich),
            BankNames::Rabobank => Ok(StripeBankNames::Rabobank),
            BankNames::Regiobank => Ok(StripeBankNames::Regiobank),
            BankNames::Revolut => Ok(StripeBankNames::Revolut),
            BankNames::SnsBank => Ok(StripeBankNames::SnsBank),
            BankNames::TriodosBank => Ok(StripeBankNames::TriodosBank),
            BankNames::VanLanschot => Ok(StripeBankNames::VanLanschot),
            BankNames::Moneyou => Ok(StripeBankNames::Moneyou),
            BankNames::SchoellerbankAg => Ok(StripeBankNames::SchoellerbankAg),
            BankNames::SpardaBankWien => Ok(StripeBankNames::SpardaBankWien),
            BankNames::VolksbankGruppe => Ok(StripeBankNames::VolksbankGruppe),
            BankNames::VolkskreditbankAg => Ok(StripeBankNames::VolkskreditbankAg),
            BankNames::VrBankBraunau => Ok(StripeBankNames::VrBankBraunau),
            BankNames::AffinBank
            | BankNames::AgroBank
            | BankNames::Aib
            | BankNames::AliorBank
            | BankNames::AllianceBank
            | BankNames::AmBank
            | BankNames::AmericanExpress
            | BankNames::BangkokBank
            | BankNames::Bank99Ag
            | BankNames::BankIslam
            | BankNames::BankiSpbdzielcze
            | BankNames::BankiSpoldzielcze
            | BankNames::BankMillennium
            | BankNames::BankMuamalat
            | BankNames::BankNowyBfgSa
            | BankNames::BankNowySA
            | BankNames::BankOfAmerica
            | BankNames::BankOfChina
            | BankNames::BankOfScotland
            | BankNames::BankPEKAOSA
            | BankNames::BankPekaoSa
            | BankNames::BankRakyat
            | BankNames::BankSimpananNasional
            | BankNames::Barclays
            | BankNames::Blik
            | BankNames::BlikPSP
            | BankNames::BnpParibas
            | BankNames::BNPParibasPoland
            | BankNames::Boz
            | BankNames::CapitalOne
            | BankNames::CeskaSporitelna
            | BankNames::Chase
            | BankNames::CimbBank
            | BankNames::Citi
            | BankNames::CreditAgricole
            | BankNames::DanskeBank
            | BankNames::Discover
            | BankNames::EnveloBank
            | BankNames::EPlatbyVUB
            | BankNames::ETransferPocztowy24
            | BankNames::EtransferPocztowy24
            | BankNames::FirstDirect
            | BankNames::FirstTrust
            | BankNames::FrieslandBank
            | BankNames::GetinBank
            | BankNames::Halifax
            | BankNames::HongLeongBank
            | BankNames::HsbcBank
            | BankNames::IdeaBank
            | BankNames::Inteligo
            | BankNames::KasikornBank
            | BankNames::KomercniBanka
            | BankNames::KrungsriBank
            | BankNames::KrungThaiBank
            | BankNames::KuwaitFinanceHouse
            | BankNames::Lloyds
            | BankNames::Maybank
            | BankNames::MBank
            | BankNames::MbankMtransfer
            | BankNames::Monzo
            | BankNames::N26
            | BankNames::NationaleNederlanden
            | BankNames::NationwideBank
            | BankNames::NatWest
            | BankNames::NavyFederalCreditUnion
            | BankNames::NestPrzelew
            | BankNames::NoblePay
            | BankNames::OcbcBank
            | BankNames::OpenBankCancelled
            | BankNames::OpenBankFailure
            | BankNames::OpenBankSuccess
            | BankNames::OsterreichischeArzteUndApothekerbank
            | BankNames::PayWithAliorBank
            | BankNames::PayWithBOS
            | BankNames::PayWithCitiHandlowy
            | BankNames::PayWithING
            | BankNames::PayWithInteligo
            | BankNames::PayWithPlusBank
            | BankNames::PbacZIpko
            | BankNames::PentagonFederalCreditUnion
            | BankNames::PlaceZIPKO
            | BankNames::PlatnoscOnlineKartaPlatnicza
            | BankNames::PlusBank
            | BankNames::PosojilnicaBankEGen
            | BankNames::PostovaBanka
            | BankNames::PublicBank
            | BankNames::RhbBank
            | BankNames::RoyalBankOfScotland
            | BankNames::SantanderPrzelew24
            | BankNames::SchelhammerCapitalBankAg
            | BankNames::SporoPay
            | BankNames::StandardCharteredBank
            | BankNames::Starling
            | BankNames::SynchronyBank
            | BankNames::TatraPay
            | BankNames::TescoBank
            | BankNames::TheSiamCommercialBank
            | BankNames::ToyotaBank
            | BankNames::TsbBank
            | BankNames::UlsterBank
            | BankNames::UobBank
            | BankNames::VeloBank
            | BankNames::Viamo
            | BankNames::VolkswagenBank
            | BankNames::WellsFargo
            | BankNames::Yoursafe => Err(
                ConnectorError::NotSupported { feature: "bank_redirect", context: "redirect_to_url" },
            ),
        }
    }
}

/// The bank of a bank redirect, as far as Stripe asks for it: EPS and
/// iDEAL name their bank, Sofort and giropay name none, and any other
/// pairing of type and data does not fit together.
pub open spec fn spec_bank_name(
    stripe_pm_type: StripePaymentMethodType,
    bank_redirect_data: BankRedirectData,
) -> Result<Option<StripeBankName>, ConnectorError> {
    match (stripe_pm_type, bank_redirect_data) {
        (StripePaymentMethodType::Eps, BankRedirectData::Eps { bank_name, .. }) => match bank_name {
            None => Err(ConnectorError::MissingRequiredField { field_name: "eps.bank_name" }),
            Some(bank) => match StripeBankNames::spec_try_from(bank) {
                Ok(bank_name) => Ok(Some(StripeBankName::Eps { bank_name })),
                Err(e) => Err(e),
            },
        },
        (StripePaymentMethodType::Ideal, BankRedirectData::Ideal { bank_name, .. }) => {
            match bank_name {
                None => Err(ConnectorError::MissingRequiredField { field_name: "ideal.bank_name" }),
                Some(bank) => match StripeBankNames::spec_try_from(bank) {
                    Ok(ideal_bank_name) => Ok(Some(StripeBankName::Ideal { ideal_bank_name })),
                    Err(e) => Err(e),
                },
            }
        },
        (StripePaymentMethodType::Sofort, _) | (StripePaymentMethodType::Giropay, _) => Ok(None),
        _ => Err(ConnectorError::MismatchedPaymentData),
    }
}

/// Takes the bank of a bank redirect.
pub fn get_bank_name(
    stripe_pm_type: &StripePaymentMethodType,
    bank_redirect_data: &BankRedirectData,
) -> (res: Result<Option<StripeBankName>, ConnectorError>)
    ensures
        res == spec_bank_name(*stripe_pm_type, *bank_redirect_data),
{
    match (stripe_pm_type, bank_redirect_data) {
        (StripePaymentMethodType::Eps, BankRedirectData::Eps { bank_name, .. }) => match bank_name {
            None => Err(ConnectorError::MissingRequiredField { field_name: "eps.bank_name" }),
            Some(bank) => Ok(Some(StripeBankName::Eps { bank_name: StripeBankNames::try_from(bank)? })),
        },
        (StripePaymentMethodType::Ideal, BankRedirectData::Ideal { bank_name, .. }) => {
            match bank_name {
                None => Err(ConnectorError::MissingRequiredField { field_name: "ideal.bank_name" }),
                Some(bank) => Ok(
                    Some(StripeBankName::Ideal { ideal_bank_name: StripeBankNames::try_from(bank)? }),
                ),
            }
        },
        (StripePaymentMethodType::Sofort, _) | (StripePaymentMethodType::Giropay, _) => Ok(None),
        _ => Err(ConnectorError::MismatchedPaymentData),
    }
}

/// The error for a shipping address that its payment method finds
/// wanting: Afterpay insists on name, first line, country and postal code;
/// no other payment method insists on anything.
pub open spec fn spec_shipping_address_error(
    shipping_address: StripeShippingAddress,
    payment_method: StripePaymentMethodType,
) -> Option<ConnectorError> {
    if payment_method == StripePaymentMethodType::AfterpayClearpay {
        if shipping_address.name is None {
            Some(ConnectorError::MissingRequiredField { field_name: "shipping.address.first_name" })
        } else if shipping_address.line1 is None {
            Some(ConnectorError::MissingRequiredField { field_name: "shipping.address.line1" })
        } else if shipping_address.country is None {
            Some(ConnectorError::MissingRequiredField { field_name: "shipping.address.country" })
        } else if shipping_address.zip is None {
            Some(ConnectorError::MissingRequiredField { field_name: "shipping.address.zip" })
        } else {
            None
        }
    } else {
        None
    }
}

/// Checks the shipping address against what the payment method insists
/// on.
pub fn validate_shipping_address_against_payment_method(
    shipping_address: &StripeShippingAddress,
    payment_method: &StripePaymentMethodType,
) -> (res: Result<(), ConnectorError>)
    ensures
        match spec_shipping_address_error(*shipping_address, *payment_method) {
            Some(e) => res == Err::<(), ConnectorError>(e),
            None => res is Ok,
        },
{
    if let StripePaymentMethodType::AfterpayClearpay = payment_method {
        if shipping_address.name.is_none() {
            return Err(
                ConnectorError::MissingRequiredField { field_name: "shipping.address.first_name" },
            );
        }
        if shipping_address.line1.is_none() {
            return Err(
                ConnectorError::MissingRequiredField { field_name: "shipping.address.line1" },
            );
        }
        if shipping_address.country.is_none() {
            return Err(
                ConnectorError::MissingRequiredField { field_name: "shipping.address.country" },
            );
        }
        if shipping_address.zip.is_none() {
            return Err(ConnectorError::MissingRequiredField { field_name: "shipping.address.zip" });
        }
    }
    Ok(())
}

/// The Stripe type of a pay-later payment: Klarna, Affirm and Afterpay are
/// taken where the shopper is redirected, and nothing else is.
pub open spec fn spec_pay_later_type(
    pm_type: PaymentMethodType,
    experience: PaymentExperience,
) -> Result<StripePaymentMethodType, ConnectorError> {
    let not_supported = Err(
        ConnectorError::NotSupported {
            feature: pm_type.spec_as_str(),
            context: experience.spec_as_str(),
        },
    );
    if experience == PaymentExperience::RedirectToUrl {
        match pm_type {
            PaymentMethodType::Klarna => Ok(StripePaymentMethodType::Klarna),
            PaymentMethodType::Affirm => Ok(StripePaymentMethodType::Affirm),
            PaymentMethodType::AfterpayClearpay => Ok(StripePaymentMethodType::AfterpayClearpay),
            _ => not_supported,
        }
    } else {
        not_supported
    }
}

/// Tells the Stripe type of a pay-later payment.
pub fn infer_stripe_pay_later_type(pm_type: &PaymentMethodType, experience: &PaymentExperience) -> (res:
    Result<StripePaymentMethodType, ConnectorError>)
    ensures
        res == spec_pay_later_type(*pm_type, *experience),
{
    if matches!(experience, PaymentExperience::RedirectToUrl) {
        match pm_type {
            PaymentMethodType::Klarna => Ok(StripePaymentMethodType::Klarna),
            PaymentMethodType::Affirm => Ok(StripePaymentMethodType::Affirm),
            PaymentMethodType::AfterpayClearpay => Ok(StripePaymentMethodType::AfterpayClearpay),
            _ => Err(
                ConnectorError::NotSupported {
                    feature: pm_type.as_str(),
                    context: experience.as_str(),
                },
            ),
        }
    } else {
        Err(
            ConnectorError::NotSupported {
                feature: pm_type.as_str(),
                context: experience.as_str(),
            },
        )
    }
}

/// The Stripe type of a bank redirect: the type of the payment method is
/// required and must be giropay, iDEAL, Sofort or EPS.
pub open spec fn spec_bank_redirect_issuer(payment_method_type: Option<PaymentMethodType>) -> Result<
    StripePaymentMethodType,
    ConnectorError,
> {
    match payment_method_type {
        Some(PaymentMethodType::Giropay) => Ok(StripePaymentMethodType::Giropay),
        Some(PaymentMethodType::Ideal) => Ok(StripePaymentMethodType::Ideal),
        Some(PaymentMethodType::Sofort) => Ok(StripePaymentMethodType::Sofort),
        Some(PaymentMethodType::Eps) => Ok(StripePaymentMethodType::Eps),
        None => Err(ConnectorError::MissingRequiredField { field_name: "payment_method_type" }),
        _ => Err(ConnectorError::MismatchedPaymentData),
    }
}

/// Tells the Stripe type of a bank redirect.
pub fn infer_stripe_bank_redirect_issuer(payment_method_type: Option<&PaymentMethodType>) -> (res:
    Result<StripePaymentMethodType, ConnectorError>)
    ensures
        res == spec_bank_redirect_issuer(
            match payment_method_type {
                Some(t) => Some(*t),
                None => None,
            },
        ),
{
    match payment_method_type {
        Some(PaymentMethodType::Giropay) => Ok(StripePaymentMethodType::Giropay),
        Some(PaymentMethodType::Ideal) => Ok(StripePaymentMethodType::Ideal),
        Some(PaymentMethodType::Sofort) => Ok(StripePaymentMethodType::Sofort),
        Some(PaymentMethodType::Eps) => Ok(StripePaymentMethodType::Eps),
        None => Err(ConnectorError::MissingRequiredField { field_name: "payment_method_type" }),
        _ => Err(ConnectorError::MismatchedPaymentData),
    }
}

impl StripeBillingAddress {
    /// A billing address that says nothing.
    pub open spec fn spec_default() -> Self {
        StripeBillingAddress {
            email: None,
            country: None,
            name: None,
            city: None,
            address_line1: None,
            address_line2: None,
            zip_code: None,
        }
    }

    /// A billing address that says nothing.
    pub fn empty() -> (res: Self)
        ensures
            res == Self::spec_default(),
    {
        StripeBillingAddress {
            email: None,
            country: None,
            name: None,
            city: None,
            address_line1: None,
            address_line2: None,
            zip_code: None,
        }
    }

    /// Who is billed for a pay-later payment: Klarna is told e-mail address
    /// and country, Afterpay e-mail address and name, Affirm nothing. The
    /// data must be the data of the type; what a lender is told is required.
    pub open spec fn spec_from_pay_later(
        pay_later_data: PayLaterData,
        pm_type: StripePaymentMethodType,
    ) -> Result<Self, ConnectorError> {
        match (pay_later_data, pm_type) {
            (
                PayLaterData::KlarnaRedirect { billing_email, billing_country },
                StripePaymentMethodType::Klarna,
            ) => if billing_email is None {
                Err(ConnectorError::MissingRequiredField { field_name: "billing_email" })
            } else if billing_country is None {
                Err(ConnectorError::MissingRequiredField { field_name: "billing_country" })
            } else {
                Ok(
                    StripeBillingAddress {
                        email: billing_email,
                        country: billing_country,
                        ..Self::spec_default()
                    },
                )
            },
            (PayLaterData::AffirmRedirect, StripePaymentMethodType::Affirm) => Ok(
                Self::spec_default(),
            ),
            (
                PayLaterData::AfterpayClearpayRedirect { billing_email, billing_name },
                StripePaymentMethodType::AfterpayClearpay,
            ) => if billing_email is None {
                Err(ConnectorError::MissingRequiredField { field_name: "billing_email" })
            } else if billing_name is None {
                Err(ConnectorError::MissingRequiredField { field_name: "billing_name" })
            } else {
                Ok(
                    StripeBillingAddress {
                        email: billing_email,
                        name: billing_name,
                        ..Self::spec_default()
                    },
                )
            },
            _ => Err(ConnectorError::MismatchedPaymentData),
        }
    }

    /// Tells who is billed for a pay-later payment.
    pub fn try_from_pay_later(pay_later_data: &PayLaterData, pm_type: StripePaymentMethodType) -> (res:
        Result<Self, ConnectorError>)
        ensures
            res == Self::spec_from_pay_later(*pay_later_data, pm_type),
    {
        match (pay_later_data, pm_type) {
            (
                PayLaterData::KlarnaRedirect { billing_email, billing_country },
                StripePaymentMethodType::Klarna,
            ) => {
                if billing_email.is_none() {
                    return Err(ConnectorError::MissingRequiredField { field_name: "billing_email" });
                }
                if billing_country.is_none() {
                    return Err(
                        ConnectorError::MissingRequiredField { field_name: "billing_country" },
                    );
                }
                let mut address = Self::empty();
                address.email = billing_email.clone();
                address.country = *billing_country;
                Ok(address)
            },
            (PayLaterData::AffirmRedirect, StripePaymentMethodType::Affirm) => Ok(Self::empty()),
            (
                PayLaterData::AfterpayClearpayRedirect { billing_email, billing_name },
                StripePaymentMethodType::AfterpayClearpay,
            ) => {
                if billing_email.is_none() {
                    return Err(ConnectorError::MissingRequiredField { field_name: "billing_email" });
                }
                if billing_name.is_none() {
                    return Err(ConnectorError::MissingRequiredField { field_name: "billing_name" });
                }
                let mut address = Self::empty();
                address.email = billing_email.clone();
                address.name = billing_name.clone();
                Ok(address)
            },
            _ => Err(ConnectorError::MismatchedPaymentData),
        }
    }

    /// Who is billed for a bank debit.
    pub open spec fn spec_from_bank_debit(item: Option<BankDebitBilling>) -> Self {
        match item {
            None => Self::spec_default(),
            Some(billing) => StripeBillingAddress {
                email: billing.email,
                country: match billing.address {
                    Some(address) => address.country,
                    None => None,
                },
                name: billing.name,
                city: match billing.address {
                    Some(address) => address.city,
                    None => None,
                },
                address_line1: match billing.address {
                    Some(address) => address.line1,
                    None => None,
                },
                address_line2: match billing.address {
                    Some(address) => address.line2,
                    None => None,
                },
                zip_code: match billing.address {
                    Some(address) => address.zip,
                    None => None,
                },
            },
        }
    }

    /// Tells who is billed for a bank debit.
    pub fn from_bank_debit(item: &Option<BankDebitBilling>) -> (res: Self)
        ensures
            res == Self::spec_from_bank_debit(*item),
    {
        match item {
            None => Self::empty(),
            Some(billing) => match &billing.address {
                Some(address) => StripeBillingAddress {
                    email: billing.email.clone(),
                    country: address.country,
                    name: billing.name.clone(),
                    city: address.city.clone(),
                    address_line1: address.line1.clone(),
                    address_line2: address.line2.clone(),
                    zip_code: address.zip.clone(),
                },
                None => StripeBillingAddress {
                    email: billing.email.clone(),
                    country: None,
                    name: billing.name.clone(),
                    city: None,
                    address_line1: None,
                    address_line2: None,
                    zip_code: None,
                },
            },
        }
    }

    /// Who is billed for a bank redirect: EPS, giropay and iDEAL are told
    /// the name, any other bank redirect nothing.
    pub open spec fn spec_from_bank_redirect(bank_redirection_data: BankRedirectData) -> Self {
        match bank_redirection_data {
            BankRedirectData::Eps { billing_name, .. }
            | BankRedirectData::Giropay { billing_name }
            | BankRedirectData::Ideal { billing_name, .. } => StripeBillingAddress {
                name: billing_name,
                ..Self::spec_default()
            },
            _ => Self::spec_default(),
        }
    }

    /// Tells who is billed for a bank redirect.
    pub fn try_from_bank_redirect(bank_redirection_data: &BankRedirectData) -> (res: Result<
        Self,
        ConnectorError,
    >)
        ensures
            res == Ok::<Self, ConnectorError>(
                Self::spec_from_bank_redirect(*bank_redirection_data),
            ),
    {
        match bank_redirection_data {
            BankRedirectData::Eps { billing_name, .. } => {
                let mut address = Self::empty();
                address.name = billing_name.clone();
                Ok(address)
            },
            BankRedirectData::Giropay { billing_name } => {
                let mut address = Self::empty();
                address.name = billing_name.clone();
                Ok(address)
            },
            BankRedirectData::Ideal { billing_name, .. } => {
                let mut address = Self::empty();
                address.name = billing_name.clone();
                Ok(address)
            },
            _ => Ok(Self::empty()),
        }
    }
}

/// What a bank redirect needs beyond the bank: Sofort names the country
/// and the language of the shopper, where both are known.
pub open spec fn spec_bank_specific_data(bank_redirect_data: BankRedirectData) -> Option<
    BankSpecificData,
> {
    match bank_redirect_data {
        BankRedirectData::Sofort { country: Some(country), preferred_language: Some(language) } =>
            Some(BankSpecificData::Sofort { country, preferred_language: language }),
        _ => None,
    }
}

/// Takes what a bank redirect needs beyond the bank.
pub fn get_bank_specific_data(bank_redirect_data: &BankRedirectData) -> (res: Option<
    BankSpecificData,
>)
    ensures
        res == spec_bank_specific_data(*bank_redirect_data),
{
    match bank_redirect_data {
        BankRedirectData::Sofort { country: Some(country), preferred_language: Some(language) } => {
            Some(
                BankSpecificData::Sofort {
                    country: *country,
                    preferred_language: language.clone(),
                },
            )
        },
        _ => None,
    }
}

/// Whether `res` is a bank debit in the terms of Stripe: the type, the
/// account, and who is billed. An ACH debit is drawn from the account of
/// an individual.
pub open spec fn spec_is_bank_debit_data(
    bank_debit_data: CanonicalBankDebitData,
    res: (StripePaymentMethodType, BankDebitData, StripeBillingAddress),
) -> bool {
    match bank_debit_data {
        CanonicalBankDebitData::AchBankDebit { billing_details, account_number, routing_number } => {
            &&& res.0 == StripePaymentMethodType::Ach
            &&& res.1 matches BankDebitData::Ach { account_holder_type, account_number: number, routing_number: routing }
            &&& account_holder_type@ == "individual"@
            &&& number == account_number
            &&& routing == routing_number
            &&& res.2 == StripeBillingAddress::spec_from_bank_debit(billing_details)
        },
        CanonicalBankDebitData::SepaBankDebit { billing_details, iban } => {
            &&& res.0 == StripePaymentMethodType::Sepa
            &&& res.1 == BankDebitData::Sepa { iban }
            &&& res.2 == StripeBillingAddress::spec_from_bank_debit(billing_details)
        },
        CanonicalBankDebitData::BecsBankDebit { billing_details, account_number, bsb_number } => {
            &&& res.0 == StripePaymentMethodType::Becs
            &&& res.1 == BankDebitData::Becs { account_number, bsb_number }
            &&& res.2 == StripeBillingAddress::spec_from_bank_debit(billing_details)
        },
        CanonicalBankDebitData::BacsBankDebit { billing_details, account_number, sort_code } => {
            &&& res.0 == StripePaymentMethodType::Bacs
            &&& res.1 == BankDebitData::Bacs { account_number, sort_code }
            &&& res.2 == StripeBillingAddress::spec_from_bank_debit(billing_details)
        },
    }
}

/// Puts a bank debit in the terms of Stripe.
pub fn get_bank_debit_data(bank_debit_data: &CanonicalBankDebitData) -> (res: (
    StripePaymentMethodType,
    BankDebitData,
    StripeBillingAddress,
))
    ensures
        spec_is_bank_debit_data(*bank_debit_data, res),
{
    match bank_debit_data {
        CanonicalBankDebitData::AchBankDebit { billing_details, account_number, routing_number } => {
            let ach_data = BankDebitData::Ach {
                account_holder_type: owned("individual"),
                account_number: account_number.clone(),
                routing_number: routing_number.clone(),
            };
            let billing_data = StripeBillingAddress::from_bank_debit(billing_details);
            (StripePaymentMethodType::Ach, ach_data, billing_data)
        },
        CanonicalBankDebitData::SepaBankDebit { billing_details, iban } => {
            let sepa_data = BankDebitData::Sepa { iban: iban.clone() };
            let billing_data = StripeBillingAddress::from_bank_debit(billing_details);
            (StripePaymentMethodType::Sepa, sepa_data, billing_data)
        },
        CanonicalBankDebitData::BecsBankDebit { billing_details, account_number, bsb_number } => {
            let becs_data = BankDebitData::Becs {
                account_number: account_number.clone(),
                bsb_number: bsb_number.clone(),
            };
            let billing_data = StripeBillingAddress::from_bank_debit(billing_details);
            (StripePaymentMethodType::Becs, becs_data, billing_data)
        },
        CanonicalBankDebitData::BacsBankDebit { billing_details, account_number, sort_code } => {
            let bacs_data = BankDebitData::Bacs {
                account_number: account_number.clone(),
                sort_code: sort_code.clone(),
            };
            let billing_data = StripeBillingAddress::from_bank_debit(billing_details);
            (StripePaymentMethodType::Bacs, bacs_data, billing_data)
        },
    }
}

/// When Stripe is to ask for 3-D Secure.
pub open spec fn spec_auth_3ds(auth_type: AuthenticationType) -> Auth3ds {
    match auth_type {
        AuthenticationType::ThreeDs => Auth3ds::Any,
        AuthenticationType::NoThreeDs => Auth3ds::Automatic,
    }
}

/// A card in the terms of Stripe.
pub open spec fn spec_card_data(card: Card, auth_type: AuthenticationType) -> StripeCardData {
    StripeCardData {
        payment_method_types: StripePaymentMethodType::Card,
        payment_method_data_type: StripePaymentMethodType::Card,
        payment_method_data_card_number: card.card_number,
        payment_method_data_card_exp_month: card.card_exp_month,
        payment_method_data_card_exp_year: card.card_exp_year,
        payment_method_data_card_cvc: card.card_cvc,
        payment_method_auth_type: spec_auth_3ds(auth_type),
    }
}

pub fn card_data(card: &Card, auth_type: AuthenticationType) -> (res: StripeCardData)
    ensures
        res == spec_card_data(*card, auth_type),
{
    let payment_method_auth_type = match auth_type {
        AuthenticationType::ThreeDs => Auth3ds::Any,
        AuthenticationType::NoThreeDs => Auth3ds::Automatic,
    };
    StripeCardData {
        payment_method_types: StripePaymentMethodType::Card,
        payment_method_data_type: StripePaymentMethodType::Card,
        payment_method_data_card_number: card.card_number.clone(),
        payment_method_data_card_exp_month: card.card_exp_month.clone(),
        payment_method_data_card_exp_year: card.card_exp_year.clone(),
        payment_method_data_card_cvc: card.card_cvc.clone(),
        payment_method_auth_type,
    }
}

/// The token that an Apple Pay payment holds: the payment is base64, and
/// what it encodes is the token, which must be text.
pub open spec fn spec_apple_pay_token(payment_data: Seq<char>) -> Result<
    Seq<char>,
    ConnectorError,
> {
    match base64_decoded(payment_data) {
        Some(bytes) => if valid_utf8(bytes) {
            Ok(decode_utf8(bytes))
        } else {
            Err(ConnectorError::RequestEncodingFailed)
        },
        None => Err(ConnectorError::RequestEncodingFailed),
    }
}

/// Whether `res` is the outcome of taking an Apple Pay payment apart for
/// Stripe.
pub open spec fn spec_is_apple_pay(
    data: ApplePayWalletData,
    res: Result<StripeApplePay, ConnectorError>,
) -> bool {
    match spec_apple_pay_token(data.payment_data@) {
        Err(e) => res == Err::<StripeApplePay, ConnectorError>(e),
        Ok(token) => {
            &&& res matches Ok(apple_pay)
            &&& apple_pay.pk_token@ == token
            &&& apple_pay.pk_token_instrument_name == data.payment_method.pm_type
            &&& apple_pay.pk_token_payment_network == data.payment_method.network
            &&& apple_pay.pk_token_transaction_id == data.transaction_identifier
        },
    }
}

/// Takes an Apple Pay payment apart for Stripe.
pub fn apple_pay_token(data: &ApplePayWalletData) -> (res: Result<StripeApplePay, ConnectorError>)
    ensures
        spec_is_apple_pay(*data, res),
{
    let bytes = match base64_decode(data.payment_data.as_str()) {
        Some(bytes) => bytes,
        None => {
            return Err(ConnectorError::RequestEncodingFailed);
        },
    };
    let pk_token = match string_from_utf8(bytes) {
        Some(token) => token,
        None => {
            return Err(ConnectorError::RequestEncodingFailed);
        },
    };
    Ok(
        StripeApplePay {
            pk_token,
            pk_token_instrument_name: data.payment_method.pm_type.clone(),
            pk_token_payment_network: data.payment_method.network.clone(),
            pk_token_transaction_id: data.transaction_identifier.clone(),
        },
    )
}

} // verus!
