//! The banks that Adyen takes payments from, and how the banks of the
//! canonical model are mapped to them.
//!
//! Each mapping is a finite table. A bank that a table does not hold is
//! rejected with `NotImplemented`; it is never mapped to a default.

use vstd::prelude::*;
use crate::bank_names::BankNames;
use crate::errors::ConnectorError;

verus! {

/// The Czech banks that Adyen takes online-banking payments from.
#[derive(Clone, Copy, Debug, PartialEq, Eq, Hash, Structural)]
pub enum OnlineBankingCzechRepublicBanks {
    KB,
    CS,
}

/// The Polish banks that Adyen takes online-banking payments from.
#[derive(Clone, Copy, Debug, PartialEq, Eq, Hash, Structural)]
pub enum OnlineBankingPolandBanks {
    BlikPSP,
    PlaceZIPKO,
    MBank,
    PayWithING,
    SantanderPrzelew24,
    BankPEKAOSA,
    BankMillennium,
    PayWithAliorBank,
    BankiSpoldzielcze,
    PayWithInteligo,
    BNPParibasPoland,
    BankNowySA,
    CreditAgricole,
    PayWithBOS,
    PayWithCitiHandlowy,
    PayWithPlusBank,
    ToyotaBank,
    VeloBank,
    ETransferPocztowy24,
}

/// The Slovak banks that Adyen takes online-banking payments from.
#[derive(Clone, Copy, Debug, PartialEq, Eq, Hash, Structural)]
pub enum OnlineBankingSlovakiaBanks {
    Vub,
    Posto,
    Sporo,
    Tatra,
    Viamo,
}

/// The Malaysian banks that Adyen takes FPX payments from.
#[derive(Clone, Copy, Debug, PartialEq, Eq, Hash, Structural)]
pub enum OnlineBankingFpxIssuer {
    FpxAbb,
    FpxAgrobank,
    FpxAbmb,
    FpxAmb,
    FpxBimb,
    FpxBmmb,
    FpxBkrm,
    FpxBsn,
    FpxCimbclicks,
    FpxHlb,
    FpxHsbc,
    FpxKfh,
    FpxMb2u,
    FpxOcbc,
    FpxPbb,
    FpxRhb,
    FpxScb,
    FpxUob,
}

/// The Thai banks that Adyen takes online-banking payments from.
#[derive(Clone, Copy, Debug, PartialEq, Eq, Hash, Structural)]
pub enum OnlineBankingThailandIssuer {
    Bangkokbank,
    Krungsribank,
    Krungthaibank,
    Siamcommercialbank,
    Kbank,
}

/// The UK banks that Adyen takes open-banking payments from.
#[derive(Clone, Copy, Debug, PartialEq, Eq, Hash, Structural)]
pub enum OpenBankingUKIssuer {
    RedirectSuccess,
    RedirectFailure,
    RedirectCancelled,
    Aib,
    BankOfScotland,
    Barclays,
    DanskeBank,
    FirstDirect,
    FirstTrust,
    HsbcBank,
    Halifax,
    Lloyds,
    Monzo,
    NatWest,
    NationwideBank,
    Revolut,
    RoyalBankOfScotland,
    SantanderPrzelew24,
    Starling,
    TsbBank,
    TescoBank,
    UlsterBank,
}

/// The id of a bank in Adyen's test environment.
#[derive(Clone, Copy, Debug, PartialEq, Eq)]
pub struct AdyenTestBankNames(pub &'static str);

impl OnlineBankingCzechRepublicBanks {
    /// The Czech bank that stands for a bank of the canonical model.
    pub open spec fn spec_try_from(bank_name: BankNames) -> Result<Self, ConnectorError> {
        match bank_name {
            BankNames::KomercniBanka => Ok(OnlineBankingCzechRepublicBanks::KB),
            BankNames::CeskaSporitelna => Ok(OnlineBankingCzechRepublicBanks::CS),
            _ => Err(ConnectorError::NotImplemented { connector: "Adyen", feature: "OnlineBankingCzechRepublic issuer" }),
        }
    }

    /// The Czech bank that stands for a bank of the canonical model.
    pub fn try_from(bank_name: &BankNames) -> (res: Result<Self, ConnectorError>)
        ensures
            res == Self::spec_try_from(*bank_name),
    {
        match bank_name {
            BankNames::KomercniBanka => Ok(OnlineBankingCzechRepublicBanks::KB),
            BankNames::CeskaSporitelna => Ok(OnlineBankingCzechRepublicBanks::CS),
            BankNames::AbnAmro
            | BankNames::AffinBank
            | BankNames::AgroBank
            | BankNames::Aib
            | BankNames::AliorBank
            | BankNames::AllianceBank
            | BankNames::AmBank
            | BankNames::AmericanExpress
            | BankNames::ArzteUndApothekerBank
            | BankNames::AsnBank
            | BankNames::AustrianAnadiBankAg
            | BankNames::BangkokBank
            | BankNames::Bank99Ag
            | BankNames::BankAustria
            | BankNames::BankhausCarlSpangler
            | BankNames::BankhausSchelhammerUndSchatteraAg
            | BankNames::BankIslam
            | BankNames::BankiSpbdzielcze
            | BankNames::BankiSpoldzielcze
            | BankNames::BankMillennium
            | BankNames::BankMuamalat
            | BankNames::BankNowyBfgSa
            | BankNames::BankNowySA
            | BankNames::BankOfAmerica
            | BankNames::BankOfChina
            | BankNames::BankOfScotland
            | BankNames::BankPEKAOSA
            | BankNames::BankPekaoSa
            | BankNames::BankRakyat
            | BankNames::BankSimpananNasional
            | BankNames::Barclays
            | BankNames::BawagPskAg
            | BankNames::BksBankAg
            | BankNames::Blik
            | BankNames::BlikPSP
            | BankNames::BnpParibas
            | BankNames::BNPParibasPoland
            | BankNames::Boz
            | BankNames::BrullKallmusBankAg
            | BankNames::BtvVierLanderBank
            | BankNames::Bunq
            | BankNames::CapitalBankGraweGruppeAg
            | BankNames::CapitalOne
            | BankNames::Chase
            | BankNames::CimbBank
            | BankNames::Citi
            | BankNames::CreditAgricole
            | BankNames::DanskeBank
            | BankNames::Discover
            | BankNames::Dolomitenbank
            | BankNames::EasybankAg
            | BankNames::EnveloBank
            | BankNames::EPlatbyVUB
            | BankNames::ErsteBankUndSparkassen
            | BankNames::ETransferPocztowy24
            | BankNames::EtransferPocztowy24
            | BankNames::FirstDirect
            | BankNames::FirstTrust
            | BankNames::FrieslandBank
            | BankNames::GetinBank
            | BankNames::Halifax
            | BankNames::Handelsbanken
            | BankNames::HongLeongBank
            | BankNames::HsbcBank
            | BankNames::HypoAlpeadriabankInternationalAg
            | BankNames::HypoBankBurgenlandAktiengesellschaft
            | BankNames::HypoNoeLbFurNiederosterreichUWien
            | BankNames::HypoOberosterreichSalzburgSteiermark
            | BankNames::HypoTirolBankAg
            | BankNames::HypoVorarlbergBankAg
            | BankNames::IdeaBank
            | BankNames::Ing
            | BankNames::Inteligo
            | BankNames::KasikornBank
            | BankNames::Knab
            | BankNames::KrungsriBank
            | BankNames::KrungThaiBank
            | BankNames::KuwaitFinanceHouse
            | BankNames::Lloyds
            | BankNames::MarchfelderBank
            | BankNames::Maybank
            | BankNames::MBank
            | BankNames::MbankMtransfer
            | BankNames::Moneyou
            | BankNames::Monzo
            | BankNames::N26
            | BankNames::NationaleNederlanden
            | BankNames::NationwideBank
            | BankNames::NatWest
            | BankNames::NavyFederalCreditUnion
            | BankNames::NestPrzelew
            | BankNames::NoblePay
            | BankNames::OberbankAg
            | BankNames::OcbcBank
            | BankNames::OpenBankCancelled
            | BankNames::OpenBankFailure
            | BankNames::OpenBankSuccess
            | BankNames::OsterreichischeArzteUndApothekerbank
            | BankNames::PayWithAliorBank
            | BankNames::PayWithBOS
            | BankNames::PayWithCitiHandlowy
            | BankNames::PayWithING
            | BankNames::PayWithInteligo
            | BankNames::PayWithPlusBank
            | BankNames::PbacZIpko
            | BankNames::PentagonFederalCreditUnion
            | BankNames::PlaceZIPKO
            | BankNames::PlatnoscOnlineKartaPlatnicza
            | BankNames::PlusBank
            | BankNames::PosojilnicaBankEGen
            | BankNames::PostovaBanka
            | BankNames::PublicBank
            | BankNames::Rabobank
            | BankNames::RaiffeisenBankengruppeOsterreich
            | BankNames::Regiobank
            | BankNames::Revolut
            | BankNames::RhbBank
            | BankNames::RoyalBankOfScotland
            | BankNames::SantanderPrzelew24
            | BankNames::SchelhammerCapitalBankAg
            | BankNames::SchoellerbankAg
            | BankNames::SnsBank
            | BankNames::SpardaBankWien
            | BankNames::SporoPay
            | BankNames::StandardCharteredBank
            | BankNames::Starling
            | BankNames::SynchronyBank
            | BankNames::TatraPay
            | BankNames::TescoBank
            | BankNames::TheSiamCommercialBank
            | BankNames::ToyotaBank
            | BankNames::TriodosBank
            | BankNames::TsbBank
            | BankNames::UlsterBank
            | BankNames::UobBank
            | BankNames::VanLanschot
            | BankNames::VeloBank
            | BankNames::Viamo
            | BankNames::VolksbankGruppe
            | BankNames::VolkskreditbankAg
            | BankNames::VolkswagenBank
            | BankNames::VrBankBraunau
            | BankNames::WellsFargo
            | BankNames::Yoursafe => Err(
                ConnectorError::NotImplemented { connector: "Adyen", feature: "OnlineBankingCzechRepublic issuer" },
            ),
        }
    }
}

impl OnlineBankingPolandBanks {
    /// The Polish bank that stands for a bank of the canonical model.
    pub open spec fn spec_try_from(bank_name: BankNames) -> Result<Self, ConnectorError> {
        match bank_name {
            BankNames::BlikPSP => Ok(OnlineBankingPolandBanks::BlikPSP),
            BankNames::PlaceZIPKO => Ok(OnlineBankingPolandBanks::PlaceZIPKO),
            BankNames::MBank => Ok(OnlineBankingPolandBanks::MBank),
            BankNames::PayWithING => Ok(OnlineBankingPolandBanks::PayWithING),
            BankNames::SantanderPrzelew24 => Ok(OnlineBankingPolandBanks::SantanderPrzelew24),
            BankNames::BankPEKAOSA => Ok(OnlineBankingPolandBanks::BankPEKAOSA),
            BankNames::BankMillennium => Ok(OnlineBankingPolandBanks::BankMillennium),
            BankNames::PayWithAliorBank => Ok(OnlineBankingPolandBanks::PayWithAliorBank),
            BankNames::BankiSpoldzielcze => Ok(OnlineBankingPolandBanks::BankiSpoldzielcze),
            BankNames::PayWithInteligo => Ok(OnlineBankingPolandBanks::PayWithInteligo),
            BankNames::BNPParibasPoland => Ok(OnlineBankingPolandBanks::BNPParibasPoland),
            BankNames::BankNowySA => Ok(OnlineBankingPolandBanks::BankNowySA),
            BankNames::CreditAgricole => Ok(OnlineBankingPolandBanks::CreditAgricole),
            BankNames::PayWithBOS => Ok(OnlineBankingPolandBanks::PayWithBOS),
            BankNames::PayWithCitiHandlowy => Ok(OnlineBankingPolandBanks::PayWithCitiHandlowy),
            BankNames::PayWithPlusBank => Ok(OnlineBankingPolandBanks::PayWithPlusBank),
            BankNames::ToyotaBank => Ok(OnlineBankingPolandBanks::ToyotaBank),
            BankNames::VeloBank => Ok(OnlineBankingPolandBanks::VeloBank),
            BankNames::ETransferPocztowy24 => Ok(OnlineBankingPolandBanks::ETransferPocztowy24),
            _ => Err(ConnectorError::NotImplemented { connector: "Adyen", feature: "OnlineBankingPoland issuer" }),
        }
    }

    /// The Polish bank that stands for a bank of the canonical model.
    pub fn try_from(bank_name: &BankNames) -> (res: Result<Self, ConnectorError>)
        ensures
            res == Self::spec_try_from(*bank_name),
    {
        match bank_name {
            BankNames::BlikPSP => Ok(OnlineBankingPolandBanks::BlikPSP),
            BankNames::PlaceZIPKO => Ok(OnlineBankingPolandBanks::PlaceZIPKO),
            BankNames::MBank => Ok(OnlineBankingPolandBanks::MBank),
            BankNames::PayWithING => Ok(OnlineBankingPolandBanks::PayWithING),
            BankNames::SantanderPrzelew24 => Ok(OnlineBankingPolandBanks::SantanderPrzelew24),
            BankNames::BankPEKAOSA => Ok(OnlineBankingPolandBanks::BankPEKAOSA),
            BankNames::BankMillennium => Ok(OnlineBankingPolandBanks::BankMillennium),
            BankNames::PayWithAliorBank => Ok(OnlineBankingPolandBanks::PayWithAliorBank),
            BankNames::BankiSpoldzielcze => Ok(OnlineBankingPolandBanks::BankiSpoldzielcze),
            BankNames::PayWithInteligo => Ok(OnlineBankingPolandBanks::PayWithInteligo),
            BankNames::BNPParibasPoland => Ok(OnlineBankingPolandBanks::BNPParibasPoland),
            BankNames::BankNowySA => Ok(OnlineBankingPolandBanks::BankNowySA),
            BankNames::CreditAgricole => Ok(OnlineBankingPolandBanks::CreditAgricole),
            BankNames::PayWithBOS => Ok(OnlineBankingPolandBanks::PayWithBOS),
            BankNames::PayWithCitiHandlowy => Ok(OnlineBankingPolandBanks::PayWithCitiHandlowy),
            BankNames::PayWithPlusBank => Ok(OnlineBankingPolandBanks::PayWithPlusBank),
            BankNames::ToyotaBank => Ok(OnlineBankingPolandBanks::ToyotaBank),
            BankNames::VeloBank => Ok(OnlineBankingPolandBanks::VeloBank),
            BankNames::ETransferPocztowy24 => Ok(OnlineBankingPolandBanks::ETransferPocztowy24),
            BankNames::AbnAmro
            | BankNames::AffinBank
            | BankNames::AgroBank
            | BankNames::Aib
            | BankNames::AliorBank
            | BankNames::AllianceBank
            | BankNames::AmBank
            | BankNames::AmericanExpress
            | BankNames::ArzteUndApothekerBank
            | BankNames::AsnBank
            | BankNames::AustrianAnadiBankAg
            | BankNames::BangkokBank
            | BankNames::Bank99Ag
            | BankNames::BankAustria
            | BankNames::BankhausCarlSpangler
            | BankNames::BankhausSchelhammerUndSchatteraAg
            | BankNames::BankIslam
            | BankNames::BankiSpbdzielcze
            | BankNames::BankMuamalat
            | BankNames::BankNowyBfgSa
            | BankNames::BankOfAmerica
            | BankNames::BankOfChina
            | BankNames::BankOfScotland
            | BankNames::BankPekaoSa
            | BankNames::BankRakyat
            | BankNames::BankSimpananNasional
            | BankNames::Barclays
            | BankNames::BawagPskAg
            | BankNames::BksBankAg
            | BankNames::Blik
            | BankNames::BnpParibas
            | BankNames::Boz
            | BankNames::BrullKallmusBankAg
            | BankNames::BtvVierLanderBank
            | BankNames::Bunq
            | BankNames::CapitalBankGraweGruppeAg
            | BankNames::CapitalOne
            | BankNames::CeskaSporitelna
            | BankNames::Chase
            | BankNames::CimbBank
            | BankNames::Citi
            | BankNames::DanskeBank
            | BankNames::Discover
            | BankNames::Dolomitenbank
            | BankNames::EasybankAg
            | BankNames::EnveloBank
            | BankNames::EPlatbyVUB
            | BankNames::ErsteBankUndSparkassen
            | BankNames::EtransferPocztowy24
            | BankNames::FirstDirect
            | BankNames::FirstTrust
            | BankNames::FrieslandBank
            | BankNames::GetinBank
            | BankNames::Halifax
            | BankNames::Handelsbanken
            | BankNames::HongLeongBank
            | BankNames::HsbcBank
            | BankNames::HypoAlpeadriabankInternationalAg
            | BankNames::HypoBankBurgenlandAktiengesellschaft
            | BankNames::HypoNoeLbFurNiederosterreichUWien
            | BankNames::HypoOberosterreichSalzburgSteiermark
            | BankNames::HypoTirolBankAg
            | BankNames::HypoVorarlbergBankAg
            | BankNames::IdeaBank
            | BankNames::Ing
            | BankNames::Inteligo
            | BankNames::KasikornBank
            | BankNames::Knab
            | BankNames::KomercniBanka
            | BankNames::KrungsriBank
            | BankNames::KrungThaiBank
            | BankNames::KuwaitFinanceHouse
            | BankNames::Lloyds
            | BankNames::MarchfelderBank
            | BankNames::Maybank
            | BankNames::MbankMtransfer
            | BankNames::Moneyou
            | BankNames::Monzo
            | BankNames::N26
            | BankNames::NationaleNederlanden
            | BankNames::NationwideBank
            | BankNames::NatWest
            | BankNames::NavyFederalCreditUnion
            | BankNames::NestPrzelew
            | BankNames::NoblePay
            | BankNames::OberbankAg
            | BankNames::OcbcBank
            | BankNames::OpenBankCancelled
            | BankNames::OpenBankFailure
            | BankNames::OpenBankSuccess
            | BankNames::OsterreichischeArzteUndApothekerbank
            | BankNames::PbacZIpko
            | BankNames::PentagonFederalCreditUnion
            | BankNames::PlatnoscOnlineKartaPlatnicza
            | BankNames::PlusBank
            | BankNames::PosojilnicaBankEGen
            | BankNames::PostovaBanka
            | BankNames::PublicBank
            | BankNames::Rabobank
            | BankNames::RaiffeisenBankengruppeOsterreich
            | BankNames::Regiobank
            | BankNames::Revolut
            | BankNames::RhbBank
            | BankNames::RoyalBankOfScotland
            | BankNames::SchelhammerCapitalBankAg
            | BankNames::SchoellerbankAg
            | BankNames::SnsBank
            | BankNames::SpardaBankWien
            | BankNames::SporoPay
            | BankNames::StandardCharteredBank
            | BankNames::Starling
            | BankNames::SynchronyBank
            | BankNames::TatraPay
            | BankNames::TescoBank
            | BankNames::TheSiamCommercialBank
            | BankNames::TriodosBank
            | BankNames::TsbBank
            | BankNames::UlsterBank
            | BankNames::UobBank
            | BankNames::VanLanschot
            | BankNames::Viamo
            | BankNames::VolksbankGruppe
            | BankNames::VolkskreditbankAg
            | BankNames::VolkswagenBank
            | BankNames::VrBankBraunau
            | BankNames::WellsFargo
            | BankNames::Yoursafe => Err(
                ConnectorError::NotImplemented { connector: "Adyen", feature: "OnlineBankingPoland issuer" },
            ),
        }
    }
}

impl OnlineBankingSlovakiaBanks {
    /// The Slovak bank that stands for a bank of the canonical model.
    pub open spec fn spec_try_from(bank_name: BankNames) -> Result<Self, ConnectorError> {
        match bank_name {
            BankNames::EPlatbyVUB => Ok(OnlineBankingSlovakiaBanks::Vub),
            BankNames::PostovaBanka => Ok(OnlineBankingSlovakiaBanks::Posto),
            BankNames::SporoPay => Ok(OnlineBankingSlovakiaBanks::Sporo),
            BankNames::TatraPay => Ok(OnlineBankingSlovakiaBanks::Tatra),
            BankNames::Viamo => Ok(OnlineBankingSlovakiaBanks::Viamo),
            _ => Err(ConnectorError::NotImplemented { connector: "Adyen", feature: "OnlineBankingSlovakia issuer" }),
        }
    }

    /// The Slovak bank that stands for a bank of the canonical model.
    pub fn try_from(bank_name: &BankNames) -> (res: Result<Self, ConnectorError>)
        ensures
            res == Self::spec_try_from(*bank_name),
    {
        match bank_name {
            BankNames::EPlatbyVUB => Ok(OnlineBankingSlovakiaBanks::Vub),
            BankNames::PostovaBanka => Ok(OnlineBankingSlovakiaBanks::Posto),
            BankNames::SporoPay => Ok(OnlineBankingSlovakiaBanks::Sporo),
            BankNames::TatraPay => Ok(OnlineBankingSlovakiaBanks::Tatra),
            BankNames::Viamo => Ok(OnlineBankingSlovakiaBanks::Viamo),
            BankNames::AbnAmro
            | BankNames::AffinBank
            | BankNames::AgroBank
            | BankNames::Aib
            | BankNames::AliorBank
            | BankNames::AllianceBank
            | BankNames::AmBank
            | BankNames::AmericanExpress
            | BankNames::ArzteUndApothekerBank
            | BankNames::AsnBank
            | BankNames::AustrianAnadiBankAg
            | BankNames::BangkokBank
            | BankNames::Bank99Ag
            | BankNames::BankAustria
            | BankNames::BankhausCarlSpangler
            | BankNames::BankhausSchelhammerUndSchatteraAg
            | BankNames::BankIslam
            | BankNames::BankiSpbdzielcze
            | BankNames::BankiSpoldzielcze
            | BankNames::BankMillennium
            | BankNames::BankMuamalat
            | BankNames::BankNowyBfgSa
            | BankNames::BankNowySA
            | BankNames::BankOfAmerica
            | BankNames::BankOfChina
            | BankNames::BankOfScotland
            | BankNames::BankPEKAOSA
            | BankNames::BankPekaoSa
            | BankNames::BankRakyat
            | BankNames::BankSimpananNasional
            | BankNames::Barclays
            | BankNames::BawagPskAg
            | BankNames::BksBankAg
            | BankNames::Blik
            | BankNames::BlikPSP
            | BankNames::BnpParibas
            | BankNames::BNPParibasPoland
            | BankNames::Boz
            | BankNames::BrullKallmusBankAg
            | BankNames::BtvVierLanderBank
            | BankNames::Bunq
            | BankNames::CapitalBankGraweGruppeAg
            | BankNames::CapitalOne
            | BankNames::CeskaSporitelna
            | BankNames::Chase
            | BankNames::CimbBank
            | BankNames::Citi
            | BankNames::CreditAgricole
            | BankNames::DanskeBank
            | BankNames::Discover
            | BankNames::Dolomitenbank
            | BankNames::EasybankAg
            | BankNames::EnveloBank
            | BankNames::ErsteBankUndSparkassen
            | BankNames::ETransferPocztowy24
            | BankNames::EtransferPocztowy24
            | BankNames::FirstDirect
            | BankNames::FirstTrust
            | BankNames::FrieslandBank
            | BankNames::GetinBank
            | BankNames::Halifax
            | BankNames::Handelsbanken
            | BankNames::HongLeongBank
            | BankNames::HsbcBank
            | BankNames::HypoAlpeadriabankInternationalAg
            | BankNames::HypoBankBurgenlandAktiengesellschaft
            | BankNames::HypoNoeLbFurNiederosterreichUWien
            | BankNames::HypoOberosterreichSalzburgSteiermark
            | BankNames::HypoTirolBankAg
            | BankNames::HypoVorarlbergBankAg
            | BankNames::IdeaBank
            | BankNames::Ing
            | BankNames::Inteligo
            | BankNames::KasikornBank
            | BankNames::Knab
            | BankNames::KomercniBanka
            | BankNames::KrungsriBank
            | BankNames::KrungThaiBank
            | BankNames::KuwaitFinanceHouse
            | BankNames::Lloyds
            | BankNames::MarchfelderBank
            | BankNames::Maybank
            | BankNames::MBank
            | BankNames::MbankMtransfer
            | BankNames::Moneyou
            | BankNames::Monzo
            | BankNames::N26
            | BankNames::NationaleNederlanden
            | BankNames::NationwideBank
            | BankNames::NatWest
            | BankNames::NavyFederalCreditUnion
            | BankNames::NestPrzelew
            | BankNames::NoblePay
            | BankNames::OberbankAg
            | BankNames::OcbcBank
            | BankNames::OpenBankCancelled
            | BankNames::OpenBankFailure
            | BankNames::OpenBankSuccess
            | BankNames::OsterreichischeArzteUndApothekerbank
            | BankNames::PayWithAliorBank
            | BankNames::PayWithBOS
            | BankNames::PayWithCitiHandlowy
            | BankNames::PayWithING
            | BankNames::PayWithInteligo
            | BankNames::PayWithPlusBank
            | BankNames::PbacZIpko
            | BankNames::PentagonFederalCreditUnion
            | BankNames::PlaceZIPKO
            | BankNames::PlatnoscOnlineKartaPlatnicza
            | BankNames::PlusBank
            | BankNames::PosojilnicaBankEGen
            | BankNames::PublicBank
            | BankNames::Rabobank
            | BankNames::RaiffeisenBankengruppeOsterreich
            | BankNames::Regiobank
            | BankNames::Revolut
            | BankNames::RhbBank
            | BankNames::RoyalBankOfScotland
            | BankNames::SantanderPrzelew24
            | BankNames::SchelhammerCapitalBankAg
            | BankNames::SchoellerbankAg
            | BankNames::SnsBank
            | BankNames::SpardaBankWien
            | BankNames::StandardCharteredBank
            | BankNames::Starling
            | BankNames::SynchronyBank
            | BankNames::TescoBank
            | BankNames::TheSiamCommercialBank
            | BankNames::ToyotaBank
            | BankNames::TriodosBank
            | BankNames::TsbBank
            | BankNames::UlsterBank
            | BankNames::UobBank
            | BankNames::VanLanschot
            | BankNames::VeloBank
            | BankNames::VolksbankGruppe
            | BankNames::VolkskreditbankAg
            | BankNames::VolkswagenBank
            | BankNames::VrBankBraunau
            | BankNames::WellsFargo
            | BankNames::Yoursafe => Err(
                ConnectorError::NotImplemented { connector: "Adyen", feature: "OnlineBankingSlovakia issuer" },
            ),
        }
    }
}

impl OnlineBankingFpxIssuer {
    /// The Malaysian bank that stands for a bank of the canonical model.
    pub open spec fn spec_try_from(bank_name: BankNames) -> Result<Self, ConnectorError> {
        match bank_name {
            BankNames::AffinBank => Ok(OnlineBankingFpxIssuer::FpxAbb),
            BankNames::AgroBank => Ok(OnlineBankingFpxIssuer::FpxAgrobank),
            BankNames::AllianceBank => Ok(OnlineBankingFpxIssuer::FpxAbmb),
            BankNames::AmBank => Ok(OnlineBankingFpxIssuer::FpxAmb),
            BankNames::BankIslam => Ok(OnlineBankingFpxIssuer::FpxBimb),
            BankNames::BankMuamalat => Ok(OnlineBankingFpxIssuer::FpxBmmb),
            BankNames::BankRakyat => Ok(OnlineBankingFpxIssuer::FpxBkrm),
            BankNames::BankSimpananNasional => Ok(OnlineBankingFpxIssuer::FpxBsn),
            BankNames::CimbBank => Ok(OnlineBankingFpxIssuer::FpxCimbclicks),
            BankNames::HongLeongBank => Ok(OnlineBankingFpxIssuer::FpxHlb),
            BankNames::HsbcBank => Ok(OnlineBankingFpxIssuer::FpxHsbc),
            BankNames::KuwaitFinanceHouse => Ok(OnlineBankingFpxIssuer::FpxKfh),
            BankNames::Maybank => Ok(OnlineBankingFpxIssuer::FpxMb2u),
            BankNames::OcbcBank => Ok(OnlineBankingFpxIssuer::FpxOcbc),
            BankNames::PublicBank => Ok(OnlineBankingFpxIssuer::FpxPbb),
            BankNames::RhbBank => Ok(OnlineBankingFpxIssuer::FpxRhb),
            BankNames::StandardCharteredBank => Ok(OnlineBankingFpxIssuer::FpxScb),
            BankNames::UobBank => Ok(OnlineBankingFpxIssuer::FpxUob),
            _ => Err(ConnectorError::NotImplemented { connector: "Adyen", feature: "OnlineBankingFpx issuer" }),
        }
    }

    /// The Malaysian bank that stands for a bank of the canonical model.
    pub fn try_from(bank_name: &BankNames) -> (res: Result<Self, ConnectorError>)
        ensures
            res == Self::spec_try_from(*bank_name),
    {
        match bank_name {
            BankNames::AffinBank => Ok(OnlineBankingFpxIssuer::FpxAbb),
            BankNames::AgroBank => Ok(OnlineBankingFpxIssuer::FpxAgrobank),
            BankNames::AllianceBank => Ok(OnlineBankingFpxIssuer::FpxAbmb),
            BankNames::AmBank => Ok(OnlineBankingFpxIssuer::FpxAmb),
            BankNames::BankIslam => Ok(OnlineBankingFpxIssuer::FpxBimb),
            BankNames::BankMuamalat => Ok(OnlineBankingFpxIssuer::FpxBmmb),
            BankNames::BankRakyat => Ok(OnlineBankingFpxIssuer::FpxBkrm),
            BankNames::BankSimpananNasional => Ok(OnlineBankingFpxIssuer::FpxBsn),
            BankNames::CimbBank => Ok(OnlineBankingFpxIssuer::FpxCimbclicks),
            BankNames::HongLeongBank => Ok(OnlineBankingFpxIssuer::FpxHlb),
            BankNames::HsbcBank => Ok(OnlineBankingFpxIssuer::FpxHsbc),
            BankNames::KuwaitFinanceHouse => Ok(OnlineBankingFpxIssuer::FpxKfh),
            BankNames::Maybank => Ok(OnlineBankingFpxIssuer::FpxMb2u),
            BankNames::OcbcBank => Ok(OnlineBankingFpxIssuer::FpxOcbc),
            BankNames::PublicBank => Ok(OnlineBankingFpxIssuer::FpxPbb),
            BankNames::RhbBank => Ok(OnlineBankingFpxIssuer::FpxRhb),
            BankNames::StandardCharteredBank => Ok(OnlineBankingFpxIssuer::FpxScb),
            BankNames::UobBank => Ok(OnlineBankingFpxIssuer::FpxUob),
            BankNames::AbnAmro
            | BankNames::Aib
            | BankNames::AliorBank
            | BankNames::AmericanExpress
            | BankNames::ArzteUndApothekerBank
            | BankNames::AsnBank
            | BankNames::AustrianAnadiBankAg
            | BankNames::BangkokBank
            | BankNames::Bank99Ag
            | BankNames::BankAustria
            | BankNames::BankhausCarlSpangler
            | BankNames::BankhausSchelhammerUndSchatteraAg
            | BankNames::BankiSpbdzielcze
            | BankNames::BankiSpoldzielcze
            | BankNames::BankMillennium
            | BankNames::BankNowyBfgSa
            | BankNames::BankNowySA
            | BankNames::BankOfAmerica
            | BankNames::BankOfChina
            | BankNames::BankOfScotland
            | BankNames::BankPEKAOSA
            | BankNames::BankPekaoSa
            | BankNames::Barclays
            | BankNames::BawagPskAg
            | BankNames::BksBankAg
            | BankNames::Blik
            | BankNames::BlikPSP
            | BankNames::BnpParibas
            | BankNames::BNPParibasPoland
            | BankNames::Boz
            | BankNames::BrullKallmusBankAg
            | BankNames::BtvVierLanderBank
            | BankNames::Bunq
            | BankNames::CapitalBankGraweGruppeAg
            | BankNames::CapitalOne
            | BankNames::CeskaSporitelna
            | BankNames::Chase
            | BankNames::Citi
            | BankNames::CreditAgricole
            | BankNames::DanskeBank
            | BankNames::Discover
            | BankNames::Dolomitenbank
            | BankNames::EasybankAg
            | BankNames::EnveloBank
            | BankNames::EPlatbyVUB
            | BankNames::ErsteBankUndSparkassen
            | BankNames::ETransferPocztowy24
            | BankNames::EtransferPocztowy24
            | BankNames::FirstDirect
            | BankNames::FirstTrust
            | BankNames::FrieslandBank
            | BankNames::GetinBank
            | BankNames::Halifax
            | BankNames::Handelsbanken
            | BankNames::HypoAlpeadriabankInternationalAg
            | BankNames::HypoBankBurgenlandAktiengesellschaft
            | BankNames::HypoNoeLbFurNiederosterreichUWien
            | BankNames::HypoOberosterreichSalzburgSteiermark
            | BankNames::HypoTirolBankAg
            | BankNames::HypoVorarlbergBankAg
            | BankNames::IdeaBank
            | BankNames::Ing
            | BankNames::Inteligo
            | BankNames::KasikornBank
            | BankNames::Knab
            | BankNames::KomercniBanka
            | BankNames::KrungsriBank
            | BankNames::KrungThaiBank
            | BankNames::Lloyds
            | BankNames::MarchfelderBank
            | BankNames::MBank
            | BankNames::MbankMtransfer
            | BankNames::Moneyou
            | BankNames::Monzo
            | BankNames::N26
            | BankNames::NationaleNederlanden
            | BankNames::NationwideBank
            | BankNames::NatWest
            | BankNames::NavyFederalCreditUnion
            | BankNames::NestPrzelew
            | BankNames::NoblePay
            | BankNames::OberbankAg
            | BankNames::OpenBankCancelled
            | BankNames::OpenBankFailure
            | BankNames::OpenBankSuccess
            | BankNames::OsterreichischeArzteUndApothekerbank
            | BankNames::PayWithAliorBank
            | BankNames::PayWithBOS
            | BankNames::PayWithCitiHandlowy
            | BankNames::PayWithING
            | BankNames::PayWithInteligo
            | BankNames::PayWithPlusBank
            | BankNames::PbacZIpko
            | BankNames::PentagonFederalCreditUnion
            | BankNames::PlaceZIPKO
            | BankNames::PlatnoscOnlineKartaPlatnicza
            | BankNames::PlusBank
            | BankNames::PosojilnicaBankEGen
            | BankNames::PostovaBanka
            | BankNames::Rabobank
            | BankNames::RaiffeisenBankengruppeOsterreich
            | BankNames::Regiobank
            | BankNames::Revolut
            | BankNames::RoyalBankOfScotland
            | BankNames::SantanderPrzelew24
            | BankNames::SchelhammerCapitalBankAg
            | BankNames::SchoellerbankAg
            | BankNames::SnsBank
            | BankNames::SpardaBankWien
            | BankNames::SporoPay
            | BankNames::Starling
            | BankNames::SynchronyBank
            | BankNames::TatraPay
            | BankNames::TescoBank
            | BankNames::TheSiamCommercialBank
            | BankNames::ToyotaBank
            | BankNames::TriodosBank
            | BankNames::TsbBank
            | BankNames::UlsterBank
            | BankNames::VanLanschot
            | BankNames::VeloBank
            | BankNames::Viamo
            | BankNames::VolksbankGruppe
            | BankNames::VolkskreditbankAg
            | BankNames::VolkswagenBank
            | BankNames::VrBankBraunau
            | BankNames::WellsFargo
            | BankNames::Yoursafe => Err(
                ConnectorError::NotImplemented { connector: "Adyen", feature: "OnlineBankingFpx issuer" },
            ),
        }
    }
}

impl OnlineBankingThailandIssuer {
    /// The Thai bank that stands for a bank of the canonical model.
    pub open spec fn spec_try_from(bank_name: BankNames) -> Result<Self, ConnectorError> {
        match bank_name {
            BankNames::BangkokBank => Ok(OnlineBankingThailandIssuer::Bangkokbank),
            BankNames::KrungsriBank => Ok(OnlineBankingThailandIssuer::Krungsribank),
            BankNames::KrungThaiBank => Ok(OnlineBankingThailandIssuer::Krungthaibank),
            BankNames::TheSiamCommercialBank => Ok(OnlineBankingThailandIssuer::Siamcommercialbank),
            BankNames::KasikornBank => Ok(OnlineBankingThailandIssuer::Kbank),
            _ => Err(ConnectorError::NotImplemented { connector: "Adyen", feature: "OnlineBankingThailand issuer" }),
        }
    }

    /// The Thai bank that stands for a bank of the canonical model.
    pub fn try_from(bank_name: &BankNames) -> (res: Result<Self, ConnectorError>)
        ensures
            res == Self::spec_try_from(*bank_name),
    {
        match bank_name {
            BankNames::BangkokBank => Ok(OnlineBankingThailandIssuer::Bangkokbank),
            BankNames::KrungsriBank => Ok(OnlineBankingThailandIssuer::Krungsribank),
            BankNames::KrungThaiBank => Ok(OnlineBankingThailandIssuer::Krungthaibank),
            BankNames::TheSiamCommercialBank => Ok(OnlineBankingThailandIssuer::Siamcommercialbank),
            BankNames::KasikornBank => Ok(OnlineBankingThailandIssuer::Kbank),
            BankNames::AbnAmro
            | BankNames::AffinBank
            | BankNames::AgroBank
            | BankNames::Aib
            | BankNames::AliorBank
            | BankNames::AllianceBank
            | BankNames::AmBank
            | BankNames::AmericanExpress
            | BankNames::ArzteUndApothekerBank
            | BankNames::AsnBank
            | BankNames::AustrianAnadiBankAg
            | BankNames::Bank99Ag
            | BankNames::BankAustria
            | BankNames::BankhausCarlSpangler
            | BankNames::BankhausSchelhammerUndSchatteraAg
            | BankNames::BankIslam
            | BankNames::BankiSpbdzielcze
            | BankNames::BankiSpoldzielcze
            | BankNames::BankMillennium
            | BankNames::BankMuamalat
            | BankNames::BankNowyBfgSa
            | BankNames::BankNowySA
            | BankNames::BankOfAmerica
            | BankNames::BankOfChina
            | BankNames::BankOfScotland
            | BankNames::BankPEKAOSA
            | BankNames::BankPekaoSa
            | BankNames::BankRakyat
            | BankNames::BankSimpananNasional
            | BankNames::Barclays
            | BankNames::BawagPskAg
            | BankNames::BksBankAg
            | BankNames::Blik
            | BankNames::BlikPSP
            | BankNames::BnpParibas
            | BankNames::BNPParibasPoland
            | BankNames::Boz
            | BankNames::BrullKallmusBankAg
            | BankNames::BtvVierLanderBank
            | BankNames::Bunq
            | BankNames::CapitalBankGraweGruppeAg
            | BankNames::CapitalOne
            | BankNames::CeskaSporitelna
            | BankNames::Chase
            | BankNames::CimbBank
            | BankNames::Citi
            | BankNames::CreditAgricole
            | BankNames::DanskeBank
            | BankNames::Discover
            | BankNames::Dolomitenbank
            | BankNames::EasybankAg
            | BankNames::EnveloBank
            | BankNames::EPlatbyVUB
            | BankNames::ErsteBankUndSparkassen
            | BankNames::ETransferPocztowy24
            | BankNames::EtransferPocztowy24
            | BankNames::FirstDirect
            | BankNames::FirstTrust
            | BankNames::FrieslandBank
            | BankNames::GetinBank
            | BankNames::Halifax
            | BankNames::Handelsbanken
            | BankNames::HongLeongBank
            | BankNames::HsbcBank
            | BankNames::HypoAlpeadriabankInternationalAg
            | BankNames::HypoBankBurgenlandAktiengesellschaft
            | BankNames::HypoNoeLbFurNiederosterreichUWien
            | BankNames::HypoOberosterreichSalzburgSteiermark
            | BankNames::HypoTirolBankAg
            | BankNames::HypoVorarlbergBankAg
            | BankNames::IdeaBank
            | BankNames::Ing
            | BankNames::Inteligo
            | BankNames::Knab
            | BankNames::KomercniBanka
            | BankNames::KuwaitFinanceHouse
            | BankNames::Lloyds
            | BankNames::MarchfelderBank
            | BankNames::Maybank
            | BankNames::MBank
            | BankNames::MbankMtransfer
            | BankNames::Moneyou
            | BankNames::Monzo
            | BankNames::N26
            | BankNames::NationaleNederlanden
            | BankNames::NationwideBank
            | BankNames::NatWest
            | BankNames::NavyFederalCreditUnion
            | BankNames::NestPrzelew
            | BankNames::NoblePay
            | BankNames::OberbankAg
            | BankNames::OcbcBank
            | BankNames::OpenBankCancelled
            | BankNames::OpenBankFailure
            | BankNames::OpenBankSuccess
            | BankNames::OsterreichischeArzteUndApothekerbank
            | BankNames::PayWithAliorBank
            | BankNames::PayWithBOS
            | BankNames::PayWithCitiHandlowy
            | BankNames::PayWithING
            | BankNames::PayWithInteligo
            | BankNames::PayWithPlusBank
            | BankNames::PbacZIpko
            | BankNames::PentagonFederalCreditUnion
            | BankNames::PlaceZIPKO
            | BankNames::PlatnoscOnlineKartaPlatnicza
            | BankNames::PlusBank
            | BankNames::PosojilnicaBankEGen
            | BankNames::PostovaBanka
            | BankNames::PublicBank
            | BankNames::Rabobank
            | BankNames::RaiffeisenBankengruppeOsterreich
            | BankNames::Regiobank
            | BankNames::Revolut
            | BankNames::RhbBank
            | BankNames::RoyalBankOfScotland
            | BankNames::SantanderPrzelew24
            | BankNames::SchelhammerCapitalBankAg
            | BankNames::SchoellerbankAg
            | BankNames::SnsBank
            | BankNames::SpardaBankWien
            | BankNames::SporoPay
            | BankNames::StandardCharteredBank
            | BankNames::Starling
            | BankNames::SynchronyBank
            | BankNames::TatraPay
            | BankNames::TescoBank
            | BankNames::ToyotaBank
            | BankNames::TriodosBank
            | BankNames::TsbBank
            | BankNames::UlsterBank
            | BankNames::UobBank
            | BankNames::VanLanschot
            | BankNames::VeloBank
            | BankNames::Viamo
            | BankNames::VolksbankGruppe
            | BankNames::VolkskreditbankAg
            | BankNames::VolkswagenBank
            | BankNames::VrBankBraunau
            | BankNames::WellsFargo
            | BankNames::Yoursafe => Err(
                ConnectorError::NotImplemented { connector: "Adyen", feature: "OnlineBankingThailand issuer" },
            ),
        }
    }
}

impl OpenBankingUKIssuer {
    /// The UK bank that stands for a bank of the canonical model.
    pub open spec fn spec_try_from(bank_name: BankNames) -> Result<Self, ConnectorError> {
        match bank_name {
            BankNames::OpenBankSuccess => Ok(OpenBankingUKIssuer::RedirectSuccess),
            BankNames::OpenBankFailure => Ok(OpenBankingUKIssuer::RedirectFailure),
            BankNames::OpenBankCancelled => Ok(OpenBankingUKIssuer::RedirectCancelled),
            BankNames::Aib => Ok(OpenBankingUKIssuer::Aib),
            BankNames::BankOfScotland => Ok(OpenBankingUKIssuer::BankOfScotland),
            BankNames::Barclays => Ok(OpenBankingUKIssuer::Barclays),
            BankNames::DanskeBank => Ok(OpenBankingUKIssuer::DanskeBank),
            BankNames::FirstDirect => Ok(OpenBankingUKIssuer::FirstDirect),
            BankNames::FirstTrust => Ok(OpenBankingUKIssuer::FirstTrust),
            BankNames::HsbcBank => Ok(OpenBankingUKIssuer::HsbcBank),
            BankNames::Halifax => Ok(OpenBankingUKIssuer::Halifax),
            BankNames::Lloyds => Ok(OpenBankingUKIssuer::Lloyds),
            BankNames::Monzo => Ok(OpenBankingUKIssuer::Monzo),
            BankNames::NatWest => Ok(OpenBankingUKIssuer::NatWest),
            BankNames::NationwideBank => Ok(OpenBankingUKIssuer::NationwideBank),
            BankNames::Revolut => Ok(OpenBankingUKIssuer::Revolut),
            BankNames::RoyalBankOfScotland => Ok(OpenBankingUKIssuer::RoyalBankOfScotland),
            BankNames::SantanderPrzelew24 => Ok(OpenBankingUKIssuer::SantanderPrzelew24),
            BankNames::Starling => Ok(OpenBankingUKIssuer::Starling),
            BankNames::TsbBank => Ok(OpenBankingUKIssuer::TsbBank),
            BankNames::TescoBank => Ok(OpenBankingUKIssuer::TescoBank),
            BankNames::UlsterBank => Ok(OpenBankingUKIssuer::UlsterBank),
            _ => Err(ConnectorError::NotImplemented { connector: "Adyen", feature: "OpenBankingUk issuer" }),
        }
    }

    /// The UK bank that stands for a bank of the canonical model.
    pub fn try_from(bank_name: &BankNames) -> (res: Result<Self, ConnectorError>)
        ensures
            res == Self::spec_try_from(*bank_name),
    {
        match bank_name {
            BankNames::OpenBankSuccess => Ok(OpenBankingUKIssuer::RedirectSuccess),
            BankNames::OpenBankFailure => Ok(OpenBankingUKIssuer::RedirectFailure),
            BankNames::OpenBankCancelled => Ok(OpenBankingUKIssuer::RedirectCancelled),
            BankNames::Aib => Ok(OpenBankingUKIssuer::Aib),
            BankNames::BankOfScotland => Ok(OpenBankingUKIssuer::BankOfScotland),
            BankNames::Barclays => Ok(OpenBankingUKIssuer::Barclays),
            BankNames::DanskeBank => Ok(OpenBankingUKIssuer::DanskeBank),
            BankNames::FirstDirect => Ok(OpenBankingUKIssuer::FirstDirect),
            BankNames::FirstTrust => Ok(OpenBankingUKIssuer::FirstTrust),
            BankNames::HsbcBank => Ok(OpenBankingUKIssuer::HsbcBank),
            BankNames::Halifax => Ok(OpenBankingUKIssuer::Halifax),
            BankNames::Lloyds => Ok(OpenBankingUKIssuer::Lloyds),
            BankNames::Monzo => Ok(OpenBankingUKIssuer::Monzo),
            BankNames::NatWest => Ok(OpenBankingUKIssuer::NatWest),
            BankNames::NationwideBank => Ok(OpenBankingUKIssuer::NationwideBank),
            BankNames::Revolut => Ok(OpenBankingUKIssuer::Revolut),
            BankNames::RoyalBankOfScotland => Ok(OpenBankingUKIssuer::RoyalBankOfScotland),
            BankNames::SantanderPrzelew24 => Ok(OpenBankingUKIssuer::SantanderPrzelew24),
            BankNames::Starling => Ok(OpenBankingUKIssuer::Starling),
            BankNames::TsbBank => Ok(OpenBankingUKIssuer::TsbBank),
            BankNames::TescoBank => Ok(OpenBankingUKIssuer::TescoBank),
            BankNames::UlsterBank => Ok(OpenBankingUKIssuer::UlsterBank),
            BankNames::AbnAmro
            | BankNames::AffinBank
            | BankNames::AgroBank
            | BankNames::AliorBank
            | BankNames::AllianceBank
            | BankNames::AmBank
            | BankNames::AmericanExpress
            | BankNames::ArzteUndApothekerBank
            | BankNames::AsnBank
            | BankNames::AustrianAnadiBankAg
            | BankNames::BangkokBank
            | BankNames::Bank99Ag
            | BankNames::BankAustria
            | BankNames::BankhausCarlSpangler
            | BankNames::BankhausSchelhammerUndSchatteraAg
            | BankNames::BankIslam
            | BankNames::BankiSpbdzielcze
            | BankNames::BankiSpoldzielcze
            | BankNames::BankMillennium
            | BankNames::BankMuamalat
            | BankNames::BankNowyBfgSa
            | BankNames::BankNowySA
            | BankNames::BankOfAmerica
            | BankNames::BankOfChina
            | BankNames::BankPEKAOSA
            | BankNames::BankPekaoSa
            | BankNames::BankRakyat
            | BankNames::BankSimpananNasional
            | BankNames::BawagPskAg
            | BankNames::BksBankAg
            | BankNames::Blik
            | BankNames::BlikPSP
            | BankNames::BnpParibas
            | BankNames::BNPParibasPoland
            | BankNames::Boz
            | BankNames::BrullKallmusBankAg
            | BankNames::BtvVierLanderBank
            | BankNames::Bunq
            | BankNames::CapitalBankGraweGruppeAg
            | BankNames::CapitalOne
            | BankNames::CeskaSporitelna
            | BankNames::Chase
            | BankNames::CimbBank
            | BankNames::Citi
            | BankNames::CreditAgricole
            | BankNames::Discover
            | BankNames::Dolomitenbank
            | BankNames::EasybankAg
            | BankNames::EnveloBank
            | BankNames::EPlatbyVUB
            | BankNames::ErsteBankUndSparkassen
            | BankNames::ETransferPocztowy24
            | BankNames::EtransferPocztowy24
            | BankNames::FrieslandBank
            | BankNames::GetinBank
            | BankNames::Handelsbanken
            | BankNames::HongLeongBank
            | BankNames::HypoAlpeadriabankInternationalAg
            | BankNames::HypoBankBurgenlandAktiengesellschaft
            | BankNames::HypoNoeLbFurNiederosterreichUWien
            | BankNames::HypoOberosterreichSalzburgSteiermark
            | BankNames::HypoTirolBankAg
            | BankNames::HypoVorarlbergBankAg
            | BankNames::IdeaBank
            | BankNames::Ing
            | BankNames::Inteligo
            | BankNames::KasikornBank
            | BankNames::Knab
            | BankNames::KomercniBanka
            | BankNames::KrungsriBank
            | BankNames::KrungThaiBank
            | BankNames::KuwaitFinanceHouse
            | BankNames::MarchfelderBank
            | BankNames::Maybank
            | BankNames::MBank
            | BankNames::MbankMtransfer
            | BankNames::Moneyou
            | BankNames::N26
            | BankNames::NationaleNederlanden
            | BankNames::NavyFederalCreditUnion
            | BankNames::NestPrzelew
            | BankNames::NoblePay
            | BankNames::OberbankAg
            | BankNames::OcbcBank
            | BankNames::OsterreichischeArzteUndApothekerbank
            | BankNames::PayWithAliorBank
            | BankNames::PayWithBOS
            | BankNames::PayWithCitiHandlowy
            | BankNames::PayWithING
            | BankNames::PayWithInteligo
            | BankNames::PayWithPlusBank
            | BankNames::PbacZIpko
            | BankNames::PentagonFederalCreditUnion
            | BankNames::PlaceZIPKO
            | BankNames::PlatnoscOnlineKartaPlatnicza
            | BankNames::PlusBank
            | BankNames::PosojilnicaBankEGen
            | BankNames::PostovaBanka
            | BankNames::PublicBank
            | BankNames::Rabobank
            | BankNames::RaiffeisenBankengruppeOsterreich
            | BankNames::Regiobank
            | BankNames::RhbBank
            | BankNames::SchelhammerCapitalBankAg
            | BankNames::SchoellerbankAg
            | BankNames::SnsBank
            | BankNames::SpardaBankWien
            | BankNames::SporoPay
            | BankNames::StandardCharteredBank
            | BankNames::SynchronyBank
            | BankNames::TatraPay
            | BankNames::TheSiamCommercialBank
            | BankNames::ToyotaBank
            | BankNames::TriodosBank
            | BankNames::UobBank
            | BankNames::VanLanschot
            | BankNames::VeloBank
            | BankNames::Viamo
            | BankNames::VolksbankGruppe
            | BankNames::VolkskreditbankAg
            | BankNames::VolkswagenBank
            | BankNames::VrBankBraunau
            | BankNames::WellsFargo
            | BankNames::Yoursafe => Err(
                ConnectorError::NotImplemented { connector: "Adyen", feature: "OpenBankingUk issuer" },
            ),
        }
    }
}

impl AdyenTestBankNames {
    /// The id that a bank of the canonical model has in Adyen's test environment.
    pub open spec fn spec_try_from(bank_name: BankNames) -> Result<Self, ConnectorError> {
        match bank_name {
            BankNames::AbnAmro => Ok(AdyenTestBankNames("1121")),
            BankNames::AsnBank => Ok(AdyenTestBankNames("1151")),
            BankNames::Bunq => Ok(AdyenTestBankNames("1152")),
            BankNames::Ing => Ok(AdyenTestBankNames("1154")),
            BankNames::Knab => Ok(AdyenTestBankNames("1155")),
            BankNames::N26 => Ok(AdyenTestBankNames("1156")),
            BankNames::NationaleNederlanden => Ok(AdyenTestBankNames("1157")),
            BankNames::Rabobank => Ok(AdyenTestBankNames("1157")),
            BankNames::Regiobank => Ok(AdyenTestBankNames("1158")),
            BankNames::Revolut => Ok(AdyenTestBankNames("1159")),
            BankNames::SnsBank => Ok(AdyenTestBankNames("1159")),
            BankNames::TriodosBank => Ok(AdyenTestBankNames("1159")),
            BankNames::VanLanschot => Ok(AdyenTestBankNames("1159")),
            BankNames::Yoursafe => Ok(AdyenTestBankNames("1159")),
            BankNames::BankAustria => Ok(AdyenTestBankNames("e6819e7a-f663-414b-92ec-cf7c82d2f4e5")),
            BankNames::BawagPskAg => Ok(AdyenTestBankNames("ba7199cc-f057-42f2-9856-2378abf21638")),
            BankNames::Dolomitenbank => Ok(AdyenTestBankNames("d5d5b133-1c0d-4c08-b2be-3c9b116dc326")),
            BankNames::EasybankAg => Ok(AdyenTestBankNames("eff103e6-843d-48b7-a6e6-fbd88f511b11")),
            BankNames::SpardaBankWien => Ok(AdyenTestBankNames("8b0bfeea-fbb0-4337-b3a1-0e25c0f060fc")),
            _ => Err(ConnectorError::NotImplemented { connector: "Adyen", feature: "Eps issuer" }),
        }
    }

    /// The id that a bank of the canonical model has in Adyen's test environment.
    pub fn try_from(bank_name: &BankNames) -> (res: Result<Self, ConnectorError>)
        ensures
            res == Self::spec_try_from(*bank_name),
    {
        match bank_name {
            BankNames::AbnAmro => Ok(AdyenTestBankNames("1121")),
            BankNames::AsnBank => Ok(AdyenTestBankNames("1151")),
            BankNames::Bunq => Ok(AdyenTestBankNames("1152")),
            BankNames::Ing => Ok(AdyenTestBankNames("1154")),
            BankNames::Knab => Ok(AdyenTestBankNames("1155")),
            BankNames::N26 => Ok(AdyenTestBankNames("1156")),
            BankNames::NationaleNederlanden => Ok(AdyenTestBankNames("1157")),
            BankNames::Rabobank => Ok(AdyenTestBankNames("1157")),
            BankNames::Regiobank => Ok(AdyenTestBankNames("1158")),
            BankNames::Revolut => Ok(AdyenTestBankNames("1159")),
            BankNames::SnsBank => Ok(AdyenTestBankNames("1159")),
            BankNames::TriodosBank => Ok(AdyenTestBankNames("1159")),
            BankNames::VanLanschot => Ok(AdyenTestBankNames("1159")),
            BankNames::Yoursafe => Ok(AdyenTestBankNames("1159")),
            BankNames::BankAustria => Ok(AdyenTestBankNames("e6819e7a-f663-414b-92ec-cf7c82d2f4e5")),
            BankNames::BawagPskAg => Ok(AdyenTestBankNames("ba7199cc-f057-42f2-9856-2378abf21638")),
            BankNames::Dolomitenbank => Ok(AdyenTestBankNames("d5d5b133-1c0d-4c08-b2be-3c9b116dc326")),
            BankNames::EasybankAg => Ok(AdyenTestBankNames("eff103e6-843d-48b7-a6e6-fbd88f511b11")),
            BankNames::SpardaBankWien => Ok(AdyenTestBankNames("8b0bfeea-fbb0-4337-b3a1-0e25c0f060fc")),
            BankNames::AffinBank
            | BankNames::AgroBank
            | BankNames::Aib
            | BankNames::AliorBank
            | BankNames::AllianceBank
            | BankNames::AmBank
            | BankNames::AmericanExpress
            | BankNames::ArzteUndApothekerBank
            | BankNames::AustrianAnadiBankAg
            | BankNames::BangkokBank
            | BankNames::Bank99Ag
            | BankNames::BankhausCarlSpangler
            | BankNames::BankhausSchelhammerUndSchatteraAg
            | BankNames::BankIslam
            | BankNames::BankiSpbdzielcze
            | BankNames::BankiSpoldzielcze
            | BankNames::BankMillennium
            | BankNames::BankMuamalat
            | BankNames::BankNowyBfgSa
            | BankNames::BankNowySA
            | BankNames::BankOfAmerica
            | BankNames::BankOfChina
            | BankNames::BankOfScotland
            | BankNames::BankPEKAOSA
            | BankNames::BankPekaoSa
            | BankNames::BankRakyat
            | BankNames::BankSimpananNasional
            | BankNames::Barclays
            | BankNames::BksBankAg
            | BankNames::Blik
            | BankNames::BlikPSP
            | BankNames::BnpParibas
            | BankNames::BNPParibasPoland
            | BankNames::Boz
            | BankNames::BrullKallmusBankAg
            | BankNames::BtvVierLanderBank
            | BankNames::CapitalBankGraweGruppeAg
            | BankNames::CapitalOne
            | BankNames::CeskaSporitelna
            | BankNames::Chase
            | BankNames::CimbBank
            | BankNames::Citi
            | BankNames::CreditAgricole
            | BankNames::DanskeBank
            | BankNames::Discover
            | BankNames::EnveloBank
            | BankNames::EPlatbyVUB
            | BankNames::ErsteBankUndSparkassen
            | BankNames::ETransferPocztowy24
            | BankNames::EtransferPocztowy24
            | BankNames::FirstDirect
            | BankNames::FirstTrust
            | BankNames::FrieslandBank
            | BankNames::GetinBank
            | BankNames::Halifax
            | BankNames::Handelsbanken
            | BankNames::HongLeongBank
            | BankNames::HsbcBank
            | BankNames::HypoAlpeadriabankInternationalAg
            | BankNames::HypoBankBurgenlandAktiengesellschaft
            | BankNames::HypoNoeLbFurNiederosterreichUWien
            | BankNames::HypoOberosterreichSalzburgSteiermark
            | BankNames::HypoTirolBankAg
            | BankNames::HypoVorarlbergBankAg
            | BankNames::IdeaBank
            | BankNames::Inteligo
            | BankNames::KasikornBank
            | BankNames::KomercniBanka
            | BankNames::KrungsriBank
            | BankNames::KrungThaiBank
            | BankNames::KuwaitFinanceHouse
            | BankNames::Lloyds
            | BankNames::MarchfelderBank
            | BankNames::Maybank
            | BankNames::MBank
            | BankNames::MbankMtransfer
            | BankNames::Moneyou
            | BankNames::Monzo
            | BankNames::NationwideBank
            | BankNames::NatWest
            | BankNames::NavyFederalCreditUnion
            | BankNames::NestPrzelew
            | BankNames::NoblePay
            | BankNames::OberbankAg
            | BankNames::OcbcBank
            | BankNames::OpenBankCancelled
            | BankNames::OpenBankFailure
            | BankNames::OpenBankSuccess
            | BankNames::OsterreichischeArzteUndApothekerbank
            | BankNames::PayWithAliorBank
            | BankNames::PayWithBOS
            | BankNames::PayWithCitiHandlowy
            | BankNames::PayWithING
            | BankNames::PayWithInteligo
            | BankNames::PayWithPlusBank
            | BankNames::PbacZIpko
            | BankNames::PentagonFederalCreditUnion
            | BankNames::PlaceZIPKO
            | BankNames::PlatnoscOnlineKartaPlatnicza
            | BankNames::PlusBank
            | BankNames::PosojilnicaBankEGen
            | BankNames::PostovaBanka
            | BankNames::PublicBank
            | BankNames::RaiffeisenBankengruppeOsterreich
            | BankNames::RhbBank
            | BankNames::RoyalBankOfScotland
            | BankNames::SantanderPrzelew24
            | BankNames::SchelhammerCapitalBankAg
            | BankNames::SchoellerbankAg
            | BankNames::SporoPay
            | BankNames::StandardCharteredBank
            | BankNames::Starling
            | BankNames::SynchronyBank
            | BankNames::TatraPay
            | BankNames::TescoBank
            | BankNames::TheSiamCommercialBank
            | BankNames::ToyotaBank
            | BankNames::TsbBank
            | BankNames::UlsterBank
            | BankNames::UobBank
            | BankNames::VeloBank
            | BankNames::Viamo
            | BankNames::VolksbankGruppe
            | BankNames::VolkskreditbankAg
            | BankNames::VolkswagenBank
            | BankNames::VrBankBraunau
            | BankNames::WellsFargo => Err(
                ConnectorError::NotImplemented { connector: "Adyen", feature: "Eps issuer" },
            ),
        }
    }
}

} // verus!
