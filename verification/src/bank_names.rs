//! The banks that a bank redirect or an online-banking payment can name.

use vstd::prelude::*;

verus! {

/// A bank, as the canonical model names it. Each connector maps the banks it
/// works with to its own issuer codes and rejects the others.
#[derive(Clone, Copy, Debug, PartialEq, Eq, Hash, Structural)]
pub enum BankNames {
    AbnAmro,
    AffinBank,
    AgroBank,
    Aib,
    AliorBank,
    AllianceBank,
    AmBank,
    AmericanExpress,
    ArzteUndApothekerBank,
    AsnBank,
    AustrianAnadiBankAg,
    BangkokBank,
    Bank99Ag,
    BankAustria,
    BankhausCarlSpangler,
    BankhausSchelhammerUndSchatteraAg,
    BankIslam,
    BankiSpbdzielcze,
    BankiSpoldzielcze,
    BankMillennium,
    BankMuamalat,
    BankNowyBfgSa,
    BankNowySA,
    BankOfAmerica,
    BankOfChina,
    BankOfScotland,
    BankPEKAOSA,
    BankPekaoSa,
    BankRakyat,
    BankSimpananNasional,
    Barclays,
    BawagPskAg,
    BksBankAg,
    Blik,
    BlikPSP,
    BnpParibas,
    BNPParibasPoland,
    Boz,
    BrullKallmusBankAg,
    BtvVierLanderBank,
    Bunq,
    CapitalBankGraweGruppeAg,
    CapitalOne,
    CeskaSporitelna,
    Chase,
    CimbBank,
    Citi,
    CreditAgricole,
    DanskeBank,
    Discover,
    Dolomitenbank,
    EasybankAg,
    EnveloBank,
    EPlatbyVUB,
    ErsteBankUndSparkassen,
    ETransferPocztowy24,
    EtransferPocztowy24,
    FirstDirect,
    FirstTrust,
    FrieslandBank,
    GetinBank,
    Halifax,
    Handelsbanken,
    HongLeongBank,
    HsbcBank,
    HypoAlpeadriabankInternationalAg,
    HypoBankBurgenlandAktiengesellschaft,
    HypoNoeLbFurNiederosterreichUWien,
    HypoOberosterreichSalzburgSteiermark,
    HypoTirolBankAg,
    HypoVorarlbergBankAg,
    IdeaBank,
    Ing,
    Inteligo,
    KasikornBank,
    Knab,
    KomercniBanka,
    KrungsriBank,
    KrungThaiBank,
    KuwaitFinanceHouse,
    Lloyds,
    MarchfelderBank,
    Maybank,
    MBank,
    MbankMtransfer,
    Moneyou,
    Monzo,
    N26,
    NationaleNederlanden,
    NationwideBank,
    NatWest,
    NavyFederalCreditUnion,
    NestPrzelew,
    NoblePay,
    OberbankAg,
    OcbcBank,
    OpenBankCancelled,
    OpenBankFailure,
    OpenBankSuccess,
    OsterreichischeArzteUndApothekerbank,
    PayWithAliorBank,
    PayWithBOS,
    PayWithCitiHandlowy,
    PayWithING,
    PayWithInteligo,
    PayWithPlusBank,
    PbacZIpko,
    PentagonFederalCreditUnion,
    PlaceZIPKO,
    PlatnoscOnlineKartaPlatnicza,
    PlusBank,
    PosojilnicaBankEGen,
    PostovaBanka,
    PublicBank,
    Rabobank,
    RaiffeisenBankengruppeOsterreich,
    Regiobank,
    Revolut,
    RhbBank,
    RoyalBankOfScotland,
    SantanderPrzelew24,
    SchelhammerCapitalBankAg,
    SchoellerbankAg,
    SnsBank,
    SpardaBankWien,
    SporoPay,
    StandardCharteredBank,
    Starling,
    SynchronyBank,
    TatraPay,
    TescoBank,
    TheSiamCommercialBank,
    ToyotaBank,
    TriodosBank,
    TsbBank,
    UlsterBank,
    UobBank,
    VanLanschot,
    VeloBank,
    Viamo,
    VolksbankGruppe,
    VolkskreditbankAg,
    VolkswagenBank,
    VrBankBraunau,
    WellsFargo,
    Yoursafe,
}

} // verus!
