//! Currencies, and amounts of money in their minor units.

use vstd::prelude::*;
use crate::errors::ConnectorError;
use crate::enums::CurrencyUnit;
use crate::text::{decimal, decimal_padded, decimal_string, decimal_string_padded, str_eq};

verus! {

/// A currency, named by its ISO 4217 code.
#[derive(Clone, Copy, Debug, PartialEq, Eq, Hash, Structural)]
pub enum Currency {
    AED,
    AFN,
    ALL,
    AMD,
    ANG,
    AOA,
    ARS,
    AUD,
    AWG,
    AZN,
    BAM,
    BBD,
    BDT,
    BGN,
    BHD,
    BIF,
    BMD,
    BND,
    BOB,
    BRL,
    BSD,
    BTN,
    BWP,
    BYN,
    BZD,
    CAD,
    CDF,
    CHF,
    CLF,
    CLP,
    CNY,
    COP,
    CRC,
    CUC,
    CUP,
    CVE,
    CZK,
    DJF,
    DKK,
    DOP,
    DZD,
    EGP,
    ERN,
    ETB,
    EUR,
    FJD,
    FKP,
    GBP,
    GEL,
    GHS,
    GIP,
    GMD,
    GNF,
    GTQ,
    GYD,
    HKD,
    HNL,
    HRK,
    HTG,
    HUF,
    IDR,
    ILS,
    INR,
    IQD,
    IRR,
    ISK,
    JMD,
    JOD,
    JPY,
    KES,
    KGS,
    KHR,
    KMF,
    KPW,
    KRW,
    KWD,
    KYD,
    KZT,
    LAK,
    LBP,
    LKR,
    LRD,
    LSL,
    LYD,
    MAD,
    MDL,
    MGA,
    MKD,
    MMK,
    MNT,
    MOP,
    MRU,
    MUR,
    MVR,
    MWK,
    MXN,
    MYR,
    MZN,
    NAD,
    NGN,
    NIO,
    NOK,
    NPR,
    NZD,
    OMR,
    PAB,
    PEN,
    PGK,
    PHP,
    PKR,
    PLN,
    PYG,
    QAR,
    RON,
    RSD,
    RUB,
    RWF,
    SAR,
    SBD,
    SCR,
    SDG,
    SEK,
    SGD,
    SHP,
    SLE,
    SLL,
    SOS,
    SRD,
    SSP,
    STD,
    STN,
    SVC,
    SYP,
    SZL,
    THB,
    TJS,
    TMT,
    TND,
    TOP,
    TRY,
    TTD,
    TWD,
    TZS,
    UAH,
    UGX,
    USD,
    UYU,
    UZS,
    VES,
    VND,
    VUV,
    WST,
    XAF,
    XCD,
    XOF,
    XPF,
    YER,
    ZAR,
    ZMW,
    ZWL,
}

impl Currency {
    /// The three-letter code of the currency.
    pub open spec fn spec_code(self) -> &'static str {
        match self {
            Currency::AED => "AED",
            Currency::AFN => "AFN",
            Currency::ALL => "ALL",
            Currency::AMD => "AMD",
            Currency::ANG => "ANG",
            Currency::AOA => "AOA",
            Currency::ARS => "ARS",
            Currency::AUD => "AUD",
            Currency::AWG => "AWG",
            Currency::AZN => "AZN",
            Currency::BAM => "BAM",
            Currency::BBD => "BBD",
            Currency::BDT => "BDT",
            Currency::BGN => "BGN",
            Currency::BHD => "BHD",
            Currency::BIF => "BIF",
            Currency::BMD => "BMD",
            Currency::BND => "BND",
            Currency::BOB => "BOB",
            Currency::BRL => "BRL",
            Currency::BSD => "BSD",
            Currency::BTN => "BTN",
            Currency::BWP => "BWP",
            Currency::BYN => "BYN",
            Currency::BZD => "BZD",
            Currency::CAD => "CAD",
            Currency::CDF => "CDF",
            Currency::CHF => "CHF",
            Currency::CLF => "CLF",
            Currency::CLP => "CLP",
            Currency::CNY => "CNY",
            Currency::COP => "COP",
            Currency::CRC => "CRC",
            Currency::CUC => "CUC",
            Currency::CUP => "CUP",
            Currency::CVE => "CVE",
            Currency::CZK => "CZK",
            Currency::DJF => "DJF",
            Currency::DKK => "DKK",
            Currency::DOP => "DOP",
            Currency::DZD => "DZD",
            Currency::EGP => "EGP",
            Currency::ERN => "ERN",
            Currency::ETB => "ETB",
            Currency::EUR => "EUR",
            Currency::FJD => "FJD",
            Currency::FKP => "FKP",
            Currency::GBP => "GBP",
            Currency::GEL => "GEL",
            Currency::GHS => "GHS",
            Currency::GIP => "GIP",
            Currency::GMD => "GMD",
            Currency::GNF => "GNF",
            Currency::GTQ => "GTQ",
            Currency::GYD => "GYD",
            Currency::HKD => "HKD",
            Currency::HNL => "HNL",
            Currency::HRK => "HRK",
            Currency::HTG => "HTG",
            Currency::HUF => "HUF",
            Currency::IDR => "IDR",
            Currency::ILS => "ILS",
            Currency::INR => "INR",
            Currency::IQD => "IQD",
            Currency::IRR => "IRR",
            Currency::ISK => "ISK",
            Currency::JMD => "JMD",
            Currency::JOD => "JOD",
            Currency::JPY => "JPY",
            Currency::KES => "KES",
            Currency::KGS => "KGS",
            Currency::KHR => "KHR",
            Currency::KMF => "KMF",
            Currency::KPW => "KPW",
            Currency::KRW => "KRW",
            Currency::KWD => "KWD",
            Currency::KYD => "KYD",
            Currency::KZT => "KZT",
            Currency::LAK => "LAK",
            Currency::LBP => "LBP",
            Currency::LKR => "LKR",
            Currency::LRD => "LRD",
            Currency::LSL => "LSL",
            Currency::LYD => "LYD",
            Currency::MAD => "MAD",
            Currency::MDL => "MDL",
            Currency::MGA => "MGA",
            Currency::MKD => "MKD",
            Currency::MMK => "MMK",
            Currency::MNT => "MNT",
            Currency::MOP => "MOP",
            Currency::MRU => "MRU",
            Currency::MUR => "MUR",
            Currency::MVR => "MVR",
            Currency::MWK => "MWK",
            Currency::MXN => "MXN",
            Currency::MYR => "MYR",
            Currency::MZN => "MZN",
            Currency::NAD => "NAD",
            Currency::NGN => "NGN",
            Currency::NIO => "NIO",
            Currency::NOK => "NOK",
            Currency::NPR => "NPR",
            Currency::NZD => "NZD",
            Currency::OMR => "OMR",
            Currency::PAB => "PAB",
            Currency::PEN => "PEN",
            Currency::PGK => "PGK",
            Currency::PHP => "PHP",
            Currency::PKR => "PKR",
            Currency::PLN => "PLN",
            Currency::PYG => "PYG",
            Currency::QAR => "QAR",
            Currency::RON => "RON",
            Currency::RSD => "RSD",
            Currency::RUB => "RUB",
            Currency::RWF => "RWF",
            Currency::SAR => "SAR",
            Currency::SBD => "SBD",
            Currency::SCR => "SCR",
            Currency::SDG => "SDG",
            Currency::SEK => "SEK",
            Currency::SGD => "SGD",
            Currency::SHP => "SHP",
            Currency::SLE => "SLE",
            Currency::SLL => "SLL",
            Currency::SOS => "SOS",
            Currency::SRD => "SRD",
            Currency::SSP => "SSP",
            Currency::STD => "STD",
            Currency::STN => "STN",
            Currency::SVC => "SVC",
            Currency::SYP => "SYP",
            Currency::SZL => "SZL",
            Currency::THB => "THB",
            Currency::TJS => "TJS",
            Currency::TMT => "TMT",
            Currency::TND => "TND",
            Currency::TOP => "TOP",
            Currency::TRY => "TRY",
            Currency::TTD => "TTD",
            Currency::TWD => "TWD",
            Currency::TZS => "TZS",
            Currency::UAH => "UAH",
            Currency::UGX => "UGX",
            Currency::USD => "USD",
            Currency::UYU => "UYU",
            Currency::UZS => "UZS",
            Currency::VES => "VES",
            Currency::VND => "VND",
            Currency::VUV => "VUV",
            Currency::WST => "WST",
            Currency::XAF => "XAF",
            Currency::XCD => "XCD",
            Currency::XOF => "XOF",
            Currency::XPF => "XPF",
            Currency::YER => "YER",
            Currency::ZAR => "ZAR",
            Currency::ZMW => "ZMW",
            Currency::ZWL => "ZWL",
        }
    }

    /// The three-letter code of the currency.
    pub fn code(&self) -> (res: &'static str)
        ensures
            res == self.spec_code(),
    {
        match self {
            Currency::AED => "AED",
            Currency::AFN => "AFN",
            Currency::ALL => "ALL",
            Currency::AMD => "AMD",
            Currency::ANG => "ANG",
            Currency::AOA => "AOA",
            Currency::ARS => "ARS",
            Currency::AUD => "AUD",
            Currency::AWG => "AWG",
            Currency::AZN => "AZN",
            Currency::BAM => "BAM",
            Currency::BBD => "BBD",
            Currency::BDT => "BDT",
            Currency::BGN => "BGN",
            Currency::BHD => "BHD",
            Currency::BIF => "BIF",
            Currency::BMD => "BMD",
            Currency::BND => "BND",
            Currency::BOB => "BOB",
            Currency::BRL => "BRL",
            Currency::BSD => "BSD",
            Currency::BTN => "BTN",
            Currency::BWP => "BWP",
            Currency::BYN => "BYN",
            Currency::BZD => "BZD",
            Currency::CAD => "CAD",
            Currency::CDF => "CDF",
            Currency::CHF => "CHF",
            Currency::CLF => "CLF",
            Currency::CLP => "CLP",
            Currency::CNY => "CNY",
            Currency::COP => "COP",
            Currency::CRC => "CRC",
            Currency::CUC => "CUC",
            Currency::CUP => "CUP",
            Currency::CVE => "CVE",
            Currency::CZK => "CZK",
            Currency::DJF => "DJF",
            Currency::DKK => "DKK",
            Currency::DOP => "DOP",
            Currency::DZD => "DZD",
            Currency::EGP => "EGP",
            Currency::ERN => "ERN",
            Currency::ETB => "ETB",
            Currency::EUR => "EUR",
            Currency::FJD => "FJD",
            Currency::FKP => "FKP",
            Currency::GBP => "GBP",
            Currency::GEL => "GEL",
            Currency::GHS => "GHS",
            Currency::GIP => "GIP",
            Currency::GMD => "GMD",
            Currency::GNF => "GNF",
            Currency::GTQ => "GTQ",
            Currency::GYD => "GYD",
            Currency::HKD => "HKD",
            Currency::HNL => "HNL",
            Currency::HRK => "HRK",
            Currency::HTG => "HTG",
            Currency::HUF => "HUF",
            Currency::IDR => "IDR",
            Currency::ILS => "ILS",
            Currency::INR => "INR",
            Currency::IQD => "IQD",
            Currency::IRR => "IRR",
            Currency::ISK => "ISK",
            Currency::JMD => "JMD",
            Currency::JOD => "JOD",
            Currency::JPY => "JPY",
            Currency::KES => "KES",
            Currency::KGS => "KGS",
            Currency::KHR => "KHR",
            Currency::KMF => "KMF",
            Currency::KPW => "KPW",
            Currency::KRW => "KRW",
            Currency::KWD => "KWD",
            Currency::KYD => "KYD",
            Currency::KZT => "KZT",
            Currency::LAK => "LAK",
            Currency::LBP => "LBP",
            Currency::LKR => "LKR",
            Currency::LRD => "LRD",
            Currency::LSL => "LSL",
            Currency::LYD => "LYD",
            Currency::MAD => "MAD",
            Currency::MDL => "MDL",
            Currency::MGA => "MGA",
            Currency::MKD => "MKD",
            Currency::MMK => "MMK",
            Currency::MNT => "MNT",
            Currency::MOP => "MOP",
            Currency::MRU => "MRU",
            Currency::MUR => "MUR",
            Currency::MVR => "MVR",
            Currency::MWK => "MWK",
            Currency::MXN => "MXN",
            Currency::MYR => "MYR",
            Currency::MZN => "MZN",
            Currency::NAD => "NAD",
            Currency::NGN => "NGN",
            Currency::NIO => "NIO",
            Currency::NOK => "NOK",
            Currency::NPR => "NPR",
            Currency::NZD => "NZD",
            Currency::OMR => "OMR",
            Currency::PAB => "PAB",
            Currency::PEN => "PEN",
            Currency::PGK => "PGK",
            Currency::PHP => "PHP",
            Currency::PKR => "PKR",
            Currency::PLN => "PLN",
            Currency::PYG => "PYG",
            Currency::QAR => "QAR",
            Currency::RON => "RON",
            Currency::RSD => "RSD",
            Currency::RUB => "RUB",
            Currency::RWF => "RWF",
            Currency::SAR => "SAR",
            Currency::SBD => "SBD",
            Currency::SCR => "SCR",
            Currency::SDG => "SDG",
            Currency::SEK => "SEK",
            Currency::SGD => "SGD",
            Currency::SHP => "SHP",
            Currency::SLE => "SLE",
            Currency::SLL => "SLL",
            Currency::SOS => "SOS",
            Currency::SRD => "SRD",
            Currency::SSP => "SSP",
            Currency::STD => "STD",
            Currency::STN => "STN",
            Currency::SVC => "SVC",
            Currency::SYP => "SYP",
            Currency::SZL => "SZL",
            Currency::THB => "THB",
            Currency::TJS => "TJS",
            Currency::TMT => "TMT",
            Currency::TND => "TND",
            Currency::TOP => "TOP",
            Currency::TRY => "TRY",
            Currency::TTD => "TTD",
            Currency::TWD => "TWD",
            Currency::TZS => "TZS",
            Currency::UAH => "UAH",
            Currency::UGX => "UGX",
            Currency::USD => "USD",
            Currency::UYU => "UYU",
            Currency::UZS => "UZS",
            Currency::VES => "VES",
            Currency::VND => "VND",
            Currency::VUV => "VUV",
            Currency::WST => "WST",
            Currency::XAF => "XAF",
            Currency::XCD => "XCD",
            Currency::XOF => "XOF",
            Currency::XPF => "XPF",
            Currency::YER => "YER",
            Currency::ZAR => "ZAR",
            Currency::ZMW => "ZMW",
            Currency::ZWL => "ZWL",
        }
    }

    /// Reads a currency from its three-letter code in capitals. A text that
    /// is the code of no currency reads as none.
    pub fn from_code(code: &str) -> (res: Option<Self>)
        ensures
            match res {
                Some(currency) => currency.spec_code()@ == code@,
                None => forall|currency: Currency| currency.spec_code()@ != code@,
            },
    {
        if str_eq(code, "AED") {
            Some(Currency::AED)
        } else if str_eq(code, "AFN") {
            Some(Currency::AFN)
        } else if str_eq(code, "ALL") {
            Some(Currency::ALL)
        } else if str_eq(code, "AMD") {
            Some(Currency::AMD)
        } else if str_eq(code, "ANG") {
            Some(Currency::ANG)
        } else if str_eq(code, "AOA") {
            Some(Currency::AOA)
        } else if str_eq(code, "ARS") {
            Some(Currency::ARS)
        } else if str_eq(code, "AUD") {
            Some(Currency::AUD)
        } else if str_eq(code, "AWG") {
            Some(Currency::AWG)
        } else if str_eq(code, "AZN") {
            Some(Currency::AZN)
        } else if str_eq(code, "BAM") {
            Some(Currency::BAM)
        } else if str_eq(code, "BBD") {
            Some(Currency::BBD)
        } else if str_eq(code, "BDT") {
            Some(Currency::BDT)
        } else if str_eq(code, "BGN") {
            Some(Currency::BGN)
        } else if str_eq(code, "BHD") {
            Some(Currency::BHD)
        } else if str_eq(code, "BIF") {
            Some(Currency::BIF)
        } else if str_eq(code, "BMD") {
            Some(Currency::BMD)
        } else if str_eq(code, "BND") {
            Some(Currency::BND)
        } else if str_eq(code, "BOB") {
            Some(Currency::BOB)
        } else if str_eq(code, "BRL") {
            Some(Currency::BRL)
        } else if str_eq(code, "BSD") {
            Some(Currency::BSD)
        } else if str_eq(code, "BTN") {
            Some(Currency::BTN)
        } else if str_eq(code, "BWP") {
            Some(Currency::BWP)
        } else if str_eq(code, "BYN") {
            Some(Currency::BYN)
        } else if str_eq(code, "BZD") {
            Some(Currency::BZD)
        } else if str_eq(code, "CAD") {
            Some(Currency::CAD)
        } else if str_eq(code, "CDF") {
            Some(Currency::CDF)
        } else if str_eq(code, "CHF") {
            Some(Currency::CHF)
        } else if str_eq(code, "CLF") {
            Some(Currency::CLF)
        } else if str_eq(code, "CLP") {
            Some(Currency::CLP)
        } else if str_eq(code, "CNY") {
            Some(Currency::CNY)
        } else if str_eq(code, "COP") {
            Some(Currency::COP)
        } else if str_eq(code, "CRC") {
            Some(Currency::CRC)
        } else if str_eq(code, "CUC") {
            Some(Currency::CUC)
        } else if str_eq(code, "CUP") {
            Some(Currency::CUP)
        } else if str_eq(code, "CVE") {
            Some(Currency::CVE)
        } else if str_eq(code, "CZK") {
            Some(Currency::CZK)
        } else if str_eq(code, "DJF") {
            Some(Currency::DJF)
        } else if str_eq(code, "DKK") {
            Some(Currency::DKK)
        } else if str_eq(code, "DOP") {
            Some(Currency::DOP)
        } else if str_eq(code, "DZD") {
            Some(Currency::DZD)
        } else if str_eq(code, "EGP") {
            Some(Currency::EGP)
        } else if str_eq(code, "ERN") {
            Some(Currency::ERN)
        } else if str_eq(code, "ETB") {
            Some(Currency::ETB)
        } else if str_eq(code, "EUR") {
            Some(Currency::EUR)
        } else if str_eq(code, "FJD") {
            Some(Currency::FJD)
        } else if str_eq(code, "FKP") {
            Some(Currency::FKP)
        } else if str_eq(code, "GBP") {
            Some(Currency::GBP)
        } else if str_eq(code, "GEL") {
            Some(Currency::GEL)
        } else if str_eq(code, "GHS") {
            Some(Currency::GHS)
        } else if str_eq(code, "GIP") {
            Some(Currency::GIP)
        } else if str_eq(code, "GMD") {
            Some(Currency::GMD)
        } else if str_eq(code, "GNF") {
            Some(Currency::GNF)
        } else if str_eq(code, "GTQ") {
            Some(Currency::GTQ)
        } else if str_eq(code, "GYD") {
            Some(Currency::GYD)
        } else if str_eq(code, "HKD") {
            Some(Currency::HKD)
        } else if str_eq(code, "HNL") {
            Some(Currency::HNL)
        } else if str_eq(code, "HRK") {
            Some(Currency::HRK)
        } else if str_eq(code, "HTG") {
            Some(Currency::HTG)
        } else if str_eq(code, "HUF") {
            Some(Currency::HUF)
        } else if str_eq(code, "IDR") {
            Some(Currency::IDR)
        } else if str_eq(code, "ILS") {
            Some(Currency::ILS)
        } else if str_eq(code, "INR") {
            Some(Currency::INR)
        } else if str_eq(code, "IQD") {
            Some(Currency::IQD)
        } else if str_eq(code, "IRR") {
            Some(Currency::IRR)
        } else if str_eq(code, "ISK") {
            Some(Currency::ISK)
        } else if str_eq(code, "JMD") {
            Some(Currency::JMD)
        } else if str_eq(code, "JOD") {
            Some(Currency::JOD)
        } else if str_eq(code, "JPY") {
            Some(Currency::JPY)
        } else if str_eq(code, "KES") {
            Some(Currency::KES)
        } else if str_eq(code, "KGS") {
            Some(Currency::KGS)
        } else if str_eq(code, "KHR") {
            Some(Currency::KHR)
        } else if str_eq(code, "KMF") {
            Some(Currency::KMF)
        } else if str_eq(code, "KPW") {
            Some(Currency::KPW)
        } else if str_eq(code, "KRW") {
            Some(Currency::KRW)
        } else if str_eq(code, "KWD") {
            Some(Currency::KWD)
        } else if str_eq(code, "KYD") {
            Some(Currency::KYD)
        } else if str_eq(code, "KZT") {
            Some(Currency::KZT)
        } else if str_eq(code, "LAK") {
            Some(Currency::LAK)
        } else if str_eq(code, "LBP") {
            Some(Currency::LBP)
        } else if str_eq(code, "LKR") {
            Some(Currency::LKR)
        } else if str_eq(code, "LRD") {
            Some(Currency::LRD)
        } else if str_eq(code, "LSL") {
            Some(Currency::LSL)
        } else if str_eq(code, "LYD") {
            Some(Currency::LYD)
        } else if str_eq(code, "MAD") {
            Some(Currency::MAD)
        } else if str_eq(code, "MDL") {
            Some(Currency::MDL)
        } else if str_eq(code, "MGA") {
            Some(Currency::MGA)
        } else if str_eq(code, "MKD") {
            Some(Currency::MKD)
        } else if str_eq(code, "MMK") {
            Some(Currency::MMK)
        } else if str_eq(code, "MNT") {
            Some(Currency::MNT)
        } else if str_eq(code, "MOP") {
            Some(Currency::MOP)
        } else if str_eq(code, "MRU") {
            Some(Currency::MRU)
        } else if str_eq(code, "MUR") {
            Some(Currency::MUR)
        } else if str_eq(code, "MVR") {
            Some(Currency::MVR)
        } else if str_eq(code, "MWK") {
            Some(Currency::MWK)
        } else if str_eq(code, "MXN") {
            Some(Currency::MXN)
        } else if str_eq(code, "MYR") {
            Some(Currency::MYR)
        } else if str_eq(code, "MZN") {
            Some(Currency::MZN)
        } else if str_eq(code, "NAD") {
            Some(Currency::NAD)
        } else if str_eq(code, "NGN") {
            Some(Currency::NGN)
        } else if str_eq(code, "NIO") {
            Some(Currency::NIO)
        } else if str_eq(code, "NOK") {
            Some(Currency::NOK)
        } else if str_eq(code, "NPR") {
            Some(Currency::NPR)
        } else if str_eq(code, "NZD") {
            Some(Currency::NZD)
        } else if str_eq(code, "OMR") {
            Some(Currency::OMR)
        } else if str_eq(code, "PAB") {
            Some(Currency::PAB)
        } else if str_eq(code, "PEN") {
            Some(Currency::PEN)
        } else if str_eq(code, "PGK") {
            Some(Currency::PGK)
        } else if str_eq(code, "PHP") {
            Some(Currency::PHP)
        } else if str_eq(code, "PKR") {
            Some(Currency::PKR)
        } else if str_eq(code, "PLN") {
            Some(Currency::PLN)
        } else if str_eq(code, "PYG") {
            Some(Currency::PYG)
        } else if str_eq(code, "QAR") {
            Some(Currency::QAR)
        } else if str_eq(code, "RON") {
            Some(Currency::RON)
        } else if str_eq(code, "RSD") {
            Some(Currency::RSD)
        } else if str_eq(code, "RUB") {
            Some(Currency::RUB)
        } else if str_eq(code, "RWF") {
            Some(Currency::RWF)
        } else if str_eq(code, "SAR") {
            Some(Currency::SAR)
        } else if str_eq(code, "SBD") {
            Some(Currency::SBD)
        } else if str_eq(code, "SCR") {
            Some(Currency::SCR)
        } else if str_eq(code, "SDG") {
            Some(Currency::SDG)
        } else if str_eq(code, "SEK") {
            Some(Currency::SEK)
        } else if str_eq(code, "SGD") {
            Some(Currency::SGD)
        } else if str_eq(code, "SHP") {
            Some(Currency::SHP)
        } else if str_eq(code, "SLE") {
            Some(Currency::SLE)
        } else if str_eq(code, "SLL") {
            Some(Currency::SLL)
        } else if str_eq(code, "SOS") {
            Some(Currency::SOS)
        } else if str_eq(code, "SRD") {
            Some(Currency::SRD)
        } else if str_eq(code, "SSP") {
            Some(Currency::SSP)
        } else if str_eq(code, "STD") {
            Some(Currency::STD)
        } else if str_eq(code, "STN") {
            Some(Currency::STN)
        } else if str_eq(code, "SVC") {
            Some(Currency::SVC)
        } else if str_eq(code, "SYP") {
            Some(Currency::SYP)
        } else if str_eq(code, "SZL") {
            Some(Currency::SZL)
        } else if str_eq(code, "THB") {
            Some(Currency::THB)
        } else if str_eq(code, "TJS") {
            Some(Currency::TJS)
        } else if str_eq(code, "TMT") {
            Some(Currency::TMT)
        } else if str_eq(code, "TND") {
            Some(Currency::TND)
        } else if str_eq(code, "TOP") {
            Some(Currency::TOP)
        } else if str_eq(code, "TRY") {
            Some(Currency::TRY)
        } else if str_eq(code, "TTD") {
            Some(Currency::TTD)
        } else if str_eq(code, "TWD") {
            Some(Currency::TWD)
        } else if str_eq(code, "TZS") {
            Some(Currency::TZS)
        } else if str_eq(code, "UAH") {
            Some(Currency::UAH)
        } else if str_eq(code, "UGX") {
            Some(Currency::UGX)
        } else if str_eq(code, "USD") {
            Some(Currency::USD)
        } else if str_eq(code, "UYU") {
            Some(Currency::UYU)
        } else if str_eq(code, "UZS") {
            Some(Currency::UZS)
        } else if str_eq(code, "VES") {
            Some(Currency::VES)
        } else if str_eq(code, "VND") {
            Some(Currency::VND)
        } else if str_eq(code, "VUV") {
            Some(Currency::VUV)
        } else if str_eq(code, "WST") {
            Some(Currency::WST)
        } else if str_eq(code, "XAF") {
            Some(Currency::XAF)
        } else if str_eq(code, "XCD") {
            Some(Currency::XCD)
        } else if str_eq(code, "XOF") {
            Some(Currency::XOF)
        } else if str_eq(code, "XPF") {
            Some(Currency::XPF)
        } else if str_eq(code, "YER") {
            Some(Currency::YER)
        } else if str_eq(code, "ZAR") {
            Some(Currency::ZAR)
        } else if str_eq(code, "ZMW") {
            Some(Currency::ZMW)
        } else if str_eq(code, "ZWL") {
            Some(Currency::ZWL)
        } else {
            None
        }
    }
}

impl Currency {
    /// How many decimal digits of the base unit one minor unit is.
    pub open spec fn spec_minor_unit_digits(self) -> u8 {
        match self {
            Currency::AED => 2,
            Currency::AFN => 2,
            Currency::ALL => 2,
            Currency::AMD => 2,
            Currency::ANG => 2,
            Currency::AOA => 2,
            Currency::ARS => 2,
            Currency::AUD => 2,
            Currency::AWG => 2,
            Currency::AZN => 2,
            Currency::BAM => 2,
            Currency::BBD => 2,
            Currency::BDT => 2,
            Currency::BGN => 2,
            Currency::BHD => 3,
            Currency::BIF => 0,
            Currency::BMD => 2,
            Currency::BND => 2,
            Currency::BOB => 2,
            Currency::BRL => 2,
            Currency::BSD => 2,
            Currency::BTN => 2,
            Currency::BWP => 2,
            Currency::BYN => 2,
            Currency::BZD => 2,
            Currency::CAD => 2,
            Currency::CDF => 2,
            Currency::CHF => 2,
            Currency::CLF => 2,
            Currency::CLP => 0,
            Currency::CNY => 2,
            Currency::COP => 2,
            Currency::CRC => 2,
            Currency::CUC => 2,
            Currency::CUP => 2,
            Currency::CVE => 2,
            Currency::CZK => 2,
            Currency::DJF => 0,
            Currency::DKK => 2,
            Currency::DOP => 2,
            Currency::DZD => 2,
            Currency::EGP => 2,
            Currency::ERN => 2,
            Currency::ETB => 2,
            Currency::EUR => 2,
            Currency::FJD => 2,
            Currency::FKP => 2,
            Currency::GBP => 2,
            Currency::GEL => 2,
            Currency::GHS => 2,
            Currency::GIP => 2,
            Currency::GMD => 2,
            Currency::GNF => 0,
            Currency::GTQ => 2,
            Currency::GYD => 2,
            Currency::HKD => 2,
            Currency::HNL => 2,
            Currency::HRK => 2,
            Currency::HTG => 2,
            Currency::HUF => 2,
            Currency::IDR => 2,
            Currency::ILS => 2,
            Currency::INR => 2,
            Currency::IQD => 3,
            Currency::IRR => 2,
            Currency::ISK => 2,
            Currency::JMD => 2,
            Currency::JOD => 3,
            Currency::JPY => 0,
            Currency::KES => 2,
            Currency::KGS => 2,
            Currency::KHR => 2,
            Currency::KMF => 0,
            Currency::KPW => 2,
            Currency::KRW => 0,
            Currency::KWD => 3,
            Currency::KYD => 2,
            Currency::KZT => 2,
            Currency::LAK => 2,
            Currency::LBP => 2,
            Currency::LKR => 2,
            Currency::LRD => 2,
            Currency::LSL => 2,
            Currency::LYD => 3,
            Currency::MAD => 2,
            Currency::MDL => 2,
            Currency::MGA => 0,
            Currency::MKD => 2,
            Currency::MMK => 2,
            Currency::MNT => 2,
            Currency::MOP => 2,
            Currency::MRU => 2,
            Currency::MUR => 2,
            Currency::MVR => 2,
            Currency::MWK => 2,
            Currency::MXN => 2,
            Currency::MYR => 2,
            Currency::MZN => 2,
            Currency::NAD => 2,
            Currency::NGN => 2,
            Currency::NIO => 2,
            Currency::NOK => 2,
            Currency::NPR => 2,
            Currency::NZD => 2,
            Currency::OMR => 3,
            Currency::PAB => 2,
            Currency::PEN => 2,
            Currency::PGK => 2,
            Currency::PHP => 2,
            Currency::PKR => 2,
            Currency::PLN => 2,
            Currency::PYG => 0,
            Currency::QAR => 2,
            Currency::RON => 2,
            Currency::RSD => 2,
            Currency::RUB => 2,
            Currency::RWF => 0,
            Currency::SAR => 2,
            Currency::SBD => 2,
            Currency::SCR => 2,
            Currency::SDG => 2,
            Currency::SEK => 2,
            Currency::SGD => 2,
            Currency::SHP => 2,
            Currency::SLE => 2,
            Currency::SLL => 2,
            Currency::SOS => 2,
            Currency::SRD => 2,
            Currency::SSP => 2,
            Currency::STD => 2,
            Currency::STN => 2,
            Currency::SVC => 2,
            Currency::SYP => 2,
            Currency::SZL => 2,
            Currency::THB => 2,
            Currency::TJS => 2,
            Currency::TMT => 2,
            Currency::TND => 3,
            Currency::TOP => 2,
            Currency::TRY => 2,
            Currency::TTD => 2,
            Currency::TWD => 2,
            Currency::TZS => 2,
            Currency::UAH => 2,
            Currency::UGX => 0,
            Currency::USD => 2,
            Currency::UYU => 2,
            Currency::UZS => 2,
            Currency::VES => 2,
            Currency::VND => 0,
            Currency::VUV => 0,
            Currency::WST => 2,
            Currency::XAF => 0,
            Currency::XCD => 2,
            Currency::XOF => 0,
            Currency::XPF => 0,
            Currency::YER => 2,
            Currency::ZAR => 2,
            Currency::ZMW => 2,
            Currency::ZWL => 2,
        }
    }

    /// How many decimal digits of the base unit one minor unit is.
    pub fn minor_unit_digits(&self) -> (res: u8)
        ensures
            res == self.spec_minor_unit_digits(),
    {
        match self {
            Currency::AED => 2,
            Currency::AFN => 2,
            Currency::ALL => 2,
            Currency::AMD => 2,
            Currency::ANG => 2,
            Currency::AOA => 2,
            Currency::ARS => 2,
            Currency::AUD => 2,
            Currency::AWG => 2,
            Currency::AZN => 2,
            Currency::BAM => 2,
            Currency::BBD => 2,
            Currency::BDT => 2,
            Currency::BGN => 2,
            Currency::BHD => 3,
            Currency::BIF => 0,
            Currency::BMD => 2,
            Currency::BND => 2,
            Currency::BOB => 2,
            Currency::BRL => 2,
            Currency::BSD => 2,
            Currency::BTN => 2,
            Currency::BWP => 2,
            Currency::BYN => 2,
            Currency::BZD => 2,
            Currency::CAD => 2,
            Currency::CDF => 2,
            Currency::CHF => 2,
            Currency::CLF => 2,
            Currency::CLP => 0,
            Currency::CNY => 2,
            Currency::COP => 2,
            Currency::CRC => 2,
            Currency::CUC => 2,
            Currency::CUP => 2,
            Currency::CVE => 2,
            Currency::CZK => 2,
            Currency::DJF => 0,
            Currency::DKK => 2,
            Currency::DOP => 2,
            Currency::DZD => 2,
            Currency::EGP => 2,
            Currency::ERN => 2,
            Currency::ETB => 2,
            Currency::EUR => 2,
            Currency::FJD => 2,
            Currency::FKP => 2,
            Currency::GBP => 2,
            Currency::GEL => 2,
            Currency::GHS => 2,
            Currency::GIP => 2,
            Currency::GMD => 2,
            Currency::GNF => 0,
            Currency::GTQ => 2,
            Currency::GYD => 2,
            Currency::HKD => 2,
            Currency::HNL => 2,
            Currency::HRK => 2,
            Currency::HTG => 2,
            Currency::HUF => 2,
            Currency::IDR => 2,
            Currency::ILS => 2,
            Currency::INR => 2,
            Currency::IQD => 3,
            Currency::IRR => 2,
            Currency::ISK => 2,
            Currency::JMD => 2,
            Currency::JOD => 3,
            Currency::JPY => 0,
            Currency::KES => 2,
            Currency::KGS => 2,
            Currency::KHR => 2,
            Currency::KMF => 0,
            Currency::KPW => 2,
            Currency::KRW => 0,
            Currency::KWD => 3,
            Currency::KYD => 2,
            Currency::KZT => 2,
            Currency::LAK => 2,
            Currency::LBP => 2,
            Currency::LKR => 2,
            Currency::LRD => 2,
            Currency::LSL => 2,
            Currency::LYD => 3,
            Currency::MAD => 2,
            Currency::MDL => 2,
            Currency::MGA => 0,
            Currency::MKD => 2,
            Currency::MMK => 2,
            Currency::MNT => 2,
            Currency::MOP => 2,
            Currency::MRU => 2,
            Currency::MUR => 2,
            Currency::MVR => 2,
            Currency::MWK => 2,
            Currency::MXN => 2,
            Currency::MYR => 2,
            Currency::MZN => 2,
            Currency::NAD => 2,
            Currency::NGN => 2,
            Currency::NIO => 2,
            Currency::NOK => 2,
            Currency::NPR => 2,
            Currency::NZD => 2,
            Currency::OMR => 3,
            Currency::PAB => 2,
            Currency::PEN => 2,
            Currency::PGK => 2,
            Currency::PHP => 2,
            Currency::PKR => 2,
            Currency::PLN => 2,
            Currency::PYG => 0,
            Currency::QAR => 2,
            Currency::RON => 2,
            Currency::RSD => 2,
            Currency::RUB => 2,
            Currency::RWF => 0,
            Currency::SAR => 2,
            Currency::SBD => 2,
            Currency::SCR => 2,
            Currency::SDG => 2,
            Currency::SEK => 2,
            Currency::SGD => 2,
            Currency::SHP => 2,
            Currency::SLE => 2,
            Currency::SLL => 2,
            Currency::SOS => 2,
            Currency::SRD => 2,
            Currency::SSP => 2,
            Currency::STD => 2,
            Currency::STN => 2,
            Currency::SVC => 2,
            Currency::SYP => 2,
            Currency::SZL => 2,
            Currency::THB => 2,
            Currency::TJS => 2,
            Currency::TMT => 2,
            Currency::TND => 3,
            Currency::TOP => 2,
            Currency::TRY => 2,
            Currency::TTD => 2,
            Currency::TWD => 2,
            Currency::TZS => 2,
            Currency::UAH => 2,
            Currency::UGX => 0,
            Currency::USD => 2,
            Currency::UYU => 2,
            Currency::UZS => 2,
            Currency::VES => 2,
            Currency::VND => 0,
            Currency::VUV => 0,
            Currency::WST => 2,
            Currency::XAF => 0,
            Currency::XCD => 2,
            Currency::XOF => 0,
            Currency::XPF => 0,
            Currency::YER => 2,
            Currency::ZAR => 2,
            Currency::ZMW => 2,
            Currency::ZWL => 2,
        }
    }
}

/// An amount of money, counted in the minor units of its currency.
#[derive(Clone, Copy, Debug, PartialEq, Eq, Hash, Structural)]
pub struct MinorUnit(pub i64);

impl MinorUnit {
    /// The amount of `value` minor units.
    pub fn new(value: i64) -> (res: Self)
        ensures
            res == MinorUnit(value),
    {
        MinorUnit(value)
    }

    /// No money at all.
    pub fn zero() -> (res: Self)
        ensures
            res == MinorUnit(0),
    {
        MinorUnit(0)
    }

    /// The number of minor units.
    pub fn get_amount_as_i64(&self) -> (res: i64)
        ensures
            res == self.0,
    {
        self.0
    }
}

/// The decimal notation of an integer, with a minus sign in front of a
/// negative one.
pub open spec fn signed_decimal(i: int) -> Seq<char> {
    if i < 0 {
        seq!['-'] + decimal((-i) as nat)
    } else {
        decimal(i as nat)
    }
}

/// Writes an integer in decimal notation.
pub fn signed_decimal_string(i: i64) -> (res: String)
    ensures
        res@ == signed_decimal(i as int),
{
    if i < 0 {
        let magnitude: u64 = ((-(i + 1)) as u64) + 1;
        let digits = decimal_string(magnitude);
        proof {
            reveal_strlit("-");
        }
        let mut s = "-".to_owned();
        s.append(digits.as_str());
        assert(s@ =~= seq!['-'] + digits@);
        s
    } else {
        decimal_string(i as u64)
    }
}

/// Ten to the power of `digits`, for the digit counts that currencies have.
pub open spec fn spec_minor_units_per_base_unit(digits: u8) -> nat {
    if digits == 0 {
        1
    } else if digits == 3 {
        1000
    } else {
        100
    }
}

/// An amount of minor units written in base units: the whole part, a point,
/// and the fraction with as many digits as the currency has. A currency
/// without minor units gets two zeros behind the point.
pub open spec fn spec_base_unit_text(amount: nat, digits: u8) -> Seq<char> {
    if digits == 0 {
        decimal(amount) + seq!['.', '0', '0']
    } else {
        decimal(amount / spec_minor_units_per_base_unit(digits)) + seq!['.'] + decimal_padded(
            amount % spec_minor_units_per_base_unit(digits),
            digits as nat,
        )
    }
}

/// The text a connector is handed for an amount: the count of minor units
/// as it is, or the amount in base units. An amount in base units must be
/// neither negative nor above what 32 bits hold.
pub open spec fn spec_amount_as_string(
    currency_unit: CurrencyUnit,
    amount: i64,
    currency: Currency,
) -> Result<Seq<char>, ConnectorError> {
    match currency_unit {
        CurrencyUnit::Minor => Ok(signed_decimal(amount as int)),
        CurrencyUnit::Base => if 0 <= amount <= u32::MAX {
            Ok(spec_base_unit_text(amount as nat, currency.spec_minor_unit_digits()))
        } else {
            Err(ConnectorError::RequestEncodingFailed)
        },
    }
}

/// Writes an amount in the unit that a connector works with. Only integer
/// arithmetic is done on the amount.
pub fn get_amount_as_string(currency_unit: &CurrencyUnit, amount: i64, currency: Currency) -> (res:
    Result<String, ConnectorError>)
    ensures
        match spec_amount_as_string(*currency_unit, amount, currency) {
            Ok(text) => res matches Ok(s) && s@ == text,
            Err(e) => res == Err::<String, ConnectorError>(e),
        },
{
    match currency_unit {
        CurrencyUnit::Minor => Ok(signed_decimal_string(amount)),
        CurrencyUnit::Base => {
            if amount < 0 || amount > 0xffff_ffff {
                return Err(ConnectorError::RequestEncodingFailed);
            }
            let amount: u64 = amount as u64;
            let digits = currency.minor_unit_digits();
            if digits == 0 {
                let mut s = decimal_string(amount);
                proof {
                    reveal_strlit(".00");
                }
                s.append(".00");
                assert(s@ =~= decimal(amount as nat) + seq!['.', '0', '0']);
                Ok(s)
            } else {
                let per_base: u64 = if digits == 3 {
                    1000
                } else {
                    100
                };
                let mut s = decimal_string(amount / per_base);
                let fraction = decimal_string_padded(amount % per_base, digits);
                proof {
                    reveal_strlit(".");
                }
                s.append(".");
                s.append(fraction.as_str());
                assert(s@ =~= decimal((amount / per_base) as nat) + seq!['.'] + fraction@);
                Ok(s)
            }
        },
    }
}

} // verus!
