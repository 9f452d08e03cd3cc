//! The states of the countries whose addresses name the state by a code.

use vstd::prelude::*;
use crate::text::str_eq;

verus! {

/// The code of a state or territory of the United States, looked up by its
/// name in lower case.
pub open spec fn spec_us_state_code(name: Seq<char>) -> Option<&'static str> {
    if name == "alabama"@ {
        Some("AL")
    }     else if name == "alaska"@ {
        Some("AK")
    }     else if name == "american samoa"@ {
        Some("AS")
    }     else if name == "arizona"@ {
        Some("AZ")
    }     else if name == "arkansas"@ {
        Some("AR")
    }     else if name == "california"@ {
        Some("CA")
    }     else if name == "colorado"@ {
        Some("CO")
    }     else if name == "connecticut"@ {
        Some("CT")
    }     else if name == "delaware"@ {
        Some("DE")
    }     else if name == "district of columbia"@ {
        Some("DC")
    }     else if name == "federated states of micronesia"@ {
        Some("FM")
    }     else if name == "florida"@ {
        Some("FL")
    }     else if name == "georgia"@ {
        Some("GA")
    }     else if name == "guam"@ {
        Some("GU")
    }     else if name == "hawaii"@ {
        Some("HI")
    }     else if name == "idaho"@ {
        Some("ID")
    }     else if name == "illinois"@ {
        Some("IL")
    }     else if name == "indiana"@ {
        Some("IN")
    }     else if name == "iowa"@ {
        Some("IA")
    }     else if name == "kansas"@ {
        Some("KS")
    }     else if name == "kentucky"@ {
        Some("KY")
    }     else if name == "louisiana"@ {
        Some("LA")
    }     else if name == "maine"@ {
        Some("ME")
    }     else if name == "marshall islands"@ {
        Some("MH")
    }     else if name == "maryland"@ {
        Some("MD")
    }     else if name == "massachusetts"@ {
        Some("MA")
    }     else if name == "michigan"@ {
        Some("MI")
    }     else if name == "minnesota"@ {
        Some("MN")
    }     else if name == "mississippi"@ {
        Some("MS")
    }     else if name == "missouri"@ {
        Some("MO")
    }     else if name == "montana"@ {
        Some("MT")
    }     else if name == "nebraska"@ {
        Some("NE")
    }     else if name == "nevada"@ {
        Some("NV")
    }     else if name == "new hampshire"@ {
        Some("NH")
    }     else if name == "new jersey"@ {
        Some("NJ")
    }     else if name == "new mexico"@ {
        Some("NM")
    }     else if name == "new york"@ {
        Some("NY")
    }     else if name == "north carolina"@ {
        Some("NC")
    }     else if name == "north dakota"@ {
        Some("ND")
    }     else if name == "northern mariana islands"@ {
        Some("MP")
    }     else if name == "ohio"@ {
        Some("OH")
    }     else if name == "oklahoma"@ {
        Some("OK")
    }     else if name == "oregon"@ {
        Some("OR")
    }     else if name == "palau"@ {
        Some("PW")
    }     else if name == "pennsylvania"@ {
        Some("PA")
    }     else if name == "puerto rico"@ {
        Some("PR")
    }     else if name == "rhode island"@ {
        Some("RI")
    }     else if name == "south carolina"@ {
        Some("SC")
    }     else if name == "south dakota"@ {
        Some("SD")
    }     else if name == "tennessee"@ {
        Some("TN")
    }     else if name == "texas"@ {
        Some("TX")
    }     else if name == "utah"@ {
        Some("UT")
    }     else if name == "vermont"@ {
        Some("VT")
    }     else if name == "virgin islands"@ {
        Some("VI")
    }     else if name == "virginia"@ {
        Some("VA")
    }     else if name == "washington"@ {
        Some("WA")
    }     else if name == "west virginia"@ {
        Some("WV")
    }     else if name == "wisconsin"@ {
        Some("WI")
    }     else if name == "wyoming"@ {
        Some("WY")
    } else {
        None
    }
}

/// The code of a state or territory of the United States, looked up by its
/// name in lower case.
pub fn us_state_code(name: &str) -> (res: Option<&'static str>)
    ensures
        res == spec_us_state_code(name@),
{
    if str_eq(name, "alabama") {
        Some("AL")
    }     else if str_eq(name, "alaska") {
        Some("AK")
    }     else if str_eq(name, "american samoa") {
        Some("AS")
    }     else if str_eq(name, "arizona") {
        Some("AZ")
    }     else if str_eq(name, "arkansas") {
        Some("AR")
    }     else if str_eq(name, "california") {
        Some("CA")
    }     else if str_eq(name, "colorado") {
        Some("CO")
    }     else if str_eq(name, "connecticut") {
        Some("CT")
    }     else if str_eq(name, "delaware") {
        Some("DE")
    }     else if str_eq(name, "district of columbia") {
        Some("DC")
    }     else if str_eq(name, "federated states of micronesia") {
        Some("FM")
    }     else if str_eq(name, "florida") {
        Some("FL")
    }     else if str_eq(name, "georgia") {
        Some("GA")
    }     else if str_eq(name, "guam") {
        Some("GU")
    }     else if str_eq(name, "hawaii") {
        Some("HI")
    }     else if str_eq(name, "idaho") {
        Some("ID")
    }     else if str_eq(name, "illinois") {
        Some("IL")
    }     else if str_eq(name, "indiana") {
        Some("IN")
    }     else if str_eq(name, "iowa") {
        Some("IA")
    }     else if str_eq(name, "kansas") {
        Some("KS")
    }     else if str_eq(name, "kentucky") {
        Some("KY")
    }     else if str_eq(name, "louisiana") {
        Some("LA")
    }     else if str_eq(name, "maine") {
        Some("ME")
    }     else if str_eq(name, "marshall islands") {
        Some("MH")
    }     else if str_eq(name, "maryland") {
        Some("MD")
    }     else if str_eq(name, "massachusetts") {
        Some("MA")
    }     else if str_eq(name, "michigan") {
        Some("MI")
    }     else if str_eq(name, "minnesota") {
        Some("MN")
    }     else if str_eq(name, "mississippi") {
        Some("MS")
    }     else if str_eq(name, "missouri") {
        Some("MO")
    }     else if str_eq(name, "montana") {
        Some("MT")
    }     else if str_eq(name, "nebraska") {
        Some("NE")
    }     else if str_eq(name, "nevada") {
        Some("NV")
    }     else if str_eq(name, "new hampshire") {
        Some("NH")
    }     else if str_eq(name, "new jersey") {
        Some("NJ")
    }     else if str_eq(name, "new mexico") {
        Some("NM")
    }     else if str_eq(name, "new york") {
        Some("NY")
    }     else if str_eq(name, "north carolina") {
        Some("NC")
    }     else if str_eq(name, "north dakota") {
        Some("ND")
    }     else if str_eq(name, "northern mariana islands") {
        Some("MP")
    }     else if str_eq(name, "ohio") {
        Some("OH")
    }     else if str_eq(name, "oklahoma") {
        Some("OK")
    }     else if str_eq(name, "oregon") {
        Some("OR")
    }     else if str_eq(name, "palau") {
        Some("PW")
    }     else if str_eq(name, "pennsylvania") {
        Some("PA")
    }     else if str_eq(name, "puerto rico") {
        Some("PR")
    }     else if str_eq(name, "rhode island") {
        Some("RI")
    }     else if str_eq(name, "south carolina") {
        Some("SC")
    }     else if str_eq(name, "south dakota") {
        Some("SD")
    }     else if str_eq(name, "tennessee") {
        Some("TN")
    }     else if str_eq(name, "texas") {
        Some("TX")
    }     else if str_eq(name, "utah") {
        Some("UT")
    }     else if str_eq(name, "vermont") {
        Some("VT")
    }     else if str_eq(name, "virgin islands") {
        Some("VI")
    }     else if str_eq(name, "virginia") {
        Some("VA")
    }     else if str_eq(name, "washington") {
        Some("WA")
    }     else if str_eq(name, "west virginia") {
        Some("WV")
    }     else if str_eq(name, "wisconsin") {
        Some("WI")
    }     else if str_eq(name, "wyoming") {
        Some("WY")
    } else {
        None
    }
}

/// The code of a province or territory of Canada, looked up by its name in
/// lower case.
pub open spec fn spec_canada_province_code(name: Seq<char>) -> Option<&'static str> {
    if name == "alberta"@ {
        Some("AB")
    }     else if name == "british columbia"@ {
        Some("BC")
    }     else if name == "manitoba"@ {
        Some("MB")
    }     else if name == "new brunswick"@ {
        Some("NB")
    }     else if name == "newfoundland and labrador"@ {
        Some("NL")
    }     else if name == "northwest territories"@ {
        Some("NT")
    }     else if name == "nova scotia"@ {
        Some("NS")
    }     else if name == "nunavut"@ {
        Some("NU")
    }     else if name == "ontario"@ {
        Some("ON")
    }     else if name == "prince edward island"@ {
        Some("PE")
    }     else if name == "quebec"@ {
        Some("QC")
    }     else if name == "saskatchewan"@ {
        Some("SK")
    }     else if name == "yukon"@ {
        Some("YT")
    } else {
        None
    }
}

/// The code of a province or territory of Canada, looked up by its name in
/// lower case.
pub fn canada_province_code(name: &str) -> (res: Option<&'static str>)
    ensures
        res == spec_canada_province_code(name@),
{
    if str_eq(name, "alberta") {
        Some("AB")
    }     else if str_eq(name, "british columbia") {
        Some("BC")
    }     else if str_eq(name, "manitoba") {
        Some("MB")
    }     else if str_eq(name, "new brunswick") {
        Some("NB")
    }     else if str_eq(name, "newfoundland and labrador") {
        Some("NL")
    }     else if str_eq(name, "northwest territories") {
        Some("NT")
    }     else if str_eq(name, "nova scotia") {
        Some("NS")
    }     else if str_eq(name, "nunavut") {
        Some("NU")
    }     else if str_eq(name, "ontario") {
        Some("ON")
    }     else if str_eq(name, "prince edward island") {
        Some("PE")
    }     else if str_eq(name, "quebec") {
        Some("QC")
    }     else if str_eq(name, "saskatchewan") {
        Some("SK")
    }     else if str_eq(name, "yukon") {
        Some("YT")
    } else {
        None
    }
}

} // verus!
