//! Postal addresses and phone numbers of the canonical model, and what a
//! connector may ask of them.

use vstd::prelude::*;
use crate::country::CountryAlpha2;
use crate::errors::{spec_required, ConnectorError};
use crate::states::{
    canada_province_code,
    spec_canada_province_code,
    spec_us_state_code,
    us_state_code,
};
use crate::text::{join3, lowercase_of, opt_str, owned, to_lowercase};

verus! {

/// A postal address and the name of the person who lives there.
#[derive(Clone, Debug, PartialEq, Eq)]
pub struct AddressDetails {
    pub city: Option<String>,
    pub country: Option<CountryAlpha2>,
    pub line1: Option<String>,
    pub line2: Option<String>,
    pub line3: Option<String>,
    pub zip: Option<String>,
    pub state: Option<String>,
    pub first_name: Option<String>,
    pub last_name: Option<String>,
}

/// A phone number and the calling code of its country.
#[derive(Clone, Debug, PartialEq, Eq)]
pub struct PhoneDetails {
    pub number: Option<String>,
    pub country_code: Option<String>,
}

/// How a person is reached: by post, by phone and by e-mail.
#[derive(Clone, Debug, PartialEq, Eq)]
pub struct Address {
    pub address: Option<AddressDetails>,
    pub phone: Option<PhoneDetails>,
    pub email: Option<String>,
}

/// The addresses that belong to one payment.
#[derive(Clone, Debug, PartialEq, Eq)]
pub struct PaymentAddress {
    pub billing: Option<Address>,
    pub shipping: Option<Address>,
}

/// A person's full name: first and last name with a blank between them, or
/// the one of the two that is known.
pub open spec fn spec_full_name(first_name: Option<String>, last_name: Option<String>) -> Option<
    Seq<char>,
> {
    match (first_name, last_name) {
        (Some(first), Some(last)) => Some(first@ + " "@ + last@),
        (Some(name), None) => Some(name@),
        (None, Some(name)) => Some(name@),
        (None, None) => None,
    }
}

/// A phone number with the calling code in front, where both are known.
pub open spec fn spec_number_with_country_code(phone: PhoneDetails) -> Result<
    Seq<char>,
    ConnectorError,
> {
    match (phone.number, phone.country_code) {
        (None, _) => Err(ConnectorError::MissingRequiredField { field_name: "billing.phone.number" }),
        (Some(_), None) => Err(
            ConnectorError::MissingRequiredField { field_name: "billing.phone.country_code" },
        ),
        (Some(number), Some(country_code)) => Ok(country_code@ + number@),
    }
}

impl AddressDetails {
    /// The first name, which is required.
    pub fn get_first_name(&self) -> (res: Result<&String, ConnectorError>)
        ensures
            res == spec_required(
                match self.first_name {
                    Some(v) => Some(&v),
                    None => None,
                },
                "address.first_name",
            ),
    {
        match &self.first_name {
            Some(v) => Ok(v),
            None => Err(ConnectorError::MissingRequiredField { field_name: "address.first_name" }),
        }
    }

    /// The last name, which is required.
    pub fn get_last_name(&self) -> (res: Result<&String, ConnectorError>)
        ensures
            res == spec_required(
                match self.last_name {
                    Some(v) => Some(&v),
                    None => None,
                },
                "address.last_name",
            ),
    {
        match &self.last_name {
            Some(v) => Ok(v),
            None => Err(ConnectorError::MissingRequiredField { field_name: "address.last_name" }),
        }
    }

    /// The first line of the address, which is required.
    pub fn get_line1(&self) -> (res: Result<&String, ConnectorError>)
        ensures
            res == spec_required(
                match self.line1 {
                    Some(v) => Some(&v),
                    None => None,
                },
                "address.line1",
            ),
    {
        match &self.line1 {
            Some(v) => Ok(v),
            None => Err(ConnectorError::MissingRequiredField { field_name: "address.line1" }),
        }
    }

    /// The city, which is required.
    pub fn get_city(&self) -> (res: Result<&String, ConnectorError>)
        ensures
            res == spec_required(
                match self.city {
                    Some(v) => Some(&v),
                    None => None,
                },
                "address.city",
            ),
    {
        match &self.city {
            Some(v) => Ok(v),
            None => Err(ConnectorError::MissingRequiredField { field_name: "address.city" }),
        }
    }

    /// The postal code, which is required.
    pub fn get_zip(&self) -> (res: Result<&String, ConnectorError>)
        ensures
            res == spec_required(
                match self.zip {
                    Some(v) => Some(&v),
                    None => None,
                },
                "address.zip",
            ),
    {
        match &self.zip {
            Some(v) => Ok(v),
            None => Err(ConnectorError::MissingRequiredField { field_name: "address.zip" }),
        }
    }

    /// The country, which is required.
    pub fn get_country(&self) -> (res: Result<CountryAlpha2, ConnectorError>)
        ensures
            res == spec_required(self.country, "address.country"),
    {
        match self.country {
            Some(v) => Ok(v),
            None => Err(ConnectorError::MissingRequiredField { field_name: "address.country" }),
        }
    }

    /// The full name of the person, as far as it is known.
    pub fn get_optional_full_name(&self) -> (res: Option<String>)
        ensures
            opt_str(res) == spec_full_name(self.first_name, self.last_name),
    {
        match (&self.first_name, &self.last_name) {
            (Some(first), Some(last)) => Some(join3(first.as_str(), " ", last.as_str())),
            (Some(name), None) => Some(name.clone()),
            (None, Some(name)) => Some(name.clone()),
            (None, None) => None,
        }
    }
}

impl PhoneDetails {
    /// The phone number with the calling code of its country in front.
    pub fn get_number_with_country_code(&self) -> (res: Result<String, ConnectorError>)
        ensures
            match spec_number_with_country_code(*self) {
                Ok(text) => res matches Ok(s) && s@ == text,
                Err(e) => res == Err::<String, ConnectorError>(e),
            },
    {
        match (&self.number, &self.country_code) {
            (None, _) => Err(
                ConnectorError::MissingRequiredField { field_name: "billing.phone.number" },
            ),
            (Some(_), None) => Err(
                ConnectorError::MissingRequiredField { field_name: "billing.phone.country_code" },
            ),
            (Some(number), Some(country_code)) => {
                let mut s = country_code.clone();
                s.append(number.as_str());
                Ok(s)
            },
        }
    }
}

impl Address {
    /// The full name of the person, as far as it is known.
    pub open spec fn spec_optional_full_name(self) -> Option<Seq<char>> {
        match self.address {
            Some(details) => spec_full_name(details.first_name, details.last_name),
            None => None,
        }
    }

    /// The full name of the person, as far as it is known.
    pub fn get_optional_full_name(&self) -> (res: Option<String>)
        ensures
            opt_str(res) == self.spec_optional_full_name(),
    {
        match &self.address {
            Some(details) => details.get_optional_full_name(),
            None => None,
        }
    }
}

/// The code of the state of an address, as plain text.
///
/// A state of two characters is a code already. Any other state is looked
/// up by its name, whatever its case, among the states of the United
/// States or the provinces of Canada, according to the country; in any
/// other country the state stands as it is. An address without a state has
/// no state code, and that is no error.
pub open spec fn spec_state_code_as_optional(address: AddressDetails) -> Result<
    Option<Seq<char>>,
    ConnectorError,
> {
    match address.state {
        None => Ok(None),
        Some(state) => if state@.len() == 2 {
            Ok(Some(state@))
        } else {
            match address.country {
                None => Err(ConnectorError::MissingRequiredField { field_name: "address.country" }),
                Some(CountryAlpha2::US) => match spec_us_state_code(lowercase_of(state@)) {
                    Some(code) => Ok(Some(code@)),
                    None => Err(ConnectorError::InvalidDataFormat { field_name: "address.state" }),
                },
                Some(CountryAlpha2::CA) => match spec_canada_province_code(lowercase_of(state@)) {
                    Some(code) => Ok(Some(code@)),
                    None => Err(ConnectorError::InvalidDataFormat { field_name: "address.state" }),
                },
                Some(_) => Ok(Some(state@)),
            }
        },
    }
}

impl AddressDetails {
    /// The code of the state of the address, where it has a state.
    pub fn to_state_code_as_optional(&self) -> (res: Result<Option<String>, ConnectorError>)
        ensures
            match spec_state_code_as_optional(*self) {
                Ok(code) => res matches Ok(r) && opt_str(r) == code,
                Err(e) => res == Err::<Option<String>, ConnectorError>(e),
            },
    {
        let state = match &self.state {
            Some(state) => state,
            None => {
                return Ok(None);
            },
        };
        if state.as_str().unicode_len() == 2 {
            return Ok(Some(state.clone()));
        }
        match self.get_country()? {
            CountryAlpha2::US => {
                let lowered = to_lowercase(state.as_str());
                match us_state_code(lowered.as_str()) {
                    Some(code) => Ok(Some(owned(code))),
                    None => Err(ConnectorError::InvalidDataFormat { field_name: "address.state" }),
                }
            },
            CountryAlpha2::CA => {
                let lowered = to_lowercase(state.as_str());
                match canada_province_code(lowered.as_str()) {
                    Some(code) => Ok(Some(owned(code))),
                    None => Err(ConnectorError::InvalidDataFormat { field_name: "address.state" }),
                }
            },
            _ => Ok(Some(state.clone())),
        }
    }
}

} // verus!
