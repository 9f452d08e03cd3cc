use payment_connectors::address::{Address, AddressDetails, PhoneDetails};
use payment_connectors::attempt::AttemptState;
use payment_connectors::consts::{NO_ERROR_CODE, NO_ERROR_MESSAGE};
use payment_connectors::country::CountryAlpha2;
use payment_connectors::currency::{get_amount_as_string, signed_decimal_string, Currency, MinorUnit};
use payment_connectors::enums::{AttemptStatus, CardIssuer, CurrencyUnit, Method, StatusSource};
use payment_connectors::errors::ConnectorError;
use payment_connectors::form::{form_of_url, unique_fields};
use payment_connectors::payment_method_data::Card;
use payment_connectors::router_response::{ErrorResponse, FormField, MandateReference, RedirectForm};
use payment_connectors::states::{canada_province_code, us_state_code};
use payment_connectors::text::{decimal_string, decimal_string_padded, join3, str_eq};

fn address(first: Option<&str>, last: Option<&str>) -> AddressDetails {
    AddressDetails {
        city: Some("Springfield".to_string()),
        country: Some(CountryAlpha2::US),
        line1: Some("1 Main Street".to_string()),
        line2: None,
        line3: None,
        zip: Some("12345".to_string()),
        state: Some("California".to_string()),
        first_name: first.map(str::to_string),
        last_name: last.map(str::to_string),
    }
}

fn field(name: &str, value: &str) -> FormField {
    FormField { name: name.to_string(), value: value.to_string() }
}

#[test]
fn minor_unit_amounts_are_written_as_they_are() {
    assert_eq!(
        get_amount_as_string(&CurrencyUnit::Minor, 1000, Currency::USD),
        Ok("1000".to_string())
    );
    assert_eq!(get_amount_as_string(&CurrencyUnit::Minor, 0, Currency::JPY), Ok("0".to_string()));
    assert_eq!(
        get_amount_as_string(&CurrencyUnit::Minor, -250, Currency::EUR),
        Ok("-250".to_string())
    );
    assert_eq!(
        get_amount_as_string(&CurrencyUnit::Minor, i64::MIN, Currency::EUR),
        Ok("-9223372036854775808".to_string())
    );
}

#[test]
fn base_unit_amounts_follow_the_digits_of_the_currency() {
    assert_eq!(
        get_amount_as_string(&CurrencyUnit::Base, 1000, Currency::USD),
        Ok("10.00".to_string())
    );
    assert_eq!(
        get_amount_as_string(&CurrencyUnit::Base, 1005, Currency::USD),
        Ok("10.05".to_string())
    );
    assert_eq!(get_amount_as_string(&CurrencyUnit::Base, 7, Currency::EUR), Ok("0.07".to_string()));
    assert_eq!(
        get_amount_as_string(&CurrencyUnit::Base, 1000, Currency::JPY),
        Ok("1000.00".to_string())
    );
    assert_eq!(
        get_amount_as_string(&CurrencyUnit::Base, 12345, Currency::KWD),
        Ok("12.345".to_string())
    );
    assert_eq!(
        get_amount_as_string(&CurrencyUnit::Base, 4294967295, Currency::USD),
        Ok("42949672.95".to_string())
    );
}

#[test]
fn base_unit_amounts_out_of_range_are_rejected() {
    assert_eq!(
        get_amount_as_string(&CurrencyUnit::Base, -1, Currency::USD),
        Err(ConnectorError::RequestEncodingFailed)
    );
    assert_eq!(
        get_amount_as_string(&CurrencyUnit::Base, 4294967296, Currency::USD),
        Err(ConnectorError::RequestEncodingFailed)
    );
}

#[test]
fn currencies_know_their_code_and_digits() {
    assert_eq!(Currency::USD.code(), "USD");
    assert_eq!(Currency::USD.minor_unit_digits(), 2);
    assert_eq!(Currency::JPY.minor_unit_digits(), 0);
    assert_eq!(Currency::KWD.minor_unit_digits(), 3);
    assert_eq!(MinorUnit::new(25).get_amount_as_i64(), 25);
    assert_eq!(MinorUnit::zero().get_amount_as_i64(), 0);
}

#[test]
fn numbers_are_written_in_decimal() {
    assert_eq!(decimal_string(0), "0");
    assert_eq!(decimal_string(907), "907");
    assert_eq!(decimal_string(u64::MAX), "18446744073709551615");
    assert_eq!(decimal_string_padded(7, 3), "007");
    assert_eq!(decimal_string_padded(1234, 2), "1234");
    assert_eq!(signed_decimal_string(-12), "-12");
    assert_eq!(signed_decimal_string(12), "12");
    assert_eq!(join3("a", "-", "b"), "a-b");
    assert!(str_eq("true", "true"));
    assert!(!str_eq("true", "True"));
}

#[test]
fn error_messages_name_what_went_wrong() {
    assert_eq!(
        ConnectorError::MissingRequiredField { field_name: "billing.address.city" }.message(),
        "Missing required field: billing.address.city"
    );
    assert_eq!(
        ConnectorError::NotImplemented { connector: "Adyen", feature: "Becs" }.message(),
        "Becs is not implemented for connector Adyen"
    );
    assert_eq!(
        ConnectorError::NotSupported { feature: "Payout creation for card", context: "Adyen" }
            .message(),
        "Payout creation for card is not supported by Adyen"
    );
    assert_eq!(
        ConnectorError::FlowNotSupported { flow: "Setup Mandate", connector: "Stripe" }.message(),
        "Setup Mandate flow not supported by Stripe connector"
    );
    assert_eq!(
        ConnectorError::InvalidConnectorConfig { config: "merchant_account" }.message(),
        "Invalid connector configuration: merchant_account"
    );
    assert_eq!(
        ConnectorError::InvalidDataFormat { field_name: "state" }.message(),
        "Invalid data format: state"
    );
    for error in [
        ConnectorError::FailedToObtainAuthType,
        ConnectorError::WebhookBodyDecodingFailed,
        ConnectorError::ResponseHandlingFailed,
        ConnectorError::MismatchedPaymentData,
        ConnectorError::RequestEncodingFailed,
        ConnectorError::MissingPaymentMethodType,
        ConnectorError::InvalidWallet,
        ConnectorError::CaptureMethodNotSupported,
    ] {
        assert!(!error.message().is_empty());
    }
}

#[test]
fn absent_code_and_message_fall_back_to_the_sentinels() {
    let error = ErrorResponse::from_connector(None, None, None, 500, None, None, None, None);
    assert_eq!(error.code, NO_ERROR_CODE);
    assert_eq!(error.message, NO_ERROR_MESSAGE);
    assert_eq!(error.code, "No error code");
    assert_eq!(error.message, "No error message");
    assert_eq!(error.reason, None);
    assert_eq!(error.status_code, 500);
    assert!(!error.code.is_empty() && !error.message.is_empty());
}

#[test]
fn empty_code_and_message_fall_back_to_the_sentinels() {
    let error = ErrorResponse::from_connector(
        Some(String::new()),
        Some(String::new()),
        Some(String::new()),
        500,
        None,
        None,
        None,
        None,
    );
    assert_eq!(error.code, NO_ERROR_CODE);
    assert_eq!(error.message, NO_ERROR_MESSAGE);
    assert_eq!(error.reason, Some(String::new()));
    let half = ErrorResponse::from_connector(
        Some("905".to_string()),
        Some(String::new()),
        None,
        500,
        None,
        None,
        None,
        None,
    );
    assert_eq!(half.code, "905");
    assert_eq!(half.message, NO_ERROR_MESSAGE);
}

#[test]
fn supplied_code_and_message_are_kept() {
    let error = ErrorResponse::from_connector(
        Some("905".to_string()),
        Some("Refused".to_string()),
        Some("Not enough balance".to_string()),
        422,
        Some(AttemptStatus::Failure),
        Some("psp_1".to_string()),
        Some("51".to_string()),
        Some("Insufficient funds".to_string()),
    );
    assert_eq!(error.code, "905");
    assert_eq!(error.message, "Refused");
    assert_eq!(error.reason.as_deref(), Some("Not enough balance"));
    assert_eq!(error.status_code, 422);
    assert_eq!(error.attempt_status, Some(AttemptStatus::Failure));
    assert_eq!(error.connector_transaction_id.as_deref(), Some("psp_1"));
    assert_eq!(error.issuer_error_code.as_deref(), Some("51"));
    assert_eq!(error.issuer_error_message.as_deref(), Some("Insufficient funds"));
}

#[test]
fn mandate_reference_by_connector_mandate_id_fills_one_slot() {
    let reference = MandateReference::from_connector_mandate_id("mandate_1".to_string());
    assert_eq!(reference.connector_mandate_id.as_deref(), Some("mandate_1"));
    assert_eq!(reference.network_transaction_id, None);
    assert_eq!(reference.payment_method_id, None);
}

#[test]
fn full_name_joins_what_is_known() {
    assert_eq!(
        address(Some("Ada"), Some("Lovelace")).get_optional_full_name().as_deref(),
        Some("Ada Lovelace")
    );
    assert_eq!(address(Some("Ada"), None).get_optional_full_name().as_deref(), Some("Ada"));
    assert_eq!(address(None, Some("Lovelace")).get_optional_full_name().as_deref(), Some("Lovelace"));
    assert_eq!(address(None, None).get_optional_full_name(), None);
}

#[test]
fn required_address_fields_are_reported_when_missing() {
    let mut details = address(None, None);
    details.city = None;
    details.country = None;
    assert_eq!(
        details.get_first_name(),
        Err(ConnectorError::MissingRequiredField { field_name: "address.first_name" })
    );
    assert_eq!(
        details.get_city(),
        Err(ConnectorError::MissingRequiredField { field_name: "address.city" })
    );
    assert_eq!(
        details.get_country(),
        Err(ConnectorError::MissingRequiredField { field_name: "address.country" })
    );
    assert_eq!(details.get_line1().map(String::as_str), Ok("1 Main Street"));
    assert_eq!(details.get_zip().map(String::as_str), Ok("12345"));
}

#[test]
fn phone_number_gets_its_calling_code() {
    let phone = PhoneDetails {
        number: Some("5551234".to_string()),
        country_code: Some("+1".to_string()),
    };
    assert_eq!(phone.get_number_with_country_code(), Ok("+15551234".to_string()));
    let no_code = PhoneDetails { number: Some("5551234".to_string()), country_code: None };
    assert_eq!(
        no_code.get_number_with_country_code(),
        Err(ConnectorError::MissingRequiredField { field_name: "billing.phone.country_code" })
    );
    let no_number = PhoneDetails { number: None, country_code: Some("+1".to_string()) };
    assert_eq!(
        no_number.get_number_with_country_code(),
        Err(ConnectorError::MissingRequiredField { field_name: "billing.phone.number" })
    );
}

#[test]
fn state_names_become_codes() {
    assert_eq!(us_state_code("california"), Some("CA"));
    assert_eq!(us_state_code("new york"), Some("NY"));
    assert_eq!(us_state_code("atlantis"), None);
    assert_eq!(canada_province_code("ontario"), Some("ON"));
    assert_eq!(canada_province_code("california"), None);
    assert_eq!(address(None, None).to_state_code_as_optional(), Ok(Some("CA".to_string())));
    let mut short = address(None, None);
    short.state = Some("NY".to_string());
    assert_eq!(short.to_state_code_as_optional(), Ok(Some("NY".to_string())));
    let mut canada = address(None, None);
    canada.country = Some(CountryAlpha2::CA);
    canada.state = Some("Quebec".to_string());
    assert_eq!(canada.to_state_code_as_optional(), Ok(Some("QC".to_string())));
    let mut elsewhere = address(None, None);
    elsewhere.country = Some(CountryAlpha2::DE);
    elsewhere.state = Some("Bayern".to_string());
    assert_eq!(elsewhere.to_state_code_as_optional(), Ok(Some("Bayern".to_string())));
    let mut none = address(None, None);
    none.state = None;
    assert_eq!(none.to_state_code_as_optional(), Ok(None));
    let mut unknown = address(None, None);
    unknown.state = Some("Atlantis".to_string());
    assert!(unknown.to_state_code_as_optional().is_err());
}

#[test]
fn expiry_year_gets_its_century() {
    let mut card = Card {
        card_number: "4111111111111111".to_string(),
        card_exp_month: "03".to_string(),
        card_exp_year: "30".to_string(),
        card_cvc: "737".to_string(),
        card_network: None,
        card_issuer: Some(CardIssuer::Visa),
        card_holder_name: None,
    };
    assert_eq!(card.get_expiry_year_4_digit(), "2030");
    card.card_exp_year = "2031".to_string();
    assert_eq!(card.get_expiry_year_4_digit(), "2031");
    assert_eq!(card.get_card_issuer("Adyen"), Ok(CardIssuer::Visa));
    card.card_issuer = None;
    assert_eq!(
        card.get_card_issuer("Adyen"),
        Err(ConnectorError::NotImplemented { connector: "Adyen", feature: "Card Type" })
    );
}

#[test]
fn form_fields_keep_the_last_value_of_each_name() {
    let fields = unique_fields(vec![field("a", "1"), field("b", "2"), field("a", "3")]);
    assert_eq!(fields.len(), 2);
    assert!(fields.contains(&field("a", "3")));
    assert!(fields.contains(&field("b", "2")));
    assert_eq!(unique_fields(Vec::new()), Vec::new());
}

#[test]
fn form_of_an_address_takes_the_query_apart() {
    let form = form_of_url("https://pay.example.com/redirect?token=abc&step=2", Method::Get);
    match form {
        Some(RedirectForm::Form { endpoint, method, form_fields }) => {
            assert_eq!(endpoint, "https://pay.example.com/redirect");
            assert_eq!(method, Method::Get);
            assert_eq!(form_fields.len(), 2);
            assert!(form_fields.contains(&field("token", "abc")));
            assert!(form_fields.contains(&field("step", "2")));
        }
        None => panic!("an address has a form"),
    }
    assert_eq!(form_of_url("not an address", Method::Get), None);
}

#[test]
fn whole_address_is_held_together() {
    let whole = Address {
        address: Some(address(Some("Ada"), Some("Lovelace"))),
        phone: None,
        email: Some("ada@example.com".to_string()),
    };
    assert_eq!(whole.get_optional_full_name().as_deref(), Some("Ada Lovelace"));
    let empty = Address { address: None, phone: None, email: None };
    assert_eq!(empty.get_optional_full_name(), None);
}

#[test]
fn merging_all_updates_applies_them_in_order() {
    let start = AttemptState { status: AttemptStatus::Pending, source: StatusSource::Response };
    let updates = vec![
        AttemptState { status: AttemptStatus::Authorized, source: StatusSource::Webhook },
        AttemptState { status: AttemptStatus::Charged, source: StatusSource::Webhook },
        AttemptState { status: AttemptStatus::Pending, source: StatusSource::Response },
    ];
    let merged = start.merge_all(&updates);
    assert_eq!(merged.status, AttemptStatus::Charged);
    assert_eq!(start.merge_all(&Vec::new()), start);
}
