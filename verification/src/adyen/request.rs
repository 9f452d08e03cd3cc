//! The request builder for Adyen: how the parts of a request are taken
//! from a canonical request in its context.
//!
//! Amounts are counts of minor units with their currency throughout;
//! nothing here computes with fractions of money.

use vstd::prelude::*;
use crate::address::{Address as CanonicalAddress, PhoneDetails};
use crate::adyen::types::{
    AdditionalData,
    Address,
    AdyenBrowserInfo,
    AdyenRecurringModel,
    AdyenRouterData,
    AdyenShopperInteraction,
    Amount,
    AuthType,
    Channel,
    LineItem,
    ShopperName,
};
use crate::country::CountryAlpha2;
use crate::enums::{
    spec_is_manual_capture,
    AuthenticationType,
    CaptureMethod,
    FutureUsage,
    PaymentMethod as PaymentMethodFamily,
    PaymentMethodType,
};
use crate::errors::ConnectorError;
use crate::payment_method_data::{BankRedirectData, PaymentMethodData, VoucherData};
use crate::router_data::{
    spec_address_details,
    spec_country,
    spec_email,
    spec_is_mandate_payment,
    spec_phone,
    BrowserInformation,
    MandateIds,
    OrderDetailsWithAmount,
    PaymentsAuthorizeRouterData,
};
use crate::text::{decimal, decimal_string, join3, opt_str};

verus! {

/// How the shopper takes part in a payment: a payment without the shopper
/// continues an earlier authentication, any other is an online purchase.
pub open spec fn spec_shopper_interaction(off_session: Option<bool>) -> AdyenShopperInteraction {
    if off_session == Some(true) {
        AdyenShopperInteraction::ContinuedAuthentication
    } else {
        AdyenShopperInteraction::Ecommerce
    }
}

impl AdyenShopperInteraction {
    /// Tells how the shopper takes part in a payment.
    pub fn from(item: &PaymentsAuthorizeRouterData) -> (res: Self)
        ensures
            res == spec_shopper_interaction(item.request.off_session),
    {
        match item.request.off_session {
            Some(true) => AdyenShopperInteraction::ContinuedAuthentication,
            _ => AdyenShopperInteraction::Ecommerce,
        }
    }
}

/// The reference under which Adyen knows a shopper: the merchant's id and
/// the customer's id with an underscore between them.
pub open spec fn spec_shopper_reference(merchant_id: Seq<char>, customer_id: Seq<char>) -> Seq<
    char,
> {
    merchant_id + "_"@ + customer_id
}

/// The mandate that a payment is made on, if it is made on one.
pub open spec fn spec_has_existing_mandate(mandate_id: Option<MandateIds>) -> bool {
    mandate_id matches Some(ids) && ids.mandate_reference_id is Some
}

/// The model under which a payment is processed again later, whether the
/// payment method is to be stored, and the reference of the shopper.
pub type RecurringDetails = (Option<AdyenRecurringModel>, Option<bool>, Option<String>);

/// The recurring details of a payment that is not made on a mandate, with
/// the shopper reference as plain text.
///
/// A payment that sets its payment method up for use without the shopper
/// is processed as unscheduled card on file, and stores the payment method
/// if it is a mandate payment. Any other payment that is made without the
/// shopper is processed as unscheduled card on file, too, and says nothing
/// of storing. In both cases the shopper is referred to by merchant and
/// customer, so the customer's id is required. Every other payment has no
/// recurring details.
pub open spec fn spec_recurring_details(item: PaymentsAuthorizeRouterData) -> Result<
    (Option<AdyenRecurringModel>, Option<bool>, Option<Seq<char>>),
    ConnectorError,
> {
    let customer_missing = Err(ConnectorError::MissingRequiredField { field_name: "customer_id" });
    if item.request.setup_future_usage == Some(FutureUsage::OffSession) {
        match item.customer_id {
            Some(customer_id) => Ok(
                (
                    Some(AdyenRecurringModel::UnscheduledCardOnFile),
                    Some(spec_is_mandate_payment(item.request)),
                    Some(spec_shopper_reference(item.merchant_id@, customer_id@)),
                ),
            ),
            None => customer_missing,
        }
    } else if item.request.off_session == Some(true) {
        match item.customer_id {
            Some(customer_id) => Ok(
                (
                    Some(AdyenRecurringModel::UnscheduledCardOnFile),
                    None,
                    Some(spec_shopper_reference(item.merchant_id@, customer_id@)),
                ),
            ),
            None => customer_missing,
        }
    } else {
        Ok((None, None, None))
    }
}

/// The recurring details of a payment, with the shopper reference as plain
/// text.
///
/// | set up for later use | without the shopper | on a mandate | model | store |
/// |---|---|---|---|---|
/// | off session | any | no | unscheduled card on file | whether it is a mandate payment |
/// | any other | yes | no | unscheduled card on file | unset |
/// | any | any | yes | none | unset |
/// | any other | no | no | none | unset |
///
/// A payment on a mandate gets its recurring details from the request for
/// a mandate payment, not from here.
pub open spec fn spec_recurring_processing_model(item: PaymentsAuthorizeRouterData) -> Result<
    (Option<AdyenRecurringModel>, Option<bool>, Option<Seq<char>>),
    ConnectorError,
> {
    if spec_has_existing_mandate(item.request.mandate_id) {
        Ok((None, None, None))
    } else {
        spec_recurring_details(item)
    }
}

/// The recurring details as plain values.
pub open spec fn recurring_details_view(details: RecurringDetails) -> (
    Option<AdyenRecurringModel>,
    Option<bool>,
    Option<Seq<char>>,
) {
    (details.0, details.1, opt_str(details.2))
}

/// Derives the recurring details of a payment from how it is set up, and
/// from that alone.
pub fn get_recurring_details(item: &PaymentsAuthorizeRouterData) -> (res: Result<
    RecurringDetails,
    ConnectorError,
>)
    ensures
        match spec_recurring_details(*item) {
            Ok(details) => res matches Ok(r) && recurring_details_view(r) == details,
            Err(e) => res == Err::<RecurringDetails, ConnectorError>(e),
        },
{
    match (item.request.setup_future_usage, item.request.off_session) {
        (Some(FutureUsage::OffSession), _) => {
            let customer_id = item.get_customer_id()?;
            let shopper_reference = join3(item.merchant_id.as_str(), "_", customer_id.as_str());
            let store_payment_method = item.request.is_mandate_payment();
            Ok(
                (
                    Some(AdyenRecurringModel::UnscheduledCardOnFile),
                    Some(store_payment_method),
                    Some(shopper_reference),
                ),
            )
        },
        (_, Some(true)) => {
            let customer_id = item.get_customer_id()?;
            Ok(
                (
                    Some(AdyenRecurringModel::UnscheduledCardOnFile),
                    None,
                    Some(join3(item.merchant_id.as_str(), "_", customer_id.as_str())),
                ),
            )
        },
        _ => Ok((None, None, None)),
    }
}

/// Derives the recurring details of a payment.
pub fn get_recurring_processing_model(item: &PaymentsAuthorizeRouterData) -> (res: Result<
    RecurringDetails,
    ConnectorError,
>)
    ensures
        match spec_recurring_processing_model(*item) {
            Ok(details) => res matches Ok(r) && recurring_details_view(r) == details,
            Err(e) => res == Err::<RecurringDetails, ConnectorError>(e),
        },
{
    let on_mandate = match &item.request.mandate_id {
        Some(ids) => ids.mandate_reference_id.is_some(),
        None => false,
    };
    if on_mandate {
        Ok((None, None, None))
    } else {
        get_recurring_details(item)
    }
}

/// Whether a payment goes through a flow in which Adyen looks at the
/// shopper's browser: 3-D Secure, a card, a bank redirect, GoPay or
/// Google Pay. For any other payment the browser is left out of the
/// request.
pub open spec fn spec_needs_browser_info(item: PaymentsAuthorizeRouterData) -> bool {
    item.auth_type == AuthenticationType::ThreeDs || item.payment_method
        == PaymentMethodFamily::Card || item.payment_method == PaymentMethodFamily::BankRedirect
        || item.request.payment_method_type == Some(PaymentMethodType::GoPay)
        || item.request.payment_method_type == Some(PaymentMethodType::GooglePay)
}

/// What Adyen is told of the shopper's browser; every detail is required.
pub open spec fn spec_adyen_browser_info(info: Option<BrowserInformation>) -> Result<
    AdyenBrowserInfo,
    ConnectorError,
> {
    match info {
        None => Err(ConnectorError::MissingRequiredField { field_name: "browser_info" }),
        Some(info) => match (
            info.accept_header,
            info.language,
            info.screen_height,
            info.screen_width,
            info.color_depth,
            info.user_agent,
            info.time_zone,
            info.java_enabled,
        ) {
            (None, _, _, _, _, _, _, _) => Err(
                ConnectorError::MissingRequiredField { field_name: "browser_info.accept_header" },
            ),
            (_, None, _, _, _, _, _, _) => Err(
                ConnectorError::MissingRequiredField { field_name: "browser_info.language" },
            ),
            (_, _, None, _, _, _, _, _) => Err(
                ConnectorError::MissingRequiredField { field_name: "browser_info.screen_height" },
            ),
            (_, _, _, None, _, _, _, _) => Err(
                ConnectorError::MissingRequiredField { field_name: "browser_info.screen_width" },
            ),
            (_, _, _, _, None, _, _, _) => Err(
                ConnectorError::MissingRequiredField { field_name: "browser_info.color_depth" },
            ),
            (_, _, _, _, _, None, _, _) => Err(
                ConnectorError::MissingRequiredField { field_name: "browser_info.user_agent" },
            ),
            (_, _, _, _, _, _, None, _) => Err(
                ConnectorError::MissingRequiredField { field_name: "browser_info.time_zone" },
            ),
            (_, _, _, _, _, _, _, None) => Err(
                ConnectorError::MissingRequiredField { field_name: "browser_info.java_enabled" },
            ),
            (
                Some(accept_header),
                Some(language),
                Some(screen_height),
                Some(screen_width),
                Some(color_depth),
                Some(user_agent),
                Some(time_zone_offset),
                Some(java_enabled),
            ) => Ok(
                AdyenBrowserInfo {
                    user_agent,
                    accept_header,
                    language,
                    color_depth,
                    screen_height,
                    screen_width,
                    time_zone_offset,
                    java_enabled,
                },
            ),
        },
    }
}

/// The browser details that go with a payment: those of the shopper's
/// browser where the flow needs them, and none otherwise.
pub open spec fn spec_browser_info(item: PaymentsAuthorizeRouterData) -> Result<
    Option<AdyenBrowserInfo>,
    ConnectorError,
> {
    if spec_needs_browser_info(item) {
        match spec_adyen_browser_info(item.request.browser_info) {
            Ok(info) => Ok(Some(info)),
            Err(e) => Err(e),
        }
    } else {
        Ok(None)
    }
}

/// Takes the browser details that go with a payment.
pub fn get_browser_info(item: &PaymentsAuthorizeRouterData) -> (res: Result<
    Option<AdyenBrowserInfo>,
    ConnectorError,
>)
    ensures
        res == spec_browser_info(*item),
{
    if matches!(item.auth_type, AuthenticationType::ThreeDs) || matches!(
        item.payment_method,
        PaymentMethodFamily::Card
    ) || matches!(item.payment_method, PaymentMethodFamily::BankRedirect) || matches!(
        item.request.payment_method_type,
        Some(PaymentMethodType::GoPay)
    ) || matches!(item.request.payment_method_type, Some(PaymentMethodType::GooglePay)) {
        let info = match &item.request.browser_info {
            Some(info) => info,
            None => {
                return Err(ConnectorError::MissingRequiredField { field_name: "browser_info" });
            },
        };
        let accept_header = match &info.accept_header {
            Some(v) => v.clone(),
            None => {
                return Err(
                    ConnectorError::MissingRequiredField {
                        field_name: "browser_info.accept_header",
                    },
                );
            },
        };
        let language = match &info.language {
            Some(v) => v.clone(),
            None => {
                return Err(
                    ConnectorError::MissingRequiredField { field_name: "browser_info.language" },
                );
            },
        };
        let screen_height = match info.screen_height {
            Some(v) => v,
            None => {
                return Err(
                    ConnectorError::MissingRequiredField {
                        field_name: "browser_info.screen_height",
                    },
                );
            },
        };
        let screen_width = match info.screen_width {
            Some(v) => v,
            None => {
                return Err(
                    ConnectorError::MissingRequiredField {
                        field_name: "browser_info.screen_width",
                    },
                );
            },
        };
        let color_depth = match info.color_depth {
            Some(v) => v,
            None => {
                return Err(
                    ConnectorError::MissingRequiredField {
                        field_name: "browser_info.color_depth",
                    },
                );
            },
        };
        let user_agent = match &info.user_agent {
            Some(v) => v.clone(),
            None => {
                return Err(
                    ConnectorError::MissingRequiredField { field_name: "browser_info.user_agent" },
                );
            },
        };
        let time_zone_offset = match info.time_zone {
            Some(v) => v,
            None => {
                return Err(
                    ConnectorError::MissingRequiredField { field_name: "browser_info.time_zone" },
                );
            },
        };
        let java_enabled = match info.java_enabled {
            Some(v) => v,
            None => {
                return Err(
                    ConnectorError::MissingRequiredField {
                        field_name: "browser_info.java_enabled",
                    },
                );
            },
        };
        Ok(
            Some(
                AdyenBrowserInfo {
                    user_agent,
                    accept_header,
                    language,
                    color_depth,
                    screen_height,
                    screen_width,
                    time_zone_offset,
                    java_enabled,
                },
            ),
        )
    } else {
        Ok(None)
    }
}

/// Whether `res` holds the additional data of a payment: a
/// pre-authorization with manual capture switched on where the capture is
/// manual, and 3-D Secure switched on where it is asked for. A payment that
/// needs neither has no additional data at all.
pub open spec fn spec_is_additional_data(
    item: PaymentsAuthorizeRouterData,
    res: Option<AdditionalData>,
) -> bool {
    let manual = spec_is_manual_capture(item.request.capture_method);
    let three_ds = item.auth_type == AuthenticationType::ThreeDs;
    if !manual && !three_ds {
        res is None
    } else {
        &&& res matches Some(data)
        &&& data.authorisation_type == (if manual {
            Some(AuthType::PreAuth)
        } else {
            None
        })
        &&& opt_str(data.manual_capture) == (if manual {
            Some("true"@)
        } else {
            None
        })
        &&& opt_str(data.execute_three_d) == (if three_ds {
            Some("true"@)
        } else {
            None
        })
        &&& data.recurring_processing_model is None
        &&& data.recurring_detail_reference is None
        &&& data.recurring_shopper_reference is None
        &&& data.network_tx_reference is None
        &&& data.payout_eligible is None
        &&& data.funds_availability is None
        &&& data.refusal_reason_raw is None
        &&& data.refusal_code_raw is None
    }
}

/// Puts the additional data of a payment together.
pub fn get_additional_data(item: &PaymentsAuthorizeRouterData) -> (res: Option<AdditionalData>)
    ensures
        spec_is_additional_data(*item, res),
{
    let (authorisation_type, manual_capture) = match item.request.capture_method {
        Some(CaptureMethod::Manual) | Some(CaptureMethod::ManualMultiple) => (
            Some(AuthType::PreAuth),
            Some("true".to_owned()),
        ),
        _ => (None, None),
    };
    let execute_three_d = if matches!(item.auth_type, AuthenticationType::ThreeDs) {
        Some("true".to_owned())
    } else {
        None
    };
    if authorisation_type.is_none() && manual_capture.is_none() && execute_three_d.is_none() {
        None
    } else {
        Some(
            AdditionalData {
                authorisation_type,
                manual_capture,
                execute_three_d,
                network_tx_reference: None,
                recurring_detail_reference: None,
                recurring_shopper_reference: None,
                recurring_processing_model: None,
                payout_eligible: None,
                funds_availability: None,
                refusal_reason_raw: None,
                refusal_code_raw: None,
            },
        )
    }
}

/// The channel of a payment: GoPay and Vipps are paid on the web, and no
/// other payment method names a channel.
pub open spec fn spec_channel_type(pm_type: Option<PaymentMethodType>) -> Option<Channel> {
    if pm_type == Some(PaymentMethodType::GoPay) || pm_type == Some(PaymentMethodType::Vipps) {
        Some(Channel::Web)
    } else {
        None
    }
}

/// Tells the channel of a payment.
pub fn get_channel_type(pm_type: Option<PaymentMethodType>) -> (res: Option<Channel>)
    ensures
        res == spec_channel_type(pm_type),
{
    match pm_type {
        Some(PaymentMethodType::GoPay) | Some(PaymentMethodType::Vipps) => Some(Channel::Web),
        _ => None,
    }
}

/// The amount of a payment with its currency.
pub fn get_amount_data(item: &AdyenRouterData<&PaymentsAuthorizeRouterData>) -> (res: Amount)
    ensures
        res == (Amount { currency: item.router_data.request.currency, value: item.amount }),
{
    Amount { currency: item.router_data.request.currency, value: item.amount }
}

/// An address as Adyen takes it: city, country, first line and postal
/// code are required. An address without a postal part is no address.
pub open spec fn spec_address_info(address: Option<CanonicalAddress>) -> Option<
    Result<Address, ConnectorError>,
> {
    match spec_address_details(address) {
        None => None,
        Some(a) => Some(
            match (a.city, a.country, a.line1, a.zip) {
                (None, _, _, _) => Err(
                    ConnectorError::MissingRequiredField { field_name: "address.city" },
                ),
                (_, None, _, _) => Err(
                    ConnectorError::MissingRequiredField { field_name: "address.country" },
                ),
                (_, _, None, _) => Err(
                    ConnectorError::MissingRequiredField { field_name: "address.line1" },
                ),
                (_, _, _, None) => Err(
                    ConnectorError::MissingRequiredField { field_name: "address.zip" },
                ),
                (Some(city), Some(country), Some(line1), Some(zip)) => Ok(
                    Address {
                        city,
                        country,
                        house_number_or_name: line1,
                        postal_code: zip,
                        state_or_province: a.state,
                        street: a.line2,
                    },
                ),
            },
        ),
    }
}

/// Puts an address in the form that Adyen takes.
pub fn get_address_info(address: Option<&CanonicalAddress>) -> (res: Option<
    Result<Address, ConnectorError>,
>)
    ensures
        res == spec_address_info(
            match address {
                Some(a) => Some(*a),
                None => None,
            },
        ),
{
    let details = match address {
        Some(CanonicalAddress { address: Some(details), .. }) => details,
        _ => {
            return None;
        },
    };
    let city = match details.get_city() {
        Ok(v) => v.clone(),
        Err(e) => {
            return Some(Err(e));
        },
    };
    let country = match details.get_country() {
        Ok(v) => v,
        Err(e) => {
            return Some(Err(e));
        },
    };
    let house_number_or_name = match details.get_line1() {
        Ok(v) => v.clone(),
        Err(e) => {
            return Some(Err(e));
        },
    };
    let postal_code = match details.get_zip() {
        Ok(v) => v.clone(),
        Err(e) => {
            return Some(Err(e));
        },
    };
    Some(
        Ok(
            Address {
                city,
                country,
                house_number_or_name,
                postal_code,
                state_or_province: details.state.clone(),
                street: details.line2.clone(),
            },
        ),
    )
}

/// An address as Adyen takes it, or none where the address is absent or
/// incomplete.
pub open spec fn spec_address_or_none(address: Option<CanonicalAddress>) -> Option<Address> {
    match spec_address_info(address) {
        Some(Ok(a)) => Some(a),
        _ => None,
    }
}

/// An address as Adyen takes it, where there is an address; an incomplete
/// address is an error.
pub open spec fn spec_address_transposed(address: Option<CanonicalAddress>) -> Result<
    Option<Address>,
    ConnectorError,
> {
    match spec_address_info(address) {
        Some(Ok(a)) => Ok(Some(a)),
        Some(Err(e)) => Err(e),
        None => Ok(None),
    }
}

/// The shopper's phone number with the calling code in front, where both
/// are known.
pub open spec fn spec_telephone_number(item: PaymentsAuthorizeRouterData) -> Option<Seq<char>> {
    match spec_phone(item.address.billing) {
        Some(PhoneDetails { number: Some(number), country_code: Some(country_code) }) => Some(
            country_code@ + number@,
        ),
        _ => None,
    }
}

/// Takes the shopper's phone number from the billing details.
pub fn get_telephone_number(item: &PaymentsAuthorizeRouterData) -> (res: Option<String>)
    ensures
        opt_str(res) == spec_telephone_number(*item),
{
    match &item.address.billing {
        Some(
            CanonicalAddress {
                phone: Some(PhoneDetails { number: Some(number), country_code: Some(country_code) }),
                ..
            },
        ) => {
            let mut s = country_code.clone();
            s.append(number.as_str());
            Some(s)
        },
        _ => None,
    }
}

/// The shopper's name as an address gives it. There always is a name; its
/// parts may be absent.
pub open spec fn spec_shopper_name(address: Option<CanonicalAddress>) -> Option<ShopperName> {
    match spec_address_details(address) {
        Some(a) => Some(ShopperName { first_name: a.first_name, last_name: a.last_name }),
        None => Some(ShopperName { first_name: None, last_name: None }),
    }
}

/// Takes the shopper's name from an address.
pub fn get_shopper_name(address: Option<&CanonicalAddress>) -> (res: Option<ShopperName>)
    ensures
        res == spec_shopper_name(
            match address {
                Some(a) => Some(*a),
                None => None,
            },
        ),
{
    match address {
        Some(CanonicalAddress { address: Some(a), .. }) => Some(
            ShopperName { first_name: a.first_name.clone(), last_name: a.last_name.clone() },
        ),
        _ => Some(ShopperName { first_name: None, last_name: None }),
    }
}

/// Takes the country from an address.
pub fn get_country_code(address: Option<&CanonicalAddress>) -> (res: Option<CountryAlpha2>)
    ensures
        res == spec_country(
            match address {
                Some(a) => Some(*a),
                None => None,
            },
        ),
{
    match address {
        Some(CanonicalAddress { address: Some(a), .. }) => a.country,
        _ => None,
    }
}

/// The social security number that goes with a voucher: Boleto asks for
/// one, no other voucher does.
pub open spec fn spec_social_security_number(voucher_data: VoucherData) -> Option<String> {
    match voucher_data {
        VoucherData::Boleto { social_security_number } => social_security_number,
        _ => None,
    }
}

/// Takes the social security number that goes with a voucher.
pub fn get_social_security_number(voucher_data: &VoucherData) -> (res: Option<String>)
    ensures
        res == spec_social_security_number(*voucher_data),
{
    match voucher_data {
        VoucherData::Boleto { social_security_number } => social_security_number.clone(),
        VoucherData::Alfamart
        | VoucherData::Indomaret
        | VoucherData::Efecty
        | VoucherData::PagoEfectivo
        | VoucherData::RedCompra
        | VoucherData::Oxxo
        | VoucherData::RedPagos
        | VoucherData::SevenEleven
        | VoucherData::Lawson
        | VoucherData::MiniStop
        | VoucherData::FamilyMart
        | VoucherData::Seicomart
        | VoucherData::PayEasy => None,
    }
}

/// The reference of the shopper, where the customer is known.
pub open spec fn spec_build_shopper_reference(
    customer_id: Option<String>,
    merchant_id: String,
) -> Option<Seq<char>> {
    match customer_id {
        Some(customer_id) => Some(spec_shopper_reference(merchant_id@, customer_id@)),
        None => None,
    }
}

/// Builds the reference under which Adyen knows the shopper.
pub fn build_shopper_reference(customer_id: &Option<String>, merchant_id: String) -> (res: Option<
    String,
>)
    ensures
        opt_str(res) == spec_build_shopper_reference(*customer_id, merchant_id),
{
    match customer_id {
        Some(customer_id) => Some(join3(merchant_id.as_str(), "_", customer_id.as_str())),
        None => None,
    }
}

/// The locale and the country that go with a redirect: Trustly and open
/// banking in the UK are told the country of the person who is billed.
pub open spec fn spec_redirect_extra_details(item: PaymentsAuthorizeRouterData) -> (
    Option<String>,
    Option<CountryAlpha2>,
) {
    match item.request.payment_method_data {
        PaymentMethodData::BankRedirect(BankRedirectData::Trustly)
        | PaymentMethodData::BankRedirect(BankRedirectData::OpenBankingUk { .. }) => (
            None,
            spec_country(item.address.billing),
        ),
        _ => (None, None),
    }
}

/// Takes the locale and the country that go with a redirect.
pub fn get_redirect_extra_details(item: &PaymentsAuthorizeRouterData) -> (res: Result<
    (Option<String>, Option<CountryAlpha2>),
    ConnectorError,
>)
    ensures
        res == Ok::<(Option<String>, Option<CountryAlpha2>), ConnectorError>(
            spec_redirect_extra_details(*item),
        ),
{
    match &item.request.payment_method_data {
        PaymentMethodData::BankRedirect(BankRedirectData::Trustly)
        | PaymentMethodData::BankRedirect(BankRedirectData::OpenBankingUk { .. }) => {
            let country = item.get_optional_billing_country();
            Ok((None, country))
        },
        _ => Ok((None, None)),
    }
}

/// The shopper's e-mail address for a wallet payment. A PayPal payment
/// that stores the payment method insists on it; such a payment must name
/// its payment method type.
pub open spec fn spec_shopper_email(
    item: PaymentsAuthorizeRouterData,
    is_mandate_payment: bool,
) -> Result<Option<String>, ConnectorError> {
    let email = spec_email(item.address.billing);
    if is_mandate_payment {
        match item.request.payment_method_type {
            None => Err(ConnectorError::MissingPaymentMethodType),
            Some(PaymentMethodType::Paypal) => match email {
                Some(email) => Ok(Some(email)),
                None => Err(
                    ConnectorError::MissingRequiredField {
                        field_name: "payment_method_data.billing.email",
                    },
                ),
            },
            Some(_) => Ok(email),
        }
    } else {
        Ok(email)
    }
}

/// Takes the shopper's e-mail address for a wallet payment.
pub fn get_shopper_email(item: &PaymentsAuthorizeRouterData, is_mandate_payment: bool) -> (res:
    Result<Option<String>, ConnectorError>)
    ensures
        res == spec_shopper_email(*item, is_mandate_payment),
{
    if is_mandate_payment {
        let payment_method_type = match item.request.payment_method_type {
            Some(t) => t,
            None => {
                return Err(ConnectorError::MissingPaymentMethodType);
            },
        };
        match payment_method_type {
            PaymentMethodType::Paypal => Ok(Some(item.get_billing_email()?)),
            _ => Ok(item.get_optional_billing_email()),
        }
    } else {
        Ok(item.get_optional_billing_email())
    }
}

/// The id of the line with the given number.
pub open spec fn spec_line_item_id(number: nat) -> Seq<char> {
    "Items #"@ + decimal(number)
}

/// Whether `line` is line number `index` of an order, made from `data`:
/// the amount is given with and without tax, and no tax is stated.
pub open spec fn spec_is_order_line(
    data: OrderDetailsWithAmount,
    index: nat,
    line: LineItem,
) -> bool {
    &&& line.amount_including_tax == Some(data.amount)
    &&& line.amount_excluding_tax == Some(data.amount)
    &&& line.description == Some(data.product_name)
    &&& opt_str(line.id) == Some(spec_line_item_id(index))
    &&& line.tax_amount is None
    &&& line.quantity == Some(data.quantity)
}

/// Whether `lines` are the line items of a payment: one line for each line
/// of the order, numbered from zero in the order's own order; or, for a
/// payment without order details, one line numbered 1 for the whole
/// amount.
pub open spec fn spec_is_line_items(
    item: AdyenRouterData<&PaymentsAuthorizeRouterData>,
    lines: Seq<LineItem>,
) -> bool {
    match item.router_data.request.order_details {
        Some(order_details) => {
            &&& lines.len() == order_details@.len()
            &&& forall|i: int|
                0 <= i < lines.len() ==> spec_is_order_line(
                    #[trigger] order_details@[i],
                    i as nat,
                    lines[i],
                )
        },
        None => {
            &&& lines.len() == 1
            &&& lines[0].amount_including_tax == Some(item.amount)
            &&& lines[0].amount_excluding_tax == Some(item.amount)
            &&& lines[0].description == item.router_data.description
            &&& opt_str(lines[0].id) == Some(spec_line_item_id(1))
            &&& lines[0].tax_amount is None
            &&& lines[0].quantity == Some(1u16)
        },
    }
}

/// Makes the id of the line with the given number.
fn line_item_id(number: usize) -> (res: String)
    ensures
        res@ == spec_line_item_id(number as nat),
{
    let digits = decimal_string(number as u64);
    let mut id = "Items #".to_owned();
    id.append(digits.as_str());
    id
}

/// Puts the line items of a payment together.
pub fn get_line_items(item: &AdyenRouterData<&PaymentsAuthorizeRouterData>) -> (res: Vec<LineItem>)
    ensures
        spec_is_line_items(*item, res@),
{
    match &item.router_data.request.order_details {
        Some(order_details) => {
            let mut lines: Vec<LineItem> = Vec::new();
            let mut i: usize = 0;
            while i < order_details.len()
                invariant
                    i <= order_details.len(),
                    lines@.len() == i,
                    forall|j: int|
                        0 <= j < i ==> spec_is_order_line(
                            #[trigger] order_details@[j],
                            j as nat,
                            lines@[j],
                        ),
                decreases order_details.len() - i,
            {
                let data = &order_details[i];
                lines.push(
                    LineItem {
                        amount_including_tax: Some(data.amount),
                        amount_excluding_tax: Some(data.amount),
                        description: Some(data.product_name.clone()),
                        id: Some(line_item_id(i)),
                        tax_amount: None,
                        quantity: Some(data.quantity),
                    },
                );
                i += 1;
            }
            lines
        },
        None => {
            let line_item = LineItem {
                amount_including_tax: Some(item.amount),
                amount_excluding_tax: Some(item.amount),
                description: item.router_data.description.clone(),
                id: Some(line_item_id(1)),
                tax_amount: None,
                quantity: Some(1),
            };
            let mut lines: Vec<LineItem> = Vec::new();
            lines.push(line_item);
            lines
        },
    }
}

} // verus!
