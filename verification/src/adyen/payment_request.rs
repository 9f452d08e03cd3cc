//! The request to authorize a payment with Adyen.
//!
//! There is one builder for each family of payment methods and one for a
//! payment on a mandate. Each builder fills in every field of the request:
//! the fields that all payments share, and the fields of its family. What
//! a family does not send stays unset; in particular the shopper's browser
//! is described only where the flow looks at it.

use vstd::prelude::*;
use crate::adyen::payment_method::{
    spec_brand_of_network,
    spec_from_bank_transfer,
    spec_from_card_redirect,
    spec_from_gift_card,
    spec_from_pay_later,
    spec_from_voucher,
    spec_is_from_bank_debit,
    spec_is_from_bank_redirect,
    spec_is_from_card,
    spec_is_from_network_token,
    spec_is_from_wallet,
    spec_bank_debit_error,
    spec_bank_redirect_error,
    spec_err,
    spec_not_implemented,
    spec_wallet_error,
    get_adyen_card_network,
};
use crate::adyen::request::{
    build_shopper_reference,
    get_additional_data,
    get_address_info,
    get_amount_data,
    get_browser_info,
    get_channel_type,
    get_country_code,
    get_line_items,
    get_recurring_details,
    get_recurring_processing_model,
    get_redirect_extra_details,
    get_shopper_email,
    get_shopper_name,
    get_social_security_number,
    get_telephone_number,
    spec_address_or_none,
    spec_address_transposed,
    spec_browser_info,
    spec_build_shopper_reference,
    spec_channel_type,
    spec_is_additional_data,
    spec_is_line_items,
    spec_recurring_details,
    spec_recurring_processing_model,
    spec_redirect_extra_details,
    spec_shopper_email,
    spec_shopper_interaction,
    spec_shopper_name,
    spec_social_security_number,
    spec_telephone_number,
};
use crate::adyen::split::{get_adyen_split_request, spec_splits_to_wire};
use crate::adyen::types::{
    Address,
    AdyenAuthType,
    AdyenBrowserInfo,
    AdyenCard,
    AdyenMandate,
    AdyenMpiData,
    AdyenNetworkTokenData,
    AdyenPaymentMethod,
    AdyenPaymentRequest,
    AdyenRecurringModel,
    AdyenRouterData,
    AdyenShopperInteraction,
    Amount,
    CardBrand,
    Channel,
    PaymentMethod,
    PaymentType,
    ShopperName,
};
use crate::country::CountryAlpha2;
use crate::errors::ConnectorError;
use crate::payment_method_data::{
    spec_card_issuer,
    spec_expiry_year_4_digit,
    BankDebitData,
    BankRedirectData,
    BankTransferData,
    Card,
    CardRedirectData,
    GiftCardData,
    NetworkTokenData,
    PayLaterData,
    PaymentMethodData,
    VoucherData,
    WalletData,
};
use crate::router_data::{
    spec_country,
    spec_email,
    spec_optional_full_name,
    spec_phone,
    MandateIds,
    MandateReferenceId,
    PaymentMethodToken,
    PaymentsAuthorizeRouterData,
    SplitPaymentsRequest,
};
use crate::text::opt_str;

verus! {

/// The first of two possible errors.
pub open spec fn spec_first(
    first: Option<ConnectorError>,
    second: Option<ConnectorError>,
) -> Option<ConnectorError> {
    match first {
        Some(e) => Some(e),
        None => second,
    }
}

/// The error for a request without an address to return to.
pub open spec fn spec_return_url_error(item: PaymentsAuthorizeRouterData) -> Option<
    ConnectorError,
> {
    match item.request.router_return_url {
        Some(_) => None,
        None => Some(ConnectorError::MissingRequiredField { field_name: "return_url" }),
    }
}

/// The error for credentials that are not those of an Adyen account.
pub open spec fn spec_auth_error(item: PaymentsAuthorizeRouterData) -> Option<ConnectorError> {
    spec_err(AdyenAuthType::spec_try_from(item.connector_auth_type))
}

/// Whether `req` has the fields that every payment request shares: the
/// amount in minor units with its currency, the merchant's account, the
/// references, where the shopper returns to and how the shopper takes
/// part, what the merchant attached, and the split of the payment. A split
/// goes out only where the payment is split the Adyen way.
pub open spec fn spec_has_common_fields(
    item: AdyenRouterData<&PaymentsAuthorizeRouterData>,
    req: AdyenPaymentRequest,
) -> bool {
    let data = *item.router_data;
    &&& req.amount == (Amount { currency: data.request.currency, value: item.amount })
    &&& AdyenAuthType::spec_try_from(data.connector_auth_type) matches Ok(auth)
    &&& req.merchant_account == auth.merchant_account
    &&& req.reference == data.connector_request_reference_id
    &&& Some(req.return_url) == data.request.router_return_url
    &&& req.shopper_interaction == spec_shopper_interaction(data.request.off_session)
    &&& req.shopper_statement == data.request.statement_descriptor
    &&& req.shopper_ip == data.request.spec_ip_address()
    &&& req.metadata == data.request.metadata
    &&& req.merchant_order_reference == data.request.merchant_order_reference_id
    &&& match data.request.split_payments {
        Some(SplitPaymentsRequest::AdyenSplitPayment(split)) => {
            &&& req.store == split.store
            &&& req.splits matches Some(splits)
            &&& splits@ == spec_splits_to_wire(split.split_items@, data.request.currency)
        },
        _ => req.store is None && req.splits is None,
    }
}

/// The fields of a payment request that differ from family to family and
/// are plain to state, as plain values.
pub struct RequestDetails {
    pub browser_info: Option<AdyenBrowserInfo>,
    pub recurring_processing_model: Option<AdyenRecurringModel>,
    pub shopper_reference: Option<Seq<char>>,
    pub store_payment_method: Option<bool>,
    pub shopper_name: Option<ShopperName>,
    pub shopper_locale: Option<String>,
    pub shopper_email: Option<String>,
    pub social_security_number: Option<String>,
    pub telephone_number: Option<Seq<char>>,
    pub billing_address: Option<Address>,
    pub delivery_address: Option<Address>,
    pub country_code: Option<CountryAlpha2>,
    pub channel: Option<Channel>,
}

impl AdyenPaymentRequest {
    /// The fields of the request that differ from family to family.
    pub open spec fn details(self) -> RequestDetails {
        RequestDetails {
            browser_info: self.browser_info,
            recurring_processing_model: self.recurring_processing_model,
            shopper_reference: opt_str(self.shopper_reference),
            store_payment_method: self.store_payment_method,
            shopper_name: self.shopper_name,
            shopper_locale: self.shopper_locale,
            shopper_email: self.shopper_email,
            social_security_number: self.social_security_number,
            telephone_number: opt_str(self.telephone_number),
            billing_address: self.billing_address,
            delivery_address: self.delivery_address,
            country_code: self.country_code,
            channel: self.channel,
        }
    }
}

/// A request with nothing but the fields that every payment shares and
/// the payment method.
fn base_request(
    item: &AdyenRouterData<&PaymentsAuthorizeRouterData>,
    merchant_account: String,
    return_url: String,
    payment_method: PaymentMethod,
) -> (req: AdyenPaymentRequest)
    requires
        AdyenAuthType::spec_try_from(item.router_data.connector_auth_type) matches Ok(auth)
            && auth.merchant_account == merchant_account,
        Some(return_url) == item.router_data.request.router_return_url,
    ensures
        spec_has_common_fields(*item, req),
        req.payment_method == payment_method,
        req.mpi_data is None,
        req.additional_data is None,
        req.line_items is None,
        req.details() == (RequestDetails {
            browser_info: None,
            recurring_processing_model: None,
            shopper_reference: None,
            store_payment_method: None,
            shopper_name: None,
            shopper_locale: None,
            shopper_email: None,
            social_security_number: None,
            telephone_number: None,
            billing_address: None,
            delivery_address: None,
            country_code: None,
            channel: None,
        }),
{
    let (store, splits) = match &item.router_data.request.split_payments {
        Some(SplitPaymentsRequest::AdyenSplitPayment(adyen_split_payment)) => {
            get_adyen_split_request(adyen_split_payment, item.router_data.request.currency)
        },
        _ => (None, None),
    };
    AdyenPaymentRequest {
        amount: get_amount_data(item),
        merchant_account,
        payment_method,
        reference: item.router_data.connector_request_reference_id.clone(),
        return_url,
        shopper_interaction: AdyenShopperInteraction::from(item.router_data),
        recurring_processing_model: None,
        browser_info: None,
        additional_data: None,
        mpi_data: None,
        telephone_number: None,
        shopper_name: None,
        shopper_email: None,
        shopper_locale: None,
        social_security_number: None,
        billing_address: None,
        delivery_address: None,
        country_code: None,
        line_items: None,
        shopper_reference: None,
        store_payment_method: None,
        channel: None,
        shopper_statement: item.router_data.request.statement_descriptor.clone(),
        shopper_ip: item.router_data.request.get_ip_address_as_optional(),
        metadata: item.router_data.request.metadata.clone(),
        merchant_order_reference: item.router_data.request.merchant_order_reference_id.clone(),
        store,
        splits,
    }
}

/// An address in the form of Adyen, or none where it is absent or
/// incomplete.
fn address_or_none(address: Option<&crate::address::Address>) -> (res: Option<Address>)
    ensures
        res == spec_address_or_none(
            match address {
                Some(a) => Some(*a),
                None => None,
            },
        ),
{
    match get_address_info(address) {
        Some(Ok(a)) => Some(a),
        _ => None,
    }
}

/// The error with which the request for a card payment fails, if it does:
/// the checks are made in this order, and the first that fails is
/// reported.
pub open spec fn spec_card_request_error(item: PaymentsAuthorizeRouterData) -> Option<
    ConnectorError,
> {
    spec_first(
        spec_auth_error(item),
        spec_first(
            spec_err(spec_recurring_processing_model(item)),
            spec_first(spec_err(spec_browser_info(item)), spec_return_url_error(item)),
        ),
    )
}

/// Whether `req` has the fields of a card payment: the card in the name of
/// the person who is billed, that person's name, e-mail address, address
/// and country, and the shopper reference of the customer.
pub open spec fn spec_is_card_request(
    item: AdyenRouterData<&PaymentsAuthorizeRouterData>,
    card: Card,
    req: AdyenPaymentRequest,
) -> bool {
    let data = *item.router_data;
    &&& req.payment_method matches PaymentMethod::AdyenPaymentMethod(method)
    &&& spec_is_from_card(card, spec_optional_full_name(data.address.billing), method)
    &&& req.mpi_data is None
    &&& spec_is_additional_data(data, req.additional_data)
    &&& req.line_items is None
    &&& spec_recurring_processing_model(data) matches Ok(recurring)
    &&& spec_browser_info(data) matches Ok(browser_info)
    &&& req.details() == (RequestDetails {
        browser_info,
        recurring_processing_model: recurring.0,
        shopper_reference: spec_build_shopper_reference(data.customer_id, data.merchant_id),
        store_payment_method: recurring.1,
        shopper_name: spec_shopper_name(data.address.billing),
        shopper_locale: None,
        shopper_email: spec_email(data.address.billing),
        social_security_number: None,
        telephone_number: None,
        billing_address: spec_address_or_none(data.address.billing),
        delivery_address: None,
        country_code: spec_country(data.address.billing),
        channel: None,
    })
}

impl AdyenPaymentRequest {
    /// Builds the request for a card payment.
    pub fn try_from_card(item: &AdyenRouterData<&PaymentsAuthorizeRouterData>, card_data: &Card) -> (res:
        Result<Self, ConnectorError>)
        ensures
            match spec_card_request_error(*item.router_data) {
                Some(e) => res == Err::<Self, ConnectorError>(e),
                None => res matches Ok(req) && spec_has_common_fields(*item, req)
                    && spec_is_card_request(*item, *card_data, req),
            },
    {
        let auth_type = AdyenAuthType::try_from(&item.router_data.connector_auth_type)?;
        let shopper_reference = build_shopper_reference(
            &item.router_data.customer_id,
            item.router_data.merchant_id.clone(),
        );
        let (recurring_processing_model, store_payment_method, _) = get_recurring_processing_model(
            item.router_data,
        )?;
        let browser_info = get_browser_info(item.router_data)?;
        let billing_address = address_or_none(item.router_data.get_optional_billing());
        let country_code = get_country_code(item.router_data.get_optional_billing());
        let additional_data = get_additional_data(item.router_data);
        let return_url = item.router_data.request.get_router_return_url()?;
        let card_holder_name = item.router_data.get_optional_billing_full_name();
        let payment_method = PaymentMethod::AdyenPaymentMethod(
            AdyenPaymentMethod::try_from_card(card_data, card_holder_name)?,
        );
        let shopper_email = item.router_data.get_optional_billing_email();
        let shopper_name = get_shopper_name(item.router_data.get_optional_billing());
        let base = base_request(item, auth_type.merchant_account, return_url, payment_method);
        Ok(
            AdyenPaymentRequest {
                recurring_processing_model,
                browser_info,
                additional_data,
                shopper_name,
                shopper_email,
                billing_address,
                country_code,
                shopper_reference,
                store_payment_method,
                ..base
            },
        )
    }
}

/// The details of a request that sends nothing beyond the payment method
/// and the shopper's e-mail address.
pub open spec fn spec_plain_details(item: PaymentsAuthorizeRouterData) -> RequestDetails {
    RequestDetails {
        browser_info: None,
        recurring_processing_model: None,
        shopper_reference: None,
        store_payment_method: None,
        shopper_name: None,
        shopper_locale: None,
        shopper_email: spec_email(item.address.billing),
        social_security_number: None,
        telephone_number: None,
        billing_address: None,
        delivery_address: None,
        country_code: None,
        channel: None,
    }
}

/// The error with which the request for a bank debit fails, if it does.
pub open spec fn spec_bank_debit_request_error(
    item: PaymentsAuthorizeRouterData,
    bank_debit_data: BankDebitData,
) -> Option<ConnectorError> {
    spec_first(
        spec_auth_error(item),
        spec_first(
            spec_err(spec_recurring_processing_model(item)),
            spec_first(
                spec_err(spec_browser_info(item)),
                spec_first(
                    spec_return_url_error(item),
                    spec_bank_debit_error(bank_debit_data, item),
                ),
            ),
        ),
    )
}

/// Whether `req` has the fields of a bank debit.
pub open spec fn spec_is_bank_debit_request(
    item: AdyenRouterData<&PaymentsAuthorizeRouterData>,
    bank_debit_data: BankDebitData,
    req: AdyenPaymentRequest,
) -> bool {
    let data = *item.router_data;
    &&& req.payment_method matches PaymentMethod::AdyenPaymentMethod(method)
    &&& spec_is_from_bank_debit(bank_debit_data, data, Ok(method))
    &&& req.mpi_data is None
    &&& spec_is_additional_data(data, req.additional_data)
    &&& req.line_items is None
    &&& spec_recurring_processing_model(data) matches Ok(recurring)
    &&& spec_browser_info(data) matches Ok(browser_info)
    &&& req.details() == (RequestDetails {
        browser_info,
        recurring_processing_model: recurring.0,
        shopper_reference: recurring.2,
        store_payment_method: recurring.1,
        country_code: spec_country(data.address.billing),
        ..spec_plain_details(data)
    })
}

/// The error with which the request for a voucher fails, if it does.
pub open spec fn spec_voucher_request_error(
    item: PaymentsAuthorizeRouterData,
    voucher_data: VoucherData,
) -> Option<ConnectorError> {
    spec_first(
        spec_auth_error(item),
        spec_first(
            spec_err(spec_recurring_processing_model(item)),
            spec_first(
                spec_err(spec_browser_info(item)),
                spec_first(
                    spec_err(spec_from_voucher(voucher_data, item)),
                    spec_return_url_error(item),
                ),
            ),
        ),
    )
}

/// Whether `req` has the fields of a voucher.
pub open spec fn spec_is_voucher_request(
    item: AdyenRouterData<&PaymentsAuthorizeRouterData>,
    voucher_data: VoucherData,
    req: AdyenPaymentRequest,
) -> bool {
    let data = *item.router_data;
    &&& spec_from_voucher(voucher_data, data) matches Ok(method)
    &&& req.payment_method == PaymentMethod::AdyenPaymentMethod(method)
    &&& req.mpi_data is None
    &&& spec_is_additional_data(data, req.additional_data)
    &&& req.line_items is None
    &&& spec_recurring_processing_model(data) matches Ok(recurring)
    &&& spec_browser_info(data) matches Ok(browser_info)
    &&& req.details() == (RequestDetails {
        browser_info,
        recurring_processing_model: recurring.0,
        shopper_name: spec_shopper_name(data.address.billing),
        social_security_number: spec_social_security_number(voucher_data),
        billing_address: spec_address_or_none(data.address.billing),
        ..spec_plain_details(data)
    })
}

/// The error with which the request for a bank transfer fails, if it
/// does.
pub open spec fn spec_bank_transfer_request_error(
    item: PaymentsAuthorizeRouterData,
    bank_transfer_data: BankTransferData,
) -> Option<ConnectorError> {
    spec_first(
        spec_auth_error(item),
        spec_first(
            spec_err(spec_from_bank_transfer(bank_transfer_data, item)),
            spec_return_url_error(item),
        ),
    )
}

/// Whether `req` has the fields of a bank transfer.
pub open spec fn spec_is_bank_transfer_request(
    item: AdyenRouterData<&PaymentsAuthorizeRouterData>,
    bank_transfer_data: BankTransferData,
    req: AdyenPaymentRequest,
) -> bool {
    &&& spec_from_bank_transfer(bank_transfer_data, *item.router_data) matches Ok(method)
    &&& req.payment_method == PaymentMethod::AdyenPaymentMethod(method)
    &&& req.mpi_data is None
    &&& req.additional_data is None
    &&& req.line_items is None
    &&& req.details() == spec_plain_details(*item.router_data)
}

/// Whether `req` has the fields of a gift card payment.
pub open spec fn spec_is_gift_card_request(
    item: AdyenRouterData<&PaymentsAuthorizeRouterData>,
    gift_card_data: GiftCardData,
    req: AdyenPaymentRequest,
) -> bool {
    &&& req.payment_method == PaymentMethod::AdyenPaymentMethod(
        spec_from_gift_card(gift_card_data),
    )
    &&& req.mpi_data is None
    &&& req.additional_data is None
    &&& req.line_items is None
    &&& req.details() == spec_plain_details(*item.router_data)
}

/// The error with which the request for a gift card fails, if it does.
pub open spec fn spec_gift_card_request_error(item: PaymentsAuthorizeRouterData) -> Option<
    ConnectorError,
> {
    spec_first(spec_auth_error(item), spec_return_url_error(item))
}

/// The error with which the request for a card redirect fails, if it
/// does.
pub open spec fn spec_card_redirect_request_error(
    item: PaymentsAuthorizeRouterData,
    card_redirect_data: CardRedirectData,
) -> Option<ConnectorError> {
    spec_first(
        spec_auth_error(item),
        spec_first(
            spec_err(spec_from_card_redirect(card_redirect_data)),
            spec_first(
                spec_return_url_error(item),
                if spec_phone(item.address.billing) is None {
                    Some(ConnectorError::MissingRequiredField { field_name: "billing.phone" })
                } else {
                    None
                },
            ),
        ),
    )
}

/// Whether `req` has the fields of a card redirect: the shopper's name and
/// e-mail address, and the shopper's phone number as it is given.
pub open spec fn spec_is_card_redirect_request(
    item: AdyenRouterData<&PaymentsAuthorizeRouterData>,
    card_redirect_data: CardRedirectData,
    req: AdyenPaymentRequest,
) -> bool {
    let data = *item.router_data;
    &&& spec_from_card_redirect(card_redirect_data) matches Ok(method)
    &&& req.payment_method == PaymentMethod::AdyenPaymentMethod(method)
    &&& req.mpi_data is None
    &&& req.additional_data is None
    &&& req.line_items is None
    &&& spec_phone(data.address.billing) matches Some(phone)
    &&& req.telephone_number == phone.number
    &&& req.details() == (RequestDetails {
        shopper_name: spec_shopper_name(data.address.billing),
        telephone_number: opt_str(phone.number),
        ..spec_plain_details(data)
    })
}

/// The error with which the request for a bank redirect fails, if it
/// does.
pub open spec fn spec_bank_redirect_request_error(
    item: PaymentsAuthorizeRouterData,
    bank_redirect_data: BankRedirectData,
) -> Option<ConnectorError> {
    spec_first(
        spec_auth_error(item),
        spec_first(
            spec_err(spec_recurring_processing_model(item)),
            spec_first(
                spec_err(spec_browser_info(item)),
                spec_first(
                    spec_return_url_error(item),
                    spec_bank_redirect_error(bank_redirect_data, item),
                ),
            ),
        ),
    )
}

/// Whether `req` has the fields of a bank redirect: the line items of the
/// order, the address that is billed, and for Trustly and open banking in
/// the UK the country.
pub open spec fn spec_is_bank_redirect_request(
    item: AdyenRouterData<&PaymentsAuthorizeRouterData>,
    bank_redirect_data: BankRedirectData,
    req: AdyenPaymentRequest,
) -> bool {
    let data = *item.router_data;
    &&& req.payment_method matches PaymentMethod::AdyenPaymentMethod(method)
    &&& spec_is_from_bank_redirect(bank_redirect_data, data, Ok(method))
    &&& req.mpi_data is None
    &&& spec_is_additional_data(data, req.additional_data)
    &&& req.line_items matches Some(lines)
    &&& spec_is_line_items(item, lines@)
    &&& spec_recurring_processing_model(data) matches Ok(recurring)
    &&& spec_browser_info(data) matches Ok(browser_info)
    &&& req.details() == (RequestDetails {
        browser_info,
        recurring_processing_model: recurring.0,
        shopper_reference: recurring.2,
        store_payment_method: recurring.1,
        shopper_locale: spec_redirect_extra_details(data).0,
        billing_address: spec_address_or_none(data.address.billing),
        country_code: spec_redirect_extra_details(data).1,
        ..spec_plain_details(data)
    })
}

/// The authentication data that goes with a Paze token that was decrypted
/// before, and with no other wallet.
pub open spec fn spec_is_wallet_mpi_data(
    wallet_data: WalletData,
    item: PaymentsAuthorizeRouterData,
    mpi_data: Option<AdyenMpiData>,
) -> bool {
    match (wallet_data, item.payment_method_token) {
        (WalletData::Paze, Some(PaymentMethodToken::PazeDecrypt(paze))) => {
            &&& mpi_data matches Some(mpi)
            &&& mpi.directory_response@ == "Y"@
            &&& mpi.authentication_response@ == "Y"@
            &&& mpi.token_authentication_verification_value == paze.payment_account_reference
            &&& mpi.eci == paze.eci
        },
        _ => mpi_data is None,
    }
}

/// Whether `req` has the fields of a wallet payment.
pub open spec fn spec_is_wallet_request(
    item: AdyenRouterData<&PaymentsAuthorizeRouterData>,
    wallet_data: WalletData,
    req: AdyenPaymentRequest,
) -> bool {
    let data = *item.router_data;
    &&& req.payment_method matches PaymentMethod::AdyenPaymentMethod(method)
    &&& spec_is_from_wallet(wallet_data, data, Ok(method))
    &&& spec_is_wallet_mpi_data(wallet_data, data, req.mpi_data)
    &&& spec_is_additional_data(data, req.additional_data)
    &&& req.line_items is None
    &&& spec_recurring_processing_model(data) matches Ok(recurring)
    &&& spec_browser_info(data) matches Ok(browser_info)
    &&& spec_shopper_email(data, recurring.1 is Some) matches Ok(shopper_email)
    &&& req.details() == (RequestDetails {
        browser_info,
        recurring_processing_model: recurring.0,
        shopper_reference: recurring.2,
        store_payment_method: recurring.1,
        shopper_email,
        billing_address: spec_address_or_none(data.address.billing),
        channel: spec_channel_type(data.request.payment_method_type),
        ..spec_plain_details(data)
    })
}

/// The error with which the request for a wallet payment fails, if it
/// does.
pub open spec fn spec_wallet_request_error(
    item: PaymentsAuthorizeRouterData,
    wallet_data: WalletData,
) -> Option<ConnectorError> {
    spec_first(
        spec_auth_error(item),
        spec_first(
            spec_err(spec_browser_info(item)),
            spec_first(
                spec_wallet_error(wallet_data, item),
                match spec_recurring_processing_model(item) {
                    Err(e) => Some(e),
                    Ok(recurring) => spec_first(
                        spec_return_url_error(item),
                        spec_err(spec_shopper_email(item, recurring.1 is Some)),
                    ),
                },
            ),
        ),
    )
}

/// The pay-later method of a request, mapped from the parts of the request
/// that the scheme is checked against.
pub open spec fn spec_pay_later_of(
    item: PaymentsAuthorizeRouterData,
    pay_later_data: PayLaterData,
) -> Result<AdyenPaymentMethod, ConnectorError> {
    spec_from_pay_later(
        pay_later_data,
        spec_country(item.address.billing),
        spec_email(item.address.billing) is Some,
        item.customer_id is Some,
        true,
        spec_telephone_number(item) is Some,
        spec_address_or_none(item.address.billing) is Some,
        spec_address_or_none(item.address.shipping) is Some,
    )
}

/// The error with which the request for a pay-later payment fails, if it
/// does.
pub open spec fn spec_pay_later_request_error(
    item: PaymentsAuthorizeRouterData,
    pay_later_data: PayLaterData,
) -> Option<ConnectorError> {
    spec_first(
        spec_auth_error(item),
        spec_first(
            spec_err(spec_browser_info(item)),
            spec_first(
                spec_err(spec_recurring_processing_model(item)),
                spec_first(
                    spec_return_url_error(item),
                    spec_err(spec_pay_later_of(item, pay_later_data)),
                ),
            ),
        ),
    )
}

/// Whether `req` has the fields of a pay-later payment: the lender is told
/// who the shopper is, where the goods go, and what is bought.
pub open spec fn spec_is_pay_later_request(
    item: AdyenRouterData<&PaymentsAuthorizeRouterData>,
    pay_later_data: PayLaterData,
    req: AdyenPaymentRequest,
) -> bool {
    let data = *item.router_data;
    &&& spec_pay_later_of(data, pay_later_data) matches Ok(method)
    &&& req.payment_method == PaymentMethod::AdyenPaymentMethod(method)
    &&& req.mpi_data is None
    &&& spec_is_additional_data(data, req.additional_data)
    &&& req.line_items matches Some(lines)
    &&& spec_is_line_items(item, lines@)
    &&& spec_recurring_processing_model(data) matches Ok(recurring)
    &&& spec_browser_info(data) matches Ok(browser_info)
    &&& req.details() == (RequestDetails {
        browser_info,
        recurring_processing_model: recurring.0,
        shopper_reference: spec_build_shopper_reference(data.customer_id, data.merchant_id),
        store_payment_method: recurring.1,
        shopper_name: spec_shopper_name(data.address.billing),
        telephone_number: spec_telephone_number(data),
        billing_address: spec_address_or_none(data.address.billing),
        delivery_address: spec_address_or_none(data.address.shipping),
        country_code: spec_country(data.address.billing),
        ..spec_plain_details(data)
    })
}

/// The error with which the request for a payment by network token fails,
/// if it does.
pub open spec fn spec_network_token_request_error(item: PaymentsAuthorizeRouterData) -> Option<
    ConnectorError,
> {
    spec_first(
        spec_auth_error(item),
        spec_first(
            spec_err(spec_recurring_processing_model(item)),
            spec_first(
                spec_err(spec_browser_info(item)),
                spec_first(
                    spec_err(spec_address_transposed(item.address.billing)),
                    spec_return_url_error(item),
                ),
            ),
        ),
    )
}

/// Whether `req` has the fields of a payment by network token. The token
/// counts as authenticated; its cryptogram vouches for it.
pub open spec fn spec_is_network_token_request(
    item: AdyenRouterData<&PaymentsAuthorizeRouterData>,
    token_data: NetworkTokenData,
    req: AdyenPaymentRequest,
) -> bool {
    let data = *item.router_data;
    &&& req.payment_method matches PaymentMethod::AdyenPaymentMethod(method)
    &&& spec_is_from_network_token(
        token_data,
        spec_optional_full_name(data.address.billing),
        method,
    )
    &&& req.mpi_data matches Some(mpi)
    &&& mpi.directory_response@ == "Y"@
    &&& mpi.authentication_response@ == "Y"@
    &&& mpi.token_authentication_verification_value@ == (match token_data.token_cryptogram {
        Some(cryptogram) => cryptogram@,
        None => Seq::<char>::empty(),
    })
    &&& opt_str(mpi.eci) == Some("02"@)
    &&& spec_is_additional_data(data, req.additional_data)
    &&& req.line_items is None
    &&& spec_recurring_processing_model(data) matches Ok(recurring)
    &&& spec_browser_info(data) matches Ok(browser_info)
    &&& spec_address_transposed(data.address.billing) matches Ok(billing_address)
    &&& req.details() == (RequestDetails {
        browser_info,
        recurring_processing_model: recurring.0,
        shopper_reference: spec_build_shopper_reference(data.customer_id, data.merchant_id),
        store_payment_method: recurring.1,
        shopper_name: spec_shopper_name(data.address.billing),
        shopper_email: data.request.email,
        billing_address,
        country_code: spec_country(data.address.billing),
        ..spec_plain_details(data)
    })
}

impl AdyenPaymentRequest {
    /// Builds the request for a bank debit.
    pub fn try_from_bank_debit(
        item: &AdyenRouterData<&PaymentsAuthorizeRouterData>,
        bank_debit_data: &BankDebitData,
    ) -> (res: Result<Self, ConnectorError>)
        ensures
            match spec_bank_debit_request_error(*item.router_data, *bank_debit_data) {
                Some(e) => res == Err::<Self, ConnectorError>(e),
                None => res matches Ok(req) && spec_has_common_fields(*item, req)
                    && spec_is_bank_debit_request(*item, *bank_debit_data, req),
            },
    {
        let auth_type = AdyenAuthType::try_from(&item.router_data.connector_auth_type)?;
        let (recurring_processing_model, store_payment_method, shopper_reference) =
            get_recurring_processing_model(item.router_data)?;
        let browser_info = get_browser_info(item.router_data)?;
        let additional_data = get_additional_data(item.router_data);
        let return_url = item.router_data.request.get_router_return_url()?;
        let payment_method = PaymentMethod::AdyenPaymentMethod(
            AdyenPaymentMethod::try_from_bank_debit(bank_debit_data, item.router_data)?,
        );
        let country_code = get_country_code(item.router_data.get_optional_billing());
        let base = base_request(item, auth_type.merchant_account, return_url, payment_method);
        Ok(
            AdyenPaymentRequest {
                browser_info,
                recurring_processing_model,
                additional_data,
                shopper_email: item.router_data.get_optional_billing_email(),
                country_code,
                shopper_reference,
                store_payment_method,
                ..base
            },
        )
    }

    /// Builds the request for a voucher.
    pub fn try_from_voucher(
        item: &AdyenRouterData<&PaymentsAuthorizeRouterData>,
        voucher_data: &VoucherData,
    ) -> (res: Result<Self, ConnectorError>)
        ensures
            match spec_voucher_request_error(*item.router_data, *voucher_data) {
                Some(e) => res == Err::<Self, ConnectorError>(e),
                None => res matches Ok(req) && spec_has_common_fields(*item, req)
                    && spec_is_voucher_request(*item, *voucher_data, req),
            },
    {
        let auth_type = AdyenAuthType::try_from(&item.router_data.connector_auth_type)?;
        let recurring_processing_model = get_recurring_processing_model(item.router_data)?.0;
        let browser_info = get_browser_info(item.router_data)?;
        let additional_data = get_additional_data(item.router_data);
        let payment_method = PaymentMethod::AdyenPaymentMethod(
            AdyenPaymentMethod::try_from_voucher(voucher_data, item.router_data)?,
        );
        let return_url = item.router_data.request.get_router_return_url()?;
        let social_security_number = get_social_security_number(voucher_data);
        let billing_address = address_or_none(item.router_data.get_optional_billing());
        let shopper_name = get_shopper_name(item.router_data.get_optional_billing());
        let base = base_request(item, auth_type.merchant_account, return_url, payment_method);
        Ok(
            AdyenPaymentRequest {
                browser_info,
                recurring_processing_model,
                additional_data,
                shopper_name,
                shopper_email: item.router_data.get_optional_billing_email(),
                social_security_number,
                billing_address,
                ..base
            },
        )
    }

    /// Builds the request for a bank transfer.
    pub fn try_from_bank_transfer(
        item: &AdyenRouterData<&PaymentsAuthorizeRouterData>,
        bank_transfer_data: &BankTransferData,
    ) -> (res: Result<Self, ConnectorError>)
        ensures
            match spec_bank_transfer_request_error(*item.router_data, *bank_transfer_data) {
                Some(e) => res == Err::<Self, ConnectorError>(e),
                None => res matches Ok(req) && spec_has_common_fields(*item, req)
                    && spec_is_bank_transfer_request(*item, *bank_transfer_data, req),
            },
    {
        let auth_type = AdyenAuthType::try_from(&item.router_data.connector_auth_type)?;
        let payment_method = PaymentMethod::AdyenPaymentMethod(
            AdyenPaymentMethod::try_from_bank_transfer(bank_transfer_data, item.router_data)?,
        );
        let return_url = item.router_data.request.get_router_return_url()?;
        let base = base_request(item, auth_type.merchant_account, return_url, payment_method);
        Ok(
            AdyenPaymentRequest {
                shopper_email: item.router_data.get_optional_billing_email(),
                ..base
            },
        )
    }

    /// Builds the request for a gift card.
    pub fn try_from_gift_card(
        item: &AdyenRouterData<&PaymentsAuthorizeRouterData>,
        gift_card_data: &GiftCardData,
    ) -> (res: Result<Self, ConnectorError>)
        ensures
            match spec_gift_card_request_error(*item.router_data) {
                Some(e) => res == Err::<Self, ConnectorError>(e),
                None => res matches Ok(req) && spec_has_common_fields(*item, req)
                    && spec_is_gift_card_request(*item, *gift_card_data, req),
            },
    {
        let auth_type = AdyenAuthType::try_from(&item.router_data.connector_auth_type)?;
        let return_url = item.router_data.request.get_router_return_url()?;
        let payment_method = PaymentMethod::AdyenPaymentMethod(
            AdyenPaymentMethod::try_from_gift_card(gift_card_data)?,
        );
        let base = base_request(item, auth_type.merchant_account, return_url, payment_method);
        Ok(
            AdyenPaymentRequest {
                shopper_email: item.router_data.get_optional_billing_email(),
                ..base
            },
        )
    }

    /// Builds the request for a bank redirect.
    pub fn try_from_bank_redirect(
        item: &AdyenRouterData<&PaymentsAuthorizeRouterData>,
        bank_redirect_data: &BankRedirectData,
    ) -> (res: Result<Self, ConnectorError>)
        ensures
            match spec_bank_redirect_request_error(*item.router_data, *bank_redirect_data) {
                Some(e) => res == Err::<Self, ConnectorError>(e),
                None => res matches Ok(req) && spec_has_common_fields(*item, req)
                    && spec_is_bank_redirect_request(*item, *bank_redirect_data, req),
            },
    {
        let auth_type = AdyenAuthType::try_from(&item.router_data.connector_auth_type)?;
        let (recurring_processing_model, store_payment_method, shopper_reference) =
            get_recurring_processing_model(item.router_data)?;
        let browser_info = get_browser_info(item.router_data)?;
        let additional_data = get_additional_data(item.router_data);
        let return_url = item.router_data.request.get_router_return_url()?;
        let payment_method = PaymentMethod::AdyenPaymentMethod(
            AdyenPaymentMethod::try_from_bank_redirect(bank_redirect_data, item.router_data)?,
        );
        let (shopper_locale, country) = get_redirect_extra_details(item.router_data)?;
        let line_items = Some(get_line_items(item));
        let billing_address = address_or_none(item.router_data.get_optional_billing());
        let base = base_request(item, auth_type.merchant_account, return_url, payment_method);
        Ok(
            AdyenPaymentRequest {
                recurring_processing_model,
                browser_info,
                additional_data,
                shopper_email: item.router_data.get_optional_billing_email(),
                shopper_locale,
                billing_address,
                country_code: country,
                line_items,
                shopper_reference,
                store_payment_method,
                ..base
            },
        )
    }

    /// Builds the request for a card redirect.
    pub fn try_from_card_redirect(
        item: &AdyenRouterData<&PaymentsAuthorizeRouterData>,
        card_redirect_data: &CardRedirectData,
    ) -> (res: Result<Self, ConnectorError>)
        ensures
            match spec_card_redirect_request_error(*item.router_data, *card_redirect_data) {
                Some(e) => res == Err::<Self, ConnectorError>(e),
                None => res matches Ok(req) && spec_has_common_fields(*item, req)
                    && spec_is_card_redirect_request(*item, *card_redirect_data, req),
            },
    {
        let auth_type = AdyenAuthType::try_from(&item.router_data.connector_auth_type)?;
        let payment_method = PaymentMethod::AdyenPaymentMethod(
            AdyenPaymentMethod::try_from_card_redirect(card_redirect_data)?,
        );
        let return_url = item.router_data.request.get_router_return_url()?;
        let shopper_name = get_shopper_name(item.router_data.get_optional_billing());
        let shopper_email = item.router_data.get_optional_billing_email();
        let telephone_number = item.router_data.get_billing_phone()?.number.clone();
        let base = base_request(item, auth_type.merchant_account, return_url, payment_method);
        Ok(AdyenPaymentRequest { telephone_number, shopper_name, shopper_email, ..base })
    }

    /// Builds the request for a wallet payment.
    pub fn try_from_wallet(
        item: &AdyenRouterData<&PaymentsAuthorizeRouterData>,
        wallet_data: &WalletData,
    ) -> (res: Result<Self, ConnectorError>)
        ensures
            match spec_wallet_request_error(*item.router_data, *wallet_data) {
                Some(e) => res == Err::<Self, ConnectorError>(e),
                None => res matches Ok(req) && spec_has_common_fields(*item, req)
                    && spec_is_wallet_request(*item, *wallet_data, req),
            },
    {
        let auth_type = AdyenAuthType::try_from(&item.router_data.connector_auth_type)?;
        let browser_info = get_browser_info(item.router_data)?;
        let additional_data = get_additional_data(item.router_data);
        let payment_method = PaymentMethod::AdyenPaymentMethod(
            AdyenPaymentMethod::try_from_wallet(wallet_data, item.router_data)?,
        );
        let channel = get_channel_type(item.router_data.request.payment_method_type);
        let (recurring_processing_model, store_payment_method, shopper_reference) =
            get_recurring_processing_model(item.router_data)?;
        let return_url = item.router_data.request.get_router_return_url()?;
        let shopper_email = get_shopper_email(item.router_data, store_payment_method.is_some())?;
        let billing_address = address_or_none(item.router_data.get_optional_billing());
        let mpi_data = match (wallet_data, &item.router_data.payment_method_token) {
            (WalletData::Paze, Some(PaymentMethodToken::PazeDecrypt(paze))) => Some(
                AdyenMpiData {
                    directory_response: "Y".to_owned(),
                    authentication_response: "Y".to_owned(),
                    token_authentication_verification_value: paze.payment_account_reference.clone(),
                    eci: paze.eci.clone(),
                },
            ),
            _ => None,
        };
        let base = base_request(item, auth_type.merchant_account, return_url, payment_method);
        Ok(
            AdyenPaymentRequest {
                recurring_processing_model,
                browser_info,
                additional_data,
                mpi_data,
                shopper_email,
                billing_address,
                shopper_reference,
                store_payment_method,
                channel,
                ..base
            },
        )
    }

    /// Builds the request for a pay-later payment.
    pub fn try_from_pay_later(
        item: &AdyenRouterData<&PaymentsAuthorizeRouterData>,
        paylater_data: &PayLaterData,
    ) -> (res: Result<Self, ConnectorError>)
        ensures
            match spec_pay_later_request_error(*item.router_data, *paylater_data) {
                Some(e) => res == Err::<Self, ConnectorError>(e),
                None => res matches Ok(req) && spec_has_common_fields(*item, req)
                    && spec_is_pay_later_request(*item, *paylater_data, req),
            },
    {
        let auth_type = AdyenAuthType::try_from(&item.router_data.connector_auth_type)?;
        let browser_info = get_browser_info(item.router_data)?;
        let additional_data = get_additional_data(item.router_data);
        let country_code = get_country_code(item.router_data.get_optional_billing());
        let shopper_reference = build_shopper_reference(
            &item.router_data.customer_id,
            item.router_data.merchant_id.clone(),
        );
        let (recurring_processing_model, store_payment_method, _) = get_recurring_processing_model(
            item.router_data,
        )?;
        let return_url = item.router_data.request.get_router_return_url()?;
        let shopper_name = get_shopper_name(item.router_data.get_optional_billing());
        let shopper_email = item.router_data.get_optional_billing_email();
        let billing_address = address_or_none(item.router_data.get_optional_billing());
        let delivery_address = address_or_none(item.router_data.get_optional_shipping());
        let line_items = Some(get_line_items(item));
        let telephone_number = get_telephone_number(item.router_data);
        let payment_method = PaymentMethod::AdyenPaymentMethod(
            AdyenPaymentMethod::try_from_pay_later(
                paylater_data,
                &country_code,
                &shopper_email,
                &shopper_reference,
                &shopper_name,
                &telephone_number,
                &billing_address,
                &delivery_address,
            )?,
        );
        let base = base_request(item, auth_type.merchant_account, return_url, payment_method);
        Ok(
            AdyenPaymentRequest {
                recurring_processing_model,
                browser_info,
                additional_data,
                telephone_number,
                shopper_name,
                shopper_email,
                billing_address,
                delivery_address,
                country_code,
                line_items,
                shopper_reference,
                store_payment_method,
                ..base
            },
        )
    }

    /// Builds the request for a payment by network token.
    pub fn try_from_network_token(
        item: &AdyenRouterData<&PaymentsAuthorizeRouterData>,
        token_data: &NetworkTokenData,
    ) -> (res: Result<Self, ConnectorError>)
        ensures
            match spec_network_token_request_error(*item.router_data) {
                Some(e) => res == Err::<Self, ConnectorError>(e),
                None => res matches Ok(req) && spec_has_common_fields(*item, req)
                    && spec_is_network_token_request(*item, *token_data, req),
            },
    {
        let auth_type = AdyenAuthType::try_from(&item.router_data.connector_auth_type)?;
        let shopper_reference = build_shopper_reference(
            &item.router_data.customer_id,
            item.router_data.merchant_id.clone(),
        );
        let (recurring_processing_model, store_payment_method, _) = get_recurring_processing_model(
            item.router_data,
        )?;
        let browser_info = get_browser_info(item.router_data)?;
        let billing_address = match get_address_info(item.router_data.get_optional_billing()) {
            Some(Ok(address)) => Some(address),
            Some(Err(e)) => {
                return Err(e);
            },
            None => None,
        };
        let country_code = get_country_code(item.router_data.get_optional_billing());
        let additional_data = get_additional_data(item.router_data);
        let return_url = item.router_data.request.get_router_return_url()?;
        let card_holder_name = item.router_data.get_optional_billing_full_name();
        let payment_method = PaymentMethod::AdyenPaymentMethod(
            AdyenPaymentMethod::try_from_network_token(token_data, card_holder_name)?,
        );
        let shopper_email = item.router_data.request.email.clone();
        let shopper_name = get_shopper_name(item.router_data.get_optional_billing());
        let mpi_data = AdyenMpiData {
            directory_response: "Y".to_owned(),
            authentication_response: "Y".to_owned(),
            token_authentication_verification_value: match &token_data.token_cryptogram {
                Some(cryptogram) => cryptogram.clone(),
                None => String::new(),
            },
            eci: Some("02".to_owned()),
        };
        let base = base_request(item, auth_type.merchant_account, return_url, payment_method);
        Ok(
            AdyenPaymentRequest {
                recurring_processing_model,
                browser_info,
                additional_data,
                shopper_name,
                shopper_email,
                billing_address,
                country_code,
                shopper_reference,
                store_payment_method,
                mpi_data: Some(mpi_data),
                ..base
            },
        )
    }
}

/// The mandate that a payment is made on, if it is made on one.
pub open spec fn spec_existing_mandate(mandate_id: Option<MandateIds>) -> Option<
    MandateReferenceId,
> {
    match mandate_id {
        Some(ids) => ids.mandate_reference_id,
        None => None,
    }
}

/// The error for a payment method that cannot be charged by a network
/// transaction id.
pub open spec fn spec_network_tokenization_not_supported() -> ConnectorError {
    ConnectorError::NotSupported {
        feature: "Network tokenization for payment method",
        context: "Adyen",
    }
}

/// The brand of a card that is charged again by its network transaction
/// id: the brand of its network, or else the brand of its issuer.
pub open spec fn spec_network_card_brand(
    card_network: Option<crate::enums::CardNetwork>,
    card_issuer: Option<crate::enums::CardIssuer>,
) -> Result<CardBrand, ConnectorError> {
    match spec_brand_of_network(card_network) {
        Some(brand) => Ok(brand),
        None => match spec_card_issuer(card_issuer, "Adyen") {
            Ok(issuer) => Ok(CardBrand::spec_from_issuer(issuer)),
            Err(e) => Err(e),
        },
    }
}

/// The error with which the payment method of a payment on a mandate is
/// rejected, if it is.
pub open spec fn spec_mandate_method_error(
    item: PaymentsAuthorizeRouterData,
    mandate_ref_id: MandateReferenceId,
) -> Option<ConnectorError> {
    match mandate_ref_id {
        MandateReferenceId::ConnectorMandateId(ids) => spec_first(
            match item.request.payment_method_type {
                Some(pm_type) => spec_err(PaymentType::spec_try_from(pm_type)),
                None => None,
            },
            if ids.connector_mandate_id is None {
                Some(ConnectorError::MissingRequiredField { field_name: "mandate_id" })
            } else {
                None
            },
        ),
        MandateReferenceId::NetworkMandateId(_) => match item.request.payment_method_data {
            PaymentMethodData::CardDetailsForNetworkTransactionId(card) => spec_err(
                spec_network_card_brand(card.card_network, card.card_issuer),
            ),
            _ => Some(spec_network_tokenization_not_supported()),
        },
        MandateReferenceId::NetworkTokenWithNTI(_) => match item.request.payment_method_data {
            PaymentMethodData::NetworkToken(token) => spec_err(
                spec_card_issuer(token.card_issuer, "Adyen"),
            ),
            _ => Some(spec_network_tokenization_not_supported()),
        },
    }
}

/// Whether `method` is the payment method of a payment on a mandate.
///
/// A mandate that Adyen stored is charged by its token, under the type of
/// the payment method, or as a card where no type is given. A mandate of
/// the card network is charged with the card or the network token and the
/// transaction id of the first payment.
pub open spec fn spec_is_mandate_method(
    item: PaymentsAuthorizeRouterData,
    mandate_ref_id: MandateReferenceId,
    method: PaymentMethod,
) -> bool {
    let holder_name = spec_optional_full_name(item.address.billing);
    match mandate_ref_id {
        MandateReferenceId::ConnectorMandateId(ids) => {
            &&& method matches PaymentMethod::AdyenMandatePaymentMethod(mandate)
            &&& Ok::<PaymentType, ConnectorError>(mandate.payment_type)
                == (match item.request.payment_method_type {
                Some(pm_type) => PaymentType::spec_try_from(pm_type),
                None => Ok(PaymentType::Scheme),
            })
            &&& Some(mandate.stored_payment_method_id) == ids.connector_mandate_id
        },
        MandateReferenceId::NetworkMandateId(network_mandate_id) => {
            &&& item.request.payment_method_data
                matches PaymentMethodData::CardDetailsForNetworkTransactionId(card)
            &&& method matches PaymentMethod::AdyenPaymentMethod(AdyenPaymentMethod::AdyenCard(c))
            &&& c.number == card.card_number
            &&& c.expiry_month == card.card_exp_month
            &&& c.expiry_year@ == spec_expiry_year_4_digit(card.card_exp_year@)
            &&& c.cvc is None
            &&& opt_str(c.holder_name) == holder_name
            &&& spec_network_card_brand(card.card_network, card.card_issuer) matches Ok(brand)
            &&& c.brand == Some(brand)
            &&& c.network_payment_reference == Some(network_mandate_id)
        },
        MandateReferenceId::NetworkTokenWithNTI(reference) => {
            &&& item.request.payment_method_data matches PaymentMethodData::NetworkToken(token)
            &&& method matches PaymentMethod::AdyenPaymentMethod(
                AdyenPaymentMethod::NetworkToken(t),
            )
            &&& t.number == token.token_number
            &&& t.expiry_month == token.token_exp_month
            &&& t.expiry_year@ == spec_expiry_year_4_digit(token.token_exp_year@)
            &&& opt_str(t.holder_name) == holder_name
            &&& spec_card_issuer(token.card_issuer, "Adyen") matches Ok(issuer)
            &&& t.brand == Some(CardBrand::spec_from_issuer(issuer))
            &&& t.network_payment_reference == Some(reference.network_transaction_id)
        },
    }
}

/// The error with which the request for a payment on a mandate fails, if
/// it does.
pub open spec fn spec_mandate_request_error(
    item: PaymentsAuthorizeRouterData,
    mandate_ref_id: MandateReferenceId,
) -> Option<ConnectorError> {
    spec_first(
        spec_auth_error(item),
        spec_first(
            spec_err(spec_recurring_details(item)),
            spec_first(spec_return_url_error(item), spec_mandate_method_error(item, mandate_ref_id)),
        ),
    )
}

/// Whether `req` has the fields of a payment on a mandate. The recurring
/// details follow from how the payment is set up; the shopper's browser is
/// not described.
pub open spec fn spec_is_mandate_request(
    item: AdyenRouterData<&PaymentsAuthorizeRouterData>,
    mandate_ref_id: MandateReferenceId,
    req: AdyenPaymentRequest,
) -> bool {
    let data = *item.router_data;
    &&& spec_is_mandate_method(data, mandate_ref_id, req.payment_method)
    &&& req.mpi_data is None
    &&& spec_is_additional_data(data, req.additional_data)
    &&& req.line_items is None
    &&& spec_recurring_details(data) matches Ok(recurring)
    &&& req.details() == (RequestDetails {
        recurring_processing_model: recurring.0,
        shopper_reference: recurring.2,
        store_payment_method: recurring.1,
        shopper_email: None,
        ..spec_plain_details(data)
    })
}

/// The payment method of a payment on a mandate.
fn mandate_payment_method(
    item: &PaymentsAuthorizeRouterData,
    mandate_ref_id: &MandateReferenceId,
) -> (res: Result<PaymentMethod, ConnectorError>)
    ensures
        match spec_mandate_method_error(*item, *mandate_ref_id) {
            Some(e) => res == Err::<PaymentMethod, ConnectorError>(e),
            None => res matches Ok(method) && spec_is_mandate_method(*item, *mandate_ref_id, method),
        },
{
    match mandate_ref_id {
        MandateReferenceId::ConnectorMandateId(connector_mandate_ids) => {
            let payment_type = match item.request.payment_method_type {
                Some(pm_type) => PaymentType::try_from(&pm_type)?,
                None => PaymentType::Scheme,
            };
            let stored_payment_method_id = match &connector_mandate_ids.connector_mandate_id {
                Some(id) => id.clone(),
                None => {
                    return Err(ConnectorError::MissingRequiredField { field_name: "mandate_id" });
                },
            };
            Ok(
                PaymentMethod::AdyenMandatePaymentMethod(
                    AdyenMandate { payment_type, stored_payment_method_id },
                ),
            )
        },
        MandateReferenceId::NetworkMandateId(network_mandate_id) => {
            match &item.request.payment_method_data {
                PaymentMethodData::CardDetailsForNetworkTransactionId(card) => {
                    let network_brand = match card.card_network {
                        Some(network) => get_adyen_card_network(network),
                        None => None,
                    };
                    let brand = match network_brand {
                        Some(brand) => brand,
                        None => CardBrand::try_from(&card.get_card_issuer("Adyen")?)?,
                    };
                    let card_holder_name = item.get_optional_billing_full_name();
                    let adyen_card = AdyenCard {
                        number: card.card_number.clone(),
                        expiry_month: card.card_exp_month.clone(),
                        expiry_year: card.get_expiry_year_4_digit(),
                        cvc: None,
                        holder_name: card_holder_name,
                        brand: Some(brand),
                        network_payment_reference: Some(network_mandate_id.clone()),
                    };
                    Ok(PaymentMethod::AdyenPaymentMethod(AdyenPaymentMethod::AdyenCard(adyen_card)))
                },
                PaymentMethodData::CardRedirect(_)
                | PaymentMethodData::Wallet(_)
                | PaymentMethodData::PayLater(_)
                | PaymentMethodData::BankRedirect(_)
                | PaymentMethodData::BankDebit(_)
                | PaymentMethodData::BankTransfer(_)
                | PaymentMethodData::Crypto
                | PaymentMethodData::MandatePayment
                | PaymentMethodData::Reward
                | PaymentMethodData::RealTimePayment
                | PaymentMethodData::MobilePayment
                | PaymentMethodData::Upi
                | PaymentMethodData::Voucher(_)
                | PaymentMethodData::GiftCard(_)
                | PaymentMethodData::OpenBanking
                | PaymentMethodData::CardToken
                | PaymentMethodData::NetworkToken(_)
                | PaymentMethodData::Card(_) => Err(
                    ConnectorError::NotSupported {
                        feature: "Network tokenization for payment method",
                        context: "Adyen",
                    },
                ),
            }
        },
        MandateReferenceId::NetworkTokenWithNTI(network_mandate_id) => {
            match &item.request.payment_method_data {
                PaymentMethodData::NetworkToken(token_data) => {
                    let card_issuer = token_data.get_card_issuer("Adyen")?;
                    let brand = CardBrand::try_from(&card_issuer)?;
                    let card_holder_name = item.get_optional_billing_full_name();
                    let adyen_network_token = AdyenNetworkTokenData {
                        number: token_data.token_number.clone(),
                        expiry_month: token_data.token_exp_month.clone(),
                        expiry_year: token_data.get_expiry_year_4_digit(),
                        holder_name: card_holder_name,
                        brand: Some(brand),
                        network_payment_reference: Some(
                            network_mandate_id.network_transaction_id.clone(),
                        ),
                    };
                    Ok(
                        PaymentMethod::AdyenPaymentMethod(
                            AdyenPaymentMethod::NetworkToken(adyen_network_token),
                        ),
                    )
                },
                PaymentMethodData::Card(_)
                | PaymentMethodData::CardRedirect(_)
                | PaymentMethodData::Wallet(_)
                | PaymentMethodData::PayLater(_)
                | PaymentMethodData::BankRedirect(_)
                | PaymentMethodData::BankDebit(_)
                | PaymentMethodData::BankTransfer(_)
                | PaymentMethodData::Crypto
                | PaymentMethodData::MandatePayment
                | PaymentMethodData::Reward
                | PaymentMethodData::RealTimePayment
                | PaymentMethodData::Upi
                | PaymentMethodData::Voucher(_)
                | PaymentMethodData::GiftCard(_)
                | PaymentMethodData::OpenBanking
                | PaymentMethodData::CardToken
                | PaymentMethodData::MobilePayment
                | PaymentMethodData::CardDetailsForNetworkTransactionId(_) => Err(
                    ConnectorError::NotSupported {
                        feature: "Network tokenization for payment method",
                        context: "Adyen",
                    },
                ),
            }
        },
    }
}

/// Whether `res` is the outcome of building the request to authorize a
/// payment.
///
/// A payment on a mandate is built from the mandate. Any other payment is
/// built by the builder for the family of its payment method; a family
/// that Adyen is not handed is rejected with `NotImplemented` that names
/// the family.
pub open spec fn spec_is_payment_request(
    item: AdyenRouterData<&PaymentsAuthorizeRouterData>,
    res: Result<AdyenPaymentRequest, ConnectorError>,
) -> bool {
    let data = *item.router_data;
    let error = spec_payment_request_error(data);
    match error {
        Some(e) => res == Err::<AdyenPaymentRequest, ConnectorError>(e),
        None => {
            &&& res matches Ok(req)
            &&& spec_has_common_fields(item, req)
            &&& match spec_existing_mandate(data.request.mandate_id) {
                Some(mandate_ref) => spec_is_mandate_request(item, mandate_ref, req),
                None => match data.request.payment_method_data {
                    PaymentMethodData::Card(card) => spec_is_card_request(item, card, req),
                    PaymentMethodData::Wallet(wallet) => spec_is_wallet_request(item, wallet, req),
                    PaymentMethodData::PayLater(pay_later) => spec_is_pay_later_request(
                        item,
                        pay_later,
                        req,
                    ),
                    PaymentMethodData::BankRedirect(bank_redirect) => spec_is_bank_redirect_request(
                        item,
                        bank_redirect,
                        req,
                    ),
                    PaymentMethodData::BankDebit(bank_debit) => spec_is_bank_debit_request(
                        item,
                        bank_debit,
                        req,
                    ),
                    PaymentMethodData::BankTransfer(bank_transfer) => spec_is_bank_transfer_request(
                        item,
                        bank_transfer,
                        req,
                    ),
                    PaymentMethodData::CardRedirect(card_redirect) => spec_is_card_redirect_request(
                        item,
                        card_redirect,
                        req,
                    ),
                    PaymentMethodData::Voucher(voucher) => spec_is_voucher_request(
                        item,
                        voucher,
                        req,
                    ),
                    PaymentMethodData::GiftCard(gift_card) => spec_is_gift_card_request(
                        item,
                        gift_card,
                        req,
                    ),
                    PaymentMethodData::NetworkToken(token) => spec_is_network_token_request(
                        item,
                        token,
                        req,
                    ),
                    _ => false,
                },
            }
        },
    }
}

/// The error with which the request to authorize a payment fails, if it
/// does.
pub open spec fn spec_payment_request_error(item: PaymentsAuthorizeRouterData) -> Option<
    ConnectorError,
> {
    match spec_existing_mandate(item.request.mandate_id) {
        Some(mandate_ref) => spec_mandate_request_error(item, mandate_ref),
        None => match item.request.payment_method_data {
            PaymentMethodData::Card(_) => spec_card_request_error(item),
            PaymentMethodData::Wallet(wallet) => spec_wallet_request_error(item, wallet),
            PaymentMethodData::PayLater(pay_later) => spec_pay_later_request_error(
                item,
                pay_later,
            ),
            PaymentMethodData::BankRedirect(bank_redirect) => spec_bank_redirect_request_error(
                item,
                bank_redirect,
            ),
            PaymentMethodData::BankDebit(bank_debit) => spec_bank_debit_request_error(
                item,
                bank_debit,
            ),
            PaymentMethodData::BankTransfer(bank_transfer) => spec_bank_transfer_request_error(
                item,
                bank_transfer,
            ),
            PaymentMethodData::CardRedirect(card_redirect) => spec_card_redirect_request_error(
                item,
                card_redirect,
            ),
            PaymentMethodData::Voucher(voucher) => spec_voucher_request_error(item, voucher),
            PaymentMethodData::GiftCard(_) => spec_gift_card_request_error(item),
            PaymentMethodData::NetworkToken(_) => spec_network_token_request_error(item),
            PaymentMethodData::Crypto
            | PaymentMethodData::MandatePayment
            | PaymentMethodData::Reward
            | PaymentMethodData::RealTimePayment
            | PaymentMethodData::MobilePayment
            | PaymentMethodData::Upi
            | PaymentMethodData::OpenBanking
            | PaymentMethodData::CardToken
            | PaymentMethodData::CardDetailsForNetworkTransactionId(_) => Some(
                spec_not_implemented(item.request.payment_method_data.spec_kind_name()),
            ),
        },
    }
}

impl AdyenPaymentRequest {
    /// Builds the request for a payment on a mandate.
    pub fn try_from_mandate(
        item: &AdyenRouterData<&PaymentsAuthorizeRouterData>,
        mandate_ref_id: &MandateReferenceId,
    ) -> (res: Result<Self, ConnectorError>)
        ensures
            match spec_mandate_request_error(*item.router_data, *mandate_ref_id) {
                Some(e) => res == Err::<Self, ConnectorError>(e),
                None => res matches Ok(req) && spec_has_common_fields(*item, req)
                    && spec_is_mandate_request(*item, *mandate_ref_id, req),
            },
    {
        let auth_type = AdyenAuthType::try_from(&item.router_data.connector_auth_type)?;
        let (recurring_processing_model, store_payment_method, shopper_reference) =
            get_recurring_details(item.router_data)?;
        let additional_data = get_additional_data(item.router_data);
        let return_url = item.router_data.request.get_router_return_url()?;
        let payment_method = mandate_payment_method(item.router_data, mandate_ref_id)?;
        let base = base_request(item, auth_type.merchant_account, return_url, payment_method);
        Ok(
            AdyenPaymentRequest {
                recurring_processing_model,
                additional_data,
                shopper_reference,
                store_payment_method,
                ..base
            },
        )
    }

    /// Builds the request to authorize a payment.
    pub fn try_from(item: &AdyenRouterData<&PaymentsAuthorizeRouterData>) -> (res: Result<
        Self,
        ConnectorError,
    >)
        ensures
            spec_is_payment_request(*item, res),
    {
        let mandate_ref = match &item.router_data.request.mandate_id {
            Some(ids) => ids.mandate_reference_id.as_ref(),
            None => None,
        };
        match mandate_ref {
            Some(mandate_ref) => AdyenPaymentRequest::try_from_mandate(item, mandate_ref),
            None => match &item.router_data.request.payment_method_data {
                PaymentMethodData::Card(card) => AdyenPaymentRequest::try_from_card(item, card),
                PaymentMethodData::Wallet(wallet) => AdyenPaymentRequest::try_from_wallet(
                    item,
                    wallet,
                ),
                PaymentMethodData::PayLater(pay_later) => AdyenPaymentRequest::try_from_pay_later(
                    item,
                    pay_later,
                ),
                PaymentMethodData::BankRedirect(bank_redirect) => {
                    AdyenPaymentRequest::try_from_bank_redirect(item, bank_redirect)
                },
                PaymentMethodData::BankDebit(bank_debit) => AdyenPaymentRequest::try_from_bank_debit(
                    item,
                    bank_debit,
                ),
                PaymentMethodData::BankTransfer(bank_transfer) => {
                    AdyenPaymentRequest::try_from_bank_transfer(item, bank_transfer)
                },
                PaymentMethodData::CardRedirect(card_redirect_data) => {
                    AdyenPaymentRequest::try_from_card_redirect(item, card_redirect_data)
                },
                PaymentMethodData::Voucher(voucher_data) => AdyenPaymentRequest::try_from_voucher(
                    item,
                    voucher_data,
                ),
                PaymentMethodData::GiftCard(gift_card_data) => {
                    AdyenPaymentRequest::try_from_gift_card(item, gift_card_data)
                },
                PaymentMethodData::NetworkToken(token_data) => {
                    AdyenPaymentRequest::try_from_network_token(item, token_data)
                },
                PaymentMethodData::Crypto
                | PaymentMethodData::MandatePayment
                | PaymentMethodData::Reward
                | PaymentMethodData::RealTimePayment
                | PaymentMethodData::MobilePayment
                | PaymentMethodData::Upi
                | PaymentMethodData::OpenBanking
                | PaymentMethodData::CardToken
                | PaymentMethodData::CardDetailsForNetworkTransactionId(_) => Err(
                    ConnectorError::NotImplemented {
                        connector: "Adyen",
                        feature: item.router_data.request.payment_method_data.kind_name(),
                    },
                ),
            },
        }
    }
}

} // verus!
