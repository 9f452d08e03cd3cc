//! Payouts through Adyen.

use vstd::prelude::*;
use crate::adyen::request::{get_address_info, get_country_code, spec_address_transposed};
use crate::adyen::types::{
    AdditionalData,
    Address,
    AdyenAuthType,
    AdyenRouterData,
    AdyenStatus,
    Amount,
    ShopperName,
};
use crate::country::CountryAlpha2;
use crate::enums::{PayoutEntityType, PayoutStatus, PayoutType};
use crate::errors::ConnectorError;
use crate::router_data::{
    spec_address_details,
    spec_country,
    PayoutBank,
    PayoutMethodData,
    PayoutWallet,
    PayoutsData,
    PayoutsRouterData,
    ResponseRouterData,
    RouterData,
};
use crate::router_response::PayoutsResponseData;

verus! {

/// A request to create a payout.
#[derive(Clone, Debug, PartialEq, Eq)]
pub struct AdyenPayoutCreateRequest {
    pub amount: Amount,
    pub recurring: RecurringContract,
    pub merchant_account: String,
    pub payment_data: PayoutPaymentMethodData,
    pub reference: String,
    pub shopper_reference: String,
    pub shopper_email: Option<String>,
    pub shopper_name: ShopperName,
    pub date_of_birth: Option<String>,
    pub entity_type: Option<PayoutEntityType>,
    pub nationality: Option<CountryAlpha2>,
    pub billing_address: Option<Address>,
}

/// Where a payout goes to.
#[derive(Clone, Debug, PartialEq, Eq)]
pub enum PayoutPaymentMethodData {
    PayoutBankData(PayoutBankData),
    PayoutWalletData(PayoutWalletData),
}

/// A payout to a bank account.
#[derive(Clone, Debug, PartialEq, Eq)]
pub struct PayoutBankData {
    pub bank: PayoutBankDetails,
}

/// A payout to a wallet.
#[derive(Clone, Debug, PartialEq, Eq)]
pub struct PayoutWalletData {
    pub selected_brand: PayoutBrand,
    pub additional_data: PayoutAdditionalData,
}

/// The wallets that Adyen pays out to.
#[derive(Clone, Copy, Debug, PartialEq, Eq, Hash, Structural)]
pub enum PayoutBrand {
    Paypal,
}

/// The wallet account that a payout goes to.
#[derive(Clone, Debug, PartialEq, Eq)]
pub struct PayoutAdditionalData {
    pub token_data_type: PayoutTokenDataType,
    pub email_id: String,
}

/// The kind of wallet account that a payout goes to.
#[derive(Clone, Copy, Debug, PartialEq, Eq, Hash, Structural)]
pub enum PayoutTokenDataType {
    PayPal,
}

/// The bank account that a payout goes to.
#[derive(Clone, Debug, PartialEq, Eq)]
pub struct PayoutBankDetails {
    pub iban: String,
    pub owner_name: String,
    pub bank_city: Option<String>,
    pub bank_name: Option<String>,
    pub bic: Option<String>,
    pub country_code: Option<CountryAlpha2>,
    pub tax_id: Option<String>,
}

/// The contract under which the payout details are stored.
#[derive(Clone, Debug, PartialEq, Eq)]
pub struct RecurringContract {
    pub contract: Contract,
}

/// The kinds of contract under which details are stored.
#[derive(Clone, Copy, Debug, PartialEq, Eq, Hash, Structural)]
pub enum Contract {
    Oneclick,
    Recurring,
    Payout,
}

/// The response to a payout request.
#[derive(Clone, Debug, PartialEq, Eq)]
pub struct AdyenPayoutResponse {
    pub psp_reference: String,
    pub result_code: Option<AdyenStatus>,
    pub response: Option<AdyenStatus>,
    pub amount: Option<Amount>,
    pub merchant_reference: Option<String>,
    pub refusal_reason: Option<String>,
    pub refusal_reason_code: Option<String>,
    pub additional_data: Option<AdditionalData>,
    pub auth_code: Option<String>,
}

/// A request to find out whether a card can take a payout.
#[derive(Clone, Debug, PartialEq, Eq)]
pub struct AdyenPayoutEligibilityRequest {
    pub amount: Amount,
    pub merchant_account: String,
    pub payment_method: PayoutCardDetails,
    pub reference: String,
    pub shopper_reference: String,
}

/// The card that a payout goes to.
#[derive(Clone, Debug, PartialEq, Eq)]
pub struct PayoutCardDetails {
    pub payment_method_type: String,
    pub number: String,
    pub expiry_month: String,
    pub expiry_year: String,
    pub holder_name: String,
}

/// Whether a card can take a payout.
#[derive(Clone, Copy, Debug, PartialEq, Eq, Hash, Structural)]
pub enum PayoutEligibility {
    Yes,
    No,
    Domestic,
    Unknown,
}

/// A request to carry a payout out.
#[derive(Clone, Debug, PartialEq, Eq)]
pub enum AdyenPayoutFulfillRequest {
    GenericFulfillRequest(PayoutFulfillGenericRequest),
    Card(PayoutFulfillCardRequest),
}

/// A request to carry out a payout that was created before.
#[derive(Clone, Debug, PartialEq, Eq)]
pub struct PayoutFulfillGenericRequest {
    pub merchant_account: String,
    pub original_reference: String,
}

/// A request to pay out to a card.
#[derive(Clone, Debug, PartialEq, Eq)]
pub struct PayoutFulfillCardRequest {
    pub amount: Amount,
    pub card: PayoutCardDetails,
    pub billing_address: Option<Address>,
    pub merchant_account: String,
    pub reference: String,
    pub shopper_name: ShopperName,
    pub nationality: Option<CountryAlpha2>,
    pub entity_type: Option<PayoutEntityType>,
}

/// A request to cancel a payout.
#[derive(Clone, Debug, PartialEq, Eq)]
pub struct AdyenPayoutCancelRequest {
    pub original_reference: String,
    pub merchant_account: String,
}

/// The error for a payout that Adyen does not make.
pub open spec fn spec_payout_not_supported(feature: &'static str) -> ConnectorError {
    ConnectorError::NotSupported { feature, context: "Adyen" }
}

/// Whether `res` is what a payout method comes to as the card that a
/// payout goes to. Only a card does, and the name of its holder is
/// required.
pub open spec fn spec_is_payout_card(
    item: PayoutMethodData,
    res: Result<PayoutCardDetails, ConnectorError>,
) -> bool {
    match item {
        PayoutMethodData::Card(card) => match card.card_holder_name {
            Some(holder_name) => {
                &&& res matches Ok(details)
                &&& details.payment_method_type@ == "scheme"@
                &&& details.number == card.card_number
                &&& details.expiry_month == card.expiry_month
                &&& details.expiry_year == card.expiry_year
                &&& details.holder_name == holder_name
            },
            None => res == Err::<PayoutCardDetails, ConnectorError>(
                ConnectorError::MissingRequiredField {
                    field_name: "payout_method_data.card.holder_name",
                },
            ),
        },
        _ => res == Err::<PayoutCardDetails, ConnectorError>(
            ConnectorError::MissingRequiredField { field_name: "payout_method_data.card" },
        ),
    }
}

/// The error with which a payout method is rejected as a card, if it is.
pub open spec fn spec_payout_card_error(item: PayoutMethodData) -> Option<ConnectorError> {
    match item {
        PayoutMethodData::Card(card) => if card.card_holder_name is None {
            Some(
                ConnectorError::MissingRequiredField {
                    field_name: "payout_method_data.card.holder_name",
                },
            )
        } else {
            None
        },
        _ => Some(ConnectorError::MissingRequiredField { field_name: "payout_method_data.card" }),
    }
}

impl PayoutCardDetails {
    /// Takes the card that a payout goes to.
    pub fn try_from(item: &PayoutMethodData) -> (res: Result<Self, ConnectorError>)
        ensures
            spec_is_payout_card(*item, res),
            res is Err <==> spec_payout_card_error(*item) is Some,
            res matches Err(e) ==> spec_payout_card_error(*item) == Some(e),
    {
        match item {
            PayoutMethodData::Card(card) => Ok(
                PayoutCardDetails {
                    payment_method_type: "scheme".to_owned(),
                    number: card.card_number.clone(),
                    expiry_month: card.expiry_month.clone(),
                    expiry_year: card.expiry_year.clone(),
                    holder_name: match &card.card_holder_name {
                        Some(name) => name.clone(),
                        None => {
                            return Err(
                                ConnectorError::MissingRequiredField {
                                    field_name: "payout_method_data.card.holder_name",
                                },
                            );
                        },
                    },
                },
            ),
            _ => Err(
                ConnectorError::MissingRequiredField { field_name: "payout_method_data.card" },
            ),
        }
    }
}

/// The first of two possible errors.
pub open spec fn spec_first(
    first: Option<ConnectorError>,
    second: Option<ConnectorError>,
) -> Option<ConnectorError> {
    match first {
        Some(e) => Some(e),
        None => second,
    }
}

/// The error for credentials that are not those of an Adyen account.
pub open spec fn spec_auth_error(item: PayoutsRouterData) -> Option<ConnectorError> {
    match AdyenAuthType::spec_try_from(item.connector_auth_type) {
        Ok(_) => None,
        Err(e) => Some(e),
    }
}

/// The error for a payout that does not say where it goes to.
pub open spec fn spec_method_missing(item: PayoutsRouterData) -> Option<ConnectorError> {
    if item.payout_method_data is None {
        Some(ConnectorError::MissingRequiredField { field_name: "payout_method_data" })
    } else {
        None
    }
}

/// The error with which the request for the eligibility of a card fails,
/// if it does.
pub open spec fn spec_eligibility_error(item: PayoutsRouterData) -> Option<ConnectorError> {
    spec_first(
        spec_auth_error(item),
        match item.payout_method_data {
            None => spec_method_missing(item),
            Some(method) => spec_payout_card_error(method),
        },
    )
}

/// Whether `req` is the request to find out whether a card can take a
/// payout.
pub open spec fn spec_is_eligibility_request(
    item: AdyenRouterData<&PayoutsRouterData>,
    req: AdyenPayoutEligibilityRequest,
) -> bool {
    let data = *item.router_data;
    &&& req.amount == (Amount { currency: data.request.destination_currency, value: item.amount })
    &&& AdyenAuthType::spec_try_from(data.connector_auth_type) matches Ok(auth)
    &&& req.merchant_account == auth.merchant_account
    &&& data.payout_method_data matches Some(method)
    &&& spec_is_payout_card(method, Ok(req.payment_method))
    &&& req.reference == data.connector_request_reference_id
    &&& req.shopper_reference == data.merchant_id
}

impl AdyenPayoutEligibilityRequest {
    /// Builds the request to find out whether a card can take a payout.
    pub fn try_from(item: &AdyenRouterData<&PayoutsRouterData>) -> (res: Result<
        Self,
        ConnectorError,
    >)
        ensures
            match spec_eligibility_error(*item.router_data) {
                Some(e) => res == Err::<Self, ConnectorError>(e),
                None => res matches Ok(req) && spec_is_eligibility_request(*item, req),
            },
    {
        let auth_type = AdyenAuthType::try_from(&item.router_data.connector_auth_type)?;
        let payout_method_data = PayoutCardDetails::try_from(
            item.router_data.get_payout_method_data()?,
        )?;
        Ok(
            AdyenPayoutEligibilityRequest {
                amount: Amount {
                    currency: item.router_data.request.destination_currency,
                    value: item.amount,
                },
                merchant_account: auth_type.merchant_account,
                payment_method: payout_method_data,
                reference: item.router_data.connector_request_reference_id.clone(),
                shopper_reference: item.router_data.merchant_id.clone(),
            },
        )
    }
}

impl AdyenPayoutCancelRequest {
    /// The request to cancel a payout: the payout is named by the id that
    /// Adyen gave it, which is required.
    pub open spec fn spec_try_from(item: PayoutsRouterData) -> Result<Self, ConnectorError> {
        match AdyenAuthType::spec_try_from(item.connector_auth_type) {
            Err(e) => Err(e),
            Ok(auth) => match item.request.connector_payout_id {
                Some(id) => Ok(
                    AdyenPayoutCancelRequest {
                        merchant_account: auth.merchant_account,
                        original_reference: id,
                    },
                ),
                None => Err(
                    ConnectorError::MissingRequiredField { field_name: "connector_payout_id" },
                ),
            },
        }
    }

    /// Builds the request to cancel a payout.
    pub fn try_from(item: &PayoutsRouterData) -> (res: Result<Self, ConnectorError>)
        ensures
            res == Self::spec_try_from(*item),
    {
        let auth_type = AdyenAuthType::try_from(&item.connector_auth_type)?;
        let merchant_account = auth_type.merchant_account;
        match &item.request.connector_payout_id {
            Some(id) => Ok(AdyenPayoutCancelRequest { merchant_account, original_reference: id.clone() }),
            None => Err(ConnectorError::MissingRequiredField { field_name: "connector_payout_id" }),
        }
    }
}

/// The name of the owner of the account that a payout goes to.
pub open spec fn spec_owner_name(item: PayoutsRouterData) -> Option<String> {
    match item.request.customer_details {
        Some(customer) => customer.name,
        None => None,
    }
}

/// The e-mail address of the person that a payout goes to.
pub open spec fn spec_customer_email(item: PayoutsRouterData) -> Option<String> {
    match item.request.customer_details {
        Some(customer) => customer.email,
        None => None,
    }
}

/// The error for a payout whose receiver is not fully named: the billing
/// address with first and last name is required, and the address must be
/// complete.
pub open spec fn spec_receiver_error(item: PayoutsRouterData) -> Option<ConnectorError> {
    match spec_address_details(item.address.billing) {
        None => Some(ConnectorError::MissingRequiredField { field_name: "billing.address" }),
        Some(address) => if address.first_name is None {
            Some(ConnectorError::MissingRequiredField { field_name: "address.first_name" })
        } else if address.last_name is None {
            Some(ConnectorError::MissingRequiredField { field_name: "address.last_name" })
        } else {
            match spec_address_transposed(item.address.billing) {
                Err(e) => Some(e),
                Ok(_) => None,
            }
        },
    }
}

/// The error with which a payout method is rejected for the creation of a
/// payout, if it is. Adyen creates payouts to SEPA accounts and to PayPal.
pub open spec fn spec_create_method_error(method: PayoutMethodData) -> Option<ConnectorError> {
    match method {
        PayoutMethodData::Card(_) => Some(
            spec_payout_not_supported("Card payout creation is not supported"),
        ),
        PayoutMethodData::Bank(bank) => match bank {
            PayoutBank::Sepa(_) => None,
            PayoutBank::Ach => Some(
                spec_payout_not_supported("Bank transfer via ACH is not supported"),
            ),
            PayoutBank::Bacs => Some(
                spec_payout_not_supported("Bank transfer via Bacs is not supported"),
            ),
            PayoutBank::Pix => Some(
                spec_payout_not_supported("Bank transfer via Pix is not supported"),
            ),
        },
        PayoutMethodData::Wallet(wallet) => match wallet {
            PayoutWallet::Paypal { email } => if email is None {
                Some(ConnectorError::MissingRequiredField { field_name: "email_address" })
            } else {
                None
            },
            PayoutWallet::Venmo => Some(spec_payout_not_supported("Venmo Wallet is not supported")),
        },
    }
}

/// The error with which the request to create a payout fails, if it does.
pub open spec fn spec_create_error(item: PayoutsRouterData) -> Option<ConnectorError> {
    spec_first(
        spec_auth_error(item),
        spec_first(
            if spec_owner_name(item) is None {
                Some(
                    ConnectorError::MissingRequiredField {
                        field_name: "payout_method_data.bank.owner_name",
                    },
                )
            } else {
                None
            },
            match item.payout_method_data {
                None => spec_method_missing(item),
                Some(method) => spec_first(
                    spec_create_method_error(method),
                    spec_receiver_error(item),
                ),
            },
        ),
    )
}

/// What a payout is paid to: a SEPA account with its owner, or a PayPal
/// account. Adyen creates payouts to nothing else.
pub open spec fn spec_create_payment_data(
    method: PayoutMethodData,
    owner_name: String,
) -> Option<PayoutPaymentMethodData> {
    match method {
        PayoutMethodData::Bank(PayoutBank::Sepa(b)) => Some(
            PayoutPaymentMethodData::PayoutBankData(
                PayoutBankData {
                    bank: PayoutBankDetails {
                        bank_name: b.bank_name,
                        country_code: b.bank_country_code,
                        bank_city: b.bank_city,
                        owner_name,
                        bic: b.bic,
                        iban: b.iban,
                        tax_id: None,
                    },
                },
            ),
        ),
        PayoutMethodData::Wallet(PayoutWallet::Paypal { email: Some(email_id) }) => Some(
            PayoutPaymentMethodData::PayoutWalletData(
                PayoutWalletData {
                    selected_brand: PayoutBrand::Paypal,
                    additional_data: PayoutAdditionalData {
                        token_data_type: PayoutTokenDataType::PayPal,
                        email_id,
                    },
                },
            ),
        ),
        _ => None,
    }
}

/// Whether `res` is the outcome of building the request to create a
/// payout.
///
/// A payout to a SEPA account names the account and its owner and goes by
/// the reference of the request; a payout to PayPal names the PayPal
/// account and goes by the id of the payout. Either names the receiver by
/// first and last name and gives the receiver's address.
pub open spec fn spec_is_create_request(
    item: AdyenRouterData<&PayoutsRouterData>,
    res: Result<AdyenPayoutCreateRequest, ConnectorError>,
) -> bool {
    let data = *item.router_data;
    match spec_create_error(data) {
        Some(e) => res == Err::<AdyenPayoutCreateRequest, ConnectorError>(e),
        None => {
            &&& res matches Ok(req)
            &&& data.payout_method_data matches Some(method)
            &&& spec_owner_name(data) matches Some(owner_name)
            &&& Some(req.payment_data) == spec_create_payment_data(method, owner_name)
            &&& req.amount == (Amount {
                value: item.amount,
                currency: data.request.destination_currency,
            })
            &&& req.recurring == (RecurringContract { contract: Contract::Payout })
            &&& AdyenAuthType::spec_try_from(data.connector_auth_type) matches Ok(auth)
            &&& req.merchant_account == auth.merchant_account
            &&& req.reference == (if method is Bank {
                data.connector_request_reference_id
            } else {
                data.request.payout_id
            })
            &&& req.shopper_reference == data.merchant_id
            &&& req.shopper_email == spec_customer_email(data)
            &&& spec_address_details(data.address.billing) matches Some(address)
            &&& req.shopper_name == (ShopperName {
                first_name: address.first_name,
                last_name: address.last_name,
            })
            &&& req.date_of_birth is None
            &&& req.entity_type == Some(data.request.entity_type)
            &&& req.nationality == spec_country(data.address.billing)
            &&& Ok::<Option<Address>, ConnectorError>(req.billing_address)
                == spec_address_transposed(data.address.billing)
        },
    }
}

/// The name and the address of the receiver of a payout.
fn receiver(item: &PayoutsRouterData) -> (res: Result<
    (ShopperName, Option<Address>),
    ConnectorError,
>)
    ensures
        match spec_receiver_error(*item) {
            Some(e) => res == Err::<(ShopperName, Option<Address>), ConnectorError>(e),
            None => res == Ok::<(ShopperName, Option<Address>), ConnectorError>(
                (
                    ShopperName {
                        first_name: spec_address_details(item.address.billing)->0.first_name,
                        last_name: spec_address_details(item.address.billing)->0.last_name,
                    },
                    spec_address_transposed(item.address.billing)->Ok_0,
                ),
            ),
        },
{
    let address = item.get_billing_address()?;
    let first_name = address.get_first_name()?.clone();
    let last_name = address.get_last_name()?.clone();
    let billing_address = match get_address_info(item.get_optional_billing()) {
        Some(Ok(a)) => Some(a),
        Some(Err(e)) => {
            return Err(e);
        },
        None => None,
    };
    Ok(
        (
            ShopperName { first_name: Some(first_name), last_name: Some(last_name) },
            billing_address,
        ),
    )
}

impl AdyenPayoutCreateRequest {
    /// Builds the request to create a payout.
    pub fn try_from(item: &AdyenRouterData<&PayoutsRouterData>) -> (res: Result<
        Self,
        ConnectorError,
    >)
        ensures
            spec_is_create_request(*item, res),
    {
        let auth_type = AdyenAuthType::try_from(&item.router_data.connector_auth_type)?;
        let merchant_account = auth_type.merchant_account;
        let (owner_name, customer_email) = match &item.router_data.request.customer_details {
            Some(customer) => (customer.name.clone(), customer.email.clone()),
            None => (None, None),
        };
        let owner_name = match owner_name {
            Some(name) => name,
            None => {
                return Err(
                    ConnectorError::MissingRequiredField {
                        field_name: "payout_method_data.bank.owner_name",
                    },
                );
            },
        };
        match item.router_data.get_payout_method_data()? {
            PayoutMethodData::Card(_) => Err(
                ConnectorError::NotSupported {
                    feature: "Card payout creation is not supported",
                    context: "Adyen",
                },
            ),
            PayoutMethodData::Bank(bd) => {
                let bank_details = match bd {
                    PayoutBank::Sepa(b) => PayoutBankDetails {
                        bank_name: b.bank_name.clone(),
                        country_code: b.bank_country_code,
                        bank_city: b.bank_city.clone(),
                        owner_name,
                        bic: b.bic.clone(),
                        iban: b.iban.clone(),
                        tax_id: None,
                    },
                    PayoutBank::Ach => {
                        return Err(
                            ConnectorError::NotSupported {
                                feature: "Bank transfer via ACH is not supported",
                                context: "Adyen",
                            },
                        );
                    },
                    PayoutBank::Bacs => {
                        return Err(
                            ConnectorError::NotSupported {
                                feature: "Bank transfer via Bacs is not supported",
                                context: "Adyen",
                            },
                        );
                    },
                    PayoutBank::Pix => {
                        return Err(
                            ConnectorError::NotSupported {
                                feature: "Bank transfer via Pix is not supported",
                                context: "Adyen",
                            },
                        );
                    },
                };
                let bank_data = PayoutBankData { bank: bank_details };
                let (shopper_name, billing_address) = receiver(item.router_data)?;
                Ok(
                    AdyenPayoutCreateRequest {
                        amount: Amount {
                            value: item.amount,
                            currency: item.router_data.request.destination_currency,
                        },
                        recurring: RecurringContract { contract: Contract::Payout },
                        merchant_account,
                        payment_data: PayoutPaymentMethodData::PayoutBankData(bank_data),
                        reference: item.router_data.connector_request_reference_id.clone(),
                        shopper_reference: item.router_data.merchant_id.clone(),
                        shopper_email: customer_email,
                        shopper_name,
                        date_of_birth: None,
                        entity_type: Some(item.router_data.request.entity_type),
                        nationality: get_country_code(item.router_data.get_optional_billing()),
                        billing_address,
                    },
                )
            },
            PayoutMethodData::Wallet(wallet_data) => {
                let additional_data = match wallet_data {
                    PayoutWallet::Paypal { email } => PayoutAdditionalData {
                        token_data_type: PayoutTokenDataType::PayPal,
                        email_id: match email {
                            Some(email) => email.clone(),
                            None => {
                                return Err(
                                    ConnectorError::MissingRequiredField {
                                        field_name: "email_address",
                                    },
                                );
                            },
                        },
                    },
                    PayoutWallet::Venmo => {
                        return Err(
                            ConnectorError::NotSupported {
                                feature: "Venmo Wallet is not supported",
                                context: "Adyen",
                            },
                        );
                    },
                };
                let (shopper_name, billing_address) = receiver(item.router_data)?;
                let payout_wallet = PayoutWalletData {
                    selected_brand: PayoutBrand::Paypal,
                    additional_data,
                };
                Ok(
                    AdyenPayoutCreateRequest {
                        amount: Amount {
                            value: item.amount,
                            currency: item.router_data.request.destination_currency,
                        },
                        recurring: RecurringContract { contract: Contract::Payout },
                        merchant_account,
                        payment_data: PayoutPaymentMethodData::PayoutWalletData(payout_wallet),
                        reference: item.router_data.request.payout_id.clone(),
                        shopper_reference: item.router_data.merchant_id.clone(),
                        shopper_email: customer_email,
                        shopper_name,
                        date_of_birth: None,
                        entity_type: Some(item.router_data.request.entity_type),
                        nationality: get_country_code(item.router_data.get_optional_billing()),
                        billing_address,
                    },
                )
            },
        }
    }
}

/// The error with which the request to carry a payout out fails, if it
/// does.
pub open spec fn spec_fulfill_error(item: PayoutsRouterData) -> Option<ConnectorError> {
    spec_first(
        spec_auth_error(item),
        match item.request.payout_type {
            None => Some(ConnectorError::MissingRequiredField { field_name: "payout_type" }),
            Some(PayoutType::Bank) | Some(PayoutType::Wallet) => {
                if item.request.connector_payout_id is None {
                    Some(ConnectorError::MissingRequiredField { field_name: "connector_payout_id" })
                } else {
                    None
                }
            },
            Some(PayoutType::Card) => match spec_address_details(item.address.billing) {
                None => Some(
                    ConnectorError::MissingRequiredField { field_name: "billing.address" },
                ),
                Some(address) => spec_first(
                    match item.payout_method_data {
                        None => spec_method_missing(item),
                        Some(method) => spec_payout_card_error(method),
                    },
                    spec_first(
                        match spec_address_transposed(item.address.billing) {
                            Err(e) => Some(e),
                            Ok(_) => None,
                        },
                        if address.first_name is None {
                            Some(
                                ConnectorError::MissingRequiredField {
                                    field_name: "address.first_name",
                                },
                            )
                        } else if address.last_name is None {
                            Some(
                                ConnectorError::MissingRequiredField {
                                    field_name: "address.last_name",
                                },
                            )
                        } else {
                            None
                        },
                    ),
                ),
            },
        },
    )
}

/// Whether `req` is the request to carry a payout out.
///
/// A payout to a bank account or a wallet was created before and is
/// carried out by the id that Adyen gave it. A payout to a card is made in
/// one step, to the card of the payout method and the receiver of the
/// billing address.
pub open spec fn spec_is_fulfill_request(
    item: AdyenRouterData<&PayoutsRouterData>,
    req: AdyenPayoutFulfillRequest,
) -> bool {
    let data = *item.router_data;
    &&& AdyenAuthType::spec_try_from(data.connector_auth_type) matches Ok(auth)
    &&& match data.request.payout_type {
        Some(PayoutType::Card) => {
            &&& req matches AdyenPayoutFulfillRequest::Card(card)
            &&& card.amount == (Amount {
                value: item.amount,
                currency: data.request.destination_currency,
            })
            &&& data.payout_method_data matches Some(method)
            &&& spec_is_payout_card(method, Ok(card.card))
            &&& Ok::<Option<Address>, ConnectorError>(card.billing_address)
                == spec_address_transposed(data.address.billing)
            &&& card.merchant_account == auth.merchant_account
            &&& card.reference == data.connector_request_reference_id
            &&& spec_address_details(data.address.billing) matches Some(address)
            &&& card.shopper_name == (ShopperName {
                first_name: address.first_name,
                last_name: address.last_name,
            })
            &&& card.nationality == spec_country(data.address.billing)
            &&& card.entity_type == Some(data.request.entity_type)
        },
        _ => {
            &&& req matches AdyenPayoutFulfillRequest::GenericFulfillRequest(generic)
            &&& generic.merchant_account == auth.merchant_account
            &&& Some(generic.original_reference) == data.request.connector_payout_id
        },
    }
}

impl AdyenPayoutFulfillRequest {
    /// Builds the request to carry a payout out.
    pub fn try_from(item: &AdyenRouterData<&PayoutsRouterData>) -> (res: Result<
        Self,
        ConnectorError,
    >)
        ensures
            match spec_fulfill_error(*item.router_data) {
                Some(e) => res == Err::<Self, ConnectorError>(e),
                None => res matches Ok(req) && spec_is_fulfill_request(*item, req),
            },
    {
        let auth_type = AdyenAuthType::try_from(&item.router_data.connector_auth_type)?;
        let payout_type = match item.router_data.request.payout_type {
            Some(payout_type) => payout_type,
            None => {
                return Err(ConnectorError::MissingRequiredField { field_name: "payout_type" });
            },
        };
        let merchant_account = auth_type.merchant_account;
        match payout_type {
            PayoutType::Bank | PayoutType::Wallet => Ok(
                AdyenPayoutFulfillRequest::GenericFulfillRequest(
                    PayoutFulfillGenericRequest {
                        merchant_account,
                        original_reference: match &item.router_data.request.connector_payout_id {
                            Some(id) => id.clone(),
                            None => {
                                return Err(
                                    ConnectorError::MissingRequiredField {
                                        field_name: "connector_payout_id",
                                    },
                                );
                            },
                        },
                    },
                ),
            ),
            PayoutType::Card => {
                let address = item.router_data.get_billing_address()?;
                let card = PayoutCardDetails::try_from(item.router_data.get_payout_method_data()?)?;
                let billing_address = match get_address_info(
                    item.router_data.get_optional_billing(),
                ) {
                    Some(Ok(a)) => Some(a),
                    Some(Err(e)) => {
                        return Err(e);
                    },
                    None => None,
                };
                let first_name = address.get_first_name()?.clone();
                let last_name = address.get_last_name()?.clone();
                Ok(
                    AdyenPayoutFulfillRequest::Card(
                        PayoutFulfillCardRequest {
                            amount: Amount {
                                value: item.amount,
                                currency: item.router_data.request.destination_currency,
                            },
                            card,
                            billing_address,
                            merchant_account,
                            reference: item.router_data.connector_request_reference_id.clone(),
                            shopper_name: ShopperName {
                                first_name: Some(first_name),
                                last_name: Some(last_name),
                            },
                            nationality: get_country_code(item.router_data.get_optional_billing()),
                            entity_type: Some(item.router_data.request.entity_type),
                        },
                    ),
                )
            },
        }
    }
}

/// The payout status that a result code of Adyen stands for.
pub open spec fn spec_payout_status(adyen_status: AdyenStatus) -> PayoutStatus {
    match adyen_status {
        AdyenStatus::Authorised => PayoutStatus::Success,
        AdyenStatus::PayoutConfirmReceived => PayoutStatus::Initiated,
        AdyenStatus::Cancelled | AdyenStatus::PayoutDeclineReceived => PayoutStatus::Cancelled,
        AdyenStatus::Error => PayoutStatus::Failed,
        AdyenStatus::Pending => PayoutStatus::Pending,
        AdyenStatus::PayoutSubmitReceived => PayoutStatus::RequiresFulfillment,
        _ => PayoutStatus::Ineligible,
    }
}

/// Puts a result code of Adyen in terms of the payout status.
pub fn payout_status_from(adyen_status: AdyenStatus) -> (res: PayoutStatus)
    ensures
        res == spec_payout_status(adyen_status),
{
    match adyen_status {
        AdyenStatus::Authorised => PayoutStatus::Success,
        AdyenStatus::PayoutConfirmReceived => PayoutStatus::Initiated,
        AdyenStatus::Cancelled | AdyenStatus::PayoutDeclineReceived => PayoutStatus::Cancelled,
        AdyenStatus::Error => PayoutStatus::Failed,
        AdyenStatus::Pending => PayoutStatus::Pending,
        AdyenStatus::PayoutSubmitReceived => PayoutStatus::RequiresFulfillment,
        AdyenStatus::AuthenticationFinished
        | AdyenStatus::AuthenticationNotRequired
        | AdyenStatus::ChallengeShopper
        | AdyenStatus::Received
        | AdyenStatus::RedirectShopper
        | AdyenStatus::Refused
        | AdyenStatus::PresentToShopper => PayoutStatus::Ineligible,
    }
}

/// Whether a response says that the card can take a payout, where it says
/// anything about that.
pub open spec fn spec_payout_eligible(response: AdyenPayoutResponse) -> Option<bool> {
    match response.additional_data {
        Some(AdditionalData { payout_eligible: Some(eligibility), .. }) => Some(
            eligibility == PayoutEligibility::Yes || eligibility == PayoutEligibility::Domestic,
        ),
        _ => None,
    }
}

/// The status of a payout after a response.
///
/// A response on eligibility decides between `RequiresFulfillment` and
/// `Ineligible`. Any other response is read by its result code, or else by
/// its response code; a response with neither says nothing of the status.
pub open spec fn spec_response_payout_status(response: AdyenPayoutResponse) -> Option<
    PayoutStatus,
> {
    match spec_payout_eligible(response) {
        Some(true) => Some(PayoutStatus::RequiresFulfillment),
        Some(false) => Some(PayoutStatus::Ineligible),
        None => match (response.result_code, response.response) {
            (Some(result_code), _) => Some(spec_payout_status(result_code)),
            (None, Some(code)) => Some(spec_payout_status(code)),
            (None, None) => None,
        },
    }
}

/// Puts the response to a payout request into the request it answers.
pub fn payout_response(
    item: ResponseRouterData<AdyenPayoutResponse, PayoutsData, PayoutsResponseData>,
) -> (res: Result<PayoutsRouterData, ConnectorError>)
    ensures
        res == Ok::<PayoutsRouterData, ConnectorError>(
            RouterData {
                response: Ok(
                    PayoutsResponseData {
                        status: spec_response_payout_status(item.response),
                        connector_payout_id: Some(item.response.psp_reference),
                        payout_eligible: spec_payout_eligible(item.response),
                        should_add_next_step_to_process_tracker: false,
                        error_code: None,
                        error_message: None,
                    },
                ),
                ..item.data
            },
        ),
{
    let response = item.response;
    let payout_eligible = match &response.additional_data {
        Some(AdditionalData { payout_eligible: Some(eligibility), .. }) => Some(
            matches!(eligibility, PayoutEligibility::Yes | PayoutEligibility::Domestic),
        ),
        _ => None,
    };
    let status = match payout_eligible {
        Some(true) => Some(PayoutStatus::RequiresFulfillment),
        Some(false) => Some(PayoutStatus::Ineligible),
        None => match (response.result_code, response.response) {
            (Some(result_code), _) => Some(payout_status_from(result_code)),
            (None, Some(code)) => Some(payout_status_from(code)),
            (None, None) => None,
        },
    };
    Ok(
        RouterData {
            response: Ok(
                PayoutsResponseData {
                    status,
                    connector_payout_id: Some(response.psp_reference),
                    payout_eligible,
                    should_add_next_step_to_process_tracker: false,
                    error_code: None,
                    error_message: None,
                },
            ),
            ..item.data
        },
    )
}

} // verus!
