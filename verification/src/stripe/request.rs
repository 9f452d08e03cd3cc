//! The request builder for Stripe: how each request is taken from a
//! canonical request in its context.

use vstd::prelude::*;
use crate::address::Address;
use crate::consts::DEFAULT_RETURN_URL;
use crate::enums::{AuthenticationType, CaptureMethod, PaymentExperience, PaymentMethodType};
use crate::errors::ConnectorError;
use crate::payment_method_data::{PaymentMethodData, WalletData};
use crate::router_data::{
    ConnectorCustomerRouterData,
    MandateData,
    MandateIds,
    MandateReferenceId,
    PaymentMethodToken,
    PaymentsAuthorizeRouterData,
    PaymentsCancelRouterData,
    PaymentsCaptureRouterData,
    RefundsRouterData,
    SetupMandateRouterData,
    TokenizationRouterData,
};
use crate::stripe::payment_method::{
    apple_pay_token,
    card_data,
    get_bank_debit_data,
    get_bank_name,
    get_bank_specific_data,
    infer_stripe_bank_redirect_issuer,
    infer_stripe_pay_later_type,
    spec_apple_pay_token,
    spec_bank_name,
    spec_bank_redirect_issuer,
    spec_bank_specific_data,
    spec_card_data,
    spec_is_apple_pay,
    spec_is_bank_debit_data,
    spec_not_implemented,
    spec_pay_later_type,
    validate_shipping_address_against_payment_method,
};
use crate::stripe::types::{
    ApplepayPayment,
    CancelRequest,
    CaptureRequest,
    CustomerRequest,
    MitExemption,
    PaymentIntentRequest,
    RefundRequest,
    SetupIntentRequest,
    StripeBankDebitData,
    StripeBankRedirectData,
    StripeBillingAddress,
    StripeCaptureMethod,
    StripeMandateRequest,
    StripeMandateType,
    StripePayLaterData,
    StripePaymentMethodData,
    StripePaymentMethodOptions,
    StripePaymentMethodType,
    StripeShippingAddress,
    StripeWallet,
    TokenRequest,
};
use crate::text::{join3, opt_str, owned};

verus! {

/// The first of two possible errors.
pub open spec fn spec_first(
    first: Option<ConnectorError>,
    second: Option<ConnectorError>,
) -> Option<ConnectorError> {
    match first {
        Some(e) => Some(e),
        None => second,
    }
}

/// The error of a result, if it is one.
pub open spec fn spec_err<T>(r: Result<T, ConnectorError>) -> Option<ConnectorError> {
    match r {
        Ok(_) => None,
        Err(e) => Some(e),
    }
}

impl StripeCaptureMethod {
    /// How Stripe is to capture a payment: at once where the request asks
    /// for automatic capture or for nothing, and on demand otherwise.
    pub open spec fn spec_from(item: Option<CaptureMethod>) -> Self {
        match item {
            Some(CaptureMethod::Automatic) | None => StripeCaptureMethod::Automatic,
            Some(_) => StripeCaptureMethod::Manual,
        }
    }

    /// Tells how Stripe is to capture a payment.
    pub fn from(item: Option<CaptureMethod>) -> (res: Self)
        ensures
            res == Self::spec_from(item),
    {
        match item {
            Some(p) => match p {
                CaptureMethod::ManualMultiple => StripeCaptureMethod::Manual,
                CaptureMethod::Manual => StripeCaptureMethod::Manual,
                CaptureMethod::Automatic => StripeCaptureMethod::Automatic,
                CaptureMethod::Scheduled => StripeCaptureMethod::Manual,
            },
            None => StripeCaptureMethod::Automatic,
        }
    }
}

/// Whether Stripe is handed a payment method: the family and, within
/// wallets, the wallet.
pub open spec fn spec_supports(payment_method_data: PaymentMethodData) -> bool {
    match payment_method_data {
        PaymentMethodData::Card(_)
        | PaymentMethodData::PayLater(_)
        | PaymentMethodData::BankRedirect(_)
        | PaymentMethodData::BankDebit(_) => true,
        PaymentMethodData::Wallet(wallet) => wallet is ApplePay,
        _ => false,
    }
}

/// Tells whether Stripe is handed a payment method.
pub fn supports(payment_method_data: &PaymentMethodData) -> (res: bool)
    ensures
        res == spec_supports(*payment_method_data),
{
    match payment_method_data {
        PaymentMethodData::Card(_)
        | PaymentMethodData::PayLater(_)
        | PaymentMethodData::BankRedirect(_)
        | PaymentMethodData::BankDebit(_) => true,
        PaymentMethodData::Wallet(wallet) => matches!(wallet, WalletData::ApplePay(_)),
        PaymentMethodData::CardDetailsForNetworkTransactionId(_)
        | PaymentMethodData::CardRedirect(_)
        | PaymentMethodData::BankTransfer(_)
        | PaymentMethodData::Crypto
        | PaymentMethodData::MandatePayment
        | PaymentMethodData::Reward
        | PaymentMethodData::RealTimePayment
        | PaymentMethodData::Upi
        | PaymentMethodData::Voucher(_)
        | PaymentMethodData::GiftCard(_)
        | PaymentMethodData::CardToken
        | PaymentMethodData::OpenBanking
        | PaymentMethodData::NetworkToken(_)
        | PaymentMethodData::MobilePayment => false,
    }
}

/// The name under which an error reports a payment method: the name of the
/// wallet for a wallet, and the name of the family otherwise.
pub open spec fn spec_feature_name(payment_method_data: PaymentMethodData) -> &'static str {
    match payment_method_data {
        PaymentMethodData::Wallet(wallet) => wallet.spec_scheme_name(),
        _ => payment_method_data.spec_kind_name(),
    }
}

/// The error with which a payment method is rejected, if it is.
pub open spec fn spec_payment_method_error(
    pm_type: Option<PaymentMethodType>,
    experience: Option<PaymentExperience>,
    payment_method_data: PaymentMethodData,
) -> Option<ConnectorError> {
    match payment_method_data {
        PaymentMethodData::Card(_) | PaymentMethodData::BankDebit(_) => None,
        PaymentMethodData::PayLater(pay_later_data) => match (pm_type, experience) {
            (None, _) => Some(
                ConnectorError::MissingRequiredField { field_name: "payment_method_type" },
            ),
            (Some(_), None) => Some(
                ConnectorError::MissingRequiredField { field_name: "payment_experience" },
            ),
            (Some(pm_type), Some(experience)) => match spec_pay_later_type(pm_type, experience) {
                Err(e) => Some(e),
                Ok(stripe_pm_type) => spec_err(
                    StripeBillingAddress::spec_from_pay_later(pay_later_data, stripe_pm_type),
                ),
            },
        },
        PaymentMethodData::BankRedirect(bank_redirect_data) => match spec_bank_redirect_issuer(
            pm_type,
        ) {
            Err(e) => Some(e),
            Ok(stripe_pm_type) => spec_err(spec_bank_name(stripe_pm_type, bank_redirect_data)),
        },
        PaymentMethodData::Wallet(WalletData::ApplePay(data)) => spec_err(
            spec_apple_pay_token(data.payment_data@),
        ),
        _ => Some(spec_not_implemented(spec_feature_name(payment_method_data))),
    }
}

/// What a payment method comes to: the data for Stripe, the Stripe type,
/// and who is billed.
pub type StripePaymentMethod = (
    StripePaymentMethodData,
    StripePaymentMethodType,
    StripeBillingAddress,
);

/// Whether `res` is what a payment method comes to in the terms of Stripe.
pub open spec fn spec_is_payment_method(
    pm_type: Option<PaymentMethodType>,
    experience: Option<PaymentExperience>,
    payment_method_data: PaymentMethodData,
    auth_type: AuthenticationType,
    res: StripePaymentMethod,
) -> bool {
    match payment_method_data {
        PaymentMethodData::Card(card) => res == (
            StripePaymentMethodData::Card(spec_card_data(card, auth_type)),
            StripePaymentMethodType::Card,
            StripeBillingAddress::spec_default(),
        ),
        PaymentMethodData::PayLater(pay_later_data) => {
            &&& pm_type matches Some(pm)
            &&& experience matches Some(exp)
            &&& spec_pay_later_type(pm, exp) matches Ok(stripe_pm_type)
            &&& res.0 == StripePaymentMethodData::PayLater(
                StripePayLaterData {
                    payment_method_types: stripe_pm_type,
                    payment_method_data_type: stripe_pm_type,
                },
            )
            &&& res.1 == stripe_pm_type
            &&& Ok::<StripeBillingAddress, ConnectorError>(res.2)
                == StripeBillingAddress::spec_from_pay_later(pay_later_data, stripe_pm_type)
        },
        PaymentMethodData::BankRedirect(bank_redirect_data) => {
            &&& spec_bank_redirect_issuer(pm_type) matches Ok(stripe_pm_type)
            &&& spec_bank_name(stripe_pm_type, bank_redirect_data) matches Ok(bank_name)
            &&& res.0 == StripePaymentMethodData::BankRedirect(
                StripeBankRedirectData {
                    payment_method_types: stripe_pm_type,
                    payment_method_data_type: stripe_pm_type,
                    bank_name,
                    bank_specific_data: spec_bank_specific_data(bank_redirect_data),
                },
            )
            &&& res.1 == stripe_pm_type
            &&& res.2 == StripeBillingAddress::spec_from_bank_redirect(bank_redirect_data)
        },
        PaymentMethodData::Wallet(WalletData::ApplePay(data)) => {
            &&& res.0 matches StripePaymentMethodData::Wallet(StripeWallet::ApplepayToken(token))
            &&& spec_is_apple_pay(data, Ok(token))
            &&& res.1 == StripePaymentMethodType::ApplePay
            &&& res.2 == StripeBillingAddress::spec_default()
        },
        PaymentMethodData::BankDebit(bank_debit_data) => {
            &&& res.0 matches StripePaymentMethodData::BankDebit(debit)
            &&& debit.payment_method_types == res.1
            &&& spec_is_bank_debit_data(bank_debit_data, (res.1, debit.bank_specific_data, res.2))
        },
        _ => false,
    }
}

/// Maps a payment method to its Stripe form.
///
/// The mapping is total: it answers every payment method data with a
/// payment method or with an error that says what is wrong.
pub fn create_stripe_payment_method(
    pm_type: Option<&PaymentMethodType>,
    experience: Option<&PaymentExperience>,
    payment_method_data: &PaymentMethodData,
    auth_type: AuthenticationType,
) -> (res: Result<StripePaymentMethod, ConnectorError>)
    ensures
        match spec_payment_method_error(
            match pm_type {
                Some(t) => Some(*t),
                None => None,
            },
            match experience {
                Some(e) => Some(*e),
                None => None,
            },
            *payment_method_data,
        ) {
            Some(e) => res == Err::<StripePaymentMethod, ConnectorError>(e),
            None => res matches Ok(mapped) && spec_is_payment_method(
                match pm_type {
                    Some(t) => Some(*t),
                    None => None,
                },
                match experience {
                    Some(e) => Some(*e),
                    None => None,
                },
                *payment_method_data,
                auth_type,
                mapped,
            ),
        },
{
    match payment_method_data {
        PaymentMethodData::Card(card_details) => Ok(
            (
                StripePaymentMethodData::Card(card_data(card_details, auth_type)),
                StripePaymentMethodType::Card,
                StripeBillingAddress::empty(),
            ),
        ),
        PaymentMethodData::PayLater(pay_later_data) => {
            let pm_type = match pm_type {
                Some(pm_type) => pm_type,
                None => {
                    return Err(
                        ConnectorError::MissingRequiredField { field_name: "payment_method_type" },
                    );
                },
            };
            let pm_experience = match experience {
                Some(experience) => experience,
                None => {
                    return Err(
                        ConnectorError::MissingRequiredField { field_name: "payment_experience" },
                    );
                },
            };
            let stripe_pm_type = infer_stripe_pay_later_type(pm_type, pm_experience)?;
            let billing_address = StripeBillingAddress::try_from_pay_later(
                pay_later_data,
                stripe_pm_type,
            )?;
            Ok(
                (
                    StripePaymentMethodData::PayLater(
                        StripePayLaterData {
                            payment_method_types: stripe_pm_type,
                            payment_method_data_type: stripe_pm_type,
                        },
                    ),
                    stripe_pm_type,
                    billing_address,
                ),
            )
        },
        PaymentMethodData::BankRedirect(bank_redirect_data) => {
            let billing_address = StripeBillingAddress::try_from_bank_redirect(bank_redirect_data)?;
            let pm_type = infer_stripe_bank_redirect_issuer(pm_type)?;
            let bank_specific_data = get_bank_specific_data(bank_redirect_data);
            let bank_name = get_bank_name(&pm_type, bank_redirect_data)?;
            Ok(
                (
                    StripePaymentMethodData::BankRedirect(
                        StripeBankRedirectData {
                            payment_method_types: pm_type,
                            payment_method_data_type: pm_type,
                            bank_name,
                            bank_specific_data,
                        },
                    ),
                    pm_type,
                    billing_address,
                ),
            )
        },
        PaymentMethodData::Wallet(wallet_data) => match wallet_data {
            WalletData::ApplePay(applepay_data) => Ok(
                (
                    StripePaymentMethodData::Wallet(
                        StripeWallet::ApplepayToken(apple_pay_token(applepay_data)?),
                    ),
                    StripePaymentMethodType::ApplePay,
                    StripeBillingAddress::empty(),
                ),
            ),
            _ => Err(
                ConnectorError::NotImplemented {
                    connector: "Stripe",
                    feature: wallet_data.scheme_name(),
                },
            ),
        },
        PaymentMethodData::BankDebit(bank_debit_data) => {
            let (pm_type, bank_debit_data, billing_address) = get_bank_debit_data(bank_debit_data);
            let pm_data = StripePaymentMethodData::BankDebit(
                StripeBankDebitData {
                    payment_method_types: pm_type,
                    bank_specific_data: bank_debit_data,
                },
            );
            Ok((pm_data, pm_type, billing_address))
        },
        PaymentMethodData::CardDetailsForNetworkTransactionId(_)
        | PaymentMethodData::CardRedirect(_)
        | PaymentMethodData::BankTransfer(_)
        | PaymentMethodData::Crypto
        | PaymentMethodData::MandatePayment
        | PaymentMethodData::Reward
        | PaymentMethodData::RealTimePayment
        | PaymentMethodData::Upi
        | PaymentMethodData::Voucher(_)
        | PaymentMethodData::GiftCard(_)
        | PaymentMethodData::CardToken
        | PaymentMethodData::OpenBanking
        | PaymentMethodData::NetworkToken(_)
        | PaymentMethodData::MobilePayment => Err(
            ConnectorError::NotImplemented {
                connector: "Stripe",
                feature: payment_method_data.kind_name(),
            },
        ),
    }
}

/// Totality of the mapping: a payment method that Stripe is not handed
/// always ends in `NotImplemented` under its own name, never in a payment
/// method; and whenever the mapping ends in `NotImplemented`, it names
/// Stripe.
pub proof fn lemma_mapping_is_total(
    pm_type: Option<PaymentMethodType>,
    experience: Option<PaymentExperience>,
    payment_method_data: PaymentMethodData,
)
    ensures
        !spec_supports(payment_method_data) ==> spec_payment_method_error(
            pm_type,
            experience,
            payment_method_data,
        ) == Some(spec_not_implemented(spec_feature_name(payment_method_data))),
        spec_payment_method_error(pm_type, experience, payment_method_data) matches Some(
            ConnectorError::NotImplemented { connector, .. },
        ) ==> connector == "Stripe",
{
}

/// The name on a shipping address: first and last name with a blank
/// between them. Without a first name there is no name; without a last
/// name the blank stays.
pub open spec fn spec_shipping_name(shipping: Address) -> Option<Seq<char>> {
    match shipping.address {
        Some(address) => match address.first_name {
            Some(first_name) => Some(
                first_name@ + " "@ + (match address.last_name {
                    Some(last_name) => last_name@,
                    None => Seq::empty(),
                }),
            ),
            None => None,
        },
        None => None,
    }
}

/// The phone number of a shipping address: the calling code and the
/// number, as far as they are known, one behind the other.
pub open spec fn spec_shipping_phone(shipping: Address) -> Option<Seq<char>> {
    match shipping.phone {
        Some(phone) => Some(
            (match phone.country_code {
                Some(code) => code@,
                None => Seq::empty(),
            }) + (match phone.number {
                Some(number) => number@,
                None => Seq::empty(),
            }),
        ),
        None => None,
    }
}

/// Whether `res` says where the goods go.
pub open spec fn spec_is_shipping_address(
    shipping: Option<Address>,
    res: StripeShippingAddress,
) -> bool {
    match shipping {
        None => res == (StripeShippingAddress {
            city: None,
            country: None,
            line1: None,
            line2: None,
            zip: None,
            state: None,
            name: None,
            phone: None,
        }),
        Some(shipping) => {
            let address = shipping.address;
            &&& res.city == (match address {
                Some(a) => a.city,
                None => None,
            })
            &&& res.country == (match address {
                Some(a) => a.country,
                None => None,
            })
            &&& res.line1 == (match address {
                Some(a) => a.line1,
                None => None,
            })
            &&& res.line2 == (match address {
                Some(a) => a.line2,
                None => None,
            })
            &&& res.zip == (match address {
                Some(a) => a.zip,
                None => None,
            })
            &&& res.state == (match address {
                Some(a) => a.state,
                None => None,
            })
            &&& opt_str(res.name) == spec_shipping_name(shipping)
            &&& opt_str(res.phone) == spec_shipping_phone(shipping)
        },
    }
}

/// Tells where the goods go.
pub fn shipping_address(shipping: &Option<Address>) -> (res: StripeShippingAddress)
    ensures
        spec_is_shipping_address(*shipping, res),
{
    match shipping {
        Some(shipping) => {
            let phone = match &shipping.phone {
                Some(p) => {
                    let mut text = match &p.country_code {
                        Some(code) => code.clone(),
                        None => String::new(),
                    };
                    match &p.number {
                        Some(number) => {
                            text.append(number.as_str());
                        },
                        None => {},
                    }
                    assert(text@ =~= spec_shipping_phone(*shipping)->0);
                    Some(text)
                },
                None => None,
            };
            match &shipping.address {
                Some(a) => StripeShippingAddress {
                    city: a.city.clone(),
                    country: a.country,
                    line1: a.line1.clone(),
                    line2: a.line2.clone(),
                    zip: a.zip.clone(),
                    state: a.state.clone(),
                    name: match &a.first_name {
                        Some(first_name) => {
                            let mut name = first_name.clone();
                            name.append(" ");
                            match &a.last_name {
                                Some(last_name) => {
                                    name.append(last_name.as_str());
                                },
                                None => {},
                            }
                            assert(name@ =~= spec_shipping_name(*shipping)->0);
                            Some(name)
                        },
                        None => None,
                    },
                    phone,
                },
                None => StripeShippingAddress {
                    city: None,
                    country: None,
                    line1: None,
                    line2: None,
                    zip: None,
                    state: None,
                    name: None,
                    phone,
                },
            }
        },
        None => StripeShippingAddress {
            city: None,
            country: None,
            line1: None,
            line2: None,
            zip: None,
            state: None,
            name: None,
            phone: None,
        },
    }
}

/// That the shopper accepted a mandate online, where the request says
/// so.
pub open spec fn spec_mandate_request(setup_mandate_details: Option<MandateData>) -> Option<
    StripeMandateRequest,
> {
    match setup_mandate_details {
        Some(MandateData { customer_acceptance: Some(acceptance) }) => match acceptance.online {
            Some(online) => Some(
                StripeMandateRequest {
                    mandate_type: StripeMandateType::Online,
                    ip_address: online.ip_address,
                    user_agent: online.user_agent,
                },
            ),
            None => None,
        },
        _ => None,
    }
}

fn mandate_request(setup_mandate_details: &Option<MandateData>) -> (res: Option<
    StripeMandateRequest,
>)
    ensures
        res == spec_mandate_request(*setup_mandate_details),
{
    match setup_mandate_details {
        Some(MandateData { customer_acceptance: Some(acceptance) }) => match &acceptance.online {
            Some(online) => Some(
                StripeMandateRequest {
                    mandate_type: StripeMandateType::Online,
                    ip_address: online.ip_address.clone(),
                    user_agent: online.user_agent.clone(),
                },
            ),
            None => None,
        },
        _ => None,
    }
}

/// How a payment is made: on a mandate that Stripe stored, on a mandate of
/// the card network, or with a payment method.
pub open spec fn spec_mandate_reference(mandate_id: Option<MandateIds>) -> Option<
    MandateReferenceId,
> {
    match mandate_id {
        Some(ids) => ids.mandate_reference_id,
        None => None,
    }
}

/// Whether a payment is made with a payment method, not on a mandate that
/// stands in for one.
pub open spec fn spec_pays_with_method(item: PaymentsAuthorizeRouterData) -> bool {
    match spec_mandate_reference(item.request.mandate_id) {
        Some(MandateReferenceId::ConnectorMandateId(_))
        | Some(MandateReferenceId::NetworkMandateId(_)) => false,
        _ => true,
    }
}

/// The error for an Apple Pay payment without the token that Stripe made
/// of it.
pub open spec fn spec_apple_pay_payment_error(item: PaymentsAuthorizeRouterData) -> Option<
    ConnectorError,
> {
    match item.request.payment_method_data {
        PaymentMethodData::Wallet(WalletData::ApplePay(_)) => match item.payment_method_token {
            Some(PaymentMethodToken::Token(_)) => None,
            _ => Some(ConnectorError::RequestEncodingFailed),
        },
        _ => None,
    }
}

/// The error for a shipping address that the payment method of a request
/// finds wanting: Afterpay insists on first name, first line, country and
/// postal code; no other payment method insists on anything.
pub open spec fn spec_shipping_error(
    shipping: Option<Address>,
    payment_method: StripePaymentMethodType,
) -> Option<ConnectorError> {
    let details = match shipping {
        Some(shipping) => shipping.address,
        None => None,
    };
    if payment_method != StripePaymentMethodType::AfterpayClearpay {
        None
    } else if !(details matches Some(d) && d.first_name is Some) {
        Some(ConnectorError::MissingRequiredField { field_name: "shipping.address.first_name" })
    } else if details->0.line1 is None {
        Some(ConnectorError::MissingRequiredField { field_name: "shipping.address.line1" })
    } else if details->0.country is None {
        Some(ConnectorError::MissingRequiredField { field_name: "shipping.address.country" })
    } else if details->0.zip is None {
        Some(ConnectorError::MissingRequiredField { field_name: "shipping.address.zip" })
    } else {
        None
    }
}

/// The error with which the request to authorize a payment fails, if it
/// does.
pub open spec fn spec_payment_intent_error(item: PaymentsAuthorizeRouterData) -> Option<
    ConnectorError,
> {
    spec_first(
        if spec_pays_with_method(item) {
            spec_first(
                spec_payment_method_error(
                    item.request.payment_method_type,
                    item.request.payment_experience,
                    item.request.payment_method_data,
                ),
                spec_shipping_error(item.address.shipping, spec_stripe_type(item)),
            )
        } else {
            None
        },
        spec_apple_pay_payment_error(item),
    )
}

/// The Stripe type of the payment method of a request that pays with a
/// payment method that Stripe is handed.
pub open spec fn spec_stripe_type(item: PaymentsAuthorizeRouterData) -> StripePaymentMethodType {
    match item.request.payment_method_data {
        PaymentMethodData::Card(_) => StripePaymentMethodType::Card,
        PaymentMethodData::PayLater(_) => match (
            item.request.payment_method_type,
            item.request.payment_experience,
        ) {
            (Some(pm), Some(exp)) => match spec_pay_later_type(pm, exp) {
                Ok(t) => t,
                Err(_) => StripePaymentMethodType::Card,
            },
            _ => StripePaymentMethodType::Card,
        },
        PaymentMethodData::BankRedirect(_) => match spec_bank_redirect_issuer(
            item.request.payment_method_type,
        ) {
            Ok(t) => t,
            Err(_) => StripePaymentMethodType::Card,
        },
        PaymentMethodData::Wallet(_) => StripePaymentMethodType::ApplePay,
        PaymentMethodData::BankDebit(debit) => match debit {
            crate::payment_method_data::BankDebitData::AchBankDebit { .. } =>
                StripePaymentMethodType::Ach,
            crate::payment_method_data::BankDebitData::SepaBankDebit { .. } =>
                StripePaymentMethodType::Sepa,
            crate::payment_method_data::BankDebitData::BecsBankDebit { .. } =>
                StripePaymentMethodType::Becs,
            crate::payment_method_data::BankDebitData::BacsBankDebit { .. } =>
                StripePaymentMethodType::Bacs,
        },
        _ => StripePaymentMethodType::Card,
    }
}

/// The id under which a transaction is filed with the merchant: the id of
/// the merchant, the id of the payment and the number of the attempt, with
/// underscores between them.
pub open spec fn spec_txn_id(merchant_id: Seq<char>, payment_id: Seq<char>) -> Seq<char> {
    merchant_id + "_"@ + payment_id + "_"@ + "1"@
}

fn txn_id(merchant_id: &String, payment_id: &String) -> (res: String)
    ensures
        res@ == spec_txn_id(merchant_id@, payment_id@),
{
    let mut id = join3(merchant_id.as_str(), "_", payment_id.as_str());
    id.append("_");
    id.append("1");
    id
}

/// Whether `req` is the request to authorize a payment, filed under the
/// given unique id.
pub open spec fn spec_is_payment_intent(
    item: PaymentsAuthorizeRouterData,
    txn_uuid: String,
    req: PaymentIntentRequest,
) -> bool {
    &&& req.amount == item.request.amount
    &&& req.currency@ == item.request.currency.spec_code()@
    &&& req.statement_descriptor_suffix == item.request.statement_descriptor_suffix
    &&& req.statement_descriptor == item.request.statement_descriptor
    &&& req.metadata_order_id == item.payment_id
    &&& req.metadata_txn_id@ == spec_txn_id(item.merchant_id@, item.payment_id@)
    &&& req.metadata_txn_uuid == txn_uuid
    &&& req.return_url@ == (match item.request.router_return_url {
        Some(url) => url@,
        None => DEFAULT_RETURN_URL@,
    })
    &&& req.confirm
    &&& req.mandate is None
    &&& req.customer == item.connector_customer
    &&& req.setup_mandate_details == spec_mandate_request(item.request.setup_mandate_details)
    &&& req.description == item.description
    &&& spec_is_shipping_address(item.address.shipping, req.shipping)
    &&& req.capture_method == StripeCaptureMethod::spec_from(item.request.capture_method)
    &&& req.setup_future_usage == item.request.setup_future_usage
    &&& spec_is_payment_part(item, req)
}

/// Whether `req` says what the payment is made with.
///
/// A payment on a mandate that Stripe stored names the mandate as its
/// payment method. A payment on a mandate of the card network claims the
/// exemption for that transaction. Any other payment carries its payment
/// method; an Apple Pay payment carries the token that Stripe made of it,
/// as a card.
pub open spec fn spec_is_payment_part(
    item: PaymentsAuthorizeRouterData,
    req: PaymentIntentRequest,
) -> bool {
    let apple_pay = item.request.payment_method_data matches PaymentMethodData::Wallet(
        WalletData::ApplePay(_),
    );
    let apple_pay_data = match item.payment_method_token {
        Some(PaymentMethodToken::Token(token)) => Some(
            StripePaymentMethodData::Wallet(
                StripeWallet::ApplepayPayment(
                    ApplepayPayment { token, payment_method_types: StripePaymentMethodType::Card },
                ),
            ),
        ),
        _ => None,
    };
    match spec_mandate_reference(item.request.mandate_id) {
        Some(MandateReferenceId::ConnectorMandateId(mandate)) => {
            &&& req.payment_method == mandate.connector_mandate_id
            &&& req.payment_method_options is None
            &&& req.billing == StripeBillingAddress::spec_default()
            &&& req.payment_data == (if apple_pay {
                apple_pay_data
            } else {
                None
            })
        },
        Some(MandateReferenceId::NetworkMandateId(network_transaction_id)) => {
            &&& req.payment_method is None
            &&& req.payment_method_options == Some(
                StripePaymentMethodOptions::Card {
                    mandate_options: None,
                    network_transaction_id: None,
                    mit_exemption: Some(MitExemption { network_transaction_id }),
                },
            )
            &&& req.billing == StripeBillingAddress::spec_default()
            &&& req.payment_data == (if apple_pay {
                apple_pay_data
            } else {
                None
            })
        },
        _ => {
            &&& req.payment_method is None
            &&& req.payment_method_options is None
            &&& if apple_pay {
                &&& req.payment_data == apple_pay_data
                &&& req.billing == StripeBillingAddress::spec_default()
            } else {
                &&& req.payment_data matches Some(data)
                &&& spec_is_payment_method(
                    item.request.payment_method_type,
                    item.request.payment_experience,
                    item.request.payment_method_data,
                    item.auth_type,
                    (data, spec_stripe_type(item), req.billing),
                )
            }
        },
    }
}

/// Calls `uuid::Uuid::new_v4` and writes the id out. Nothing is promised
/// of the id: it is drawn at random.
#[verifier::external_body]
pub(crate) fn new_txn_uuid() -> (res: String) {
    uuid::Uuid::new_v4().to_string()
}

impl PaymentIntentRequest {
    /// Builds the request to authorize a payment, filed under the given
    /// unique id.
    pub fn try_from_with_uuid(item: &PaymentsAuthorizeRouterData, txn_uuid: String) -> (res: Result<
        Self,
        ConnectorError,
    >)
        ensures
            match spec_payment_intent_error(*item) {
                Some(e) => res == Err::<Self, ConnectorError>(e),
                None => res matches Ok(req) && spec_is_payment_intent(*item, txn_uuid, req),
            },
    {
        let metadata_order_id = item.payment_id.clone();
        let metadata_txn_id = txn_id(&item.merchant_id, &item.payment_id);
        let shipping_address = shipping_address(&item.address.shipping);
        let mut payment_method_options = None;
        let mandate_reference = match &item.request.mandate_id {
            Some(ids) => ids.mandate_reference_id.as_ref(),
            None => None,
        };
        let (payment_data, payment_method, billing_address) = match mandate_reference {
            Some(MandateReferenceId::ConnectorMandateId(mandate_id)) => (
                None,
                mandate_id.connector_mandate_id.clone(),
                StripeBillingAddress::empty(),
            ),
            Some(MandateReferenceId::NetworkMandateId(network_transaction_id)) => {
                payment_method_options = Some(
                    StripePaymentMethodOptions::Card {
                        mandate_options: None,
                        network_transaction_id: None,
                        mit_exemption: Some(
                            MitExemption { network_transaction_id: network_transaction_id.clone() },
                        ),
                    },
                );
                (None, None, StripeBillingAddress::empty())
            },
            _ => {
                let (payment_method_data, payment_method_type, billing_address) =
                    create_stripe_payment_method(
                    item.request.payment_method_type.as_ref(),
                    item.request.payment_experience.as_ref(),
                    &item.request.payment_method_data,
                    item.auth_type,
                )?;
                validate_shipping_address_against_payment_method(
                    &shipping_address,
                    &payment_method_type,
                )?;
                (Some(payment_method_data), None, billing_address)
            },
        };
        let payment_data = match &item.request.payment_method_data {
            PaymentMethodData::Wallet(WalletData::ApplePay(_)) => Some(
                StripePaymentMethodData::Wallet(
                    StripeWallet::ApplepayPayment(
                        ApplepayPayment {
                            token: match &item.payment_method_token {
                                Some(PaymentMethodToken::Token(token)) => token.clone(),
                                _ => {
                                    return Err(ConnectorError::RequestEncodingFailed);
                                },
                            },
                            payment_method_types: StripePaymentMethodType::Card,
                        },
                    ),
                ),
            ),
            _ => payment_data,
        };
        let setup_mandate_details = mandate_request(&item.request.setup_mandate_details);
        Ok(
            PaymentIntentRequest {
                amount: item.request.amount,
                currency: owned(item.request.currency.code()),
                statement_descriptor_suffix: item.request.statement_descriptor_suffix.clone(),
                statement_descriptor: item.request.statement_descriptor.clone(),
                metadata_order_id,
                metadata_txn_id,
                metadata_txn_uuid: txn_uuid,
                return_url: match &item.request.router_return_url {
                    Some(url) => url.clone(),
                    None => owned(DEFAULT_RETURN_URL),
                },
                confirm: true,
                description: item.description.clone(),
                shipping: shipping_address,
                billing: billing_address,
                capture_method: StripeCaptureMethod::from(item.request.capture_method),
                payment_data,
                mandate: None,
                payment_method_options,
                payment_method,
                customer: item.connector_customer.clone(),
                setup_mandate_details,
                setup_future_usage: item.request.setup_future_usage,
            },
        )
    }

    /// Builds the request to authorize a payment. The request is filed
    /// under an id that is drawn at random.
    pub fn try_from(item: &PaymentsAuthorizeRouterData) -> (res: Result<Self, ConnectorError>)
        ensures
            match spec_payment_intent_error(*item) {
                Some(e) => res == Err::<Self, ConnectorError>(e),
                None => res matches Ok(req) && spec_is_payment_intent(
                    *item,
                    req.metadata_txn_uuid,
                    req,
                ),
            },
    {
        let txn_uuid = new_txn_uuid();
        Self::try_from_with_uuid(item, txn_uuid)
    }
}

impl StripePaymentMethodType {
    /// The name of a Stripe type.
    pub open spec fn spec_name(self) -> &'static str {
        match self {
            StripePaymentMethodType::Card => "Card",
            StripePaymentMethodType::Klarna => "Klarna",
            StripePaymentMethodType::Affirm => "Affirm",
            StripePaymentMethodType::AfterpayClearpay => "AfterpayClearpay",
            StripePaymentMethodType::Eps => "Eps",
            StripePaymentMethodType::Giropay => "Giropay",
            StripePaymentMethodType::Ideal => "Ideal",
            StripePaymentMethodType::Sofort => "Sofort",
            StripePaymentMethodType::ApplePay => "ApplePay",
            StripePaymentMethodType::Ach => "Ach",
            StripePaymentMethodType::Sepa => "Sepa",
            StripePaymentMethodType::Becs => "Becs",
            StripePaymentMethodType::Bacs => "Bacs",
        }
    }

    /// Tells the name of a Stripe type.
    pub fn name(&self) -> (res: &'static str)
        ensures
            res == self.spec_name(),
    {
        match self {
            StripePaymentMethodType::Card => "Card",
            StripePaymentMethodType::Klarna => "Klarna",
            StripePaymentMethodType::Affirm => "Affirm",
            StripePaymentMethodType::AfterpayClearpay => "AfterpayClearpay",
            StripePaymentMethodType::Eps => "Eps",
            StripePaymentMethodType::Giropay => "Giropay",
            StripePaymentMethodType::Ideal => "Ideal",
            StripePaymentMethodType::Sofort => "Sofort",
            StripePaymentMethodType::ApplePay => "ApplePay",
            StripePaymentMethodType::Ach => "Ach",
            StripePaymentMethodType::Sepa => "Sepa",
            StripePaymentMethodType::Becs => "Becs",
            StripePaymentMethodType::Bacs => "Bacs",
        }
    }
}

impl StripePaymentMethodData {
    /// The error with which a payment method under a given Stripe type is
    /// rejected, if it is.
    ///
    /// Cards, bank debits, bank redirects, pay-later methods and Apple Pay
    /// are taken. Any other wallet is an invalid wallet, a payment in a
    /// cryptocurrency is not supported under any type, and every other
    /// family is not implemented.
    pub open spec fn spec_typed_error(
        pm_data: PaymentMethodData,
        pm_type: StripePaymentMethodType,
    ) -> Option<ConnectorError> {
        match pm_data {
            PaymentMethodData::Card(_)
            | PaymentMethodData::PayLater(_)
            | PaymentMethodData::BankRedirect(_)
            | PaymentMethodData::BankDebit(_) => None,
            PaymentMethodData::Wallet(WalletData::ApplePay(data)) => spec_err(
                spec_apple_pay_token(data.payment_data@),
            ),
            PaymentMethodData::Wallet(_) => Some(ConnectorError::InvalidWallet),
            PaymentMethodData::Crypto => Some(
                ConnectorError::NotSupported {
                    feature: pm_type.spec_name(),
                    context: PaymentExperience::RedirectToUrl.spec_as_str(),
                },
            ),
            _ => Some(spec_not_implemented(pm_data.spec_kind_name())),
        }
    }

    /// Whether `res` is a payment method under a given Stripe type.
    pub open spec fn spec_is_typed(
        pm_data: PaymentMethodData,
        auth_type: AuthenticationType,
        pm_type: StripePaymentMethodType,
        res: Self,
    ) -> bool {
        match pm_data {
            PaymentMethodData::Card(card) => res == StripePaymentMethodData::Card(
                spec_card_data(card, auth_type),
            ),
            PaymentMethodData::PayLater(_) => res == StripePaymentMethodData::PayLater(
                StripePayLaterData {
                    payment_method_types: pm_type,
                    payment_method_data_type: pm_type,
                },
            ),
            PaymentMethodData::BankRedirect(_) => res == StripePaymentMethodData::BankRedirect(
                StripeBankRedirectData {
                    payment_method_types: pm_type,
                    payment_method_data_type: pm_type,
                    bank_name: None,
                    bank_specific_data: None,
                },
            ),
            PaymentMethodData::Wallet(WalletData::ApplePay(data)) => {
                &&& res matches StripePaymentMethodData::Wallet(StripeWallet::ApplepayToken(token))
                &&& spec_is_apple_pay(data, Ok(token))
            },
            PaymentMethodData::BankDebit(bank_debit_data) => {
                &&& res matches StripePaymentMethodData::BankDebit(debit)
                &&& exists|billing: StripeBillingAddress|
                    #![auto]
                    spec_is_bank_debit_data(
                        bank_debit_data,
                        (debit.payment_method_types, debit.bank_specific_data, billing),
                    )
            },
            _ => false,
        }
    }

    /// Takes a payment method under a given Stripe type.
    pub fn try_from(
        pm_data: &PaymentMethodData,
        auth_type: AuthenticationType,
        pm_type: StripePaymentMethodType,
    ) -> (res: Result<Self, ConnectorError>)
        ensures
            match Self::spec_typed_error(*pm_data, pm_type) {
                Some(e) => res == Err::<Self, ConnectorError>(e),
                None => res matches Ok(data) && Self::spec_is_typed(
                    *pm_data,
                    auth_type,
                    pm_type,
                    data,
                ),
            },
    {
        match pm_data {
            PaymentMethodData::Card(ccard) => Ok(
                StripePaymentMethodData::Card(card_data(ccard, auth_type)),
            ),
            PaymentMethodData::PayLater(_) => Ok(
                StripePaymentMethodData::PayLater(
                    StripePayLaterData {
                        payment_method_types: pm_type,
                        payment_method_data_type: pm_type,
                    },
                ),
            ),
            PaymentMethodData::BankRedirect(_) => Ok(
                StripePaymentMethodData::BankRedirect(
                    StripeBankRedirectData {
                        payment_method_types: pm_type,
                        payment_method_data_type: pm_type,
                        bank_name: None,
                        bank_specific_data: None,
                    },
                ),
            ),
            PaymentMethodData::Wallet(wallet_data) => match wallet_data {
                WalletData::ApplePay(data) => {
                    let wallet_info = StripeWallet::ApplepayToken(apple_pay_token(data)?);
                    Ok(StripePaymentMethodData::Wallet(wallet_info))
                },
                _ => Err(ConnectorError::InvalidWallet),
            },
            PaymentMethodData::BankDebit(bank_debit_data) => {
                let (pm_type, bank_data, _) = get_bank_debit_data(bank_debit_data);
                Ok(
                    StripePaymentMethodData::BankDebit(
                        StripeBankDebitData {
                            payment_method_types: pm_type,
                            bank_specific_data: bank_data,
                        },
                    ),
                )
            },
            PaymentMethodData::Crypto => Err(
                ConnectorError::NotSupported {
                    feature: pm_type.name(),
                    context: PaymentExperience::RedirectToUrl.as_str(),
                },
            ),
            PaymentMethodData::CardDetailsForNetworkTransactionId(_)
            | PaymentMethodData::CardRedirect(_)
            | PaymentMethodData::BankTransfer(_)
            | PaymentMethodData::MandatePayment
            | PaymentMethodData::Reward
            | PaymentMethodData::RealTimePayment
            | PaymentMethodData::Upi
            | PaymentMethodData::Voucher(_)
            | PaymentMethodData::GiftCard(_)
            | PaymentMethodData::CardToken
            | PaymentMethodData::OpenBanking
            | PaymentMethodData::NetworkToken(_)
            | PaymentMethodData::MobilePayment => Err(
                ConnectorError::NotImplemented {
                    connector: "Stripe",
                    feature: pm_data.kind_name(),
                },
            ),
        }
    }
}

/// Whether `req` is the request to set a mandate up, filed under the
/// given unique id. Mandates are set up on cards only.
pub open spec fn spec_is_setup_intent(
    item: SetupMandateRouterData,
    txn_uuid: String,
    req: SetupIntentRequest,
) -> bool {
    &&& req.confirm
    &&& req.metadata_order_id == item.payment_id
    &&& req.metadata_txn_id@ == spec_txn_id(item.merchant_id@, item.payment_id@)
    &&& req.metadata_txn_uuid == txn_uuid
    &&& StripePaymentMethodData::spec_is_typed(
        item.request.payment_method_data,
        item.auth_type,
        StripePaymentMethodType::Card,
        req.payment_data,
    )
    &&& req.off_session == item.request.off_session
    &&& req.usage == item.request.setup_future_usage
    &&& req.payment_method_options is None
    &&& req.customer == item.connector_customer
}

impl SetupIntentRequest {
    /// Builds the request to set a mandate up, filed under the given
    /// unique id.
    pub fn try_from_with_uuid(item: &SetupMandateRouterData, txn_uuid: String) -> (res: Result<
        Self,
        ConnectorError,
    >)
        ensures
            match StripePaymentMethodData::spec_typed_error(
                item.request.payment_method_data,
                StripePaymentMethodType::Card,
            ) {
                Some(e) => res == Err::<Self, ConnectorError>(e),
                None => res matches Ok(req) && spec_is_setup_intent(*item, txn_uuid, req),
            },
    {
        let metadata_order_id = item.payment_id.clone();
        let metadata_txn_id = txn_id(&item.merchant_id, &item.payment_id);
        let pm_type = StripePaymentMethodType::Card;
        let payment_data = StripePaymentMethodData::try_from(
            &item.request.payment_method_data,
            item.auth_type,
            pm_type,
        )?;
        Ok(
            SetupIntentRequest {
                confirm: true,
                metadata_order_id,
                metadata_txn_id,
                metadata_txn_uuid: txn_uuid,
                payment_data,
                off_session: item.request.off_session,
                usage: item.request.setup_future_usage,
                payment_method_options: None,
                customer: item.connector_customer.clone(),
            },
        )
    }

    /// Builds the request to set a mandate up. The request is filed under
    /// an id that is drawn at random.
    pub fn try_from(item: &SetupMandateRouterData) -> (res: Result<Self, ConnectorError>)
        ensures
            match StripePaymentMethodData::spec_typed_error(
                item.request.payment_method_data,
                StripePaymentMethodType::Card,
            ) {
                Some(e) => res == Err::<Self, ConnectorError>(e),
                None => res matches Ok(req) && spec_is_setup_intent(
                    *item,
                    req.metadata_txn_uuid,
                    req,
                ),
            },
    {
        let txn_uuid = new_txn_uuid();
        Self::try_from_with_uuid(item, txn_uuid)
    }
}

impl TokenRequest {
    /// Builds the request to make a token of a payment method: the payment
    /// method as it is mapped without a type or an experience.
    pub fn try_from(item: &TokenizationRouterData) -> (res: Result<Self, ConnectorError>)
        ensures
            match spec_payment_method_error(None, None, item.request.payment_method_data) {
                Some(e) => res == Err::<Self, ConnectorError>(e),
                None => res matches Ok(req) && exists|
                    stripe_type: StripePaymentMethodType,
                    billing: StripeBillingAddress,
                |
                    #![auto]
                    spec_is_payment_method(
                        None,
                        None,
                        item.request.payment_method_data,
                        item.auth_type,
                        (req.token_data, stripe_type, billing),
                    ),
            },
    {
        let payment_data = create_stripe_payment_method(
            None,
            None,
            &item.request.payment_method_data,
            item.auth_type,
        )?;
        Ok(TokenRequest { token_data: payment_data.0 })
    }
}

impl CustomerRequest {
    /// Builds the request to file a customer with Stripe.
    pub fn try_from(item: &ConnectorCustomerRouterData) -> (res: Result<Self, ConnectorError>)
        ensures
            res == Ok::<Self, ConnectorError>(
                CustomerRequest {
                    description: item.request.description,
                    email: item.request.email,
                    phone: item.request.phone,
                    name: item.request.name,
                },
            ),
    {
        Ok(
            CustomerRequest {
                description: item.request.description.clone(),
                email: item.request.email.clone(),
                phone: item.request.phone.clone(),
                name: item.request.name.clone(),
            },
        )
    }
}

/// What a refund carries where the id of its transaction belongs.
pub const REFUND_TXN_ID: &'static str = "Fetch txn_id from DB";

/// Whether `req` is the request to refund a payment.
pub open spec fn spec_is_refund_request(item: RefundsRouterData, req: RefundRequest) -> bool {
    &&& req.amount == Some(item.request.refund_amount)
    &&& req.payment_intent == item.request.connector_transaction_id
    &&& req.metadata_order_id == item.payment_id
    &&& req.metadata_txn_id@ == REFUND_TXN_ID@
    &&& req.metadata_txn_uuid@ == REFUND_TXN_ID@
}

impl RefundRequest {
    /// Builds the request to refund a payment.
    pub fn try_from(item: &RefundsRouterData) -> (res: Result<Self, ConnectorError>)
        ensures
            res matches Ok(req) && spec_is_refund_request(*item, req),
    {
        Ok(
            RefundRequest {
                amount: Some(item.request.refund_amount),
                payment_intent: item.request.connector_transaction_id.clone(),
                metadata_order_id: item.payment_id.clone(),
                metadata_txn_id: owned(REFUND_TXN_ID),
                metadata_txn_uuid: owned(REFUND_TXN_ID),
            },
        )
    }
}

impl CancelRequest {
    /// Builds the request to cancel a payment.
    pub fn try_from(item: &PaymentsCancelRouterData) -> (res: Result<Self, ConnectorError>)
        ensures
            res == Ok::<Self, ConnectorError>(
                CancelRequest { cancellation_reason: item.request.cancellation_reason },
            ),
    {
        Ok(CancelRequest { cancellation_reason: item.request.cancellation_reason.clone() })
    }
}

impl CaptureRequest {
    /// Builds the request to capture a payment.
    pub fn try_from(item: &PaymentsCaptureRouterData) -> (res: Result<Self, ConnectorError>)
        ensures
            res == Ok::<Self, ConnectorError>(
                CaptureRequest { amount_to_capture: Some(item.request.amount_to_capture) },
            ),
    {
        Ok(CaptureRequest { amount_to_capture: Some(item.request.amount_to_capture) })
    }
}

} // verus!
