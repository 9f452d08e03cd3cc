//! The request builder for Bank of America: how the parts of a request are
//! taken from a canonical request in its context.

use vstd::prelude::*;
use crate::address::{spec_state_code_as_optional, Address};
use crate::bankofamerica::types::{
    ApplePayPaymentInformation,
    ApplePayTokenPaymentInformation,
    ApplePayTokenizedCard,
    BankOfAmericaActionsList,
    BankOfAmericaActionsTokenType,
    BankOfAmericaAuthorizationOptions,
    BankOfAmericaPaymentInitiator,
    BankOfAmericaPaymentInitiatorTypes,
    BillTo,
    Card,
    CardPaymentInformation,
    FluidData,
    GooglePayPaymentInformation,
    MerchantDefinedInformation,
    PaymentInformation,
    PaymentSolution,
    TokenizedCard,
    TransactionType,
};
use crate::encoding::{
    base64_encode,
    base64_encoded,
    entry_pairs,
    json_object_entries,
    json_object_entries_of,
    JsonEntry,
};
use crate::enums::{CardIssuer, CardNetwork};
use crate::errors::ConnectorError;
use crate::payment_method_data::{ApplePayWalletData, Card as CanonicalCard, GooglePayWalletData};
use crate::router_data::{
    spec_address_details,
    ApplePayPredecryptData,
};
use crate::text::{lowercase_of, opt_str, owned, str_eq, to_lowercase};

verus! {

/// The code of the card type of a card issuer.
pub open spec fn spec_card_type_of_issuer(card_issuer: CardIssuer) -> &'static str {
    match card_issuer {
        CardIssuer::AmericanExpress => "003",
        CardIssuer::Master => "002",
        CardIssuer::Maestro => "042",
        CardIssuer::Visa => "001",
        CardIssuer::Discover => "004",
        CardIssuer::DinersClub => "005",
        CardIssuer::CarteBlanche => "006",
        CardIssuer::JCB => "007",
    }
}

/// Looks the code of the card type of a card issuer up. Maestro gets the
/// code of its international cards.
pub fn card_type_of_issuer(card_issuer: CardIssuer) -> (res: &'static str)
    ensures
        res == spec_card_type_of_issuer(card_issuer),
{
    match card_issuer {
        CardIssuer::AmericanExpress => "003",
        CardIssuer::Master => "002",
        CardIssuer::Maestro => "042",
        CardIssuer::Visa => "001",
        CardIssuer::Discover => "004",
        CardIssuer::DinersClub => "005",
        CardIssuer::CarteBlanche => "006",
        CardIssuer::JCB => "007",
    }
}

/// The code of the card type of a card network. Interac and RuPay have
/// none.
pub open spec fn spec_boa_card_type(card_network: CardNetwork) -> Option<&'static str> {
    match card_network {
        CardNetwork::Visa => Some("001"),
        CardNetwork::Mastercard => Some("002"),
        CardNetwork::AmericanExpress => Some("003"),
        CardNetwork::JCB => Some("007"),
        CardNetwork::DinersClub => Some("005"),
        CardNetwork::Discover => Some("004"),
        CardNetwork::CartesBancaires => Some("006"),
        CardNetwork::UnionPay => Some("062"),
        CardNetwork::Maestro => Some("042"),
        CardNetwork::Interac | CardNetwork::RuPay => None,
    }
}

/// Looks the code of the card type of a card network up. A network without
/// a code is told apart by `None`; its card is never given another code.
pub fn get_boa_card_type(card_network: CardNetwork) -> (res: Option<&'static str>)
    ensures
        res == spec_boa_card_type(card_network),
{
    match card_network {
        CardNetwork::Visa => Some("001"),
        CardNetwork::Mastercard => Some("002"),
        CardNetwork::AmericanExpress => Some("003"),
        CardNetwork::JCB => Some("007"),
        CardNetwork::DinersClub => Some("005"),
        CardNetwork::Discover => Some("004"),
        CardNetwork::CartesBancaires => Some("006"),
        CardNetwork::UnionPay => Some("062"),
        CardNetwork::Maestro => Some("042"),
        CardNetwork::Interac | CardNetwork::RuPay => None,
    }
}

/// The code of a wallet.
pub open spec fn spec_payment_solution_code(solution: PaymentSolution) -> &'static str {
    match solution {
        PaymentSolution::ApplePay => "001",
        PaymentSolution::GooglePay => "012",
    }
}

/// Looks the code of a wallet up.
pub fn payment_solution_code(solution: PaymentSolution) -> (res: &'static str)
    ensures
        res == spec_payment_solution_code(solution),
{
    match solution {
        PaymentSolution::ApplePay => "001",
        PaymentSolution::GooglePay => "012",
    }
}

/// The commerce indicator of a card network, looked up by the name of the
/// network in lower case. A network without an indicator of its own is an
/// internet payment.
pub open spec fn spec_commerce_indicator_for(network: Seq<char>) -> &'static str {
    if network == "amex"@ {
        "aesk"
    } else if network == "discover"@ {
        "dipb"
    } else if network == "mastercard"@ {
        "spa"
    } else {
        "internet"
    }
}

/// Looks the commerce indicator of a card network up by the name of the
/// network in lower case.
pub fn commerce_indicator_for(network: &str) -> (res: &'static str)
    ensures
        res == spec_commerce_indicator_for(network@),
{
    if str_eq(network, "amex") {
        "aesk"
    } else if str_eq(network, "discover") {
        "dipb"
    } else if str_eq(network, "mastercard") {
        "spa"
    } else {
        "internet"
    }
}

/// The commerce indicator of a payment: that of the card network, whatever
/// the case of its name, or that of an internet payment where no network
/// is known.
pub open spec fn spec_commerce_indicator(network: Option<String>) -> Seq<char> {
    match network {
        Some(card_network) => spec_commerce_indicator_for(lowercase_of(card_network@))@,
        None => "internet"@,
    }
}

/// Tells the commerce indicator of a payment.
pub fn get_commerce_indicator(network: Option<String>) -> (res: String)
    ensures
        res@ == spec_commerce_indicator(network),
{
    match network {
        Some(card_network) => {
            let lowered = to_lowercase(card_network.as_str());
            owned(commerce_indicator_for(lowered.as_str()))
        },
        None => owned("internet"),
    }
}

/// Whether a Mastercard payment is flagged for the collection of its
/// authentication data: a payment on the network `mastercard`, whatever the
/// case of the name, carries the indicator `2`.
pub open spec fn spec_ucaf_collection_indicator(network: Seq<char>) -> Option<Seq<char>> {
    if lowercase_of(network) == "mastercard"@ {
        Some("2"@)
    } else {
        None
    }
}

/// Tells the indicator for the collection of authentication data.
pub fn ucaf_collection_indicator(network: &String) -> (res: Option<String>)
    ensures
        opt_str(res) == spec_ucaf_collection_indicator(network@),
{
    let lowered = to_lowercase(network.as_str());
    if str_eq(lowered.as_str(), "mastercard") {
        Some(owned("2"))
    } else {
        None
    }
}

/// What a request asks the processor to do to set a mandate up: to create
/// a token for the payment instrument and for the customer, on a payment
/// that the customer starts and whose credential is stored.
pub fn get_boa_mandate_action_details() -> (res: (
    Option<Vec<BankOfAmericaActionsList>>,
    Option<Vec<BankOfAmericaActionsTokenType>>,
    Option<BankOfAmericaAuthorizationOptions>,
))
    ensures
        res.0 matches Some(actions) && actions@ == seq![BankOfAmericaActionsList::TokenCreate],
        res.1 matches Some(types) && types@ == seq![
            BankOfAmericaActionsTokenType::PaymentInstrument,
            BankOfAmericaActionsTokenType::Customer,
        ],
        res.2 == Some(spec_mandate_authorization_options()),
{
    let mut actions: Vec<BankOfAmericaActionsList> = Vec::new();
    actions.push(BankOfAmericaActionsList::TokenCreate);
    let mut types: Vec<BankOfAmericaActionsTokenType> = Vec::new();
    types.push(BankOfAmericaActionsTokenType::PaymentInstrument);
    types.push(BankOfAmericaActionsTokenType::Customer);
    assert(actions@ =~= seq![BankOfAmericaActionsList::TokenCreate]);
    assert(types@ =~= seq![
        BankOfAmericaActionsTokenType::PaymentInstrument,
        BankOfAmericaActionsTokenType::Customer,
    ]);
    (
        Some(actions),
        Some(types),
        Some(
            BankOfAmericaAuthorizationOptions {
                initiator: Some(
                    BankOfAmericaPaymentInitiator {
                        initiator_type: Some(BankOfAmericaPaymentInitiatorTypes::Customer),
                        credential_stored_on_file: Some(true),
                        stored_credential_used: None,
                    },
                ),
                merchant_intitiated_transaction: None,
            },
        ),
    )
}

/// The authorization options of a payment that sets a mandate up.
pub open spec fn spec_mandate_authorization_options() -> BankOfAmericaAuthorizationOptions {
    BankOfAmericaAuthorizationOptions {
        initiator: Some(
            BankOfAmericaPaymentInitiator {
                initiator_type: Some(BankOfAmericaPaymentInitiatorTypes::Customer),
                credential_stored_on_file: Some(true),
                stored_credential_used: None,
            },
        ),
        merchant_intitiated_transaction: None,
    }
}

/// Whether `bill_to` says who is billed: the name and the address as they
/// are given, the state as a code where it can be made one, and the e-mail
/// address. Without a postal address only the e-mail address is given.
pub open spec fn spec_is_bill_to(address: Option<Address>, email: String, bill_to: BillTo) -> bool {
    match spec_address_details(address) {
        None => bill_to == (BillTo {
            first_name: None,
            last_name: None,
            address1: None,
            locality: None,
            administrative_area: None,
            postal_code: None,
            country: None,
            email,
        }),
        Some(a) => {
            &&& bill_to.first_name == a.first_name
            &&& bill_to.last_name == a.last_name
            &&& bill_to.address1 == a.line1
            &&& bill_to.locality == a.city
            &&& opt_str(bill_to.administrative_area) == (match spec_state_code_as_optional(a) {
                Ok(code) => code,
                Err(_) => None,
            })
            &&& bill_to.postal_code == a.zip
            &&& bill_to.country == a.country
            &&& bill_to.email == email
        },
    }
}

/// Puts together who is billed.
pub fn build_bill_to(address_details: Option<&Address>, email: String) -> (res: Result<
    BillTo,
    ConnectorError,
>)
    ensures
        res matches Ok(bill_to) && spec_is_bill_to(
            match address_details {
                Some(a) => Some(*a),
                None => None,
            },
            email,
            bill_to,
        ),
{
    match address_details {
        Some(Address { address: Some(addr), .. }) => Ok(
            BillTo {
                first_name: addr.first_name.clone(),
                last_name: addr.last_name.clone(),
                address1: addr.line1.clone(),
                locality: addr.city.clone(),
                administrative_area: match addr.to_state_code_as_optional() {
                    Ok(code) => code,
                    Err(_) => None,
                },
                postal_code: addr.zip.clone(),
                country: addr.country,
                email,
            },
        ),
        _ => Ok(
            BillTo {
                first_name: None,
                last_name: None,
                address1: None,
                locality: None,
                administrative_area: None,
                postal_code: None,
                country: None,
                email,
            },
        ),
    }
}

/// The most entries that can be numbered.
pub const MAX_MERCHANT_DEFINED_ENTRIES: usize = 255;

/// Whether `information` numbers the entries of what the merchant
/// attached: the entries in their order, numbered from one, each written as
/// key, `=` and value.
pub open spec fn spec_is_merchant_defined_information(
    entries: Seq<(Seq<char>, Seq<char>)>,
    information: Seq<MerchantDefinedInformation>,
) -> bool {
    &&& information.len() == entries.len()
    &&& forall|i: int|
        0 <= i < information.len() ==> (#[trigger] information[i]).key == i + 1
            && information[i].value@ == entries[i].0 + "="@ + entries[i].1
}

/// Numbers the entries of what the merchant attached. No more than 255
/// entries can be numbered.
pub fn merchant_defined_information(entries: &Vec<JsonEntry>) -> (res: Vec<
    MerchantDefinedInformation,
>)
    requires
        entries@.len() <= MAX_MERCHANT_DEFINED_ENTRIES,
    ensures
        spec_is_merchant_defined_information(entry_pairs(entries@), res@),
{
    let mut vector: Vec<MerchantDefinedInformation> = Vec::new();
    let mut i: usize = 0;
    while i < entries.len()
        invariant
            i <= entries.len(),
            entries@.len() <= MAX_MERCHANT_DEFINED_ENTRIES,
            vector@.len() == i,
            forall|j: int|
                0 <= j < i ==> (#[trigger] vector@[j]).key == j + 1 && vector@[j].value@
                    == entries@[j].key@ + "="@ + entries@[j].value@,
        decreases entries.len() - i,
    {
        let mut value = entries[i].key.clone();
        value.append("=");
        value.append(entries[i].value.as_str());
        let key: u8 = (i + 1) as u8;
        vector.push(MerchantDefinedInformation { key, value });
        i += 1;
    }
    vector
}

/// Reads what the merchant attached to a payment, given as JSON text, and
/// numbers its entries. What is no JSON object has no entries. More than
/// 255 entries cannot be numbered, and give `None`.
pub fn merchant_defined_information_of(metadata: &str) -> (res: Option<
    Vec<MerchantDefinedInformation>,
>)
    ensures
        match res {
            Some(information) => json_object_entries_of(metadata@).len()
                <= MAX_MERCHANT_DEFINED_ENTRIES && spec_is_merchant_defined_information(
                json_object_entries_of(metadata@),
                information@,
            ),
            None => json_object_entries_of(metadata@).len() > MAX_MERCHANT_DEFINED_ENTRIES,
        },
{
    let entries = json_object_entries(metadata);
    if entries.len() > MAX_MERCHANT_DEFINED_ENTRIES {
        None
    } else {
        Some(merchant_defined_information(&entries))
    }
}

/// Whether `information` is what a request carries of what the merchant
/// attached; a request to which nothing is attached carries nothing.
pub open spec fn spec_is_request_metadata(
    metadata: Option<String>,
    information: Option<Vec<MerchantDefinedInformation>>,
) -> bool {
    match metadata {
        None => information is None,
        Some(metadata) => information matches Some(information)
            && spec_is_merchant_defined_information(
            json_object_entries_of(metadata@),
            information@,
        ),
    }
}

/// The error for what the merchant attached, if it cannot go out: it has
/// more entries than can be numbered.
pub open spec fn spec_metadata_error(metadata: Option<String>) -> Option<ConnectorError> {
    match metadata {
        Some(metadata) => if json_object_entries_of(metadata@).len()
            > MAX_MERCHANT_DEFINED_ENTRIES {
            Some(ConnectorError::RequestEncodingFailed)
        } else {
            None
        },
        None => None,
    }
}

/// Takes what the merchant attached to a request.
pub fn request_metadata(metadata: &Option<String>) -> (res: Result<
    Option<Vec<MerchantDefinedInformation>>,
    ConnectorError,
>)
    ensures
        match spec_metadata_error(*metadata) {
            Some(e) => res == Err::<Option<Vec<MerchantDefinedInformation>>, ConnectorError>(e),
            None => res matches Ok(information) && spec_is_request_metadata(*metadata, information),
        },
{
    match metadata {
        Some(metadata) => match merchant_defined_information_of(metadata.as_str()) {
            Some(information) => Ok(Some(information)),
            None => Err(ConnectorError::RequestEncodingFailed),
        },
        None => Ok(None),
    }
}

/// The type of a card: the code of its network, or else the code of its
/// issuer; none where neither is known.
pub open spec fn spec_card_type(card: CanonicalCard) -> Option<Seq<char>> {
    let by_network = match card.card_network {
        Some(network) => spec_boa_card_type(network),
        None => None,
    };
    match by_network {
        Some(code) => Some(code@),
        None => match card.card_issuer {
            Some(issuer) => Some(spec_card_type_of_issuer(issuer)@),
            None => None,
        },
    }
}

/// Whether `information` is a card as the processor takes it.
pub open spec fn spec_is_card_information(
    card: CanonicalCard,
    information: PaymentInformation,
) -> bool {
    &&& information matches PaymentInformation::Cards(cards)
    &&& cards.card.number == card.card_number
    &&& cards.card.expiration_month == card.card_exp_month
    &&& cards.card.expiration_year == card.card_exp_year
    &&& cards.card.security_code == card.card_cvc
    &&& opt_str(cards.card.card_type) == spec_card_type(card)
}

/// The month of the expiry date of a decrypted Apple Pay token: the third
/// and fourth character of the date.
pub open spec fn spec_expiry_month(date: Seq<char>) -> Result<Seq<char>, ConnectorError> {
    if date.len() >= 4 {
        Ok(date.subrange(2, 4))
    } else {
        Err(ConnectorError::InvalidDataFormat { field_name: "application_expiration_date" })
    }
}

/// The year of the expiry date of a decrypted Apple Pay token, in four
/// digits: the first two characters of the date behind the century.
pub open spec fn spec_four_digit_expiry_year(date: Seq<char>) -> Result<
    Seq<char>,
    ConnectorError,
> {
    if date.len() >= 2 {
        Ok("20"@ + date.subrange(0, 2))
    } else {
        Err(ConnectorError::InvalidDataFormat { field_name: "application_expiration_date" })
    }
}

/// The error with which a decrypted Apple Pay token is rejected, if it is.
pub open spec fn spec_predecrypt_error(data: ApplePayPredecryptData) -> Option<ConnectorError> {
    if data.application_expiration_date@.len() >= 4 {
        None
    } else {
        Some(ConnectorError::InvalidDataFormat { field_name: "application_expiration_date" })
    }
}

/// Whether `information` is a decrypted Apple Pay token as the processor
/// takes it.
pub open spec fn spec_is_predecrypt_information(
    data: ApplePayPredecryptData,
    information: PaymentInformation,
) -> bool {
    &&& information matches PaymentInformation::ApplePay(apple_pay)
    &&& apple_pay.tokenized_card.number == data.application_primary_account_number
    &&& apple_pay.tokenized_card.cryptogram == data.online_payment_cryptogram
    &&& apple_pay.tokenized_card.transaction_type == TransactionType::ApplePay
    &&& Ok::<Seq<char>, ConnectorError>(apple_pay.tokenized_card.expiration_year@)
        == spec_four_digit_expiry_year(data.application_expiration_date@)
    &&& Ok::<Seq<char>, ConnectorError>(apple_pay.tokenized_card.expiration_month@)
        == spec_expiry_month(data.application_expiration_date@)
}

impl PaymentInformation {
    /// Puts a card in the form that the processor takes.
    pub fn try_from_card(ccard: &CanonicalCard) -> (res: Result<Self, ConnectorError>)
        ensures
            res matches Ok(information) && spec_is_card_information(*ccard, information),
    {
        let by_network = match ccard.card_network {
            Some(network) => get_boa_card_type(network),
            None => None,
        };
        let card_type = match by_network {
            Some(card_network) => Some(owned(card_network)),
            None => match ccard.get_card_issuer("Bank of America") {
                Ok(issuer) => Some(owned(card_type_of_issuer(issuer))),
                Err(_) => None,
            },
        };
        Ok(
            PaymentInformation::Cards(
                CardPaymentInformation {
                    card: Card {
                        number: ccard.card_number.clone(),
                        expiration_month: ccard.card_exp_month.clone(),
                        expiration_year: ccard.card_exp_year.clone(),
                        security_code: ccard.card_cvc.clone(),
                        card_type,
                    },
                },
            ),
        )
    }

    /// Puts a decrypted Apple Pay token in the form that the processor
    /// takes.
    pub fn try_from_predecrypt(apple_pay_data: &ApplePayPredecryptData) -> (res: Result<
        Self,
        ConnectorError,
    >)
        ensures
            match spec_predecrypt_error(*apple_pay_data) {
                Some(e) => res == Err::<Self, ConnectorError>(e),
                None => res matches Ok(information) && spec_is_predecrypt_information(
                    *apple_pay_data,
                    information,
                ),
            },
    {
        let date = apple_pay_data.application_expiration_date.as_str();
        if date.unicode_len() < 4 {
            return Err(
                ConnectorError::InvalidDataFormat { field_name: "application_expiration_date" },
            );
        }
        let expiration_month = owned(date.substring_char(2, 4));
        let mut expiration_year = owned("20");
        expiration_year.append(date.substring_char(0, 2));
        Ok(
            PaymentInformation::ApplePay(
                ApplePayPaymentInformation {
                    tokenized_card: TokenizedCard {
                        number: apple_pay_data.application_primary_account_number.clone(),
                        cryptogram: apple_pay_data.online_payment_cryptogram.clone(),
                        transaction_type: TransactionType::ApplePay,
                        expiration_year,
                        expiration_month,
                    },
                },
            ),
        )
    }

    /// An Apple Pay token that the processor decrypts, in the form that the
    /// processor takes.
    pub open spec fn spec_from_apple_pay(apple_pay_data: ApplePayWalletData) -> Self {
        PaymentInformation::ApplePayToken(
            ApplePayTokenPaymentInformation {
                fluid_data: FluidData { value: apple_pay_data.payment_data },
                tokenized_card: ApplePayTokenizedCard {
                    transaction_type: TransactionType::ApplePay,
                },
            },
        )
    }

    /// Puts an Apple Pay token that the processor decrypts in the form that
    /// the processor takes.
    pub fn from_apple_pay(apple_pay_data: &ApplePayWalletData) -> (res: Self)
        ensures
            res == Self::spec_from_apple_pay(*apple_pay_data),
    {
        PaymentInformation::ApplePayToken(
            ApplePayTokenPaymentInformation {
                fluid_data: FluidData { value: apple_pay_data.payment_data.clone() },
                tokenized_card: ApplePayTokenizedCard {
                    transaction_type: TransactionType::ApplePay,
                },
            },
        )
    }

    /// Puts a Google Pay token in the form that the processor takes: the
    /// token goes out in base64.
    pub fn from_google_pay(google_pay_data: &GooglePayWalletData) -> (res: Self)
        ensures
            res matches PaymentInformation::GooglePay(google_pay)
                && google_pay.fluid_data.value@ == base64_encoded(google_pay_data.token@),
    {
        PaymentInformation::GooglePay(
            GooglePayPaymentInformation {
                fluid_data: FluidData { value: base64_encode(google_pay_data.token.as_str()) },
            },
        )
    }
}

} // verus!
