//! Which payment methods Adyen is handed, and the one mapping that takes
//! any payment method data to its Adyen form.

use vstd::prelude::*;
use crate::adyen::payment_method::{
    spec_bank_debit_error,
    spec_bank_redirect_error,
    spec_err,
    spec_from_bank_transfer,
    spec_from_card_redirect,
    spec_from_gift_card,
    spec_from_voucher,
    spec_is_from_bank_debit,
    spec_is_from_bank_redirect,
    spec_is_from_card,
    spec_is_from_network_token,
    spec_is_from_wallet,
    spec_not_implemented,
    spec_wallet_error,
};
use crate::adyen::payment_request::spec_pay_later_of;
use crate::adyen::request::{
    build_shopper_reference,
    get_address_info,
    get_country_code,
    get_shopper_name,
    get_telephone_number,
};
use crate::adyen::types::AdyenPaymentMethod;
use crate::errors::ConnectorError;
use crate::payment_method_data::{
    BankDebitData,
    BankRedirectData,
    BankTransferData,
    CardRedirectData,
    PayLaterData,
    PaymentMethodData,
    VoucherData,
    WalletData,
};
use crate::router_data::{spec_optional_full_name, PaymentsAuthorizeRouterData};

verus! {

/// Whether Adyen is handed a payment method: the family and, within the
/// family, the scheme. A bank that a scheme names, and the details that a
/// scheme insists on, are looked at by the mapping itself.
pub open spec fn spec_supports(payment_method_data: PaymentMethodData) -> bool {
    match payment_method_data {
        PaymentMethodData::Card(_)
        | PaymentMethodData::NetworkToken(_)
        | PaymentMethodData::GiftCard(_) => true,
        PaymentMethodData::Wallet(wallet) => match wallet {
            WalletData::AliPayQr
            | WalletData::AmazonPayRedirect
            | WalletData::ApplePayRedirect
            | WalletData::ApplePayThirdPartySdk
            | WalletData::GooglePayRedirect
            | WalletData::GooglePayThirdPartySdk
            | WalletData::PaypalSdk
            | WalletData::WeChatPayQr
            | WalletData::CashappQr
            | WalletData::Mifinity => false,
            _ => true,
        },
        PaymentMethodData::PayLater(pay_later) => !(pay_later is KlarnaSdk),
        PaymentMethodData::BankRedirect(bank_redirect) => match bank_redirect {
            BankRedirectData::Giropay { .. }
            | BankRedirectData::Eft
            | BankRedirectData::Interac
            | BankRedirectData::LocalBankRedirect
            | BankRedirectData::Przelewy24
            | BankRedirectData::Sofort { .. } => false,
            _ => true,
        },
        PaymentMethodData::BankDebit(bank_debit) => !(bank_debit is BecsBankDebit),
        PaymentMethodData::BankTransfer(bank_transfer) => match bank_transfer {
            BankTransferData::AchBankTransfer
            | BankTransferData::SepaBankTransfer
            | BankTransferData::BacsBankTransfer
            | BankTransferData::MultibancoBankTransfer
            | BankTransferData::LocalBankTransfer
            | BankTransferData::Pse => false,
            _ => true,
        },
        PaymentMethodData::CardRedirect(card_redirect) => card_redirect
            != CardRedirectData::CardRedirect,
        PaymentMethodData::Voucher(voucher) => match voucher {
            VoucherData::Efecty
            | VoucherData::PagoEfectivo
            | VoucherData::RedCompra
            | VoucherData::RedPagos => false,
            _ => true,
        },
        PaymentMethodData::Crypto
        | PaymentMethodData::MandatePayment
        | PaymentMethodData::Reward
        | PaymentMethodData::RealTimePayment
        | PaymentMethodData::MobilePayment
        | PaymentMethodData::Upi
        | PaymentMethodData::OpenBanking
        | PaymentMethodData::CardToken
        | PaymentMethodData::CardDetailsForNetworkTransactionId(_) => false,
    }
}

/// The name under which an error reports a payment method: the name of the
/// scheme where the family has schemes, and the name of the family
/// otherwise.
pub open spec fn spec_feature_name(payment_method_data: PaymentMethodData) -> &'static str {
    match payment_method_data {
        PaymentMethodData::Wallet(wallet) => wallet.spec_scheme_name(),
        PaymentMethodData::PayLater(pay_later) => pay_later.spec_scheme_name(),
        PaymentMethodData::BankRedirect(bank_redirect) => bank_redirect.spec_scheme_name(),
        PaymentMethodData::BankDebit(bank_debit) => bank_debit.spec_scheme_name(),
        PaymentMethodData::BankTransfer(bank_transfer) => bank_transfer.spec_scheme_name(),
        PaymentMethodData::CardRedirect(card_redirect) => card_redirect.spec_scheme_name(),
        PaymentMethodData::Voucher(voucher) => voucher.spec_scheme_name(),
        _ => payment_method_data.spec_kind_name(),
    }
}

/// Tells whether Adyen is handed a payment method.
pub fn supports(payment_method_data: &PaymentMethodData) -> (res: bool)
    ensures
        res == spec_supports(*payment_method_data),
{
    match payment_method_data {
        PaymentMethodData::Card(_)
        | PaymentMethodData::NetworkToken(_)
        | PaymentMethodData::GiftCard(_) => true,
        PaymentMethodData::Wallet(wallet) => !matches!(
            wallet,
            WalletData::AliPayQr
                | WalletData::AmazonPayRedirect
                | WalletData::ApplePayRedirect
                | WalletData::ApplePayThirdPartySdk
                | WalletData::GooglePayRedirect
                | WalletData::GooglePayThirdPartySdk
                | WalletData::PaypalSdk
                | WalletData::WeChatPayQr
                | WalletData::CashappQr
                | WalletData::Mifinity
        ),
        PaymentMethodData::PayLater(pay_later) => !matches!(pay_later, PayLaterData::KlarnaSdk { .. }),
        PaymentMethodData::BankRedirect(bank_redirect) => !matches!(
            bank_redirect,
            BankRedirectData::Giropay { .. }
                | BankRedirectData::Eft
                | BankRedirectData::Interac
                | BankRedirectData::LocalBankRedirect
                | BankRedirectData::Przelewy24
                | BankRedirectData::Sofort { .. }
        ),
        PaymentMethodData::BankDebit(bank_debit) => !matches!(
            bank_debit,
            BankDebitData::BecsBankDebit { .. }
        ),
        PaymentMethodData::BankTransfer(bank_transfer) => !matches!(
            bank_transfer,
            BankTransferData::AchBankTransfer
                | BankTransferData::SepaBankTransfer
                | BankTransferData::BacsBankTransfer
                | BankTransferData::MultibancoBankTransfer
                | BankTransferData::LocalBankTransfer
                | BankTransferData::Pse
        ),
        PaymentMethodData::CardRedirect(card_redirect) => !matches!(
            card_redirect,
            CardRedirectData::CardRedirect
        ),
        PaymentMethodData::Voucher(voucher) => !matches!(
            voucher,
            VoucherData::Efecty
                | VoucherData::PagoEfectivo
                | VoucherData::RedCompra
                | VoucherData::RedPagos
        ),
        PaymentMethodData::Crypto
        | PaymentMethodData::MandatePayment
        | PaymentMethodData::Reward
        | PaymentMethodData::RealTimePayment
        | PaymentMethodData::MobilePayment
        | PaymentMethodData::Upi
        | PaymentMethodData::OpenBanking
        | PaymentMethodData::CardToken
        | PaymentMethodData::CardDetailsForNetworkTransactionId(_) => false,
    }
}

/// The error with which the payment method of a request is rejected, if it
/// is.
pub open spec fn spec_mapping_error(item: PaymentsAuthorizeRouterData) -> Option<ConnectorError> {
    match item.request.payment_method_data {
        PaymentMethodData::Card(_)
        | PaymentMethodData::NetworkToken(_)
        | PaymentMethodData::GiftCard(_) => None,
        PaymentMethodData::Wallet(wallet) => spec_wallet_error(wallet, item),
        PaymentMethodData::PayLater(pay_later) => spec_err(spec_pay_later_of(item, pay_later)),
        PaymentMethodData::BankRedirect(bank_redirect) => spec_bank_redirect_error(
            bank_redirect,
            item,
        ),
        PaymentMethodData::BankDebit(bank_debit) => spec_bank_debit_error(bank_debit, item),
        PaymentMethodData::BankTransfer(bank_transfer) => spec_err(
            spec_from_bank_transfer(bank_transfer, item),
        ),
        PaymentMethodData::CardRedirect(card_redirect) => spec_err(
            spec_from_card_redirect(card_redirect),
        ),
        PaymentMethodData::Voucher(voucher) => spec_err(spec_from_voucher(voucher, item)),
        _ => Some(spec_not_implemented(item.request.payment_method_data.spec_kind_name())),
    }
}

/// Whether `res` is what the payment method of a request comes to in the
/// terms of Adyen.
pub open spec fn spec_is_mapped(
    item: PaymentsAuthorizeRouterData,
    res: Result<AdyenPaymentMethod, ConnectorError>,
) -> bool {
    let full_name = spec_optional_full_name(item.address.billing);
    match item.request.payment_method_data {
        PaymentMethodData::Card(card) => res matches Ok(method) && spec_is_from_card(
            card,
            full_name,
            method,
        ),
        PaymentMethodData::NetworkToken(token) => res matches Ok(method)
            && spec_is_from_network_token(token, full_name, method),
        PaymentMethodData::GiftCard(gift_card) => res == Ok::<AdyenPaymentMethod, ConnectorError>(
            spec_from_gift_card(gift_card),
        ),
        PaymentMethodData::Wallet(wallet) => spec_is_from_wallet(wallet, item, res),
        PaymentMethodData::PayLater(pay_later) => res == spec_pay_later_of(item, pay_later),
        PaymentMethodData::BankRedirect(bank_redirect) => spec_is_from_bank_redirect(
            bank_redirect,
            item,
            res,
        ),
        PaymentMethodData::BankDebit(bank_debit) => spec_is_from_bank_debit(bank_debit, item, res),
        PaymentMethodData::BankTransfer(bank_transfer) => res == spec_from_bank_transfer(
            bank_transfer,
            item,
        ),
        PaymentMethodData::CardRedirect(card_redirect) => res == spec_from_card_redirect(
            card_redirect,
        ),
        PaymentMethodData::Voucher(voucher) => res == spec_from_voucher(voucher, item),
        _ => res == Err::<AdyenPaymentMethod, ConnectorError>(
            spec_not_implemented(item.request.payment_method_data.spec_kind_name()),
        ),
    }
}

/// Maps the payment method of a request to its Adyen form.
///
/// The mapping is total: it answers every payment method data with a
/// payment method or with an error that says what is wrong.
pub fn map_payment_method(item: &PaymentsAuthorizeRouterData) -> (res: Result<
    AdyenPaymentMethod,
    ConnectorError,
>)
    ensures
        spec_is_mapped(*item, res),
        spec_err(res) == spec_mapping_error(*item),
{
    match &item.request.payment_method_data {
        PaymentMethodData::Card(card) => AdyenPaymentMethod::try_from_card(
            card,
            item.get_optional_billing_full_name(),
        ),
        PaymentMethodData::NetworkToken(token) => AdyenPaymentMethod::try_from_network_token(
            token,
            item.get_optional_billing_full_name(),
        ),
        PaymentMethodData::GiftCard(gift_card) => AdyenPaymentMethod::try_from_gift_card(gift_card),
        PaymentMethodData::Wallet(wallet) => AdyenPaymentMethod::try_from_wallet(wallet, item),
        PaymentMethodData::PayLater(pay_later) => {
            let country_code = get_country_code(item.get_optional_billing());
            let shopper_email = item.get_optional_billing_email();
            let shopper_reference = build_shopper_reference(
                &item.customer_id,
                item.merchant_id.clone(),
            );
            let shopper_name = get_shopper_name(item.get_optional_billing());
            let telephone_number = get_telephone_number(item);
            let billing_address = match get_address_info(item.get_optional_billing()) {
                Some(Ok(address)) => Some(address),
                _ => None,
            };
            let delivery_address = match get_address_info(item.get_optional_shipping()) {
                Some(Ok(address)) => Some(address),
                _ => None,
            };
            AdyenPaymentMethod::try_from_pay_later(
                pay_later,
                &country_code,
                &shopper_email,
                &shopper_reference,
                &shopper_name,
                &telephone_number,
                &billing_address,
                &delivery_address,
            )
        },
        PaymentMethodData::BankRedirect(bank_redirect) => {
            AdyenPaymentMethod::try_from_bank_redirect(bank_redirect, item)
        },
        PaymentMethodData::BankDebit(bank_debit) => AdyenPaymentMethod::try_from_bank_debit(
            bank_debit,
            item,
        ),
        PaymentMethodData::BankTransfer(bank_transfer) => {
            AdyenPaymentMethod::try_from_bank_transfer(bank_transfer, item)
        },
        PaymentMethodData::CardRedirect(card_redirect) => {
            AdyenPaymentMethod::try_from_card_redirect(card_redirect)
        },
        PaymentMethodData::Voucher(voucher) => AdyenPaymentMethod::try_from_voucher(voucher, item),
        PaymentMethodData::Crypto
        | PaymentMethodData::MandatePayment
        | PaymentMethodData::Reward
        | PaymentMethodData::RealTimePayment
        | PaymentMethodData::MobilePayment
        | PaymentMethodData::Upi
        | PaymentMethodData::OpenBanking
        | PaymentMethodData::CardToken
        | PaymentMethodData::CardDetailsForNetworkTransactionId(_) => Err(
            ConnectorError::NotImplemented {
                connector: "Adyen",
                feature: item.request.payment_method_data.kind_name(),
            },
        ),
    }
}

/// Totality of the mapping: whatever the payment method data and whatever
/// the context, the mapping ends in a payment method or in an error that
/// names a payment method that is not implemented or a field that is
/// missing. A payment method that Adyen is not handed always ends in
/// `NotImplemented` under its own name, never in a payment method.
pub proof fn lemma_mapping_is_total(item: PaymentsAuthorizeRouterData)
    ensures
        spec_mapping_error(item) matches Some(e) ==> (e is NotImplemented || e
            is MissingRequiredField),
        spec_mapping_error(item) matches Some(ConnectorError::NotImplemented { connector, .. })
            ==> connector == "Adyen",
        !spec_supports(item.request.payment_method_data) ==> spec_mapping_error(item) == Some(
            spec_not_implemented(spec_feature_name(item.request.payment_method_data)),
        ),
{
}

} // verus!
