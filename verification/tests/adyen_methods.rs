use payment_connectors::address::PaymentAddress;
use payment_connectors::adyen::mapper::{map_payment_method, supports};
use payment_connectors::adyen::types::{AdyenPaymentMethod, GiftCardBrand};
use payment_connectors::bank_names::BankNames;
use payment_connectors::connector::Connector;
use payment_connectors::currency::{Currency, MinorUnit};
use payment_connectors::enums::{
    AttemptStatus, AuthenticationType, CurrencyUnit, PaymentMethod, PaymentMethodType,
};
use payment_connectors::errors::ConnectorError;
use payment_connectors::payment_method_data::{
    BankDebitData, BankRedirectData, BankTransferData, CardRedirectData, GiftCardData,
    GooglePayWalletData, PayLaterData, PaymentMethodData, VoucherData, WalletData,
};
use payment_connectors::router_data::{
    ConnectorAuthType, PaymentsAuthorizeData, PaymentsAuthorizeRouterData, RouterData,
};
use payment_connectors::router_response::ErrorResponse;

fn authorize(payment_method_data: PaymentMethodData) -> PaymentsAuthorizeRouterData {
    RouterData {
        merchant_id: "merchant_1".to_string(),
        customer_id: Some("customer_9".to_string()),
        connector_customer: None,
        payment_id: "pay_1".to_string(),
        attempt_id: "pay_1_1".to_string(),
        status: AttemptStatus::Started,
        payment_method: PaymentMethod::Wallet,
        connector_auth_type: ConnectorAuthType::BodyKey {
            api_key: "key".to_string(),
            key1: "TestMerchantAccount".to_string(),
        },
        description: None,
        address: PaymentAddress { billing: None, shipping: None },
        auth_type: AuthenticationType::NoThreeDs,
        connector_meta_data: None,
        amount_captured: None,
        payment_method_token: None,
        recurring_mandate_payment_data: None,
        connector_request_reference_id: "ref_1".to_string(),
        payment_method_balance: None,
        connector_http_status_code: None,
        connector_response: None,
        payout_method_data: None,
        test_mode: Some(false),
        request: PaymentsAuthorizeData {
            payment_method_data,
            amount: 1000,
            minor_amount: MinorUnit::new(1000),
            currency: Currency::EUR,
            email: None,
            customer_name: None,
            confirm: true,
            statement_descriptor_suffix: None,
            statement_descriptor: None,
            capture_method: None,
            router_return_url: Some("https://shop.example.com/return".to_string()),
            browser_info: None,
            order_details: None,
            setup_future_usage: None,
            off_session: None,
            mandate_id: None,
            setup_mandate_details: None,
            customer_acceptance: None,
            payment_experience: None,
            payment_method_type: None,
            metadata: None,
            split_payments: None,
            merchant_order_reference_id: None,
            request_incremental_authorization: false,
            shipping_cost: None,
            enrolled_for_3ds: false,
            order_tax_amount: None,
        },
        response: Err(ErrorResponse::from_connector(None, None, None, 0, None, None, None, None)),
    }
}

fn not_implemented(feature: &'static str) -> ConnectorError {
    ConnectorError::NotImplemented { connector: "Adyen", feature }
}

#[test]
fn wallets_are_mapped_or_rejected_by_name() {
    let google_pay = WalletData::GooglePay(GooglePayWalletData {
        pm_type: "CARD".to_string(),
        description: "Visa 1111".to_string(),
        token: "token".to_string(),
    });
    assert!(matches!(
        map_payment_method(&authorize(PaymentMethodData::Wallet(google_pay))),
        Ok(AdyenPaymentMethod::Gpay(_))
    ));
    assert_eq!(
        map_payment_method(&authorize(PaymentMethodData::Wallet(WalletData::PaypalRedirect))),
        Ok(AdyenPaymentMethod::AdyenPaypal)
    );
    assert_eq!(
        map_payment_method(&authorize(PaymentMethodData::Wallet(WalletData::TwintRedirect))),
        Ok(AdyenPaymentMethod::Twint)
    );
    for (wallet, name) in [
        (WalletData::AliPayQr, "AliPayQr"),
        (WalletData::PaypalSdk, "PaypalSdk"),
        (WalletData::CashappQr, "CashappQr"),
        (WalletData::Mifinity, "Mifinity"),
        (WalletData::WeChatPayQr, "WeChatPayQr"),
    ] {
        let data = PaymentMethodData::Wallet(wallet);
        assert!(!supports(&data));
        assert_eq!(map_payment_method(&authorize(data)), Err(not_implemented(name)));
    }
}

#[test]
fn bank_redirects_are_mapped_or_rejected_by_name() {
    let ideal = BankRedirectData::Ideal { bank_name: None, billing_name: None };
    assert_eq!(
        map_payment_method(&authorize(PaymentMethodData::BankRedirect(ideal))),
        Ok(AdyenPaymentMethod::Ideal)
    );
    assert_eq!(
        map_payment_method(&authorize(PaymentMethodData::BankRedirect(BankRedirectData::Trustly))),
        Ok(AdyenPaymentMethod::Trustly)
    );
    let poland = BankRedirectData::OnlineBankingPoland { issuer: BankNames::BankMillennium };
    assert!(matches!(
        map_payment_method(&authorize(PaymentMethodData::BankRedirect(poland))),
        Ok(AdyenPaymentMethod::OnlineBankingPoland(_))
    ));
    let wrong_bank = BankRedirectData::OnlineBankingPoland { issuer: BankNames::AmericanExpress };
    assert_eq!(
        map_payment_method(&authorize(PaymentMethodData::BankRedirect(wrong_bank))),
        Err(not_implemented("OnlineBankingPoland issuer"))
    );
    for (redirect, name) in [
        (BankRedirectData::Giropay { billing_name: None }, "Giropay"),
        (BankRedirectData::Eft, "Eft"),
        (BankRedirectData::Interac, "Interac"),
        (BankRedirectData::Przelewy24, "Przelewy24"),
        (BankRedirectData::Sofort { country: None, preferred_language: None }, "Sofort"),
    ] {
        let data = PaymentMethodData::BankRedirect(redirect);
        assert!(!supports(&data));
        assert_eq!(map_payment_method(&authorize(data)), Err(not_implemented(name)));
    }
}

#[test]
fn other_families_are_mapped_or_rejected_by_name() {
    assert_eq!(
        map_payment_method(&authorize(PaymentMethodData::Voucher(VoucherData::Oxxo))),
        Ok(AdyenPaymentMethod::Oxxo)
    );
    assert_eq!(
        map_payment_method(&authorize(PaymentMethodData::Voucher(VoucherData::Efecty))),
        Err(not_implemented("Efecty"))
    );
    assert_eq!(
        map_payment_method(&authorize(PaymentMethodData::GiftCard(GiftCardData::PaySafeCard))),
        Ok(AdyenPaymentMethod::PaySafeCard)
    );
    let givex = GiftCardData::Givex { number: "6006".to_string(), cvc: "123".to_string() };
    match map_payment_method(&authorize(PaymentMethodData::GiftCard(givex))).unwrap() {
        AdyenPaymentMethod::AdyenGiftCard(gift_card) => {
            assert_eq!(gift_card.brand, GiftCardBrand::Givex);
            assert_eq!(gift_card.number, "6006");
            assert_eq!(gift_card.cvc, "123");
        }
        other => panic!("a gift card is mapped to a gift card, not {other:?}"),
    }
    assert_eq!(
        map_payment_method(&authorize(PaymentMethodData::CardRedirect(CardRedirectData::Knet))),
        Ok(AdyenPaymentMethod::Knet)
    );
    assert_eq!(
        map_payment_method(&authorize(PaymentMethodData::CardRedirect(
            CardRedirectData::CardRedirect
        ))),
        Err(not_implemented("CardRedirect"))
    );
    assert_eq!(
        map_payment_method(&authorize(PaymentMethodData::BankTransfer(BankTransferData::Pix))),
        Ok(AdyenPaymentMethod::Pix)
    );
    assert_eq!(
        map_payment_method(&authorize(PaymentMethodData::BankTransfer(
            BankTransferData::AchBankTransfer
        ))),
        Err(not_implemented("AchBankTransfer"))
    );
    assert_eq!(
        map_payment_method(&authorize(PaymentMethodData::PayLater(PayLaterData::KlarnaSdk {
            token: "token".to_string()
        }))),
        Err(not_implemented("KlarnaSdk"))
    );
    assert_eq!(
        map_payment_method(&authorize(PaymentMethodData::PayLater(PayLaterData::WalleyRedirect))),
        Err(ConnectorError::MissingRequiredField { field_name: "billing.phone" })
    );
}

#[test]
fn every_connector_says_what_it_is_handed() {
    let becs = PaymentMethodData::BankDebit(BankDebitData::BecsBankDebit {
        billing_details: None,
        account_number: "000123456".to_string(),
        bsb_number: "000000".to_string(),
    });
    assert_eq!(
        Connector::Adyen.validate(&becs),
        Err(ConnectorError::NotImplemented { connector: "Adyen", feature: "Becs" })
    );
    assert_eq!(
        Connector::BankOfAmerica.validate(&becs),
        Err(ConnectorError::NotImplemented { connector: "Bank of America", feature: "BankDebit" })
    );
    assert_eq!(Connector::Stripe.validate(&becs), Ok(()));
    let crypto = PaymentMethodData::Crypto;
    for connector in [Connector::Adyen, Connector::BankOfAmerica, Connector::Stripe] {
        assert!(!connector.supports(&crypto));
        assert_eq!(
            connector.validate(&crypto),
            Err(ConnectorError::NotImplemented { connector: connector.name(), feature: "Crypto" })
        );
    }
    assert_eq!(Connector::Adyen.get_currency_unit(), CurrencyUnit::Minor);
    assert_eq!(Connector::Stripe.get_currency_unit(), CurrencyUnit::Minor);
    assert_eq!(Connector::BankOfAmerica.get_currency_unit(), CurrencyUnit::Base);
    assert_eq!(Connector::BankOfAmerica.name(), "Bank of America");
}

#[test]
fn validation_agrees_with_the_mapping() {
    for data in [
        PaymentMethodData::Crypto,
        PaymentMethodData::Upi,
        PaymentMethodData::Wallet(WalletData::AliPayQr),
        PaymentMethodData::Voucher(VoucherData::RedPagos),
        PaymentMethodData::BankRedirect(BankRedirectData::Eft),
    ] {
        let rejection = Connector::Adyen.validate(&data).unwrap_err();
        assert_eq!(map_payment_method(&authorize(data)), Err(rejection));
    }
}

#[test]
fn currencies_are_read_from_their_codes() {
    assert_eq!(Currency::from_code("EUR"), Some(Currency::EUR));
    assert_eq!(Currency::from_code("JPY"), Some(Currency::JPY));
    assert_eq!(Currency::from_code("eur"), None);
    assert_eq!(Currency::from_code(""), None);
    assert_eq!(Currency::from_code("EURO"), None);
    for currency in [Currency::USD, Currency::KWD, Currency::AED, Currency::ZAR] {
        assert_eq!(Currency::from_code(currency.code()), Some(currency));
    }
    assert_eq!(PaymentMethodType::Credit.as_str(), "credit");
}
