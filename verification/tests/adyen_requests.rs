use payment_connectors::address::{Address, AddressDetails, PaymentAddress, PhoneDetails};
use payment_connectors::adyen::mapper::{map_payment_method, supports};
use payment_connectors::adyen::payment_method::get_adyen_card_network;
use payment_connectors::adyen::request::{
    build_shopper_reference, get_additional_data, get_amount_data, get_browser_info,
    get_channel_type, get_line_items, get_recurring_processing_model, get_shopper_name,
    get_telephone_number,
};
use payment_connectors::adyen::split::{construct_charge_response, get_adyen_split_request};
use payment_connectors::adyen::types::{
    AdyenAuthType, AdyenPaymentMethod, AdyenPaymentRequest, AdyenRecurringModel, AdyenRouterData,
    AdyenShopperInteraction, Amount, AuthType, CardBrand, Channel, PaymentMethod, PaymentType,
};
use payment_connectors::country::CountryAlpha2;
use payment_connectors::currency::{Currency, MinorUnit};
use payment_connectors::enums::{
    AdyenSplitType, AttemptStatus, AuthenticationType, CaptureMethod, CardNetwork, FutureUsage,
    PaymentMethodType,
};
use payment_connectors::errors::ConnectorError;
use payment_connectors::payment_method_data::{BankDebitData, Card, PaymentMethodData};
use payment_connectors::router_data::{
    BrowserInformation, ConnectorAuthType, ConnectorMandateReferenceId, CustomerAcceptance,
    MandateIds, MandateReferenceId, OrderDetailsWithAmount, PaymentsAuthorizeData,
    PaymentsAuthorizeRouterData, RouterData, SplitPaymentsRequest,
};
use payment_connectors::router_response::{
    AdyenSplitData, AdyenSplitItem, ConnectorChargeResponseData, ErrorResponse,
};

fn card() -> Card {
    Card {
        card_number: "4111111111111111".to_string(),
        card_exp_month: "03".to_string(),
        card_exp_year: "30".to_string(),
        card_cvc: "737".to_string(),
        card_network: Some(CardNetwork::Visa),
        card_issuer: None,
        card_holder_name: None,
    }
}

fn browser() -> BrowserInformation {
    BrowserInformation {
        color_depth: Some(24),
        java_enabled: Some(false),
        java_script_enabled: Some(true),
        language: Some("en-GB".to_string()),
        screen_height: Some(1080),
        screen_width: Some(1920),
        time_zone: Some(-60),
        ip_address: Some("203.0.113.7".to_string()),
        accept_header: Some("text/html".to_string()),
        user_agent: Some("Mozilla/5.0".to_string()),
    }
}

fn billing() -> Address {
    Address {
        address: Some(AddressDetails {
            city: Some("Amsterdam".to_string()),
            country: Some(CountryAlpha2::NL),
            line1: Some("Simon Carmiggeltstraat 6".to_string()),
            line2: Some("50".to_string()),
            line3: None,
            zip: Some("1011DJ".to_string()),
            state: None,
            first_name: Some("Ada".to_string()),
            last_name: Some("Lovelace".to_string()),
        }),
        phone: Some(PhoneDetails {
            number: Some("201234567".to_string()),
            country_code: Some("+31".to_string()),
        }),
        email: Some("ada@example.com".to_string()),
    }
}

fn authorize(payment_method_data: PaymentMethodData) -> PaymentsAuthorizeRouterData {
    RouterData {
        merchant_id: "merchant_1".to_string(),
        customer_id: Some("customer_9".to_string()),
        connector_customer: None,
        payment_id: "pay_1".to_string(),
        attempt_id: "pay_1_1".to_string(),
        status: AttemptStatus::Started,
        payment_method: payment_connectors::enums::PaymentMethod::Card,
        connector_auth_type: ConnectorAuthType::BodyKey {
            api_key: "key".to_string(),
            key1: "TestMerchantAccount".to_string(),
        },
        description: Some("Two books".to_string()),
        address: PaymentAddress { billing: Some(billing()), shipping: None },
        auth_type: AuthenticationType::NoThreeDs,
        connector_meta_data: None,
        amount_captured: None,
        payment_method_token: None,
        recurring_mandate_payment_data: None,
        connector_request_reference_id: "ref_1".to_string(),
        payment_method_balance: None,
        connector_http_status_code: None,
        connector_response: None,
        payout_method_data: None,
        test_mode: Some(true),
        request: PaymentsAuthorizeData {
            payment_method_data,
            amount: 1000,
            minor_amount: MinorUnit::new(1000),
            currency: Currency::EUR,
            email: Some("ada@example.com".to_string()),
            customer_name: None,
            confirm: true,
            statement_descriptor_suffix: None,
            statement_descriptor: Some("BOOKSHOP".to_string()),
            capture_method: Some(CaptureMethod::Automatic),
            router_return_url: Some("https://shop.example.com/return".to_string()),
            browser_info: Some(browser()),
            order_details: None,
            setup_future_usage: None,
            off_session: None,
            mandate_id: None,
            setup_mandate_details: None,
            customer_acceptance: None,
            payment_experience: None,
            payment_method_type: Some(PaymentMethodType::Credit),
            metadata: None,
            split_payments: None,
            merchant_order_reference_id: Some("order_77".to_string()),
            request_incremental_authorization: false,
            shipping_cost: None,
            enrolled_for_3ds: false,
            order_tax_amount: None,
        },
        response: Err(ErrorResponse::from_connector(None, None, None, 0, None, None, None, None)),
    }
}

fn becs() -> BankDebitData {
    BankDebitData::BecsBankDebit {
        billing_details: None,
        account_number: "000123456".to_string(),
        bsb_number: "000000".to_string(),
    }
}

fn split() -> AdyenSplitData {
    AdyenSplitData {
        store: Some("store_1".to_string()),
        split_items: vec![
            AdyenSplitItem {
                amount: Some(MinorUnit::new(900)),
                split_type: AdyenSplitType::BalanceAccount,
                account: Some("BA0001".to_string()),
                reference: "seller".to_string(),
                description: Some("goods".to_string()),
            },
            AdyenSplitItem {
                amount: Some(MinorUnit::new(100)),
                split_type: AdyenSplitType::Commission,
                account: None,
                reference: "fee".to_string(),
                description: None,
            },
            AdyenSplitItem {
                amount: None,
                split_type: AdyenSplitType::PaymentFee,
                account: Some("BA0002".to_string()),
                reference: "costs".to_string(),
                description: None,
            },
        ],
    }
}

#[test]
fn becs_bank_debit_is_not_implemented() {
    let item = authorize(PaymentMethodData::BankDebit(becs()));
    let expected = ConnectorError::NotImplemented { connector: "Adyen", feature: "Becs" };
    assert_eq!(AdyenPaymentMethod::try_from_bank_debit(&becs(), &item), Err(expected));
    assert_eq!(map_payment_method(&item), Err(expected));
    let with_amount = AdyenRouterData::try_from(MinorUnit::new(1000), &item).unwrap();
    assert_eq!(AdyenPaymentRequest::try_from(&with_amount), Err(expected));
}

#[test]
fn other_bank_debits_are_mapped() {
    let sepa = BankDebitData::SepaBankDebit {
        billing_details: None,
        iban: "NL13TEST0123456789".to_string(),
    };
    let mut item = authorize(PaymentMethodData::BankDebit(sepa.clone()));
    item.payment_method = payment_connectors::enums::PaymentMethod::BankDebit;
    assert!(AdyenPaymentMethod::try_from_bank_debit(&sepa, &item).is_ok());
    assert!(map_payment_method(&item).is_ok());
}

#[test]
fn families_without_a_mapping_are_rejected_by_name() {
    for (data, name) in [
        (PaymentMethodData::Crypto, "Crypto"),
        (PaymentMethodData::Upi, "Upi"),
        (PaymentMethodData::Reward, "Reward"),
        (PaymentMethodData::OpenBanking, "OpenBanking"),
        (PaymentMethodData::MobilePayment, "MobilePayment"),
        (PaymentMethodData::CardToken, "CardToken"),
        (PaymentMethodData::RealTimePayment, "RealTimePayment"),
        (PaymentMethodData::MandatePayment, "MandatePayment"),
    ] {
        assert!(!supports(&data));
        let item = authorize(data);
        assert_eq!(
            map_payment_method(&item),
            Err(ConnectorError::NotImplemented { connector: "Adyen", feature: name })
        );
    }
    assert!(supports(&PaymentMethodData::Card(card())));
}

#[test]
fn recurring_model_for_off_session_setup_without_mandate() {
    let mut item = authorize(PaymentMethodData::Card(card()));
    item.request.setup_future_usage = Some(FutureUsage::OffSession);
    assert_eq!(
        get_recurring_processing_model(&item),
        Ok((
            Some(AdyenRecurringModel::UnscheduledCardOnFile),
            Some(false),
            Some("merchant_1_customer_9".to_string())
        ))
    );
    item.request.customer_acceptance = Some(CustomerAcceptance { online: None });
    assert_eq!(
        get_recurring_processing_model(&item),
        Ok((
            Some(AdyenRecurringModel::UnscheduledCardOnFile),
            Some(true),
            Some("merchant_1_customer_9".to_string())
        ))
    );
}

#[test]
fn recurring_model_for_the_other_rows() {
    let mut item = authorize(PaymentMethodData::Card(card()));
    assert_eq!(get_recurring_processing_model(&item), Ok((None, None, None)));
    item.request.off_session = Some(true);
    assert_eq!(
        get_recurring_processing_model(&item),
        Ok((
            Some(AdyenRecurringModel::UnscheduledCardOnFile),
            None,
            Some("merchant_1_customer_9".to_string())
        ))
    );
    item.customer_id = None;
    assert_eq!(
        get_recurring_processing_model(&item),
        Err(ConnectorError::MissingRequiredField { field_name: "customer_id" })
    );
    item.request.mandate_id = Some(MandateIds {
        mandate_id: None,
        mandate_reference_id: Some(MandateReferenceId::ConnectorMandateId(
            ConnectorMandateReferenceId {
                connector_mandate_id: Some("stored_1".to_string()),
                payment_method_id: None,
            },
        )),
    });
    assert_eq!(get_recurring_processing_model(&item), Ok((None, None, None)));
}

#[test]
fn browser_info_goes_only_with_flows_that_need_it() {
    let mut item = authorize(PaymentMethodData::Card(card()));
    let info = get_browser_info(&item).unwrap().unwrap();
    assert_eq!(info.user_agent, "Mozilla/5.0");
    assert_eq!(info.time_zone_offset, -60);
    assert_eq!(info.color_depth, 24);
    item.payment_method = payment_connectors::enums::PaymentMethod::Voucher;
    item.request.payment_method_type = Some(PaymentMethodType::Boleto);
    assert_eq!(get_browser_info(&item), Ok(None));
    item.auth_type = AuthenticationType::ThreeDs;
    assert!(get_browser_info(&item).unwrap().is_some());
    item.request.browser_info = None;
    assert_eq!(
        get_browser_info(&item),
        Err(ConnectorError::MissingRequiredField { field_name: "browser_info" })
    );
    let mut incomplete = browser();
    incomplete.language = None;
    item.request.browser_info = Some(incomplete);
    assert_eq!(
        get_browser_info(&item),
        Err(ConnectorError::MissingRequiredField { field_name: "browser_info.language" })
    );
}

#[test]
fn additional_data_follows_capture_and_authentication() {
    let mut item = authorize(PaymentMethodData::Card(card()));
    assert_eq!(get_additional_data(&item), None);
    item.request.capture_method = Some(CaptureMethod::Manual);
    let manual = get_additional_data(&item).unwrap();
    assert_eq!(manual.authorisation_type, Some(AuthType::PreAuth));
    assert_eq!(manual.manual_capture.as_deref(), Some("true"));
    assert_eq!(manual.execute_three_d, None);
    item.request.capture_method = Some(CaptureMethod::Automatic);
    item.auth_type = AuthenticationType::ThreeDs;
    let three_ds = get_additional_data(&item).unwrap();
    assert_eq!(three_ds.authorisation_type, None);
    assert_eq!(three_ds.manual_capture, None);
    assert_eq!(three_ds.execute_three_d.as_deref(), Some("true"));
}

#[test]
fn small_request_parts_are_derived_from_the_payment() {
    let item = authorize(PaymentMethodData::Card(card()));
    assert_eq!(AdyenShopperInteraction::from(&item), AdyenShopperInteraction::Ecommerce);
    let mut later = authorize(PaymentMethodData::Card(card()));
    later.request.off_session = Some(true);
    assert_eq!(
        AdyenShopperInteraction::from(&later),
        AdyenShopperInteraction::ContinuedAuthentication
    );
    assert_eq!(get_channel_type(Some(PaymentMethodType::GoPay)), Some(Channel::Web));
    assert_eq!(get_channel_type(Some(PaymentMethodType::Vipps)), Some(Channel::Web));
    assert_eq!(get_channel_type(Some(PaymentMethodType::Credit)), None);
    assert_eq!(get_channel_type(None), None);
    assert_eq!(get_telephone_number(&item).as_deref(), Some("+31201234567"));
    let name = get_shopper_name(item.address.billing.as_ref()).unwrap();
    assert_eq!(name.first_name.as_deref(), Some("Ada"));
    assert_eq!(name.last_name.as_deref(), Some("Lovelace"));
    assert_eq!(
        build_shopper_reference(&Some("customer_9".to_string()), "merchant_1".to_string())
            .as_deref(),
        Some("merchant_1_customer_9")
    );
    assert_eq!(build_shopper_reference(&None, "merchant_1".to_string()), None);
    let with_amount = AdyenRouterData::try_from(MinorUnit::new(1000), &item).unwrap();
    assert_eq!(
        get_amount_data(&with_amount),
        Amount { currency: Currency::EUR, value: MinorUnit::new(1000) }
    );
    assert_eq!(get_adyen_card_network(CardNetwork::Visa), Some(CardBrand::Visa));
    assert_eq!(PaymentType::try_from(&PaymentMethodType::Credit), Ok(PaymentType::Scheme));
}

#[test]
fn line_items_default_to_the_whole_amount() {
    let item = authorize(PaymentMethodData::Card(card()));
    let with_amount = AdyenRouterData::try_from(MinorUnit::new(1000), &item).unwrap();
    let lines = get_line_items(&with_amount);
    assert_eq!(lines.len(), 1);
    assert_eq!(lines[0].amount_including_tax, Some(MinorUnit::new(1000)));
    assert_eq!(lines[0].amount_excluding_tax, Some(MinorUnit::new(1000)));
    assert_eq!(lines[0].description.as_deref(), Some("Two books"));
    assert_eq!(lines[0].id.as_deref(), Some("Items #1"));
    assert_eq!(lines[0].quantity, Some(1));
    let mut ordered = authorize(PaymentMethodData::Card(card()));
    ordered.request.order_details = Some(vec![
        OrderDetailsWithAmount {
            product_name: "Book one".to_string(),
            quantity: 1,
            amount: MinorUnit::new(400),
        },
        OrderDetailsWithAmount {
            product_name: "Book two".to_string(),
            quantity: 2,
            amount: MinorUnit::new(300),
        },
    ]);
    let with_amount = AdyenRouterData::try_from(MinorUnit::new(1000), &ordered).unwrap();
    let lines = get_line_items(&with_amount);
    assert_eq!(lines.len(), 2);
    assert_eq!(lines[0].id.as_deref(), Some("Items #0"));
    assert_eq!(lines[1].id.as_deref(), Some("Items #1"));
    assert_eq!(lines[1].description.as_deref(), Some("Book two"));
    assert_eq!(lines[1].quantity, Some(2));
    assert_eq!(lines[1].amount_including_tax, Some(MinorUnit::new(300)));
}

#[test]
fn card_request_carries_the_card_and_the_common_fields() {
    let item = authorize(PaymentMethodData::Card(card()));
    let with_amount = AdyenRouterData::try_from(MinorUnit::new(1000), &item).unwrap();
    let request = AdyenPaymentRequest::try_from(&with_amount).unwrap();
    assert_eq!(request.amount, Amount { currency: Currency::EUR, value: MinorUnit::new(1000) });
    assert_eq!(request.merchant_account, "TestMerchantAccount");
    assert_eq!(request.reference, "ref_1");
    assert_eq!(request.return_url, "https://shop.example.com/return");
    assert_eq!(request.shopper_interaction, AdyenShopperInteraction::Ecommerce);
    assert_eq!(request.shopper_statement.as_deref(), Some("BOOKSHOP"));
    assert_eq!(request.shopper_ip.as_deref(), Some("203.0.113.7"));
    assert_eq!(request.merchant_order_reference.as_deref(), Some("order_77"));
    assert_eq!(request.recurring_processing_model, None);
    assert_eq!(request.store_payment_method, None);
    assert_eq!(request.splits, None);
    assert_eq!(request.store, None);
    assert!(request.browser_info.is_some());
    match request.payment_method {
        PaymentMethod::AdyenPaymentMethod(AdyenPaymentMethod::AdyenCard(adyen_card)) => {
            assert_eq!(adyen_card.number, "4111111111111111");
            assert_eq!(adyen_card.expiry_month, "03");
            assert_eq!(adyen_card.expiry_year, "2030");
            assert_eq!(adyen_card.cvc.as_deref(), Some("737"));
            assert_eq!(adyen_card.holder_name.as_deref(), Some("Ada Lovelace"));
            assert_eq!(adyen_card.brand, Some(CardBrand::Visa));
            assert_eq!(adyen_card.network_payment_reference, None);
        }
        other => panic!("a card payment pays with a card, not {other:?}"),
    }
}

#[test]
fn card_request_reports_what_is_missing() {
    let mut item = authorize(PaymentMethodData::Card(card()));
    item.request.router_return_url = None;
    let with_amount = AdyenRouterData::try_from(MinorUnit::new(1000), &item).unwrap();
    assert_eq!(
        AdyenPaymentRequest::try_from(&with_amount),
        Err(ConnectorError::MissingRequiredField { field_name: "return_url" })
    );
    let mut item = authorize(PaymentMethodData::Card(card()));
    item.connector_auth_type = ConnectorAuthType::HeaderKey { api_key: "key".to_string() };
    let with_amount = AdyenRouterData::try_from(MinorUnit::new(1000), &item).unwrap();
    assert_eq!(
        AdyenPaymentRequest::try_from(&with_amount),
        Err(ConnectorError::FailedToObtainAuthType)
    );
    assert_eq!(
        AdyenAuthType::try_from(&ConnectorAuthType::NoKey),
        Err(ConnectorError::FailedToObtainAuthType)
    );
}

#[test]
fn split_goes_to_the_wire_and_comes_back() {
    let (store, splits) = get_adyen_split_request(&split(), Currency::EUR);
    assert_eq!(store.as_deref(), Some("store_1"));
    let splits = splits.unwrap();
    assert_eq!(splits.len(), 3);
    assert_eq!(
        splits[0].amount,
        Some(Amount { currency: Currency::EUR, value: MinorUnit::new(900) })
    );
    assert_eq!(splits[0].reference, "seller");
    assert_eq!(splits[1].split_type, AdyenSplitType::Commission);
    assert_eq!(splits[2].amount, None);
    assert_eq!(
        construct_charge_response(store, &splits),
        ConnectorChargeResponseData::AdyenSplitPayment(split())
    );
}

#[test]
fn split_of_nothing_comes_back_as_nothing() {
    let empty = AdyenSplitData { store: None, split_items: Vec::new() };
    let (store, splits) = get_adyen_split_request(&empty, Currency::USD);
    assert_eq!(store, None);
    assert_eq!(
        construct_charge_response(store, &splits.unwrap()),
        ConnectorChargeResponseData::AdyenSplitPayment(empty)
    );
}

#[test]
fn split_goes_out_with_the_payment_request() {
    let mut item = authorize(PaymentMethodData::Card(card()));
    item.request.split_payments = Some(SplitPaymentsRequest::AdyenSplitPayment(split()));
    let with_amount = AdyenRouterData::try_from(MinorUnit::new(1000), &item).unwrap();
    let request = AdyenPaymentRequest::try_from(&with_amount).unwrap();
    assert_eq!(request.store.as_deref(), Some("store_1"));
    assert_eq!(request.splits.map(|s| s.len()), Some(3));
}
