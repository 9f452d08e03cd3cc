use payment_connectors::address::{Address, AddressDetails, PaymentAddress};
use payment_connectors::adyen::flows::{
    convert_setup_mandate_router_data_to_authorize_router_data,
};
use payment_connectors::adyen::payout::{
    AdyenPayoutCancelRequest, AdyenPayoutCreateRequest, AdyenPayoutEligibilityRequest,
    AdyenPayoutFulfillRequest, PayoutCardDetails, PayoutPaymentMethodData,
};
use payment_connectors::adyen::types::{AdyenConnectorMetadataObject, AdyenRouterData, Amount};
use payment_connectors::bankofamerica::payment_request::supports;
use payment_connectors::bankofamerica::types::{
    BankOfAmericaCaptureRequest, BankOfAmericaPaymentsRequest, BankOfAmericaRouterData,
    BankOfAmericaVoidRequest, PaymentInformation,
};
use payment_connectors::country::CountryAlpha2;
use payment_connectors::currency::{Currency, MinorUnit};
use payment_connectors::enums::{
    AttemptStatus, AuthenticationType, CurrencyUnit, FutureUsage, PaymentMethod, PayoutEntityType,
    PayoutType,
};
use payment_connectors::errors::ConnectorError;
use payment_connectors::payment_method_data::{Card, PaymentMethodData};
use payment_connectors::router_data::{
    ConnectorAuthType, PaymentsCancelData, PaymentsCaptureData, PayoutBank, PayoutCard,
    PayoutCustomerDetails, PayoutMethodData, PayoutWallet, PayoutsData, PayoutsRouterData,
    RouterData, SepaBankTransfer, SetupMandateRequestData,
};
use payment_connectors::router_response::ErrorResponse;

fn context<Request, Response>(request: Request) -> RouterData<Request, Response> {
    RouterData {
        merchant_id: "merchant_1".to_string(),
        customer_id: None,
        connector_customer: None,
        payment_id: "pay_1".to_string(),
        attempt_id: "pay_1_1".to_string(),
        status: AttemptStatus::Started,
        payment_method: PaymentMethod::Card,
        connector_auth_type: ConnectorAuthType::SignatureKey {
            api_key: "key".to_string(),
            key1: "TestMerchantAccount".to_string(),
            api_secret: "SECRET-REDACTED".to_string(),
        },
        description: None,
        address: PaymentAddress {
            billing: Some(Address {
                address: Some(AddressDetails {
                    city: Some("Amsterdam".to_string()),
                    country: Some(CountryAlpha2::NL),
                    line1: Some("Simon Carmiggeltstraat 6".to_string()),
                    line2: Some("50".to_string()),
                    line3: None,
                    zip: Some("1011DJ".to_string()),
                    state: None,
                    first_name: Some("Ada".to_string()),
                    last_name: Some("Lovelace".to_string()),
                }),
                phone: None,
                email: None,
            }),
            shipping: None,
        },
        auth_type: AuthenticationType::NoThreeDs,
        connector_meta_data: None,
        amount_captured: None,
        payment_method_token: None,
        recurring_mandate_payment_data: None,
        connector_request_reference_id: "ref_1".to_string(),
        payment_method_balance: None,
        connector_http_status_code: Some(200),
        connector_response: None,
        payout_method_data: None,
        test_mode: None,
        request,
        response: Err(ErrorResponse::from_connector(None, None, None, 0, None, None, None, None)),
    }
}

fn payout(payout_type: Option<PayoutType>, method: Option<PayoutMethodData>) -> PayoutsRouterData {
    let mut data = context(PayoutsData {
        payout_id: "payout_1".to_string(),
        amount: 500,
        connector_payout_id: Some("psp_payout".to_string()),
        destination_currency: Currency::EUR,
        source_currency: Currency::EUR,
        payout_type,
        entity_type: PayoutEntityType::Individual,
        customer_details: Some(PayoutCustomerDetails {
            name: Some("Ada Lovelace".to_string()),
            email: Some("ada@example.com".to_string()),
        }),
    });
    data.payout_method_data = method;
    data
}

fn payout_card() -> PayoutMethodData {
    PayoutMethodData::Card(PayoutCard {
        card_number: "4111111111111111".to_string(),
        expiry_month: "03".to_string(),
        expiry_year: "2030".to_string(),
        card_holder_name: Some("Ada Lovelace".to_string()),
    })
}

fn sepa() -> PayoutMethodData {
    PayoutMethodData::Bank(PayoutBank::Sepa(SepaBankTransfer {
        bank_name: Some("Test Bank".to_string()),
        bank_country_code: Some(CountryAlpha2::NL),
        bank_city: Some("Amsterdam".to_string()),
        iban: "NL13TEST0123456789".to_string(),
        bic: Some("TESTNL2A".to_string()),
    }))
}

fn card() -> Card {
    Card {
        card_number: "4111111111111111".to_string(),
        card_exp_month: "03".to_string(),
        card_exp_year: "2030".to_string(),
        card_cvc: "737".to_string(),
        card_network: None,
        card_issuer: None,
        card_holder_name: None,
    }
}

fn setup_mandate(payment_method_data: PaymentMethodData) -> SetupMandateRequestData {
    SetupMandateRequestData {
        currency: Currency::USD,
        payment_method_data,
        confirm: true,
        statement_descriptor_suffix: None,
        mandate_id: None,
        setup_future_usage: Some(FutureUsage::OffSession),
        off_session: Some(true),
        setup_mandate_details: None,
        router_return_url: Some("https://shop.example.com/return".to_string()),
        email: Some("ada@example.com".to_string()),
        customer_name: None,
        browser_info: None,
        customer_acceptance: None,
        request_incremental_authorization: false,
        metadata: None,
        shipping_cost: None,
    }
}

#[test]
fn payout_card_needs_its_holder() {
    let details = PayoutCardDetails::try_from(&payout_card()).unwrap();
    assert_eq!(details.payment_method_type, "scheme");
    assert_eq!(details.number, "4111111111111111");
    assert_eq!(details.expiry_month, "03");
    assert_eq!(details.expiry_year, "2030");
    assert_eq!(details.holder_name, "Ada Lovelace");
    let nameless = PayoutMethodData::Card(PayoutCard {
        card_number: "4111111111111111".to_string(),
        expiry_month: "03".to_string(),
        expiry_year: "2030".to_string(),
        card_holder_name: None,
    });
    assert_eq!(
        PayoutCardDetails::try_from(&nameless),
        Err(ConnectorError::MissingRequiredField {
            field_name: "payout_method_data.card.holder_name"
        })
    );
    assert!(PayoutCardDetails::try_from(&sepa()).is_err());
}

#[test]
fn payout_eligibility_is_asked_for_a_card() {
    let item = payout(Some(PayoutType::Card), Some(payout_card()));
    let with_amount = AdyenRouterData::try_from(MinorUnit::new(500), &item).unwrap();
    let request = AdyenPayoutEligibilityRequest::try_from(&with_amount).unwrap();
    assert_eq!(request.amount, Amount { currency: Currency::EUR, value: MinorUnit::new(500) });
    assert_eq!(request.merchant_account, "TestMerchantAccount");
    assert_eq!(request.reference, "ref_1");
    assert_eq!(request.shopper_reference, "merchant_1");
    assert_eq!(request.payment_method.holder_name, "Ada Lovelace");
    let missing = payout(Some(PayoutType::Card), None);
    let with_amount = AdyenRouterData::try_from(MinorUnit::new(500), &missing).unwrap();
    assert!(matches!(
        AdyenPayoutEligibilityRequest::try_from(&with_amount),
        Err(ConnectorError::MissingRequiredField { .. })
    ));
}

#[test]
fn payout_is_created_to_sepa_and_paypal_only() {
    let item = payout(Some(PayoutType::Bank), Some(sepa()));
    let with_amount = AdyenRouterData::try_from(MinorUnit::new(500), &item).unwrap();
    let request = AdyenPayoutCreateRequest::try_from(&with_amount).unwrap();
    assert_eq!(request.reference, "ref_1");
    assert_eq!(request.shopper_reference, "merchant_1");
    assert_eq!(request.merchant_account, "TestMerchantAccount");
    assert_eq!(request.shopper_email.as_deref(), Some("ada@example.com"));
    assert_eq!(request.shopper_name.first_name.as_deref(), Some("Ada"));
    assert_eq!(request.entity_type, Some(PayoutEntityType::Individual));
    match request.payment_data {
        PayoutPaymentMethodData::PayoutBankData(bank) => {
            assert_eq!(bank.bank.iban, "NL13TEST0123456789");
            assert_eq!(bank.bank.owner_name, "Ada Lovelace");
            assert_eq!(bank.bank.bic.as_deref(), Some("TESTNL2A"));
        }
        other => panic!("a payout to a bank names the bank, not {other:?}"),
    }
    let paypal = PayoutMethodData::Wallet(PayoutWallet::Paypal {
        email: Some("ada@example.com".to_string()),
    });
    let item = payout(Some(PayoutType::Wallet), Some(paypal));
    let with_amount = AdyenRouterData::try_from(MinorUnit::new(500), &item).unwrap();
    let request = AdyenPayoutCreateRequest::try_from(&with_amount).unwrap();
    assert_eq!(request.reference, "payout_1");
    assert!(matches!(request.payment_data, PayoutPaymentMethodData::PayoutWalletData(_)));
    for (method, feature) in [
        (payout_card(), "Card payout creation is not supported"),
        (PayoutMethodData::Bank(PayoutBank::Ach), "Bank transfer via ACH is not supported"),
        (PayoutMethodData::Bank(PayoutBank::Bacs), "Bank transfer via Bacs is not supported"),
        (PayoutMethodData::Bank(PayoutBank::Pix), "Bank transfer via Pix is not supported"),
        (PayoutMethodData::Wallet(PayoutWallet::Venmo), "Venmo Wallet is not supported"),
    ] {
        let item = payout(Some(PayoutType::Bank), Some(method));
        let with_amount = AdyenRouterData::try_from(MinorUnit::new(500), &item).unwrap();
        assert_eq!(
            AdyenPayoutCreateRequest::try_from(&with_amount),
            Err(ConnectorError::NotSupported { feature, context: "Adyen" })
        );
    }
}

#[test]
fn payout_is_carried_out_and_cancelled() {
    let item = payout(Some(PayoutType::Bank), Some(sepa()));
    let with_amount = AdyenRouterData::try_from(MinorUnit::new(500), &item).unwrap();
    match AdyenPayoutFulfillRequest::try_from(&with_amount).unwrap() {
        AdyenPayoutFulfillRequest::GenericFulfillRequest(request) => {
            assert_eq!(request.merchant_account, "TestMerchantAccount");
            assert_eq!(request.original_reference, "psp_payout");
        }
        other => panic!("a payout to a bank is carried out by its id, not {other:?}"),
    }
    let item = payout(Some(PayoutType::Card), Some(payout_card()));
    let with_amount = AdyenRouterData::try_from(MinorUnit::new(500), &item).unwrap();
    match AdyenPayoutFulfillRequest::try_from(&with_amount).unwrap() {
        AdyenPayoutFulfillRequest::Card(request) => {
            assert_eq!(request.reference, "ref_1");
            assert_eq!(request.card.holder_name, "Ada Lovelace");
            assert_eq!(request.shopper_name.last_name.as_deref(), Some("Lovelace"));
            assert_eq!(request.nationality, Some(CountryAlpha2::NL));
            let address = request.billing_address.unwrap();
            assert_eq!(address.city, "Amsterdam");
            assert_eq!(address.country, CountryAlpha2::NL);
            assert_eq!(address.postal_code, "1011DJ");
        }
        other => panic!("a payout to a card names the card, not {other:?}"),
    }
    let untyped = payout(None, Some(sepa()));
    let with_amount = AdyenRouterData::try_from(MinorUnit::new(500), &untyped).unwrap();
    assert_eq!(
        AdyenPayoutFulfillRequest::try_from(&with_amount),
        Err(ConnectorError::MissingRequiredField { field_name: "payout_type" })
    );
    assert_eq!(
        AdyenPayoutCancelRequest::try_from(&item),
        Ok(AdyenPayoutCancelRequest {
            original_reference: "psp_payout".to_string(),
            merchant_account: "TestMerchantAccount".to_string(),
        })
    );
    let mut unknown = payout(Some(PayoutType::Card), Some(payout_card()));
    unknown.request.connector_payout_id = None;
    assert_eq!(
        AdyenPayoutCancelRequest::try_from(&unknown),
        Err(ConnectorError::MissingRequiredField { field_name: "connector_payout_id" })
    );
}

#[test]
fn setup_of_a_mandate_is_a_payment_of_nothing() {
    let request = convert_setup_mandate_router_data_to_authorize_router_data(setup_mandate(
        PaymentMethodData::Card(card()),
    ));
    assert_eq!(request.amount, 0);
    assert_eq!(request.minor_amount, MinorUnit::new(0));
    assert_eq!(request.currency, Currency::USD);
    assert_eq!(request.payment_method_data, PaymentMethodData::Card(card()));
    assert_eq!(request.setup_future_usage, Some(FutureUsage::OffSession));
    assert_eq!(request.off_session, Some(true));
    assert_eq!(request.email.as_deref(), Some("ada@example.com"));
    assert_eq!(request.router_return_url.as_deref(), Some("https://shop.example.com/return"));
}

#[test]
fn settings_of_the_connector_account_are_required() {
    let settings = AdyenConnectorMetadataObject { endpoint_prefix: Some("live".to_string()) };
    assert_eq!(AdyenConnectorMetadataObject::try_from(Some(settings.clone())), Ok(settings));
    assert_eq!(
        AdyenConnectorMetadataObject::try_from(None),
        Err(ConnectorError::InvalidConnectorConfig { config: "metadata" })
    );
}

#[test]
fn bank_of_america_follow_ups_are_built() {
    let capture = context(PaymentsCaptureData {
        amount_to_capture: 700,
        currency: Currency::USD,
        connector_transaction_id: "txn_1".to_string(),
        multiple_capture_data: None,
        metadata: Some("{\"order\":\"A-7\"}".to_string()),
    });
    let with_amount =
        BankOfAmericaRouterData::try_from(&CurrencyUnit::Base, Currency::USD, 700, &capture)
            .unwrap();
    let request = BankOfAmericaCaptureRequest::try_from(&with_amount).unwrap();
    assert_eq!(request.order_information.amount_details.total_amount, "7.00");
    assert_eq!(request.client_reference_information.code.as_deref(), Some("ref_1"));
    assert_eq!(request.merchant_defined_information.map(|v| v.len()), Some(1));

    let void = context(PaymentsCancelData {
        amount: Some(700),
        currency: Some(Currency::USD),
        connector_transaction_id: "txn_1".to_string(),
        cancellation_reason: Some("requested_by_customer".to_string()),
        metadata: None,
    });
    let with_amount =
        BankOfAmericaRouterData::try_from(&CurrencyUnit::Base, Currency::USD, 700, &void).unwrap();
    let request = BankOfAmericaVoidRequest::try_from(&with_amount).unwrap();
    assert_eq!(request.reversal_information.amount_details.total_amount, "7.00");
    assert_eq!(request.reversal_information.amount_details.currency, Currency::USD);
    assert_eq!(request.reversal_information.reason, "requested_by_customer");
    assert_eq!(request.client_reference_information.code.as_deref(), Some("ref_1"));

    let mut incomplete = context(PaymentsCancelData {
        amount: Some(700),
        currency: None,
        connector_transaction_id: "txn_1".to_string(),
        cancellation_reason: Some("requested_by_customer".to_string()),
        metadata: None,
    });
    let with_amount =
        BankOfAmericaRouterData::try_from(&CurrencyUnit::Base, Currency::USD, 700, &incomplete)
            .unwrap();
    assert_eq!(
        BankOfAmericaVoidRequest::try_from(&with_amount),
        Err(ConnectorError::MissingRequiredField { field_name: "Currency" })
    );
    incomplete.request.currency = Some(Currency::USD);
    incomplete.request.cancellation_reason = None;
    let with_amount =
        BankOfAmericaRouterData::try_from(&CurrencyUnit::Base, Currency::USD, 700, &incomplete)
            .unwrap();
    assert_eq!(
        BankOfAmericaVoidRequest::try_from(&with_amount),
        Err(ConnectorError::MissingRequiredField { field_name: "Cancellation Reason" })
    );
}

#[test]
fn bank_of_america_sets_a_mandate_up_on_a_card() {
    let mut issued = card();
    issued.card_issuer = Some(payment_connectors::enums::CardIssuer::Visa);
    let item = context(setup_mandate(PaymentMethodData::Card(issued)));
    let request = BankOfAmericaPaymentsRequest::try_from_setup_mandate(&item).unwrap();
    assert_eq!(request.order_information.amount_details.total_amount, "0");
    assert_eq!(request.order_information.amount_details.currency, Currency::USD);
    assert_eq!(request.processing_information.capture, Some(false));
    assert!(request.processing_information.action_list.is_some());
    assert!(request.processing_information.action_token_types.is_some());
    assert!(request.processing_information.authorization_options.is_some());
    assert!(matches!(request.payment_information, PaymentInformation::Cards(_)));
    let unknown = context(setup_mandate(PaymentMethodData::Crypto));
    assert!(!supports(&PaymentMethodData::Crypto));
    assert_eq!(
        BankOfAmericaPaymentsRequest::try_from_setup_mandate(&unknown),
        Err(ConnectorError::NotImplemented { connector: "Bank of America", feature: "Crypto" })
    );
}
