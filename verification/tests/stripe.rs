use payment_connectors::address::{Address, AddressDetails, PaymentAddress, PhoneDetails};
use payment_connectors::bank_names::BankNames;
use payment_connectors::country::CountryAlpha2;
use payment_connectors::currency::{Currency, MinorUnit};
use payment_connectors::enums::{
    AttemptStatus, AuthenticationType, CaptureMethod, FutureUsage, Method, PaymentExperience,
    PaymentMethod, PaymentMethodType,
};
use payment_connectors::errors::ConnectorError;
use payment_connectors::payment_method_data::{
    ApplePayWalletData, ApplepayPaymentMethod, BankDebitData, BankRedirectData, Card,
    GooglePayWalletData, PayLaterData, PaymentMethodData, WalletData,
};
use payment_connectors::router_data::{
    ConnectorAuthType, ConnectorCustomerData, ConnectorMandateReferenceId, CustomerAcceptance,
    MandateData, MandateIds, MandateReferenceId, OnlineMandate, PaymentMethodToken,
    PaymentMethodTokenizationData, PaymentsAuthorizeData, PaymentsAuthorizeRouterData,
    PaymentsCancelData, PaymentsCaptureData, RefundsData, ResponseRouterData, RouterData,
    SetupMandateRequestData,
};
use payment_connectors::router_response::{
    ErrorResponse, FormField, PaymentsResponseData, RedirectForm, ResponseId,
};
use payment_connectors::stripe::payment_method::{
    apple_pay_token, get_bank_debit_data, get_bank_name, infer_stripe_bank_redirect_issuer,
    infer_stripe_pay_later_type, validate_shipping_address_against_payment_method,
};
use payment_connectors::stripe::request::{
    create_stripe_payment_method, shipping_address, supports,
};
use payment_connectors::stripe::response::{
    attempt_status_from, customer_response, payment_intent_response, refund_response,
    refund_status_from, setup_intent_response, sync_response, token_response,
};
use payment_connectors::stripe::types::{
    ApplepayPayment, Auth3ds, BankDebitData as StripeBankDebit, CancelRequest, CaptureRequest,
    CustomerRequest, LastPaymentError, LatestAttempt, MitExemption, PaymentIntentRequest,
    PaymentIntentResponse, PaymentIntentSyncResponse, RefundRequest, RefundResponse,
    RefundStatus as StripeRefundStatus, SetupIntentRequest, SetupIntentResponse, StripeAuthType,
    StripeBankName, StripeBankNames, StripeBillingAddress, StripeCaptureMethod,
    StripeCustomerResponse, StripeMandateOptions, StripeMandateRequest, StripeMandateType,
    StripeMetadata, StripeNextActionResponse, StripePaymentMethodData, StripePaymentMethodOptions,
    StripePaymentMethodType, StripePaymentStatus, StripeRedirectToUrlResponse,
    StripeTokenResponse, StripeWallet, TokenRequest,
};

fn context<Request, Response>(request: Request) -> RouterData<Request, Response> {
    RouterData {
        merchant_id: "merchant_1".to_string(),
        customer_id: None,
        connector_customer: Some("cus_1".to_string()),
        payment_id: "pay_1".to_string(),
        attempt_id: "pay_1_1".to_string(),
        status: AttemptStatus::Started,
        payment_method: PaymentMethod::Card,
        connector_auth_type: ConnectorAuthType::HeaderKey { api_key: "key".to_string() },
        description: Some("Two books".to_string()),
        address: PaymentAddress {
            billing: None,
            shipping: Some(Address {
                address: Some(AddressDetails {
                    city: Some("Berlin".to_string()),
                    country: Some(CountryAlpha2::DE),
                    line1: Some("Unter den Linden 1".to_string()),
                    line2: None,
                    line3: None,
                    zip: Some("10117".to_string()),
                    state: None,
                    first_name: Some("Ada".to_string()),
                    last_name: None,
                }),
                phone: Some(PhoneDetails {
                    number: Some("301234567".to_string()),
                    country_code: Some("+49".to_string()),
                }),
                email: None,
            }),
        },
        auth_type: AuthenticationType::NoThreeDs,
        connector_meta_data: None,
        amount_captured: None,
        payment_method_token: None,
        recurring_mandate_payment_data: None,
        connector_request_reference_id: "ref_1".to_string(),
        payment_method_balance: None,
        connector_http_status_code: Some(200),
        connector_response: None,
        payout_method_data: None,
        test_mode: None,
        request,
        response: Err(ErrorResponse::from_connector(None, None, None, 0, None, None, None, None)),
    }
}

fn authorize(payment_method_data: PaymentMethodData) -> PaymentsAuthorizeRouterData {
    context(PaymentsAuthorizeData {
        payment_method_data,
        amount: 1000,
        minor_amount: MinorUnit::new(1000),
        currency: Currency::EUR,
        email: None,
        customer_name: None,
        confirm: true,
        statement_descriptor_suffix: Some("BOOKS".to_string()),
        statement_descriptor: None,
        capture_method: Some(CaptureMethod::Manual),
        router_return_url: None,
        browser_info: None,
        order_details: None,
        setup_future_usage: Some(FutureUsage::OnSession),
        off_session: None,
        mandate_id: None,
        setup_mandate_details: None,
        customer_acceptance: None,
        payment_experience: None,
        payment_method_type: None,
        metadata: None,
        split_payments: None,
        merchant_order_reference_id: None,
        request_incremental_authorization: false,
        shipping_cost: None,
        enrolled_for_3ds: false,
        order_tax_amount: None,
    })
}

fn card() -> Card {
    Card {
        card_number: "4242424242424242".to_string(),
        card_exp_month: "12".to_string(),
        card_exp_year: "2030".to_string(),
        card_cvc: "123".to_string(),
        card_network: None,
        card_issuer: None,
        card_holder_name: None,
    }
}

fn apple_pay(payment_data: &str) -> ApplePayWalletData {
    ApplePayWalletData {
        payment_data: payment_data.to_string(),
        payment_method: ApplepayPaymentMethod {
            display_name: "Visa 4242".to_string(),
            network: "Visa".to_string(),
            pm_type: "debit".to_string(),
        },
        transaction_identifier: "txn_apple".to_string(),
    }
}

fn metadata() -> StripeMetadata {
    StripeMetadata {
        order_id: "pay_1".to_string(),
        txn_id: "merchant_1_pay_1_1".to_string(),
        txn_uuid: "uuid".to_string(),
    }
}

fn intent(status: StripePaymentStatus) -> PaymentIntentResponse {
    PaymentIntentResponse {
        id: "pi_1".to_string(),
        object: "payment_intent".to_string(),
        amount: 1000,
        amount_received: 0,
        amount_capturable: 1000,
        currency: "eur".to_string(),
        status,
        client_secret: "SECRET-REDACTED".to_string(),
        created: 1_700_000_000,
        customer: None,
        payment_method: Some("pm_1".to_string()),
        description: None,
        statement_descriptor: None,
        statement_descriptor_suffix: None,
        metadata: metadata(),
        next_action: None,
        payment_method_options: None,
        last_payment_error: None,
        latest_attempt: None,
    }
}

fn field(name: &str, value: &str) -> FormField {
    FormField { name: name.to_string(), value: value.to_string() }
}

#[test]
fn card_is_mapped_with_its_authentication() {
    let data = PaymentMethodData::Card(card());
    let (method, stripe_type, billing) =
        create_stripe_payment_method(None, None, &data, AuthenticationType::ThreeDs).unwrap();
    assert_eq!(stripe_type, StripePaymentMethodType::Card);
    assert_eq!(billing, StripeBillingAddress::empty());
    match method {
        StripePaymentMethodData::Card(card_data) => {
            assert_eq!(card_data.payment_method_data_card_number, "4242424242424242");
            assert_eq!(card_data.payment_method_data_card_exp_month, "12");
            assert_eq!(card_data.payment_method_data_card_exp_year, "2030");
            assert_eq!(card_data.payment_method_data_card_cvc, "123");
            assert_eq!(card_data.payment_method_auth_type, Auth3ds::Any);
            assert_eq!(card_data.payment_method_types, StripePaymentMethodType::Card);
        }
        other => panic!("a card is mapped to a card, not {other:?}"),
    }
    let (method, _, _) =
        create_stripe_payment_method(None, None, &data, AuthenticationType::NoThreeDs).unwrap();
    match method {
        StripePaymentMethodData::Card(card_data) => {
            assert_eq!(card_data.payment_method_auth_type, Auth3ds::Automatic)
        }
        other => panic!("a card is mapped to a card, not {other:?}"),
    }
}

#[test]
fn pay_later_needs_type_experience_and_billing() {
    let klarna = PaymentMethodData::PayLater(PayLaterData::KlarnaRedirect {
        billing_email: Some("ada@example.com".to_string()),
        billing_country: Some(CountryAlpha2::DE),
    });
    let (method, stripe_type, billing) = create_stripe_payment_method(
        Some(&PaymentMethodType::Klarna),
        Some(&PaymentExperience::RedirectToUrl),
        &klarna,
        AuthenticationType::NoThreeDs,
    )
    .unwrap();
    assert_eq!(stripe_type, StripePaymentMethodType::Klarna);
    assert!(matches!(method, StripePaymentMethodData::PayLater(_)));
    assert_eq!(billing.email.as_deref(), Some("ada@example.com"));
    assert_eq!(billing.country, Some(CountryAlpha2::DE));
    assert_eq!(
        create_stripe_payment_method(None, None, &klarna, AuthenticationType::NoThreeDs),
        Err(ConnectorError::MissingRequiredField { field_name: "payment_method_type" })
    );
    assert_eq!(
        create_stripe_payment_method(
            Some(&PaymentMethodType::Klarna),
            None,
            &klarna,
            AuthenticationType::NoThreeDs
        ),
        Err(ConnectorError::MissingRequiredField { field_name: "payment_experience" })
    );
    assert_eq!(
        infer_stripe_pay_later_type(&PaymentMethodType::Klarna, &PaymentExperience::InvokeSdkClient),
        Err(ConnectorError::NotSupported { feature: "klarna", context: "invoke_sdk_client" })
    );
    assert_eq!(
        infer_stripe_pay_later_type(&PaymentMethodType::Walley, &PaymentExperience::RedirectToUrl),
        Err(ConnectorError::NotSupported { feature: "walley", context: "redirect_to_url" })
    );
    let no_email = PaymentMethodData::PayLater(PayLaterData::KlarnaRedirect {
        billing_email: None,
        billing_country: Some(CountryAlpha2::DE),
    });
    assert_eq!(
        create_stripe_payment_method(
            Some(&PaymentMethodType::Klarna),
            Some(&PaymentExperience::RedirectToUrl),
            &no_email,
            AuthenticationType::NoThreeDs
        ),
        Err(ConnectorError::MissingRequiredField { field_name: "billing_email" })
    );
}

#[test]
fn bank_redirect_names_its_bank() {
    let ideal = BankRedirectData::Ideal {
        bank_name: Some(BankNames::Ing),
        billing_name: Some("Ada Lovelace".to_string()),
    };
    let (method, stripe_type, billing) = create_stripe_payment_method(
        Some(&PaymentMethodType::Ideal),
        None,
        &PaymentMethodData::BankRedirect(ideal.clone()),
        AuthenticationType::NoThreeDs,
    )
    .unwrap();
    assert_eq!(stripe_type, StripePaymentMethodType::Ideal);
    assert_eq!(billing.name.as_deref(), Some("Ada Lovelace"));
    match method {
        StripePaymentMethodData::BankRedirect(redirect) => {
            assert_eq!(
                redirect.bank_name,
                Some(StripeBankName::Ideal { ideal_bank_name: StripeBankNames::Ing })
            );
            assert_eq!(redirect.bank_specific_data, None);
        }
        other => panic!("a bank redirect is mapped to a bank redirect, not {other:?}"),
    }
    assert_eq!(
        infer_stripe_bank_redirect_issuer(None),
        Err(ConnectorError::MissingRequiredField { field_name: "payment_method_type" })
    );
    assert_eq!(
        infer_stripe_bank_redirect_issuer(Some(&PaymentMethodType::Credit)),
        Err(ConnectorError::MismatchedPaymentData)
    );
    let no_bank = BankRedirectData::Ideal { bank_name: None, billing_name: None };
    assert_eq!(
        get_bank_name(&StripePaymentMethodType::Ideal, &no_bank),
        Err(ConnectorError::MissingRequiredField { field_name: "ideal.bank_name" })
    );
    assert_eq!(get_bank_name(&StripePaymentMethodType::Giropay, &no_bank), Ok(None));
    assert_eq!(
        get_bank_name(&StripePaymentMethodType::Eps, &ideal),
        Err(ConnectorError::MismatchedPaymentData)
    );
    assert_eq!(
        StripeBankNames::try_from(&BankNames::AmericanExpress),
        Err(ConnectorError::NotSupported { feature: "bank_redirect", context: "redirect_to_url" })
    );
}

#[test]
fn bank_debit_is_mapped_scheme_by_scheme() {
    let becs = BankDebitData::BecsBankDebit {
        billing_details: None,
        account_number: "000123456".to_string(),
        bsb_number: "000000".to_string(),
    };
    let (stripe_type, data, billing) = get_bank_debit_data(&becs);
    assert_eq!(stripe_type, StripePaymentMethodType::Becs);
    assert_eq!(
        data,
        StripeBankDebit::Becs {
            account_number: "000123456".to_string(),
            bsb_number: "000000".to_string()
        }
    );
    assert_eq!(billing, StripeBillingAddress::empty());
    let ach = BankDebitData::AchBankDebit {
        billing_details: None,
        account_number: "000123456789".to_string(),
        routing_number: "110000000".to_string(),
    };
    let (stripe_type, data, _) = get_bank_debit_data(&ach);
    assert_eq!(stripe_type, StripePaymentMethodType::Ach);
    assert_eq!(
        data,
        StripeBankDebit::Ach {
            account_holder_type: "individual".to_string(),
            account_number: "000123456789".to_string(),
            routing_number: "110000000".to_string(),
        }
    );
    let mapped = create_stripe_payment_method(
        None,
        None,
        &PaymentMethodData::BankDebit(becs),
        AuthenticationType::NoThreeDs,
    )
    .unwrap();
    assert_eq!(mapped.1, StripePaymentMethodType::Becs);
}

#[test]
fn apple_pay_token_is_decoded() {
    let token = apple_pay_token(&apple_pay("eyJ2ZXJzaW9uIjoiRUNfdjEifQ==")).unwrap();
    assert_eq!(token.pk_token, "{\"version\":\"EC_v1\"}");
    assert_eq!(token.pk_token_instrument_name, "debit");
    assert_eq!(token.pk_token_payment_network, "Visa");
    assert_eq!(token.pk_token_transaction_id, "txn_apple");
    assert_eq!(
        apple_pay_token(&apple_pay("not base64!")),
        Err(ConnectorError::RequestEncodingFailed)
    );
    assert_eq!(apple_pay_token(&apple_pay("/w==")), Err(ConnectorError::RequestEncodingFailed));
}

#[test]
fn what_stripe_is_not_handed_is_not_implemented() {
    for (data, name) in [
        (PaymentMethodData::Crypto, "Crypto"),
        (PaymentMethodData::Upi, "Upi"),
        (PaymentMethodData::Reward, "Reward"),
        (PaymentMethodData::MandatePayment, "MandatePayment"),
    ] {
        assert!(!supports(&data));
        assert_eq!(
            create_stripe_payment_method(None, None, &data, AuthenticationType::NoThreeDs),
            Err(ConnectorError::NotImplemented { connector: "Stripe", feature: name })
        );
    }
    let google_pay = PaymentMethodData::Wallet(WalletData::GooglePay(GooglePayWalletData {
        pm_type: "CARD".to_string(),
        description: "Visa 1111".to_string(),
        token: "token".to_string(),
    }));
    assert!(!supports(&google_pay));
    assert_eq!(
        create_stripe_payment_method(None, None, &google_pay, AuthenticationType::NoThreeDs),
        Err(ConnectorError::NotImplemented { connector: "Stripe", feature: "GooglePay" })
    );
    assert!(supports(&PaymentMethodData::Card(card())));
    assert_eq!(
        StripePaymentMethodData::try_from(
            &google_pay,
            AuthenticationType::NoThreeDs,
            StripePaymentMethodType::Card
        ),
        Err(ConnectorError::InvalidWallet)
    );
    assert_eq!(
        StripePaymentMethodData::try_from(
            &PaymentMethodData::Crypto,
            AuthenticationType::NoThreeDs,
            StripePaymentMethodType::Card
        ),
        Err(ConnectorError::NotSupported { feature: "Card", context: "redirect_to_url" })
    );
}

#[test]
fn shipping_address_joins_name_and_phone() {
    let item = authorize(PaymentMethodData::Card(card()));
    let shipping = shipping_address(&item.address.shipping);
    assert_eq!(shipping.name.as_deref(), Some("Ada "));
    assert_eq!(shipping.phone.as_deref(), Some("+49301234567"));
    assert_eq!(shipping.city.as_deref(), Some("Berlin"));
    assert_eq!(shipping.country, Some(CountryAlpha2::DE));
    assert_eq!(shipping.line1.as_deref(), Some("Unter den Linden 1"));
    assert_eq!(shipping.zip.as_deref(), Some("10117"));
    let none = shipping_address(&None);
    assert_eq!(none.name, None);
    assert_eq!(none.phone, None);
    assert_eq!(
        validate_shipping_address_against_payment_method(
            &none,
            &StripePaymentMethodType::AfterpayClearpay
        ),
        Err(ConnectorError::MissingRequiredField { field_name: "shipping.address.first_name" })
    );
    assert_eq!(
        validate_shipping_address_against_payment_method(&none, &StripePaymentMethodType::Card),
        Ok(())
    );
    assert_eq!(
        validate_shipping_address_against_payment_method(
            &shipping,
            &StripePaymentMethodType::AfterpayClearpay
        ),
        Ok(())
    );
}

#[test]
fn payment_intent_carries_the_payment() {
    let mut item = authorize(PaymentMethodData::Card(card()));
    item.request.setup_mandate_details = Some(MandateData {
        customer_acceptance: Some(CustomerAcceptance {
            online: Some(OnlineMandate {
                ip_address: Some("203.0.113.7".to_string()),
                user_agent: "Mozilla/5.0".to_string(),
            }),
        }),
    });
    let request = PaymentIntentRequest::try_from_with_uuid(&item, "uuid-1".to_string()).unwrap();
    assert_eq!(request.amount, 1000);
    assert_eq!(request.currency, "EUR");
    assert_eq!(request.statement_descriptor_suffix.as_deref(), Some("BOOKS"));
    assert_eq!(request.metadata_order_id, "pay_1");
    assert_eq!(request.metadata_txn_id, "merchant_1_pay_1_1");
    assert_eq!(request.metadata_txn_uuid, "uuid-1");
    assert_eq!(request.return_url, "https://juspay.in/");
    assert!(request.confirm);
    assert_eq!(request.mandate, None);
    assert_eq!(request.payment_method, None);
    assert_eq!(request.payment_method_options, None);
    assert_eq!(request.customer.as_deref(), Some("cus_1"));
    assert_eq!(request.description.as_deref(), Some("Two books"));
    assert_eq!(request.capture_method, StripeCaptureMethod::Manual);
    assert_eq!(request.setup_future_usage, Some(FutureUsage::OnSession));
    assert_eq!(request.shipping.name.as_deref(), Some("Ada "));
    assert_eq!(request.billing, StripeBillingAddress::empty());
    assert!(matches!(request.payment_data, Some(StripePaymentMethodData::Card(_))));
    assert_eq!(
        request.setup_mandate_details,
        Some(StripeMandateRequest {
            mandate_type: StripeMandateType::Online,
            ip_address: Some("203.0.113.7".to_string()),
            user_agent: "Mozilla/5.0".to_string(),
        })
    );
}

#[test]
fn payment_intent_draws_a_fresh_id_each_time() {
    let item = authorize(PaymentMethodData::Card(card()));
    let first = PaymentIntentRequest::try_from(&item).unwrap();
    let second = PaymentIntentRequest::try_from(&item).unwrap();
    assert_eq!(first.metadata_txn_uuid.len(), 36);
    assert_ne!(first.metadata_txn_uuid, second.metadata_txn_uuid);
    assert_eq!(first.metadata_txn_id, second.metadata_txn_id);
}

#[test]
fn payment_intent_on_a_mandate_names_the_mandate() {
    let mut item = authorize(PaymentMethodData::Crypto);
    item.request.mandate_id = Some(MandateIds {
        mandate_id: None,
        mandate_reference_id: Some(MandateReferenceId::ConnectorMandateId(
            ConnectorMandateReferenceId {
                connector_mandate_id: Some("pm_stored".to_string()),
                payment_method_id: None,
            },
        )),
    });
    let request = PaymentIntentRequest::try_from_with_uuid(&item, "uuid-1".to_string()).unwrap();
    assert_eq!(request.payment_method.as_deref(), Some("pm_stored"));
    assert_eq!(request.payment_data, None);
    assert_eq!(request.payment_method_options, None);

    item.request.mandate_id = Some(MandateIds {
        mandate_id: None,
        mandate_reference_id: Some(MandateReferenceId::NetworkMandateId("ntx_1".to_string())),
    });
    let request = PaymentIntentRequest::try_from_with_uuid(&item, "uuid-1".to_string()).unwrap();
    assert_eq!(request.payment_method, None);
    assert_eq!(request.payment_data, None);
    assert_eq!(
        request.payment_method_options,
        Some(StripePaymentMethodOptions::Card {
            mandate_options: None,
            network_transaction_id: None,
            mit_exemption: Some(MitExemption { network_transaction_id: "ntx_1".to_string() }),
        })
    );

    item.request.mandate_id = None;
    assert_eq!(
        PaymentIntentRequest::try_from_with_uuid(&item, "uuid-1".to_string()),
        Err(ConnectorError::NotImplemented { connector: "Stripe", feature: "Crypto" })
    );
}

#[test]
fn apple_pay_payment_goes_by_the_token_of_stripe() {
    let wallet = WalletData::ApplePay(apple_pay("eyJ2ZXJzaW9uIjoiRUNfdjEifQ=="));
    let mut item = authorize(PaymentMethodData::Wallet(wallet));
    assert_eq!(
        PaymentIntentRequest::try_from_with_uuid(&item, "uuid-1".to_string()),
        Err(ConnectorError::RequestEncodingFailed)
    );
    item.payment_method_token = Some(PaymentMethodToken::Token("tok_1".to_string()));
    let request = PaymentIntentRequest::try_from_with_uuid(&item, "uuid-1".to_string()).unwrap();
    assert_eq!(
        request.payment_data,
        Some(StripePaymentMethodData::Wallet(StripeWallet::ApplepayPayment(ApplepayPayment {
            token: "tok_1".to_string(),
            payment_method_types: StripePaymentMethodType::Card,
        })))
    );
}

#[test]
fn afterpay_needs_a_full_shipping_address() {
    let afterpay = PaymentMethodData::PayLater(PayLaterData::AfterpayClearpayRedirect {
        billing_email: Some("ada@example.com".to_string()),
        billing_name: Some("Ada Lovelace".to_string()),
    });
    let mut item = authorize(afterpay);
    item.request.payment_method_type = Some(PaymentMethodType::AfterpayClearpay);
    item.request.payment_experience = Some(PaymentExperience::RedirectToUrl);
    assert!(PaymentIntentRequest::try_from_with_uuid(&item, "uuid-1".to_string()).is_ok());
    item.address.shipping = None;
    assert_eq!(
        PaymentIntentRequest::try_from_with_uuid(&item, "uuid-1".to_string()),
        Err(ConnectorError::MissingRequiredField { field_name: "shipping.address.first_name" })
    );
}

#[test]
fn smaller_requests_are_built() {
    let setup = context(SetupMandateRequestData {
        currency: Currency::EUR,
        payment_method_data: PaymentMethodData::Card(card()),
        confirm: true,
        statement_descriptor_suffix: None,
        mandate_id: None,
        setup_future_usage: Some(FutureUsage::OffSession),
        off_session: Some(true),
        setup_mandate_details: None,
        router_return_url: None,
        email: None,
        customer_name: None,
        browser_info: None,
        customer_acceptance: None,
        request_incremental_authorization: false,
        metadata: None,
        shipping_cost: None,
    });
    let request = SetupIntentRequest::try_from_with_uuid(&setup, "uuid-2".to_string()).unwrap();
    assert!(request.confirm);
    assert_eq!(request.metadata_order_id, "pay_1");
    assert_eq!(request.metadata_txn_id, "merchant_1_pay_1_1");
    assert_eq!(request.metadata_txn_uuid, "uuid-2");
    assert_eq!(request.usage, Some(FutureUsage::OffSession));
    assert_eq!(request.off_session, Some(true));
    assert_eq!(request.customer.as_deref(), Some("cus_1"));
    assert!(matches!(request.payment_data, StripePaymentMethodData::Card(_)));
    assert_eq!(SetupIntentRequest::try_from(&setup).unwrap().metadata_txn_uuid.len(), 36);

    let token = context(PaymentMethodTokenizationData {
        payment_method_data: PaymentMethodData::Card(card()),
        currency: Currency::EUR,
    });
    let request = TokenRequest::try_from(&token).unwrap();
    assert!(matches!(request.token_data, StripePaymentMethodData::Card(_)));

    let customer = context(ConnectorCustomerData {
        description: None,
        email: Some("ada@example.com".to_string()),
        phone: None,
        name: Some("Ada".to_string()),
    });
    assert_eq!(
        CustomerRequest::try_from(&customer),
        Ok(CustomerRequest {
            description: None,
            email: Some("ada@example.com".to_string()),
            phone: None,
            name: Some("Ada".to_string()),
        })
    );

    let refund = context(RefundsData {
        refund_id: "refund_1".to_string(),
        connector_transaction_id: "pi_1".to_string(),
        currency: Currency::EUR,
        refund_amount: 250,
        reason: None,
        split_refunds: None,
    });
    assert_eq!(
        RefundRequest::try_from(&refund),
        Ok(RefundRequest {
            amount: Some(250),
            payment_intent: "pi_1".to_string(),
            metadata_order_id: "pay_1".to_string(),
            metadata_txn_id: "Fetch txn_id from DB".to_string(),
            metadata_txn_uuid: "Fetch txn_id from DB".to_string(),
        })
    );

    let cancel = context(PaymentsCancelData {
        amount: None,
        currency: None,
        connector_transaction_id: "pi_1".to_string(),
        cancellation_reason: Some("requested_by_customer".to_string()),
        metadata: None,
    });
    assert_eq!(
        CancelRequest::try_from(&cancel),
        Ok(CancelRequest { cancellation_reason: Some("requested_by_customer".to_string()) })
    );

    let capture = context(PaymentsCaptureData {
        amount_to_capture: 700,
        currency: Currency::EUR,
        connector_transaction_id: "pi_1".to_string(),
        multiple_capture_data: None,
        metadata: None,
    });
    assert_eq!(
        CaptureRequest::try_from(&capture),
        Ok(CaptureRequest { amount_to_capture: Some(700) })
    );
    assert_eq!(StripeCaptureMethod::from(None), StripeCaptureMethod::Automatic);
    assert_eq!(
        StripeCaptureMethod::from(Some(CaptureMethod::Automatic)),
        StripeCaptureMethod::Automatic
    );
    assert_eq!(
        StripeCaptureMethod::from(Some(CaptureMethod::Scheduled)),
        StripeCaptureMethod::Manual
    );
    assert_eq!(
        StripeAuthType::try_from(&ConnectorAuthType::NoKey),
        Err(ConnectorError::FailedToObtainAuthType)
    );
}

#[test]
fn statuses_are_mapped() {
    let expected = [
        (StripePaymentStatus::Succeeded, AttemptStatus::Charged),
        (StripePaymentStatus::Failed, AttemptStatus::Failure),
        (StripePaymentStatus::Processing, AttemptStatus::Authorizing),
        (StripePaymentStatus::RequiresCustomerAction, AttemptStatus::AuthenticationPending),
        (StripePaymentStatus::RequiresPaymentMethod, AttemptStatus::PaymentMethodAwaited),
        (StripePaymentStatus::RequiresConfirmation, AttemptStatus::ConfirmationAwaited),
        (StripePaymentStatus::Canceled, AttemptStatus::Voided),
        (StripePaymentStatus::RequiresCapture, AttemptStatus::Authorized),
        (StripePaymentStatus::Pending, AttemptStatus::Pending),
    ];
    for (status, attempt) in expected {
        assert_eq!(attempt_status_from(status), attempt);
    }
    use_refund_statuses();
}

fn use_refund_statuses() {
    assert_eq!(
        refund_status_from(StripeRefundStatus::Succeeded),
        payment_connectors::enums::RefundStatus::Success
    );
    assert_eq!(
        refund_status_from(StripeRefundStatus::Failed),
        payment_connectors::enums::RefundStatus::Failure
    );
    assert_eq!(
        refund_status_from(StripeRefundStatus::Pending),
        payment_connectors::enums::RefundStatus::Pending
    );
    assert_eq!(
        refund_status_from(StripeRefundStatus::RequiresAction),
        payment_connectors::enums::RefundStatus::ManualReview
    );
}

#[test]
fn payment_intent_response_is_put_into_the_request() {
    let mut response = intent(StripePaymentStatus::RequiresCustomerAction);
    response.amount_received = 300;
    response.next_action = Some(StripeNextActionResponse::RedirectToUrl(
        StripeRedirectToUrlResponse {
            return_url: "https://shop.example.com/return".to_string(),
            url: "https://hooks.stripe.com/redirect/authenticate/src_1?client_secret=cs_1&x=2"
                .to_string(),
        },
    ));
    response.latest_attempt = Some(LatestAttempt {
        payment_method_options: Some(StripePaymentMethodOptions::Card {
            mandate_options: None,
            network_transaction_id: Some("ntx_9".to_string()),
            mit_exemption: None,
        }),
    });
    let updated = payment_intent_response(ResponseRouterData {
        response,
        data: authorize(PaymentMethodData::Card(card())),
        http_code: 200,
    })
    .unwrap();
    assert_eq!(updated.status, AttemptStatus::AuthenticationPending);
    assert_eq!(updated.amount_captured, Some(300));
    assert_eq!(updated.merchant_id, "merchant_1");
    match updated.response.unwrap() {
        PaymentsResponseData::TransactionResponse {
            resource_id,
            redirection_data,
            mandate_reference,
            network_txn_id,
            ..
        } => {
            assert_eq!(resource_id, ResponseId::ConnectorTransactionId("pi_1".to_string()));
            assert_eq!(
                mandate_reference.and_then(|m| m.connector_mandate_id).as_deref(),
                Some("pm_1")
            );
            assert_eq!(network_txn_id.as_deref(), Some("ntx_9"));
            match redirection_data.unwrap() {
                RedirectForm::Form { endpoint, method, form_fields } => {
                    assert_eq!(endpoint, "https://hooks.stripe.com/redirect/authenticate/src_1");
                    assert_eq!(method, Method::Get);
                    assert_eq!(form_fields.len(), 2);
                    assert!(form_fields.contains(&field("client_secret", "cs_1")));
                    assert!(form_fields.contains(&field("x", "2")));
                }
            }
        }
        other => panic!("unexpected response data {other:?}"),
    }
}

#[test]
fn next_action_without_an_address_cannot_be_read() {
    let mut response = intent(StripePaymentStatus::RequiresCustomerAction);
    response.next_action = Some(StripeNextActionResponse::RedirectToUrl(
        StripeRedirectToUrlResponse {
            return_url: "https://shop.example.com/return".to_string(),
            url: "no address".to_string(),
        },
    ));
    assert_eq!(
        payment_intent_response(ResponseRouterData {
            response,
            data: authorize(PaymentMethodData::Card(card())),
            http_code: 200,
        }),
        Err(ConnectorError::ResponseHandlingFailed)
    );
}

#[test]
fn sync_response_reports_the_last_failure() {
    let mut fields = intent(StripePaymentStatus::RequiresPaymentMethod);
    fields.payment_method_options = Some(StripePaymentMethodOptions::Card {
        mandate_options: Some(StripeMandateOptions { reference: "mandate_ref".to_string() }),
        network_transaction_id: None,
        mit_exemption: None,
    });
    let updated = sync_response(ResponseRouterData {
        response: PaymentIntentSyncResponse {
            payment_intent_fields: fields.clone(),
            last_payment_error: None,
        },
        data: authorize(PaymentMethodData::Card(card())),
        http_code: 200,
    })
    .unwrap();
    assert_eq!(updated.status, AttemptStatus::PaymentMethodAwaited);
    match updated.response.unwrap() {
        PaymentsResponseData::TransactionResponse { mandate_reference, network_txn_id, .. } => {
            assert_eq!(
                mandate_reference.and_then(|m| m.connector_mandate_id).as_deref(),
                Some("mandate_ref")
            );
            assert_eq!(network_txn_id, None);
        }
        other => panic!("unexpected response data {other:?}"),
    }
    let failed = sync_response(ResponseRouterData {
        response: PaymentIntentSyncResponse {
            payment_intent_fields: fields,
            last_payment_error: Some(LastPaymentError {
                code: "card_declined".to_string(),
                message: "Your card was declined.".to_string(),
            }),
        },
        data: authorize(PaymentMethodData::Card(card())),
        http_code: 402,
    })
    .unwrap();
    let error = failed.response.unwrap_err();
    assert_eq!(error.code, "card_declined");
    assert_eq!(error.message, "Your card was declined.");
    assert_eq!(error.reason, None);
    assert_eq!(error.status_code, 402);

    let unnamed = sync_response(ResponseRouterData {
        response: PaymentIntentSyncResponse {
            payment_intent_fields: intent(StripePaymentStatus::RequiresPaymentMethod),
            last_payment_error: Some(LastPaymentError {
                code: String::new(),
                message: String::new(),
            }),
        },
        data: authorize(PaymentMethodData::Card(card())),
        http_code: 402,
    })
    .unwrap();
    let error = unnamed.response.unwrap_err();
    assert_eq!(error.code, "No error code");
    assert_eq!(error.message, "No error message");
}

#[test]
fn other_responses_are_put_into_the_request() {
    let setup = setup_intent_response(ResponseRouterData {
        response: SetupIntentResponse {
            id: "seti_1".to_string(),
            object: "setup_intent".to_string(),
            status: StripePaymentStatus::Succeeded,
            client_secret: "SECRET-REDACTED".to_string(),
            customer: None,
            payment_method: Some("pm_2".to_string()),
            statement_descriptor: None,
            statement_descriptor_suffix: None,
            metadata: metadata(),
            next_action: None,
            payment_method_options: None,
            latest_attempt: None,
        },
        data: authorize(PaymentMethodData::Card(card())),
        http_code: 200,
    })
    .unwrap();
    assert_eq!(setup.status, AttemptStatus::Charged);
    assert_eq!(setup.amount_captured, None);
    match setup.response.unwrap() {
        PaymentsResponseData::TransactionResponse { resource_id, mandate_reference, .. } => {
            assert_eq!(resource_id, ResponseId::ConnectorTransactionId("seti_1".to_string()));
            assert_eq!(
                mandate_reference.and_then(|m| m.connector_mandate_id).as_deref(),
                Some("pm_2")
            );
        }
        other => panic!("unexpected response data {other:?}"),
    }
    let token = token_response(ResponseRouterData {
        response: StripeTokenResponse { id: "tok_1".to_string(), object: "token".to_string() },
        data: authorize(PaymentMethodData::Card(card())),
        http_code: 200,
    })
    .unwrap();
    assert_eq!(
        token.response,
        Ok(PaymentsResponseData::TokenizationResponse { token: "tok_1".to_string() })
    );
    assert_eq!(token.status, AttemptStatus::Started);
    let customer = customer_response(ResponseRouterData {
        response: StripeCustomerResponse {
            id: "cus_2".to_string(),
            description: None,
            email: None,
            phone: None,
            name: None,
        },
        data: authorize(PaymentMethodData::Card(card())),
        http_code: 200,
    })
    .unwrap();
    assert_eq!(
        customer.response,
        Ok(PaymentsResponseData::ConnectorCustomerResponse {
            connector_customer_id: "cus_2".to_string()
        })
    );
    let refund = refund_response(ResponseRouterData {
        response: RefundResponse {
            id: "re_1".to_string(),
            object: "refund".to_string(),
            amount: 250,
            currency: "eur".to_string(),
            metadata: metadata(),
            payment_intent: "pi_1".to_string(),
            status: StripeRefundStatus::RequiresAction,
        },
        data: context(RefundsData {
            refund_id: "refund_1".to_string(),
            connector_transaction_id: "pi_1".to_string(),
            currency: Currency::EUR,
            refund_amount: 250,
            reason: None,
            split_refunds: None,
        }),
        http_code: 200,
    })
    .unwrap();
    let response = refund.response.unwrap();
    assert_eq!(response.connector_refund_id, "re_1");
    assert_eq!(response.refund_status, payment_connectors::enums::RefundStatus::ManualReview);
}
