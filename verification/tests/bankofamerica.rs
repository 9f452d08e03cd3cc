use payment_connectors::address::{Address, AddressDetails, PaymentAddress};
use payment_connectors::bankofamerica::error::{
    avs_message, error_response_from, get_error_reason, join_details, rejection,
};
use payment_connectors::bankofamerica::payment_request::supports;
use payment_connectors::bankofamerica::request::{
    build_bill_to, card_type_of_issuer, commerce_indicator_for, get_boa_card_type,
    get_commerce_indicator, merchant_defined_information_of, payment_solution_code,
    request_metadata, ucaf_collection_indicator,
};
use payment_connectors::bankofamerica::response::{
    authorize_response, capture_response, refund_response, rsync_response,
};
use payment_connectors::bankofamerica::status::{attempt_status_from, refund_status_from};
use payment_connectors::bankofamerica::types::{
    BankOfAmericaAuthType, BankOfAmericaClientReferenceResponse, BankOfAmericaErrorInformation,
    BankOfAmericaErrorInformationResponse, BankOfAmericaPaymentInstrument,
    BankOfAmericaPaymentsRequest, BankOfAmericaPaymentsResponse, BankOfAmericaRefundRequest,
    BankOfAmericaRefundResponse, BankOfAmericaRouterData, BankOfAmericaRsyncResponse,
    BankOfAmericaTokenInformation, BankofamericaPaymentStatus, BankofamericaRefundStatus,
    ClientReferenceInformation, ClientRiskInformation, ClientRiskInformationRules, Details,
    MerchantDefinedInformation, PaymentInformation, PaymentSolution, RsyncApplicationInformation,
};
use payment_connectors::country::CountryAlpha2;
use payment_connectors::currency::{Currency, MinorUnit};
use payment_connectors::enums::{
    AttemptStatus, AuthenticationType, CaptureMethod, CardIssuer, CardNetwork, CurrencyUnit,
    PaymentMethod, PaymentMethodType, RefundStatus,
};
use payment_connectors::errors::ConnectorError;
use payment_connectors::payment_method_data::{
    Card, GooglePayWalletData, PaymentMethodData, WalletData,
};
use payment_connectors::router_data::{
    ConnectorAuthType, PaymentsAuthorizeData, PaymentsAuthorizeRouterData, PaymentsCaptureData,
    RefundsData, ResponseRouterData, RouterData,
};
use payment_connectors::router_response::{ErrorResponse, PaymentsResponseData, ResponseId};

fn context<Request, Response>(request: Request) -> RouterData<Request, Response> {
    RouterData {
        merchant_id: "merchant_1".to_string(),
        customer_id: None,
        connector_customer: None,
        payment_id: "pay_1".to_string(),
        attempt_id: "pay_1_1".to_string(),
        status: AttemptStatus::Started,
        payment_method: PaymentMethod::Card,
        connector_auth_type: ConnectorAuthType::SignatureKey {
            api_key: "key".to_string(),
            key1: "merchant_account".to_string(),
            api_secret: "SECRET-REDACTED".to_string(),
        },
        description: None,
        address: PaymentAddress {
            billing: Some(Address {
                address: Some(AddressDetails {
                    city: Some("San Francisco".to_string()),
                    country: Some(CountryAlpha2::US),
                    line1: Some("1 Market Street".to_string()),
                    line2: None,
                    line3: None,
                    zip: Some("94105".to_string()),
                    state: Some("California".to_string()),
                    first_name: Some("Ada".to_string()),
                    last_name: Some("Lovelace".to_string()),
                }),
                phone: None,
                email: None,
            }),
            shipping: None,
        },
        auth_type: AuthenticationType::NoThreeDs,
        connector_meta_data: None,
        amount_captured: None,
        payment_method_token: None,
        recurring_mandate_payment_data: None,
        connector_request_reference_id: "ref_1".to_string(),
        payment_method_balance: None,
        connector_http_status_code: Some(200),
        connector_response: None,
        payout_method_data: None,
        test_mode: None,
        request,
        response: Err(ErrorResponse::from_connector(None, None, None, 0, None, None, None, None)),
    }
}

fn authorize(payment_method_data: PaymentMethodData) -> PaymentsAuthorizeRouterData {
    context(PaymentsAuthorizeData {
        payment_method_data,
        amount: 1000,
        minor_amount: MinorUnit::new(1000),
        currency: Currency::USD,
        email: Some("ada@example.com".to_string()),
        customer_name: None,
        confirm: true,
        statement_descriptor_suffix: None,
        statement_descriptor: None,
        capture_method: Some(CaptureMethod::Automatic),
        router_return_url: None,
        browser_info: None,
        order_details: None,
        setup_future_usage: None,
        off_session: None,
        mandate_id: None,
        setup_mandate_details: None,
        customer_acceptance: None,
        payment_experience: None,
        payment_method_type: Some(PaymentMethodType::Credit),
        metadata: Some("{\"order\":\"A-7\",\"count\":2}".to_string()),
        split_payments: None,
        merchant_order_reference_id: None,
        request_incremental_authorization: false,
        shipping_cost: None,
        enrolled_for_3ds: false,
        order_tax_amount: None,
    })
}

fn card() -> Card {
    Card {
        card_number: "4111111111111111".to_string(),
        card_exp_month: "03".to_string(),
        card_exp_year: "2030".to_string(),
        card_cvc: "737".to_string(),
        card_network: Some(CardNetwork::Visa),
        card_issuer: Some(CardIssuer::Visa),
        card_holder_name: None,
    }
}

fn taken_on(id: &str, status: BankofamericaPaymentStatus) -> BankOfAmericaClientReferenceResponse {
    BankOfAmericaClientReferenceResponse {
        id: id.to_string(),
        status,
        client_reference_information: ClientReferenceInformation { code: Some("ref_1".to_string()) },
        processor_information: None,
        processing_information: None,
        payment_information: None,
        payment_insights_information: None,
        risk_information: None,
        token_information: None,
        error_information: None,
        issuer_information: None,
        sender_information: None,
        payment_account_information: None,
        reconciliation_id: None,
        consumer_authentication_information: None,
    }
}

fn s(text: &str) -> Option<String> {
    Some(text.to_string())
}

#[test]
fn error_reason_is_composed_of_what_is_present() {
    assert_eq!(
        get_error_reason(s("Declined"), s("number : invalid"), s("rule_1")).as_deref(),
        Some("Declined, detailed_error_information: number : invalid, avs_message: rule_1")
    );
    assert_eq!(
        get_error_reason(s("Declined"), s("number : invalid"), None).as_deref(),
        Some("Declined, detailed_error_information: number : invalid")
    );
    assert_eq!(
        get_error_reason(s("Declined"), None, s("rule_1")).as_deref(),
        Some("Declined, avs_message: rule_1")
    );
    assert_eq!(
        get_error_reason(None, s("number : invalid"), s("rule_1")).as_deref(),
        Some("number : invalid, avs_message: rule_1")
    );
    assert_eq!(get_error_reason(s("Declined"), None, None).as_deref(), Some("Declined"));
    assert_eq!(get_error_reason(None, s("d"), None).as_deref(), Some("d"));
    assert_eq!(get_error_reason(None, None, s("a")).as_deref(), Some("a"));
    assert_eq!(get_error_reason(None, None, None), None);
}

#[test]
fn error_reason_is_the_same_every_time() {
    let first = get_error_reason(s("Declined"), s("number : invalid"), s("rule_1"));
    let second = get_error_reason(s("Declined"), s("number : invalid"), s("rule_1"));
    assert_eq!(first, second);
    assert_eq!(
        first.as_ref().map(|r| r.as_bytes().to_vec()),
        second.as_ref().map(|r| r.as_bytes().to_vec())
    );
}

#[test]
fn details_and_rules_are_written_out() {
    let details = vec![
        Details { field: "card.number".to_string(), reason: "INVALID_DATA".to_string() },
        Details { field: "card.expirationYear".to_string(), reason: "MISSING_FIELD".to_string() },
    ];
    assert_eq!(
        join_details(&details),
        "card.number : INVALID_DATA, card.expirationYear : MISSING_FIELD"
    );
    assert_eq!(join_details(&Vec::new()), "");
    assert_eq!(avs_message(&None), None);
    let no_rules = ClientRiskInformation { rules: None, profile: None, score: None, info_codes: None };
    assert_eq!(avs_message(&Some(no_rules)), None);
    let rules = ClientRiskInformation {
        rules: Some(vec![
            ClientRiskInformationRules { name: s("velocity") },
            ClientRiskInformationRules { name: None },
            ClientRiskInformationRules { name: s("country") },
        ]),
        profile: None,
        score: None,
        info_codes: None,
    };
    let message = avs_message(&Some(rules)).unwrap();
    assert!(message.contains("velocity"));
    assert!(message.contains("country"));
}

#[test]
fn error_response_names_code_message_and_reason() {
    let error = BankOfAmericaErrorInformation {
        reason: s("PROCESSOR_DECLINED"),
        message: s("Declined"),
        details: Some(vec![Details { field: "card".to_string(), reason: "EXPIRED".to_string() }]),
    };
    let no_rules = ClientRiskInformation { rules: None, profile: None, score: None, info_codes: None };
    let response = error_response_from(
        &Some(error),
        &Some(no_rules),
        Some(AttemptStatus::Failure),
        402,
        "txn_1".to_string(),
    );
    assert_eq!(response.code, "PROCESSOR_DECLINED");
    assert_eq!(response.message, "PROCESSOR_DECLINED");
    assert_eq!(
        response.reason.as_deref(),
        Some("Declined, detailed_error_information: card : EXPIRED")
    );
    assert_eq!(response.status_code, 402);
    assert_eq!(response.attempt_status, Some(AttemptStatus::Failure));
    assert_eq!(response.connector_transaction_id.as_deref(), Some("txn_1"));

    let bare = error_response_from(&None, &None, None, 500, "txn_2".to_string());
    assert_eq!(bare.code, "No error code");
    assert_eq!(bare.message, "No error message");
    assert_eq!(bare.reason, None);
    let message_alone = BankOfAmericaErrorInformation {
        reason: s(""),
        message: s("Declined"),
        details: None,
    };
    let alone = error_response_from(&Some(message_alone), &None, None, 402, "txn_2".to_string());
    assert_eq!(alone.reason.as_deref(), Some("Declined"));
    assert_eq!(alone.code, "No error code");
    assert_eq!(alone.message, "No error message");
    assert!(!bare.code.is_empty() && !bare.message.is_empty());
}

#[test]
fn rejection_is_an_error_response() {
    let response = rejection(
        &BankOfAmericaErrorInformationResponse {
            id: "txn_3".to_string(),
            error_information: BankOfAmericaErrorInformation {
                reason: None,
                message: None,
                details: None,
            },
        },
        400,
    );
    assert_eq!(response.code, "No error code");
    assert_eq!(response.message, "No error message");
    assert_eq!(response.status_code, 400);
    assert_eq!(response.connector_transaction_id.as_deref(), Some("txn_3"));
}

#[test]
fn payment_status_follows_the_capture_mode() {
    assert_eq!(attempt_status_from(BankofamericaPaymentStatus::Authorized, true), AttemptStatus::Charged);
    assert_eq!(attempt_status_from(BankofamericaPaymentStatus::Authorized, false), AttemptStatus::Authorized);
    assert_eq!(attempt_status_from(BankofamericaPaymentStatus::AuthorizedPendingReview, false), AttemptStatus::Authorized);
    assert_eq!(attempt_status_from(BankofamericaPaymentStatus::Pending, true), AttemptStatus::Charged);
    assert_eq!(attempt_status_from(BankofamericaPaymentStatus::Pending, false), AttemptStatus::Pending);
    assert_eq!(attempt_status_from(BankofamericaPaymentStatus::Succeeded, false), AttemptStatus::Charged);
    assert_eq!(attempt_status_from(BankofamericaPaymentStatus::Transmitted, false), AttemptStatus::Charged);
    for status in [BankofamericaPaymentStatus::Voided, BankofamericaPaymentStatus::Reversed, BankofamericaPaymentStatus::Cancelled] {
        assert_eq!(attempt_status_from(status, true), AttemptStatus::Voided);
    }
    for status in [
        BankofamericaPaymentStatus::Failed,
        BankofamericaPaymentStatus::Declined,
        BankofamericaPaymentStatus::AuthorizedRiskDeclined,
        BankofamericaPaymentStatus::InvalidRequest,
        BankofamericaPaymentStatus::Rejected,
        BankofamericaPaymentStatus::ServerError,
    ] {
        assert_eq!(attempt_status_from(status, false), AttemptStatus::Failure);
    }
    assert_eq!(
        attempt_status_from(BankofamericaPaymentStatus::PendingAuthentication, false),
        AttemptStatus::AuthenticationPending
    );
    for status in [BankofamericaPaymentStatus::PendingReview, BankofamericaPaymentStatus::Challenge, BankofamericaPaymentStatus::Accepted] {
        assert_eq!(attempt_status_from(status, true), AttemptStatus::Pending);
    }
}

#[test]
fn refund_status_is_mapped() {
    assert_eq!(refund_status_from(BankofamericaRefundStatus::Succeeded, &None), RefundStatus::Success);
    assert_eq!(refund_status_from(BankofamericaRefundStatus::Transmitted, &None), RefundStatus::Success);
    assert_eq!(refund_status_from(BankofamericaRefundStatus::Failed, &None), RefundStatus::Failure);
    assert_eq!(refund_status_from(BankofamericaRefundStatus::Voided, &None), RefundStatus::Failure);
    assert_eq!(refund_status_from(BankofamericaRefundStatus::Cancelled, &None), RefundStatus::Failure);
    assert_eq!(refund_status_from(BankofamericaRefundStatus::Pending, &None), RefundStatus::Pending);
    assert_eq!(refund_status_from(BankofamericaRefundStatus::TwoZeroOne, &None), RefundStatus::Pending);
    assert_eq!(
        refund_status_from(BankofamericaRefundStatus::TwoZeroOne, &s("PROCESSOR_DECLINED")),
        RefundStatus::Failure
    );
}

#[test]
fn card_types_and_indicators_are_looked_up() {
    assert_eq!(card_type_of_issuer(CardIssuer::Visa), "001");
    assert_eq!(card_type_of_issuer(CardIssuer::Master), "002");
    assert_eq!(card_type_of_issuer(CardIssuer::AmericanExpress), "003");
    assert_eq!(card_type_of_issuer(CardIssuer::Maestro), "042");
    assert_eq!(get_boa_card_type(CardNetwork::Visa), Some("001"));
    assert_eq!(get_boa_card_type(CardNetwork::Interac), None);
    assert_eq!(payment_solution_code(PaymentSolution::ApplePay), "001");
    assert_eq!(payment_solution_code(PaymentSolution::GooglePay), "012");
    assert_eq!(commerce_indicator_for("amex"), "aesk");
    assert_eq!(commerce_indicator_for("visa"), "internet");
    assert_eq!(get_commerce_indicator(s("AmEx")), "aesk");
    assert_eq!(get_commerce_indicator(s("Discover")), "dipb");
    assert_eq!(get_commerce_indicator(s("MASTERCARD")), "spa");
    assert_eq!(get_commerce_indicator(s("Visa")), "internet");
    assert_eq!(get_commerce_indicator(None), "internet");
    assert_eq!(ucaf_collection_indicator(&"MasterCard".to_string()).as_deref(), Some("2"));
    assert_eq!(ucaf_collection_indicator(&"visa".to_string()), None);
}

#[test]
fn what_the_merchant_attached_is_numbered() {
    let information = merchant_defined_information_of("{\"order\":\"A-7\",\"count\":2}").unwrap();
    assert_eq!(
        information,
        vec![
            MerchantDefinedInformation { key: 1, value: "count=2".to_string() },
            MerchantDefinedInformation { key: 2, value: "order=\"A-7\"".to_string() },
        ]
    );
    assert_eq!(merchant_defined_information_of("{}"), Some(Vec::new()));
    assert_eq!(request_metadata(&None), Ok(None));
    assert_eq!(request_metadata(&s("{\"a\":true}")).unwrap().map(|v| v.len()), Some(1));
    let mut many = String::from("{");
    for i in 0..256 {
        if i > 0 {
            many.push(',');
        }
        many.push_str(&format!("\"k{i}\":{i}"));
    }
    many.push('}');
    assert_eq!(merchant_defined_information_of(&many), None);
    assert_eq!(request_metadata(&Some(many)), Err(ConnectorError::RequestEncodingFailed));
}

#[test]
fn bill_to_takes_the_state_as_a_code() {
    let item = authorize(PaymentMethodData::Card(card()));
    let bill_to =
        build_bill_to(item.address.billing.as_ref(), "ada@example.com".to_string()).unwrap();
    assert_eq!(bill_to.first_name.as_deref(), Some("Ada"));
    assert_eq!(bill_to.last_name.as_deref(), Some("Lovelace"));
    assert_eq!(bill_to.address1.as_deref(), Some("1 Market Street"));
    assert_eq!(bill_to.locality.as_deref(), Some("San Francisco"));
    assert_eq!(bill_to.administrative_area.as_deref(), Some("CA"));
    assert_eq!(bill_to.postal_code.as_deref(), Some("94105"));
    assert_eq!(bill_to.country, Some(CountryAlpha2::US));
    assert_eq!(bill_to.email, "ada@example.com");
    let bare = build_bill_to(None, "ada@example.com".to_string()).unwrap();
    assert_eq!(bare.first_name, None);
    assert_eq!(bare.country, None);
    assert_eq!(bare.email, "ada@example.com");
}

#[test]
fn card_payment_request_is_built() {
    let item = authorize(PaymentMethodData::Card(card()));
    let with_amount =
        BankOfAmericaRouterData::try_from(&CurrencyUnit::Base, Currency::USD, 1000, &item).unwrap();
    assert_eq!(with_amount.amount, "10.00");
    let request = BankOfAmericaPaymentsRequest::try_from(&with_amount).unwrap();
    assert_eq!(request.order_information.amount_details.total_amount, "10.00");
    assert_eq!(request.order_information.amount_details.currency, Currency::USD);
    assert_eq!(request.client_reference_information.code.as_deref(), Some("ref_1"));
    assert_eq!(request.processing_information.capture, Some(true));
    assert_eq!(request.processing_information.commerce_indicator, "internet");
    assert_eq!(request.processing_information.payment_solution, None);
    assert_eq!(request.processing_information.action_list, None);
    assert_eq!(request.merchant_defined_information.as_ref().map(|v| v.len()), Some(2));
    match request.payment_information {
        PaymentInformation::Cards(information) => {
            assert_eq!(information.card.number, "4111111111111111");
            assert_eq!(information.card.expiration_month, "03");
            assert_eq!(information.card.expiration_year, "2030");
            assert_eq!(information.card.security_code, "737");
            assert_eq!(information.card.card_type.as_deref(), Some("001"));
        }
        other => panic!("a card payment pays with a card, not {other:?}"),
    }
    assert_eq!(
        request.order_information.bill_to.and_then(|b| b.administrative_area).as_deref(),
        Some("CA")
    );
}

#[test]
fn google_pay_token_goes_out_in_base64() {
    let wallet = GooglePayWalletData {
        pm_type: "CARD".to_string(),
        description: "Visa 1111".to_string(),
        token: "{\"signature\":\"abc\"}".to_string(),
    };
    let item = authorize(PaymentMethodData::Wallet(WalletData::GooglePay(wallet)));
    let with_amount =
        BankOfAmericaRouterData::try_from(&CurrencyUnit::Base, Currency::USD, 1000, &item).unwrap();
    let request = BankOfAmericaPaymentsRequest::try_from(&with_amount).unwrap();
    assert_eq!(request.processing_information.payment_solution.as_deref(), Some("012"));
    match request.payment_information {
        PaymentInformation::GooglePay(information) => {
            assert_eq!(information.fluid_data.value, "eyJzaWduYXR1cmUiOiJhYmMifQ==")
        }
        other => panic!("a Google Pay payment pays with its token, not {other:?}"),
    }
}

#[test]
fn payment_request_reports_what_is_missing_or_unknown() {
    let mut item = authorize(PaymentMethodData::Card(card()));
    item.request.email = None;
    let with_amount =
        BankOfAmericaRouterData::try_from(&CurrencyUnit::Base, Currency::USD, 1000, &item).unwrap();
    assert_eq!(
        BankOfAmericaPaymentsRequest::try_from(&with_amount),
        Err(ConnectorError::MissingRequiredField { field_name: "email" })
    );
    for (data, name) in [
        (PaymentMethodData::Crypto, "Crypto"),
        (PaymentMethodData::Upi, "Upi"),
        (PaymentMethodData::Reward, "Reward"),
    ] {
        assert!(!supports(&data));
        let item = authorize(data);
        let with_amount =
            BankOfAmericaRouterData::try_from(&CurrencyUnit::Base, Currency::USD, 1000, &item)
                .unwrap();
        assert_eq!(
            BankOfAmericaPaymentsRequest::try_from(&with_amount),
            Err(ConnectorError::NotImplemented { connector: "Bank of America", feature: name })
        );
    }
    assert!(supports(&PaymentMethodData::Card(card())));
    assert_eq!(
        BankOfAmericaAuthType::try_from(&ConnectorAuthType::NoKey),
        Err(ConnectorError::FailedToObtainAuthType)
    );
    assert_eq!(
        BankOfAmericaRouterData::try_from(&CurrencyUnit::Base, Currency::USD, -5, &item).err(),
        Some(ConnectorError::RequestEncodingFailed)
    );
}

#[test]
fn authorized_payment_is_put_into_the_request() {
    let mut response = taken_on("txn_1", BankofamericaPaymentStatus::Authorized);
    response.token_information = Some(BankOfAmericaTokenInformation {
        payment_instrument: Some(BankOfAmericaPaymentInstrument { id: "instrument_1".to_string() }),
    });
    let mut data = authorize(PaymentMethodData::Card(card()));
    data.request.capture_method = Some(CaptureMethod::Manual);
    let updated = authorize_response(ResponseRouterData {
        response: BankOfAmericaPaymentsResponse::ClientReferenceInformation(response),
        data,
        http_code: 201,
    })
    .unwrap();
    assert_eq!(updated.status, AttemptStatus::Authorized);
    match updated.response.unwrap() {
        PaymentsResponseData::TransactionResponse {
            resource_id,
            mandate_reference,
            connector_response_reference_id,
            ..
        } => {
            assert_eq!(resource_id, ResponseId::ConnectorTransactionId("txn_1".to_string()));
            assert_eq!(
                mandate_reference.and_then(|m| m.connector_mandate_id).as_deref(),
                Some("instrument_1")
            );
            assert_eq!(connector_response_reference_id.as_deref(), Some("ref_1"));
        }
        other => panic!("unexpected response data {other:?}"),
    }
}

#[test]
fn declined_payment_is_an_error() {
    let mut response = taken_on("txn_2", BankofamericaPaymentStatus::Declined);
    response.error_information = Some(BankOfAmericaErrorInformation {
        reason: s("PROCESSOR_DECLINED"),
        message: s("Declined"),
        details: None,
    });
    let updated = authorize_response(ResponseRouterData {
        response: BankOfAmericaPaymentsResponse::ClientReferenceInformation(response),
        data: authorize(PaymentMethodData::Card(card())),
        http_code: 201,
    })
    .unwrap();
    assert_eq!(updated.status, AttemptStatus::Failure);
    let error = updated.response.unwrap_err();
    assert_eq!(error.code, "PROCESSOR_DECLINED");
    assert_eq!(error.message, "PROCESSOR_DECLINED");
    assert_eq!(error.reason.as_deref(), Some("Declined"));
    assert_eq!(error.connector_transaction_id.as_deref(), Some("txn_2"));

    let rejected = authorize_response(ResponseRouterData {
        response: BankOfAmericaPaymentsResponse::ErrorInformation(
            BankOfAmericaErrorInformationResponse {
                id: "txn_3".to_string(),
                error_information: BankOfAmericaErrorInformation {
                    reason: None,
                    message: None,
                    details: None,
                },
            },
        ),
        data: authorize(PaymentMethodData::Card(card())),
        http_code: 400,
    })
    .unwrap();
    assert_eq!(rejected.status, AttemptStatus::Failure);
    let error = rejected.response.unwrap_err();
    assert_eq!(error.code, "No error code");
    assert_eq!(error.message, "No error message");
}

#[test]
fn capture_counts_as_charged() {
    let updated = capture_response(ResponseRouterData {
        response: BankOfAmericaPaymentsResponse::ClientReferenceInformation(taken_on(
            "txn_4",
            BankofamericaPaymentStatus::Pending,
        )),
        data: context(PaymentsCaptureData {
            amount_to_capture: 1000,
            currency: Currency::USD,
            connector_transaction_id: "txn_1".to_string(),
            multiple_capture_data: None,
            metadata: None,
        }),
        http_code: 201,
    })
    .unwrap();
    assert_eq!(updated.status, AttemptStatus::Charged);
    assert!(updated.response.is_ok());
}

#[test]
fn refund_is_requested_and_followed_up() {
    let data = context(RefundsData {
        refund_id: "refund_1".to_string(),
        connector_transaction_id: "txn_1".to_string(),
        currency: Currency::USD,
        refund_amount: 250,
        reason: None,
        split_refunds: None,
    });
    let with_amount =
        BankOfAmericaRouterData::try_from(&CurrencyUnit::Base, Currency::USD, 250, &data).unwrap();
    let request = BankOfAmericaRefundRequest::try_from(&with_amount).unwrap();
    assert_eq!(request.order_information.amount_details.total_amount, "2.50");
    assert_eq!(request.order_information.amount_details.currency, Currency::USD);
    assert_eq!(request.client_reference_information.code.as_deref(), Some("refund_1"));
    let updated = refund_response(ResponseRouterData {
        response: BankOfAmericaRefundResponse {
            id: "rf_1".to_string(),
            status: BankofamericaRefundStatus::Pending,
            error_information: None,
        },
        data,
        http_code: 201,
    })
    .unwrap();
    let response = updated.response.unwrap();
    assert_eq!(response.connector_refund_id, "rf_1");
    assert_eq!(response.refund_status, RefundStatus::Pending);
}

#[test]
fn voided_refund_is_reported_as_an_error() {
    let data = context(RefundsData {
        refund_id: "refund_1".to_string(),
        connector_transaction_id: "txn_1".to_string(),
        currency: Currency::USD,
        refund_amount: 250,
        reason: None,
        split_refunds: None,
    });
    let updated = rsync_response(ResponseRouterData {
        response: BankOfAmericaRsyncResponse {
            id: "rf_1".to_string(),
            application_information: Some(RsyncApplicationInformation {
                status: Some(BankofamericaRefundStatus::Voided),
            }),
            error_information: None,
        },
        data,
        http_code: 200,
    })
    .unwrap();
    let error = updated.response.unwrap_err();
    assert_eq!(error.message, "Refund request has been voided.");
    assert_eq!(error.code, "Refund request has been voided.");
    assert_eq!(error.reason.as_deref(), Some("Refund request has been voided."));
    assert_eq!(error.connector_transaction_id.as_deref(), Some("rf_1"));
}
