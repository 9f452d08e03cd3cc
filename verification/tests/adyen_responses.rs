use payment_connectors::address::PaymentAddress;
use payment_connectors::adyen::dispute::{
    accept_dispute_response, get_defence_documents, AdyenAcceptDisputeRequest,
    AdyenDefendDisputeRequest, AdyenDisputeResponse, Evidence,
};
use payment_connectors::adyen::flows::{
    cancel_response, capture_response, convert_payment_authorize_router_response, refund_response,
};
use payment_connectors::adyen::payout::{payout_response, payout_status_from, AdyenPayoutResponse};
use payment_connectors::adyen::response::{
    first_reading, foreign_try_from, get_adyen_response, get_present_to_shopper_response,
    get_qr_code_response, get_qr_metadata, get_redirection_error_response, get_redirection_response,
    optional_milliseconds, parse_payment_response, refusal_error, ParseContext, ResponseReadings,
};
use payment_connectors::adyen::types::{
    ActionType, AdditionalData, AdyenCancelRequest, AdyenCancelResponse, AdyenCaptureRequest,
    AdyenCaptureResponse, AdyenPaymentResponse, AdyenPtsAction, AdyenQrCodeAction,
    AdyenRedirectAction, AdyenRefundRequest, AdyenRefundResponse, AdyenResponse, AdyenRouterData,
    AdyenSplitData, AdyenStatus, Amount, CancelStatus, PaymentType, PresentToShopperResponse,
    QrCodeResponseResponse, RedirectionErrorResponse, RedirectionResponse,
};
use payment_connectors::currency::{Currency, MinorUnit};
use payment_connectors::enums::{
    AdyenSplitType, AttemptStatus, AuthenticationType, CaptureMethod, DisputeStatus, Method,
    PaymentMethod, PaymentMethodType, PayoutEntityType, PayoutStatus, RefundStatus,
};
use payment_connectors::errors::ConnectorError;
use payment_connectors::router_data::{
    AcceptDisputeRequestData, ConnectorAuthType, DefendDisputeRequestData,
    MultipleCaptureRequestData, PaymentsCancelData, PaymentsCaptureData, PaymentsSyncData,
    PayoutsData, RefundsData, ResponseRouterData, RouterData, SubmitEvidenceRequestData,
};
use payment_connectors::router_response::{
    AdyenSplitItem, ConnectorChargeResponseData, ConnectorMetadata, ErrorResponse, FormField,
    PaymentsResponseData, QrCodeInformation, RedirectForm, ResponseId, VoucherNextStepData,
    WaitScreenData,
};

fn context<Request, Response>(request: Request) -> RouterData<Request, Response> {
    RouterData {
        merchant_id: "merchant_1".to_string(),
        customer_id: Some("customer_9".to_string()),
        connector_customer: None,
        payment_id: "pay_1".to_string(),
        attempt_id: "pay_1_1".to_string(),
        status: AttemptStatus::Started,
        payment_method: PaymentMethod::Card,
        connector_auth_type: ConnectorAuthType::BodyKey {
            api_key: "key".to_string(),
            key1: "TestMerchantAccount".to_string(),
        },
        description: None,
        address: PaymentAddress { billing: None, shipping: None },
        auth_type: AuthenticationType::NoThreeDs,
        connector_meta_data: None,
        amount_captured: None,
        payment_method_token: None,
        recurring_mandate_payment_data: None,
        connector_request_reference_id: "ref_1".to_string(),
        payment_method_balance: None,
        connector_http_status_code: Some(200),
        connector_response: None,
        payout_method_data: None,
        test_mode: None,
        request,
        response: Err(ErrorResponse::from_connector(None, None, None, 0, None, None, None, None)),
    }
}

fn no_additional_data() -> AdditionalData {
    AdditionalData {
        authorisation_type: None,
        manual_capture: None,
        execute_three_d: None,
        recurring_processing_model: None,
        recurring_detail_reference: None,
        recurring_shopper_reference: None,
        network_tx_reference: None,
        payout_eligible: None,
        funds_availability: None,
        refusal_reason_raw: None,
        refusal_code_raw: None,
    }
}

fn authorised() -> AdyenResponse {
    AdyenResponse {
        psp_reference: "psp_1".to_string(),
        result_code: AdyenStatus::Authorised,
        amount: Some(Amount { currency: Currency::EUR, value: MinorUnit::new(1000) }),
        merchant_reference: "ref_1".to_string(),
        refusal_reason: None,
        refusal_reason_code: None,
        additional_data: None,
        splits: None,
        store: None,
    }
}

fn redirect(payment_method_type: PaymentType, url: Option<&str>) -> RedirectionResponse {
    RedirectionResponse {
        result_code: AdyenStatus::RedirectShopper,
        action: AdyenRedirectAction {
            payment_method_type,
            url: url.map(str::to_string),
            method: None,
            type_of_response: ActionType::Redirect,
            data: None,
            payment_data: None,
        },
        refusal_reason: None,
        refusal_reason_code: None,
        psp_reference: Some("psp_2".to_string()),
        merchant_reference: None,
        store: None,
        splits: None,
        additional_data: None,
    }
}

fn field(name: &str, value: &str) -> FormField {
    FormField { name: name.to_string(), value: value.to_string() }
}

fn sync_data() -> PaymentsSyncData {
    PaymentsSyncData {
        connector_transaction_id: "psp_1".to_string(),
        capture_method: None,
        payment_method_type: None,
    }
}

#[test]
fn authorised_response_is_parsed_without_error() {
    let (status, error, data) = get_adyen_response(authorised(), false, 200, None).unwrap();
    assert_eq!(status, AttemptStatus::Charged);
    assert_eq!(error, None);
    match data {
        PaymentsResponseData::TransactionResponse {
            resource_id,
            redirection_data,
            mandate_reference,
            connector_metadata,
            network_txn_id,
            connector_response_reference_id,
            charges,
            ..
        } => {
            assert_eq!(resource_id, ResponseId::ConnectorTransactionId("psp_1".to_string()));
            assert_eq!(redirection_data, None);
            assert_eq!(mandate_reference, None);
            assert_eq!(connector_metadata, None);
            assert_eq!(network_txn_id, None);
            assert_eq!(connector_response_reference_id.as_deref(), Some("ref_1"));
            assert_eq!(charges, None);
        }
        other => panic!("unexpected response data {other:?}"),
    }
    let (status, _, _) = get_adyen_response(authorised(), true, 200, None).unwrap();
    assert_eq!(status, AttemptStatus::Authorized);
}

#[test]
fn refused_response_carries_the_refusal() {
    let mut response = authorised();
    response.result_code = AdyenStatus::Refused;
    response.refusal_reason = Some("Not enough balance".to_string());
    response.refusal_reason_code = Some("5".to_string());
    let mut raw = no_additional_data();
    raw.refusal_code_raw = Some("51".to_string());
    raw.refusal_reason_raw = Some("51 : Insufficient funds".to_string());
    response.additional_data = Some(raw);
    let (status, error, _) = get_adyen_response(response, false, 422, None).unwrap();
    assert_eq!(status, AttemptStatus::Failure);
    let error = error.unwrap();
    assert_eq!(error.code, "5");
    assert_eq!(error.message, "Not enough balance");
    assert_eq!(error.reason.as_deref(), Some("Not enough balance"));
    assert_eq!(error.status_code, 422);
    assert_eq!(error.connector_transaction_id.as_deref(), Some("psp_1"));
    assert_eq!(error.issuer_error_code.as_deref(), Some("51"));
    assert_eq!(error.issuer_error_message.as_deref(), Some("51 : Insufficient funds"));
}

#[test]
fn failure_without_a_refusal_gets_the_sentinels() {
    let error = refusal_error(AttemptStatus::Failure, None, None, 500, None, None, None).unwrap();
    assert_eq!(error.code, "No error code");
    assert_eq!(error.message, "No error message");
    assert_eq!(refusal_error(AttemptStatus::Charged, None, None, 200, None, None, None), None);
}

#[test]
fn response_with_a_stored_payment_method_sets_a_mandate_up() {
    let mut response = authorised();
    let mut data = no_additional_data();
    data.recurring_detail_reference = Some("stored_1".to_string());
    data.network_tx_reference = Some("ntx_1".to_string());
    response.additional_data = Some(data);
    response.store = Some("store_1".to_string());
    response.splits = Some(vec![AdyenSplitData {
        amount: Some(Amount { currency: Currency::EUR, value: MinorUnit::new(1000) }),
        split_type: AdyenSplitType::BalanceAccount,
        account: Some("BA0001".to_string()),
        reference: "seller".to_string(),
        description: None,
    }]);
    let (_, _, data) = get_adyen_response(response, false, 200, None).unwrap();
    match data {
        PaymentsResponseData::TransactionResponse {
            mandate_reference, network_txn_id, charges, ..
        } => {
            let mandate = mandate_reference.unwrap();
            assert_eq!(mandate.connector_mandate_id.as_deref(), Some("stored_1"));
            assert_eq!(mandate.network_transaction_id, None);
            assert_eq!(mandate.payment_method_id, None);
            assert_eq!(network_txn_id.as_deref(), Some("ntx_1"));
            match charges.unwrap() {
                ConnectorChargeResponseData::AdyenSplitPayment(split) => {
                    assert_eq!(split.store.as_deref(), Some("store_1"));
                    assert_eq!(
                        split.split_items,
                        vec![AdyenSplitItem {
                            amount: Some(MinorUnit::new(1000)),
                            split_type: AdyenSplitType::BalanceAccount,
                            account: Some("BA0001".to_string()),
                            reference: "seller".to_string(),
                            description: None,
                        }]
                    );
                }
            }
        }
        other => panic!("unexpected response data {other:?}"),
    }
}

#[test]
fn redirect_without_fields_takes_them_from_the_query() {
    let response = redirect(
        PaymentType::Scheme,
        Some("https://test.adyen.com/hpp/3d/validate.shtml?MD=abc&PaReq=xyz&MD=def"),
    );
    let (status, error, data) = get_redirection_response(response, false, 200, None, 0).unwrap();
    assert_eq!(status, AttemptStatus::AuthenticationPending);
    assert_eq!(error, None);
    match data {
        PaymentsResponseData::TransactionResponse {
            resource_id, redirection_data, connector_metadata, ..
        } => {
            assert_eq!(resource_id, ResponseId::ConnectorTransactionId("psp_2".to_string()));
            assert_eq!(connector_metadata, None);
            match redirection_data.unwrap() {
                RedirectForm::Form { endpoint, method, form_fields } => {
                    assert_eq!(
                        endpoint,
                        "https://test.adyen.com/hpp/3d/validate.shtml?MD=abc&PaReq=xyz&MD=def"
                    );
                    assert_eq!(method, Method::Get);
                    assert_eq!(form_fields.len(), 2);
                    assert!(form_fields.contains(&field("MD", "def")));
                    assert!(form_fields.contains(&field("PaReq", "xyz")));
                }
            }
        }
        other => panic!("unexpected response data {other:?}"),
    }
}

#[test]
fn redirect_with_fields_keeps_them() {
    let mut response = redirect(PaymentType::Scheme, Some("https://test.adyen.com/pay?x=1"));
    response.action.method = Some(Method::Post);
    response.action.data = Some(vec![field("token", "t_1")]);
    let (_, _, data) = get_redirection_response(response, false, 200, None, 0).unwrap();
    match data {
        PaymentsResponseData::TransactionResponse { redirection_data, .. } => {
            assert_eq!(
                redirection_data,
                Some(RedirectForm::Form {
                    endpoint: "https://test.adyen.com/pay?x=1".to_string(),
                    method: Method::Post,
                    form_fields: vec![field("token", "t_1")],
                })
            );
        }
        other => panic!("unexpected response data {other:?}"),
    }
    let none = redirect(PaymentType::Scheme, None);
    let (_, _, data) = get_redirection_response(none, false, 200, None, 0).unwrap();
    match data {
        PaymentsResponseData::TransactionResponse { redirection_data, resource_id, .. } => {
            assert_eq!(redirection_data, None);
            assert_eq!(resource_id, ResponseId::ConnectorTransactionId("psp_2".to_string()));
        }
        other => panic!("unexpected response data {other:?}"),
    }
}

#[test]
fn blik_and_mbway_show_a_wait_screen() {
    let now: i128 = 1_700_000_000_000_000_000;
    let (_, _, data) =
        get_redirection_response(redirect(PaymentType::Blik, None), false, 200, None, now).unwrap();
    match data {
        PaymentsResponseData::TransactionResponse { connector_metadata, .. } => assert_eq!(
            connector_metadata,
            Some(ConnectorMetadata::WaitScreen(WaitScreenData {
                display_from_timestamp: now,
                display_to_timestamp: Some(now + 60_000_000_000),
            }))
        ),
        other => panic!("unexpected response data {other:?}"),
    }
    let (_, _, data) =
        get_redirection_response(redirect(PaymentType::Mbway, None), false, 200, None, now)
            .unwrap();
    match data {
        PaymentsResponseData::TransactionResponse { connector_metadata, .. } => assert_eq!(
            connector_metadata,
            Some(ConnectorMetadata::WaitScreen(WaitScreenData {
                display_from_timestamp: now,
                display_to_timestamp: None,
            }))
        ),
        other => panic!("unexpected response data {other:?}"),
    }
    assert_eq!(
        get_redirection_response(redirect(PaymentType::Blik, None), false, 200, None, i128::MAX),
        Err(ConnectorError::ResponseHandlingFailed)
    );
}

#[test]
fn voucher_is_presented_to_the_shopper() {
    let response = PresentToShopperResponse {
        psp_reference: Some("psp_3".to_string()),
        result_code: AdyenStatus::PresentToShopper,
        action: AdyenPtsAction {
            reference: "voucher_1".to_string(),
            download_url: Some("https://test.adyen.com/voucher.pdf".to_string()),
            payment_method_type: PaymentType::BoletoBancario,
            expires_at: Some(1_700_000_000),
            initial_amount: None,
            pass_creation_token: None,
            total_amount: None,
            type_of_response: ActionType::Voucher,
            instructions_url: None,
        },
        refusal_reason: None,
        refusal_reason_code: None,
        merchant_reference: Some("ref_3".to_string()),
        store: None,
        splits: None,
    };
    let (status, error, data) =
        get_present_to_shopper_response(response, false, 200, None).unwrap();
    assert_eq!(status, AttemptStatus::AuthenticationPending);
    assert_eq!(error, None);
    match data {
        PaymentsResponseData::TransactionResponse {
            connector_metadata,
            connector_response_reference_id,
            ..
        } => {
            assert_eq!(
                connector_metadata,
                Some(ConnectorMetadata::Voucher(VoucherNextStepData {
                    expires_at: Some(1_700_000_000_000),
                    reference: "voucher_1".to_string(),
                    download_url: Some("https://test.adyen.com/voucher.pdf".to_string()),
                    instructions_url: None,
                }))
            );
            assert_eq!(connector_response_reference_id.as_deref(), Some("ref_3"));
        }
        other => panic!("unexpected response data {other:?}"),
    }
}

#[test]
fn times_are_turned_into_milliseconds() {
    assert_eq!(optional_milliseconds(None), Ok(None));
    assert_eq!(optional_milliseconds(Some(12)), Ok(Some(12_000)));
    assert_eq!(optional_milliseconds(Some(-3)), Ok(Some(-3_000)));
    assert_eq!(
        optional_milliseconds(Some(i64::MAX)),
        Err(ConnectorError::ResponseHandlingFailed)
    );
}

#[test]
fn qr_code_is_described_by_image_and_address() {
    let response = QrCodeResponseResponse {
        result_code: AdyenStatus::Pending,
        action: AdyenQrCodeAction {
            payment_method_type: PaymentType::Pix,
            type_of_response: ActionType::QrCode,
            qr_code_url: Some("https://test.adyen.com/qr/1".to_string()),
            qr_code_data: "000201".to_string(),
        },
        refusal_reason: None,
        refusal_reason_code: None,
        additional_data: None,
        psp_reference: Some("psp_4".to_string()),
        merchant_reference: None,
        store: None,
        splits: None,
    };
    let image = "data:image/png;base64,iVBORw0KGgo=".to_string();
    let (status, _, data) = get_qr_code_response(
        response.clone(),
        false,
        200,
        Some(PaymentMethodType::Pix),
        Some(image.clone()),
    )
    .unwrap();
    assert_eq!(status, AttemptStatus::AuthenticationPending);
    match data {
        PaymentsResponseData::TransactionResponse { connector_metadata, .. } => assert_eq!(
            connector_metadata,
            Some(ConnectorMetadata::QrCode(QrCodeInformation::QrCodeUrl {
                image_data_url: image,
                qr_code_url: "https://test.adyen.com/qr/1".to_string(),
                display_to_timestamp: None,
            }))
        ),
        other => panic!("unexpected response data {other:?}"),
    }
    assert_eq!(
        get_qr_code_response(response, false, 200, None, None),
        Err(ConnectorError::ResponseHandlingFailed)
    );
}

#[test]
fn redirection_error_is_an_error_response() {
    let response = RedirectionErrorResponse {
        result_code: AdyenStatus::Refused,
        refusal_reason: Some("3D Not Authenticated".to_string()),
        psp_reference: Some("psp_5".to_string()),
        merchant_reference: Some("ref_5".to_string()),
        additional_data: None,
    };
    let (status, error, data) = get_redirection_error_response(response, false, 401, None).unwrap();
    assert_eq!(status, AttemptStatus::Failure);
    let error = error.unwrap();
    assert_eq!(error.code, "No error code");
    assert_eq!(error.message, "3D Not Authenticated");
    assert_eq!(error.status_code, 401);
    match data {
        PaymentsResponseData::TransactionResponse { resource_id, .. } => {
            assert_eq!(resource_id, ResponseId::NoResponseId)
        }
        other => panic!("unexpected response data {other:?}"),
    }
}

#[test]
fn parser_takes_each_shape_of_response() {
    let context = ParseContext { current_time: 0, qr_image_data: None };
    let parsed = parse_payment_response(
        AdyenPaymentResponse::Response(authorised()),
        true,
        false,
        200,
        None,
        context.clone(),
    );
    assert_eq!(parsed, get_adyen_response(authorised(), true, 200, None));
    let parsed = parse_payment_response(
        AdyenPaymentResponse::RedirectionResponse(redirect(PaymentType::Blik, None)),
        false,
        false,
        200,
        None,
        context,
    );
    assert_eq!(
        parsed,
        get_redirection_response(redirect(PaymentType::Blik, None), false, 200, None, 0)
    );
}

#[test]
fn parsed_response_is_merged_into_the_request() {
    let item = ResponseRouterData {
        response: AdyenPaymentResponse::Response(authorised()),
        data: context::<PaymentsSyncData, PaymentsResponseData>(sync_data()),
        http_code: 200,
    };
    let updated = foreign_try_from(
        item,
        Some(CaptureMethod::Manual),
        false,
        None,
        ParseContext { current_time: 0, qr_image_data: None },
    )
    .unwrap();
    assert_eq!(updated.status, AttemptStatus::Authorized);
    assert!(updated.response.is_ok());
    assert_eq!(updated.merchant_id, "merchant_1");
    assert_eq!(updated.request, sync_data());

    let mut refused = authorised();
    refused.result_code = AdyenStatus::Refused;
    let item = ResponseRouterData {
        response: AdyenPaymentResponse::Response(refused),
        data: context::<PaymentsSyncData, PaymentsResponseData>(sync_data()),
        http_code: 422,
    };
    let updated = foreign_try_from(
        item,
        None,
        false,
        None,
        ParseContext { current_time: 0, qr_image_data: None },
    )
    .unwrap();
    assert_eq!(updated.status, AttemptStatus::Failure);
    let error = updated.response.unwrap_err();
    assert_eq!(error.code, "No error code");
    assert_eq!(error.message, "No error message");
    assert_eq!(error.status_code, 422);
}

#[test]
fn cancel_is_requested_and_acknowledged() {
    let data = context::<PaymentsCancelData, PaymentsResponseData>(PaymentsCancelData {
        amount: None,
        currency: None,
        connector_transaction_id: "psp_1".to_string(),
        cancellation_reason: None,
        metadata: None,
    });
    assert_eq!(
        AdyenCancelRequest::try_from(&data),
        Ok(AdyenCancelRequest {
            merchant_account: "TestMerchantAccount".to_string(),
            reference: "ref_1".to_string(),
        })
    );
    let updated = cancel_response(ResponseRouterData {
        response: AdyenCancelResponse {
            payment_psp_reference: "psp_1".to_string(),
            status: CancelStatus::Received,
            reference: "ref_1".to_string(),
        },
        data,
        http_code: 200,
    })
    .unwrap();
    assert_eq!(updated.status, AttemptStatus::Pending);
    match updated.response.unwrap() {
        PaymentsResponseData::TransactionResponse {
            resource_id, connector_response_reference_id, ..
        } => {
            assert_eq!(resource_id, ResponseId::ConnectorTransactionId("psp_1".to_string()));
            assert_eq!(connector_response_reference_id.as_deref(), Some("ref_1"));
        }
        other => panic!("unexpected response data {other:?}"),
    }
}

#[test]
fn capture_is_requested_and_acknowledged() {
    let mut data = context::<PaymentsCaptureData, PaymentsResponseData>(PaymentsCaptureData {
        amount_to_capture: 400,
        currency: Currency::EUR,
        connector_transaction_id: "psp_1".to_string(),
        multiple_capture_data: None,
        metadata: None,
    });
    let request = AdyenCaptureRequest::try_from(
        &AdyenRouterData::try_from(MinorUnit::new(400), &data).unwrap(),
    )
    .unwrap();
    assert_eq!(request.reference, "ref_1");
    assert_eq!(request.amount, Amount { currency: Currency::EUR, value: MinorUnit::new(400) });
    data.request.multiple_capture_data = Some(MultipleCaptureRequestData {
        capture_sequence: 2,
        capture_reference: "capture_2".to_string(),
    });
    let request = AdyenCaptureRequest::try_from(
        &AdyenRouterData::try_from(MinorUnit::new(400), &data).unwrap(),
    )
    .unwrap();
    assert_eq!(request.reference, "capture_2");
    let updated = capture_response(ResponseRouterData {
        response: AdyenCaptureResponse {
            merchant_account: "TestMerchantAccount".to_string(),
            payment_psp_reference: "psp_1".to_string(),
            psp_reference: "psp_capture".to_string(),
            reference: "capture_2".to_string(),
            status: "received".to_string(),
            amount: Amount { currency: Currency::EUR, value: MinorUnit::new(400) },
            merchant_reference: None,
            store: None,
            splits: None,
        },
        data,
        http_code: 201,
    })
    .unwrap();
    assert_eq!(updated.status, AttemptStatus::Pending);
    assert_eq!(updated.amount_captured, Some(0));
    match updated.response.unwrap() {
        PaymentsResponseData::TransactionResponse { resource_id, .. } => {
            assert_eq!(resource_id, ResponseId::ConnectorTransactionId("psp_capture".to_string()))
        }
        other => panic!("unexpected response data {other:?}"),
    }
}

#[test]
fn refund_is_requested_and_acknowledged() {
    let data = context(RefundsData {
        refund_id: "refund_1".to_string(),
        connector_transaction_id: "psp_1".to_string(),
        currency: Currency::EUR,
        refund_amount: 250,
        reason: Some("CUSTOMER REQUEST".to_string()),
        split_refunds: None,
    });
    let request = AdyenRefundRequest::try_from(
        &AdyenRouterData::try_from(MinorUnit::new(250), &data).unwrap(),
    )
    .unwrap();
    assert_eq!(request.merchant_account, "TestMerchantAccount");
    assert_eq!(request.reference, "refund_1");
    assert_eq!(request.amount, Amount { currency: Currency::EUR, value: MinorUnit::new(250) });
    assert_eq!(request.splits, None);
    let updated = refund_response(ResponseRouterData {
        response: AdyenRefundResponse {
            merchant_account: "TestMerchantAccount".to_string(),
            psp_reference: "psp_refund".to_string(),
            payment_psp_reference: "psp_1".to_string(),
            reference: "refund_1".to_string(),
            status: "received".to_string(),
        },
        data,
        http_code: 201,
    })
    .unwrap();
    let response = updated.response.unwrap();
    assert_eq!(response.connector_refund_id, "psp_refund");
    assert_eq!(response.refund_status, RefundStatus::Pending);
}

#[test]
fn another_request_takes_over_the_context() {
    let data = context::<PaymentsSyncData, PaymentsResponseData>(sync_data());
    let moved = convert_payment_authorize_router_response(data, 7u8);
    assert_eq!(moved.request, 7);
    assert_eq!(moved.merchant_id, "merchant_1");
    assert_eq!(moved.payment_method_token, None);
    assert_eq!(moved.connector_request_reference_id, "ref_1");
}

#[test]
fn disputes_are_accepted_and_defended() {
    let accept = context(AcceptDisputeRequestData {
        dispute_id: "dispute_1".to_string(),
        connector_dispute_id: "dp_psp_1".to_string(),
    });
    assert_eq!(
        AdyenAcceptDisputeRequest::try_from(&accept),
        Ok(AdyenAcceptDisputeRequest {
            dispute_psp_reference: "dp_psp_1".to_string(),
            merchant_account_code: "TestMerchantAccount".to_string(),
        })
    );
    let defend = context(DefendDisputeRequestData {
        dispute_id: "dispute_1".to_string(),
        connector_dispute_id: "dp_psp_1".to_string(),
    });
    let request = AdyenDefendDisputeRequest::try_from(&defend).unwrap();
    assert_eq!(request.defense_reason_code, "SupplyDefenseMaterial");
    let accepted = accept_dispute_response(
        accept,
        AdyenDisputeResponse { error_message: None, success: true },
    )
    .unwrap();
    assert_eq!(accepted.response.unwrap().dispute_status, DisputeStatus::DisputeAccepted);
    let refused = context(AcceptDisputeRequestData {
        dispute_id: "dispute_1".to_string(),
        connector_dispute_id: "dp_psp_1".to_string(),
    });
    let refused = accept_dispute_response(
        refused,
        AdyenDisputeResponse { error_message: Some("too late".to_string()), success: false },
    )
    .unwrap();
    let error = refused.response.unwrap_err();
    assert_eq!(error.code, "too late");
    assert_eq!(error.message, "too late");
    assert_eq!(error.status_code, 200);
}

fn evidence() -> SubmitEvidenceRequestData {
    SubmitEvidenceRequestData {
        dispute_id: "dispute_1".to_string(),
        connector_dispute_id: "dp_psp_1".to_string(),
        shipping_documentation: None,
        shipping_documentation_file_type: None,
        receipt: None,
        receipt_file_type: None,
        invoice_showing_distinct_transactions: None,
        invoice_showing_distinct_transactions_file_type: None,
        customer_communication: None,
        customer_communication_file_type: None,
        refund_policy: None,
        refund_policy_file_type: None,
        recurring_transaction_agreement: None,
        recurring_transaction_agreement_file_type: None,
        uncategorized_file: None,
        uncategorized_file_type: None,
        cancellation_policy: None,
        cancellation_policy_file_type: None,
        customer_signature: None,
        customer_signature_file_type: None,
        service_documentation: None,
        service_documentation_file_type: None,
    }
}

#[test]
fn evidence_needs_at_least_one_document() {
    assert_eq!(get_defence_documents(&evidence()), None);
    assert_eq!(
        Evidence::try_from(&context(evidence())),
        Err(ConnectorError::MissingRequiredField { field_name: "Missing Defence Documents" })
    );
    let mut with_files = evidence();
    with_files.refund_policy = Some("No refunds after 30 days".as_bytes().to_vec());
    with_files.refund_policy_file_type = Some("text/plain".to_string());
    with_files.customer_signature = Some(vec![0x53, 0x69, 0x67, 0xff]);
    let documents = get_defence_documents(&with_files).unwrap();
    assert_eq!(documents.len(), 2);
    assert_eq!(documents[0].content, "No refunds after 30 days");
    assert_eq!(documents[0].content_type.as_deref(), Some("text/plain"));
    assert_eq!(documents[0].defense_document_type_code, "DefenseMaterial");
    assert_eq!(documents[1].content, "Sig\u{fffd}");
    assert_eq!(documents[1].content_type, None);
    let request = Evidence::try_from(&context(with_files)).unwrap();
    assert_eq!(request.defense_documents, documents);
    assert_eq!(request.merchant_account_code, "TestMerchantAccount");
    assert_eq!(request.dispute_psp_reference, "dp_psp_1");
}

#[test]
fn payout_status_follows_the_result_code() {
    assert_eq!(payout_status_from(AdyenStatus::Authorised), PayoutStatus::Success);
    assert_eq!(payout_status_from(AdyenStatus::PayoutConfirmReceived), PayoutStatus::Initiated);
    assert_eq!(payout_status_from(AdyenStatus::Cancelled), PayoutStatus::Cancelled);
    assert_eq!(payout_status_from(AdyenStatus::PayoutDeclineReceived), PayoutStatus::Cancelled);
    assert_eq!(payout_status_from(AdyenStatus::Error), PayoutStatus::Failed);
    assert_eq!(payout_status_from(AdyenStatus::Pending), PayoutStatus::Pending);
    assert_eq!(
        payout_status_from(AdyenStatus::PayoutSubmitReceived),
        PayoutStatus::RequiresFulfillment
    );
    assert_eq!(payout_status_from(AdyenStatus::Refused), PayoutStatus::Ineligible);
}

#[test]
fn payout_response_is_put_into_the_request() {
    let data = context(PayoutsData {
        payout_id: "payout_1".to_string(),
        amount: 500,
        connector_payout_id: None,
        destination_currency: Currency::EUR,
        source_currency: Currency::EUR,
        payout_type: None,
        entity_type: PayoutEntityType::Individual,
        customer_details: None,
    });
    let updated = payout_response(ResponseRouterData {
        response: AdyenPayoutResponse {
            psp_reference: "psp_payout".to_string(),
            result_code: Some(AdyenStatus::PayoutSubmitReceived),
            response: None,
            amount: None,
            merchant_reference: None,
            refusal_reason: None,
            refusal_reason_code: None,
            additional_data: None,
            auth_code: None,
        },
        data,
        http_code: 200,
    })
    .unwrap();
    let response = updated.response.unwrap();
    assert_eq!(response.status, Some(PayoutStatus::RequiresFulfillment));
    assert_eq!(response.connector_payout_id.as_deref(), Some("psp_payout"));
    assert_eq!(response.error_code, None);
}

#[test]
fn payload_stands_for_its_first_reading() {
    let error = RedirectionErrorResponse {
        result_code: AdyenStatus::Authorised,
        refusal_reason: None,
        psp_reference: Some("psp_1".to_string()),
        merchant_reference: Some("ref_1".to_string()),
        additional_data: None,
    };
    let both = ResponseReadings {
        response: Some(authorised()),
        present_to_shopper: None,
        qr_code: None,
        redirection: None,
        redirection_error: Some(error.clone()),
        webhook: None,
    };
    assert_eq!(first_reading(both), Some(AdyenPaymentResponse::Response(authorised())));
    let later = ResponseReadings {
        response: None,
        present_to_shopper: None,
        qr_code: None,
        redirection: Some(redirect(PaymentType::Scheme, None)),
        redirection_error: Some(error.clone()),
        webhook: None,
    };
    assert_eq!(
        first_reading(later),
        Some(AdyenPaymentResponse::RedirectionResponse(redirect(PaymentType::Scheme, None)))
    );
    let last = ResponseReadings {
        response: None,
        present_to_shopper: None,
        qr_code: None,
        redirection: None,
        redirection_error: Some(error.clone()),
        webhook: None,
    };
    assert_eq!(first_reading(last), Some(AdyenPaymentResponse::RedirectionErrorResponse(error)));
    let none = ResponseReadings {
        response: None,
        present_to_shopper: None,
        qr_code: None,
        redirection: None,
        redirection_error: None,
        webhook: None,
    };
    assert_eq!(first_reading(none), None);
}

#[test]
fn image_of_a_qr_code_counts_only_as_an_address() {
    let response = QrCodeResponseResponse {
        result_code: AdyenStatus::Pending,
        action: AdyenQrCodeAction {
            payment_method_type: PaymentType::Pix,
            type_of_response: ActionType::QrCode,
            qr_code_url: None,
            qr_code_data: "000201".to_string(),
        },
        refusal_reason: None,
        refusal_reason_code: None,
        additional_data: None,
        psp_reference: None,
        merchant_reference: None,
        store: None,
        splits: None,
    };
    assert_eq!(
        get_qr_metadata(&response, Some("HTTPS://Images.Example.COM/qr code.png".to_string())),
        Ok(Some(ConnectorMetadata::QrCode(QrCodeInformation::QrDataUrl {
            image_data_url: "https://images.example.com/qr%20code.png".to_string(),
            display_to_timestamp: None,
        })))
    );
    assert_eq!(get_qr_metadata(&response, Some("no address".to_string())), Ok(None));
    assert_eq!(get_qr_metadata(&response, None), Err(ConnectorError::ResponseHandlingFailed));
}

#[test]
fn redirect_that_failed_without_a_reason_gets_both_sentinels() {
    let response = RedirectionErrorResponse {
        result_code: AdyenStatus::Refused,
        refusal_reason: None,
        psp_reference: None,
        merchant_reference: None,
        additional_data: None,
    };
    let (_, error, data) = get_redirection_error_response(response, true, 200, None).unwrap();
    let error = error.unwrap();
    assert_eq!(error.code, "No error code");
    assert_eq!(error.message, "No error message");
    assert_eq!(error.reason, None);
    match data {
        PaymentsResponseData::TransactionResponse { resource_id, .. } => {
            assert_eq!(resource_id, ResponseId::NoResponseId)
        }
        other => panic!("unexpected response data {other:?}"),
    }
}

#[test]
fn empty_refusal_texts_count_as_absent() {
    let mut response = authorised();
    response.result_code = AdyenStatus::Refused;
    response.refusal_reason = Some(String::new());
    response.refusal_reason_code = Some(String::new());
    let (status, error, _) = get_adyen_response(response, false, 422, None).unwrap();
    assert_eq!(status, AttemptStatus::Failure);
    let error = error.unwrap();
    assert_eq!(error.code, "No error code");
    assert_eq!(error.message, "No error message");
    assert!(!error.code.is_empty() && !error.message.is_empty());

    let mut response = authorised();
    response.refusal_reason_code = Some(String::new());
    let (_, error, _) = get_adyen_response(response, false, 200, None).unwrap();
    let error = error.unwrap();
    assert_eq!(error.code, "No error code");
    assert_eq!(error.message, "No error message");

    let kept = refusal_error(
        AttemptStatus::Failure,
        Some("Refused".to_string()),
        Some(String::new()),
        422,
        None,
        None,
        None,
    )
    .unwrap();
    assert_eq!(kept.code, "No error code");
    assert_eq!(kept.message, "Refused");
}
