use payment_connectors::adyen::status::{attempt_status_from_webhook, get_adyen_payment_status};
use payment_connectors::adyen::types::{Amount, AdyenStatus};
use payment_connectors::adyen::webhook::{
    dispute_stage_from, get_adyen_webhook_event, is_capture_or_cancel_event, is_chargeback_event,
    is_payout_event, is_refund_event, is_success_scenario, is_transaction_event,
    AdyenAdditionalDataWH, AdyenAmountWH, AdyenNotificationRequestItemWH, AdyenWebhookResponse,
    AdyenWebhookStatus, DisputeStatus, WebhookEventCode,
};
use payment_connectors::adyen::response::get_webhook_response;
use payment_connectors::attempt::{authorized_status, AttemptState};
use payment_connectors::consts::{NO_ERROR_CODE, NO_ERROR_MESSAGE};
use payment_connectors::currency::{Currency, MinorUnit};
use payment_connectors::enums::{
    AttemptStatus, DisputeStage, IncomingWebhookEvent, PaymentMethodType, StatusSource,
};
use payment_connectors::errors::ConnectorError;
use payment_connectors::router_response::{PaymentsResponseData, ResponseId};

#[test]
fn authorised_resolves_by_capture_mode() {
    assert_eq!(
        get_adyen_payment_status(false, AdyenStatus::Authorised, None),
        AttemptStatus::Charged
    );
    assert_eq!(
        get_adyen_payment_status(true, AdyenStatus::Authorised, None),
        AttemptStatus::Authorized
    );
    assert_eq!(authorized_status(true), AttemptStatus::Authorized);
    assert_eq!(authorized_status(false), AttemptStatus::Charged);
}

#[test]
fn pending_depends_on_payment_method_type() {
    assert_eq!(
        get_adyen_payment_status(false, AdyenStatus::Pending, Some(PaymentMethodType::Pix)),
        AttemptStatus::AuthenticationPending
    );
    assert_eq!(
        get_adyen_payment_status(false, AdyenStatus::Pending, Some(PaymentMethodType::Credit)),
        AttemptStatus::Pending
    );
    assert_eq!(
        get_adyen_payment_status(true, AdyenStatus::Pending, None),
        AttemptStatus::Pending
    );
}

#[test]
fn every_result_code_has_a_status() {
    let expected = [
        (AdyenStatus::AuthenticationFinished, AttemptStatus::AuthenticationSuccessful),
        (AdyenStatus::AuthenticationNotRequired, AttemptStatus::Pending),
        (AdyenStatus::Received, AttemptStatus::Pending),
        (AdyenStatus::Cancelled, AttemptStatus::Voided),
        (AdyenStatus::ChallengeShopper, AttemptStatus::AuthenticationPending),
        (AdyenStatus::RedirectShopper, AttemptStatus::AuthenticationPending),
        (AdyenStatus::PresentToShopper, AttemptStatus::AuthenticationPending),
        (AdyenStatus::Error, AttemptStatus::Failure),
        (AdyenStatus::Refused, AttemptStatus::Failure),
        (AdyenStatus::PayoutConfirmReceived, AttemptStatus::Started),
        (AdyenStatus::PayoutSubmitReceived, AttemptStatus::Pending),
        (AdyenStatus::PayoutDeclineReceived, AttemptStatus::Voided),
    ];
    for (code, status) in expected {
        assert_eq!(get_adyen_payment_status(true, code, None), status);
        assert_eq!(get_adyen_payment_status(false, code, None), status);
    }
}

#[test]
fn webhook_status_maps_to_attempt_status() {
    assert_eq!(
        attempt_status_from_webhook(false, AdyenWebhookStatus::Authorised),
        Ok(AttemptStatus::Charged)
    );
    assert_eq!(
        attempt_status_from_webhook(true, AdyenWebhookStatus::Authorised),
        Ok(AttemptStatus::Authorized)
    );
    assert_eq!(
        attempt_status_from_webhook(true, AdyenWebhookStatus::AuthorisationFailed),
        Ok(AttemptStatus::Failure)
    );
    assert_eq!(
        attempt_status_from_webhook(true, AdyenWebhookStatus::Cancelled),
        Ok(AttemptStatus::Voided)
    );
    assert_eq!(
        attempt_status_from_webhook(true, AdyenWebhookStatus::CancelFailed),
        Ok(AttemptStatus::VoidFailed)
    );
    assert_eq!(
        attempt_status_from_webhook(true, AdyenWebhookStatus::Captured),
        Ok(AttemptStatus::Charged)
    );
    assert_eq!(
        attempt_status_from_webhook(true, AdyenWebhookStatus::CaptureFailed),
        Ok(AttemptStatus::CaptureFailed)
    );
    assert_eq!(
        attempt_status_from_webhook(true, AdyenWebhookStatus::UnexpectedEvent),
        Err(ConnectorError::WebhookBodyDecodingFailed)
    );
    assert_eq!(
        attempt_status_from_webhook(false, AdyenWebhookStatus::Reversed),
        Err(ConnectorError::WebhookBodyDecodingFailed)
    );
}

fn notification(event_code: WebhookEventCode, success: &str, reason: Option<&str>) -> AdyenNotificationRequestItemWH {
    AdyenNotificationRequestItemWH {
        additional_data: AdyenAdditionalDataWH {
            hmac_signature: "signature".to_string(),
            dispute_status: None,
            chargeback_reason_code: None,
            defense_period_ends_at: None,
            recurring_detail_reference: None,
            network_tx_reference: None,
            refusal_reason_raw: None,
            refusal_code_raw: None,
        },
        amount: AdyenAmountWH { value: MinorUnit(1000), currency: Currency::EUR },
        original_reference: None,
        psp_reference: "psp_1".to_string(),
        event_code,
        merchant_account_code: "merchant".to_string(),
        merchant_reference: "attempt_1".to_string(),
        success: success.to_string(),
        reason: reason.map(|r| r.to_string()),
        event_date: None,
    }
}

#[test]
fn failed_authorisation_webhook_normalizes_to_failure_with_sentinels() {
    let notif = notification(WebhookEventCode::Authorisation, "false", None);
    assert_eq!(
        get_adyen_webhook_event(WebhookEventCode::Authorisation, "false".to_string(), None),
        IncomingWebhookEvent::PaymentIntentFailure
    );
    let response = AdyenWebhookResponse::from(notif);
    assert_eq!(response.status, AdyenWebhookStatus::AuthorisationFailed);
    let (status, error, data) = get_webhook_response(response, false, false, 200).unwrap();
    assert_eq!(status, AttemptStatus::Failure);
    let error = error.expect("a failed authorisation reports an error");
    assert_eq!(error.code, NO_ERROR_CODE);
    assert_eq!(error.message, NO_ERROR_MESSAGE);
    assert_eq!(error.code, "No error code");
    assert_eq!(error.message, "No error message");
    assert_eq!(error.status_code, 200);
    assert_eq!(error.connector_transaction_id, Some("psp_1".to_string()));
    match data {
        PaymentsResponseData::TransactionResponse { resource_id, connector_response_reference_id, .. } => {
            assert_eq!(resource_id, ResponseId::ConnectorTransactionId("psp_1".to_string()));
            assert_eq!(connector_response_reference_id, Some("attempt_1".to_string()));
        }
        other => panic!("unexpected response data {:?}", other),
    }
}

#[test]
fn failed_webhook_keeps_its_own_reason() {
    let notif = notification(WebhookEventCode::Authorisation, "false", Some("Refused by issuer"));
    let response = AdyenWebhookResponse::from(notif);
    assert_eq!(response.refusal_reason, Some("Refused by issuer".to_string()));
    assert_eq!(response.refusal_reason_code, Some(NO_ERROR_CODE.to_string()));
    assert_eq!(response.amount, Some(Amount { currency: Currency::EUR, value: MinorUnit(1000) }));
}

#[test]
fn successful_webhook_has_no_refusal() {
    let notif = notification(WebhookEventCode::Capture, "true", Some("ignored"));
    let response = AdyenWebhookResponse::from(notif);
    assert_eq!(response.status, AdyenWebhookStatus::Captured);
    assert_eq!(response.refusal_reason, None);
    assert_eq!(response.refusal_reason_code, None);
    let (status, error, _) = get_webhook_response(response, true, false, 200).unwrap();
    assert_eq!(status, AttemptStatus::Charged);
    assert_eq!(error, None);
}

#[test]
fn webhook_during_multiple_capture_sync_lists_the_capture() {
    let mut notif = notification(WebhookEventCode::Capture, "true", None);
    notif.original_reference = Some("payment_psp".to_string());
    let response = AdyenWebhookResponse::from(notif);
    let (status, error, data) = get_webhook_response(response, true, true, 200).unwrap();
    assert_eq!(status, AttemptStatus::Charged);
    assert_eq!(error, None);
    match data {
        PaymentsResponseData::MultipleCaptureResponse { capture_sync_response_list } => {
            assert_eq!(capture_sync_response_list.len(), 1);
            assert_eq!(capture_sync_response_list[0].connector_capture_id, "psp_1");
        }
        other => panic!("unexpected response data {:?}", other),
    }
    let authorisation = AdyenWebhookResponse::from(notification(WebhookEventCode::Authorisation, "true", None));
    let (_, _, data) = get_webhook_response(authorisation, true, true, 200).unwrap();
    match data {
        PaymentsResponseData::MultipleCaptureResponse { capture_sync_response_list } => {
            assert!(capture_sync_response_list.is_empty());
        }
        other => panic!("unexpected response data {:?}", other),
    }
}

#[test]
fn unexpected_webhook_is_rejected() {
    let response = AdyenWebhookResponse::from(notification(WebhookEventCode::Refund, "true", None));
    assert_eq!(response.status, AdyenWebhookStatus::UnexpectedEvent);
    assert_eq!(
        get_webhook_response(response, false, false, 200),
        Err(ConnectorError::WebhookBodyDecodingFailed)
    );
}

#[test]
fn chargeback_is_classified_by_dispute_status() {
    let event = |status| get_adyen_webhook_event(WebhookEventCode::Chargeback, "true".to_string(), status);
    assert_eq!(event(Some(DisputeStatus::Won)), IncomingWebhookEvent::DisputeWon);
    assert_eq!(event(Some(DisputeStatus::Lost)), IncomingWebhookEvent::DisputeLost);
    assert_eq!(event(None), IncomingWebhookEvent::DisputeLost);
    assert_eq!(event(Some(DisputeStatus::Undefended)), IncomingWebhookEvent::DisputeOpened);
    assert_eq!(event(Some(DisputeStatus::Pending)), IncomingWebhookEvent::DisputeOpened);
    assert_eq!(event(Some(DisputeStatus::Accepted)), IncomingWebhookEvent::DisputeOpened);
}

#[test]
fn dispute_events_follow_the_dispute_machine() {
    let event = |code, status| get_adyen_webhook_event(code, "true".to_string(), status);
    assert_eq!(event(WebhookEventCode::NotificationOfChargeback, None), IncomingWebhookEvent::DisputeOpened);
    assert_eq!(
        event(WebhookEventCode::ChargebackReversed, Some(DisputeStatus::Pending)),
        IncomingWebhookEvent::DisputeChallenged
    );
    assert_eq!(
        event(WebhookEventCode::ChargebackReversed, Some(DisputeStatus::Won)),
        IncomingWebhookEvent::DisputeWon
    );
    assert_eq!(
        event(WebhookEventCode::ChargebackReversed, None),
        IncomingWebhookEvent::DisputeChallenged
    );
    assert_eq!(event(WebhookEventCode::SecondChargeback, None), IncomingWebhookEvent::DisputeLost);
    assert_eq!(
        event(WebhookEventCode::PrearbitrationWon, Some(DisputeStatus::Pending)),
        IncomingWebhookEvent::DisputeOpened
    );
    assert_eq!(event(WebhookEventCode::PrearbitrationWon, Some(DisputeStatus::Won)), IncomingWebhookEvent::DisputeWon);
    assert_eq!(event(WebhookEventCode::PrearbitrationLost, None), IncomingWebhookEvent::DisputeLost);
    assert_eq!(dispute_stage_from(WebhookEventCode::NotificationOfChargeback), DisputeStage::PreDispute);
    assert_eq!(dispute_stage_from(WebhookEventCode::SecondChargeback), DisputeStage::PreArbitration);
    assert_eq!(dispute_stage_from(WebhookEventCode::Chargeback), DisputeStage::Dispute);
}

#[test]
fn dispute_is_won_only_where_its_status_says_so() {
    let event = |code, status| get_adyen_webhook_event(code, "true".to_string(), status);
    for status in [
        Some(DisputeStatus::Undefended),
        Some(DisputeStatus::Pending),
        Some(DisputeStatus::Lost),
        Some(DisputeStatus::Accepted),
        None,
    ] {
        assert_eq!(
            event(WebhookEventCode::ChargebackReversed, status),
            IncomingWebhookEvent::DisputeChallenged
        );
        assert_eq!(
            event(WebhookEventCode::PrearbitrationWon, status),
            IncomingWebhookEvent::DisputeOpened
        );
        assert_ne!(event(WebhookEventCode::Chargeback, status), IncomingWebhookEvent::DisputeWon);
    }
    for code in [
        WebhookEventCode::Chargeback,
        WebhookEventCode::ChargebackReversed,
        WebhookEventCode::PrearbitrationWon,
    ] {
        assert_eq!(event(code, Some(DisputeStatus::Won)), IncomingWebhookEvent::DisputeWon);
    }
}

#[test]
fn success_flag_decides_the_event() {
    let event = |code, flag: &str| get_adyen_webhook_event(code, flag.to_string(), None);
    assert_eq!(event(WebhookEventCode::Authorisation, "true"), IncomingWebhookEvent::PaymentIntentSuccess);
    assert_eq!(event(WebhookEventCode::Authorisation, "True"), IncomingWebhookEvent::PaymentIntentFailure);
    assert_eq!(event(WebhookEventCode::Refund, "true"), IncomingWebhookEvent::RefundSuccess);
    assert_eq!(event(WebhookEventCode::CancelOrRefund, "false"), IncomingWebhookEvent::RefundFailure);
    assert_eq!(event(WebhookEventCode::Cancellation, "true"), IncomingWebhookEvent::PaymentIntentCancelled);
    assert_eq!(event(WebhookEventCode::Cancellation, "false"), IncomingWebhookEvent::PaymentIntentCancelFailure);
    assert_eq!(event(WebhookEventCode::Capture, "true"), IncomingWebhookEvent::PaymentIntentCaptureSuccess);
    assert_eq!(event(WebhookEventCode::Capture, ""), IncomingWebhookEvent::PaymentIntentCaptureFailure);
    assert_eq!(event(WebhookEventCode::CaptureFailed, "true"), IncomingWebhookEvent::PaymentIntentCaptureFailure);
    assert_eq!(event(WebhookEventCode::RefundFailed, "true"), IncomingWebhookEvent::RefundFailure);
    assert_eq!(event(WebhookEventCode::PayoutThirdparty, "true"), IncomingWebhookEvent::PayoutCreated);
    assert_eq!(event(WebhookEventCode::PayoutDecline, "true"), IncomingWebhookEvent::PayoutFailure);
    assert_eq!(event(WebhookEventCode::PayoutExpire, "true"), IncomingWebhookEvent::PayoutExpired);
    assert_eq!(event(WebhookEventCode::PayoutReversed, "true"), IncomingWebhookEvent::PayoutReversed);
    assert_eq!(event(WebhookEventCode::Unknown, "true"), IncomingWebhookEvent::EventNotSupported);
    assert!(is_success_scenario(&"true".to_string()));
    assert!(!is_success_scenario(&"false".to_string()));
}

#[test]
fn event_codes_fall_into_their_classes() {
    assert!(is_transaction_event(&WebhookEventCode::Authorisation));
    assert!(!is_transaction_event(&WebhookEventCode::Capture));
    assert!(is_capture_or_cancel_event(&WebhookEventCode::Capture));
    assert!(is_capture_or_cancel_event(&WebhookEventCode::CaptureFailed));
    assert!(is_capture_or_cancel_event(&WebhookEventCode::Cancellation));
    assert!(!is_capture_or_cancel_event(&WebhookEventCode::Refund));
    assert!(is_refund_event(&WebhookEventCode::Refund));
    assert!(is_refund_event(&WebhookEventCode::CancelOrRefund));
    assert!(is_refund_event(&WebhookEventCode::RefundFailed));
    assert!(is_refund_event(&WebhookEventCode::RefundReversed));
    assert!(!is_refund_event(&WebhookEventCode::Chargeback));
    assert!(is_chargeback_event(&WebhookEventCode::NotificationOfChargeback));
    assert!(is_chargeback_event(&WebhookEventCode::PrearbitrationLost));
    assert!(!is_chargeback_event(&WebhookEventCode::Authorisation));
    assert!(is_payout_event(&WebhookEventCode::PayoutThirdparty));
    assert!(is_payout_event(&WebhookEventCode::PayoutReversed));
    assert!(!is_payout_event(&WebhookEventCode::Unknown));
}

#[test]
fn terminal_status_survives_later_merges() {
    let start = AttemptState { status: AttemptStatus::Pending, source: StatusSource::Response };
    let updates = vec![
        AttemptState { status: AttemptStatus::Authorized, source: StatusSource::Webhook },
        AttemptState { status: AttemptStatus::Charged, source: StatusSource::Webhook },
        AttemptState { status: AttemptStatus::Pending, source: StatusSource::Response },
        AttemptState { status: AttemptStatus::Failure, source: StatusSource::Response },
    ];
    let end = start.merge_all(&updates);
    assert_eq!(end, AttemptState { status: AttemptStatus::Charged, source: StatusSource::Webhook });
    assert!(end.status.is_terminal());
    assert_eq!(end.merge(updates[3]), end);
}

#[test]
fn merge_prefers_progress_and_the_more_specific_source() {
    let pending = AttemptState { status: AttemptStatus::Pending, source: StatusSource::Response };
    let stale = AttemptState { status: AttemptStatus::Authorizing, source: StatusSource::Webhook };
    assert_eq!(pending.merge(stale), pending);
    let same_source = AttemptState { status: AttemptStatus::Authorizing, source: StatusSource::Response };
    assert_eq!(pending.merge(same_source), same_source);
    let progress = AttemptState { status: AttemptStatus::Authorized, source: StatusSource::Webhook };
    assert_eq!(pending.merge(progress), progress);
    let back = AttemptState { status: AttemptStatus::Pending, source: StatusSource::Webhook };
    assert_eq!(progress.merge(back), progress);
    let again = AttemptState { status: AttemptStatus::Authorized, source: StatusSource::Webhook };
    assert_eq!(progress.merge(again), progress);
    let corrected = AttemptState { status: AttemptStatus::Pending, source: StatusSource::Sync };
    assert_eq!(progress.merge(corrected), corrected);
    assert_eq!(corrected.merge(back), corrected);
    let less_specific = AttemptState { status: AttemptStatus::Authorizing, source: StatusSource::Sync };
    assert_eq!(pending.merge(less_specific), pending);
    assert_eq!(AttemptStatus::Charged.rank(), 8);
    assert_eq!(StatusSource::Sync.specificity(), 1);
    assert_eq!(AttemptStatus::AuthenticationPending.as_str(), "authentication_pending");
    assert!(AttemptStatus::CaptureFailed.is_failure());
    assert!(!AttemptStatus::CaptureFailed.is_terminal());
}
