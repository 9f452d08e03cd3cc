use payment_connectors::currency::{Currency, MinorUnit};
use payment_connectors::enums::{
    AttemptStatus, IntentStatus, PaymentMethod, PaymentMethodType, TriggeredBy,
};
use payment_connectors::recovery::{
    process_tracker_entry, start, step, AdditionalRevenueRecoveryResponse,
    GetAdditionalRevenueRecoveryResponseData, InsertOutcome, Lookup, MerchantConnectorAccount,
    RecoveryAction, RecoveryParties, RecoveryPaymentAttempt, RecoveryPaymentIntent, RecoveryReply,
    RecoveryRequest, RecoveryState, RecoveryStep, RevenueRecoveryAttempt,
    RevenueRecoveryAttemptData, RevenueRecoveryError, RevenueRecoveryInvoiceData,
    WebhookResponseTracker,
};
use payment_connectors::storage::{
    generate_aes256_key, key_from_random, master_key_from_hex, CryptoError, MockDb, PaymentAttempt,
    PaymentIntentNew, RedisError, RemoteStorageObject, StorageError, Store, StoreConfig,
};

fn parties() -> RecoveryParties {
    RecoveryParties {
        merchant_id: "merchant_1".to_string(),
        profile_id: "profile_1".to_string(),
        billing_connector_account_id: "mca_billing".to_string(),
    }
}

fn invoice() -> RevenueRecoveryInvoiceData {
    RevenueRecoveryInvoiceData {
        amount: MinorUnit::new(1000),
        currency: Currency::USD,
        merchant_reference_id: "invoice_1".to_string(),
    }
}

fn attempt_data() -> RevenueRecoveryAttemptData {
    RevenueRecoveryAttemptData {
        amount: MinorUnit::new(1000),
        currency: Currency::USD,
        merchant_reference_id: "invoice_1".to_string(),
        connector_transaction_id: Some("txn_1".to_string()),
        error_code: Some("card_declined".to_string()),
        error_message: Some("Declined".to_string()),
        processor_payment_method_token: "pm_1".to_string(),
        connector_customer_id: "cus_1".to_string(),
        connector_account_reference_id: "stripe_main".to_string(),
        transaction_created_at: Some(1_700_000_000),
        status: AttemptStatus::Failure,
        payment_method_type: PaymentMethod::Card,
        payment_method_sub_type: PaymentMethodType::Credit,
    }
}

fn intent(retry_count: Option<u16>) -> RecoveryPaymentIntent {
    RecoveryPaymentIntent {
        payment_id: "pay_1".to_string(),
        status: IntentStatus::Failed,
        retry_count,
    }
}

fn ask(step: RecoveryStep) -> (RecoveryRequest, RecoveryState) {
    match step {
        RecoveryStep::Ask { request, state } => (request, state),
        RecoveryStep::Done(outcome) => panic!("the flow ended early with {outcome:?}"),
    }
}

fn new_intent(payment_id: &str, merchant_id: &str) -> PaymentIntentNew {
    PaymentIntentNew {
        payment_id: payment_id.to_string(),
        merchant_id: merchant_id.to_string(),
        status: IntentStatus::RequiresPaymentMethod,
        amount: 1000,
        currency: Some(Currency::USD),
        amount_captured: None,
        customer_id: None,
        description: None,
        return_url: None,
        created_at: None,
        modified_at: Some(5),
        active_attempt: RemoteStorageObject::ForeignID("attempt_1".to_string()),
        attempt_count: 1,
    }
}

#[test]
fn unverified_webhook_is_rejected_before_anything_is_asked() {
    assert_eq!(
        start(false, true, true, Some("txn_1".to_string()), true, parties()),
        RecoveryStep::Done(Err(RevenueRecoveryError::WebhookAuthenticationFailed))
    );
    assert_eq!(
        start(true, false, false, None, true, parties()),
        RecoveryStep::Done(Err(RevenueRecoveryError::InvoiceWebhookProcessingFailed))
    );
    assert_eq!(
        start(true, true, true, None, true, parties()),
        RecoveryStep::Done(Err(RevenueRecoveryError::AdditionalRevenueRecoveryCallFailed))
    );
}

#[test]
fn failed_payment_is_scheduled_for_a_retry() {
    let (request, state) = ask(start(true, true, false, None, true, parties()));
    assert_eq!(request, RecoveryRequest::ReadInvoice);
    let (request, state) = ask(step(state, RecoveryReply::Invoice(Some(invoice()))));
    assert_eq!(
        request,
        RecoveryRequest::FindIntent { merchant_reference_id: "invoice_1".to_string() }
    );
    let (request, state) = ask(step(state, RecoveryReply::Intent(Lookup::NotFound)));
    assert_eq!(request, RecoveryRequest::CreateIntent { invoice: invoice() });
    let (request, state) = ask(step(state, RecoveryReply::CreatedIntent(Some(intent(Some(2))))));
    assert_eq!(request, RecoveryRequest::ReadAttempt);
    let (request, state) = ask(step(state, RecoveryReply::Attempt(Some(attempt_data()))));
    assert_eq!(
        request,
        RecoveryRequest::FindConnectorAccount {
            connector_account_reference_id: "stripe_main".to_string()
        }
    );
    let account =
        MerchantConnectorAccount { id: "mca_pay".to_string(), connector_name: "stripe".to_string() };
    let (request, state) =
        ask(step(state, RecoveryReply::ConnectorAccount(Lookup::Found(account.clone()))));
    assert_eq!(
        request,
        RecoveryRequest::FindAttempt {
            payment_id: "pay_1".to_string(),
            connector_transaction_id: Some("txn_1".to_string()),
        }
    );
    let (request, state) = ask(step(state, RecoveryReply::FoundAttempt(Lookup::NotFound)));
    match request {
        RecoveryRequest::RecordAttempt { payment_id, request } => {
            assert_eq!(payment_id, "pay_1");
            assert_eq!(request.amount, MinorUnit::new(1000));
            assert_eq!(request.status, AttemptStatus::Failure);
            assert_eq!(request.connector.as_deref(), Some("stripe"));
            assert_eq!(request.payment_merchant_connector_id.as_deref(), Some("mca_pay"));
            assert_eq!(request.billing_connector_id, "mca_billing");
            assert_eq!(request.attempt_triggered_by, TriggeredBy::External);
            assert_eq!(request.error.as_ref().map(|e| e.code.as_str()), Some("card_declined"));
            assert_eq!(request.error.as_ref().map(|e| e.message.as_str()), Some("Declined"));
            assert_eq!(request.connector_transaction_id.as_deref(), Some("txn_1"));
        }
        other => panic!("unexpected request {other:?}"),
    }
    let recorded = RecoveryPaymentAttempt {
        attempt_id: "attempt_7".to_string(),
        attempt_status: AttemptStatus::Failure,
        triggered_by: Some(TriggeredBy::External),
    };
    let (request, state) = ask(step(state, RecoveryReply::RecordedAttempt(Some(recorded))));
    assert_eq!(
        request,
        RecoveryRequest::ChooseAction { triggered_by: Some(TriggeredBy::External) }
    );
    let (request, state) =
        ask(step(state, RecoveryReply::Action(RecoveryAction::ScheduleFailedPayment)));
    assert_eq!(
        request,
        RecoveryRequest::FetchScheduleTime { merchant_id: "merchant_1".to_string(), retry_count: 3 }
    );
    let (request, state) = ask(step(state, RecoveryReply::ScheduleTime(Some(1_700_000_600))));
    match request {
        RecoveryRequest::InsertProcess { entry } => {
            assert_eq!(entry.id, "PASSIVE_RECOVERY_WORKFLOW_EXECUTE_WORKFLOW_pay_1");
            assert_eq!(entry.name, "EXECUTE_WORKFLOW");
            assert_eq!(entry.runner, "PASSIVE_RECOVERY_WORKFLOW");
            assert_eq!(entry.tag, "PCR");
            assert_eq!(entry.retry_count, 2);
            assert_eq!(entry.schedule_time, 1_700_000_600);
            assert_eq!(entry.tracking_data.global_payment_id, "pay_1");
            assert_eq!(entry.tracking_data.merchant_id, "merchant_1");
            assert_eq!(entry.tracking_data.profile_id, "profile_1");
            assert_eq!(entry.tracking_data.payment_attempt_id, "attempt_7");
        }
        other => panic!("unexpected request {other:?}"),
    }
    assert_eq!(
        step(state, RecoveryReply::Inserted(InsertOutcome::Inserted)),
        RecoveryStep::Done(Ok(WebhookResponseTracker::Payment {
            payment_id: "pay_1".to_string(),
            status: IntentStatus::Failed,
        }))
    );
}

#[test]
fn billing_connector_details_stand_in_for_the_webhook() {
    let (request, state) =
        ask(start(true, true, true, Some("txn_1".to_string()), true, parties()));
    assert_eq!(request, RecoveryRequest::FetchBillingDetails { transaction_id: "txn_1".to_string() });
    let details =
        GetAdditionalRevenueRecoveryResponseData { invoice: invoice(), attempt: attempt_data() };
    let response = AdditionalRevenueRecoveryResponse(details.clone());
    assert_eq!(response.clone().inner(), details);
    let (request, state) = ask(step(state, RecoveryReply::BillingDetails(Some(response))));
    assert_eq!(
        request,
        RecoveryRequest::FindIntent { merchant_reference_id: "invoice_1".to_string() }
    );
    let (request, state) = ask(step(state, RecoveryReply::Intent(Lookup::Found(intent(None)))));
    assert_eq!(
        request,
        RecoveryRequest::FindConnectorAccount {
            connector_account_reference_id: "stripe_main".to_string()
        }
    );
    let (_, state) = ask(step(state, RecoveryReply::ConnectorAccount(Lookup::NotFound)));
    let found = RecoveryPaymentAttempt {
        attempt_id: "attempt_3".to_string(),
        attempt_status: AttemptStatus::Charged,
        triggered_by: Some(TriggeredBy::Internal),
    };
    let (request, state) = ask(step(state, RecoveryReply::FoundAttempt(Lookup::Found(found))));
    assert_eq!(
        request,
        RecoveryRequest::ChooseAction { triggered_by: Some(TriggeredBy::Internal) }
    );
    assert_eq!(
        step(state, RecoveryReply::Action(RecoveryAction::NoAction)),
        RecoveryStep::Done(Ok(WebhookResponseTracker::NoEffect))
    );
}

#[test]
fn event_without_a_transaction_is_acted_on_without_an_attempt() {
    let (_, state) = ask(start(true, true, false, None, false, parties()));
    let (_, state) = ask(step(state, RecoveryReply::Invoice(Some(invoice()))));
    let (request, state) = ask(step(state, RecoveryReply::Intent(Lookup::Found(intent(None)))));
    assert_eq!(request, RecoveryRequest::ChooseAction { triggered_by: None });
    let (request, state) =
        ask(step(state, RecoveryReply::Action(RecoveryAction::ScheduleFailedPayment)));
    assert_eq!(
        request,
        RecoveryRequest::FetchScheduleTime { merchant_id: "merchant_1".to_string(), retry_count: 1 }
    );
    assert_eq!(
        step(state, RecoveryReply::ScheduleTime(Some(10))),
        RecoveryStep::Done(Err(RevenueRecoveryError::PaymentAttemptIdNotFound))
    );
}

#[test]
fn each_failure_of_outside_work_has_its_error() {
    let (_, awaiting_invoice) = ask(start(true, true, false, None, true, parties()));
    assert_eq!(
        step(awaiting_invoice.clone(), RecoveryReply::Invoice(None)),
        RecoveryStep::Done(Err(RevenueRecoveryError::InvoiceWebhookProcessingFailed))
    );
    assert_eq!(
        step(awaiting_invoice.clone(), RecoveryReply::ScheduleTime(None)),
        RecoveryStep::Done(Err(RevenueRecoveryError::InvoiceWebhookProcessingFailed))
    );
    let (_, awaiting_intent) = ask(step(awaiting_invoice, RecoveryReply::Invoice(Some(invoice()))));
    assert_eq!(
        step(awaiting_intent.clone(), RecoveryReply::Intent(Lookup::Failed)),
        RecoveryStep::Done(Err(RevenueRecoveryError::PaymentIntentFetchFailed))
    );
    let (_, awaiting_created) =
        ask(step(awaiting_intent.clone(), RecoveryReply::Intent(Lookup::NotFound)));
    assert_eq!(
        step(awaiting_created, RecoveryReply::CreatedIntent(None)),
        RecoveryStep::Done(Err(RevenueRecoveryError::PaymentIntentCreateFailed))
    );
    let (_, awaiting_attempt) =
        ask(step(awaiting_intent, RecoveryReply::Intent(Lookup::Found(intent(None)))));
    assert_eq!(
        step(awaiting_attempt.clone(), RecoveryReply::Attempt(None)),
        RecoveryStep::Done(Err(RevenueRecoveryError::TransactionWebhookProcessingFailed))
    );
    let (_, awaiting_account) =
        ask(step(awaiting_attempt, RecoveryReply::Attempt(Some(attempt_data()))));
    assert_eq!(
        step(awaiting_account.clone(), RecoveryReply::ConnectorAccount(Lookup::Failed)),
        RecoveryStep::Done(Err(RevenueRecoveryError::PaymentMerchantConnectorAccountNotFound))
    );
    let (_, awaiting_found) =
        ask(step(awaiting_account, RecoveryReply::ConnectorAccount(Lookup::NotFound)));
    assert_eq!(
        step(awaiting_found.clone(), RecoveryReply::FoundAttempt(Lookup::Failed)),
        RecoveryStep::Done(Err(RevenueRecoveryError::PaymentAttemptFetchFailed))
    );
    let (_, awaiting_recorded) =
        ask(step(awaiting_found, RecoveryReply::FoundAttempt(Lookup::NotFound)));
    assert_eq!(
        step(awaiting_recorded, RecoveryReply::RecordedAttempt(None)),
        RecoveryStep::Done(Err(RevenueRecoveryError::PaymentAttemptFetchFailed))
    );
    let awaiting_time = RecoveryState::AwaitingScheduleTime {
        parties: parties(),
        intent: intent(None),
        attempt_id: Some("attempt_1".to_string()),
    };
    assert_eq!(
        step(awaiting_time, RecoveryReply::ScheduleTime(None)),
        RecoveryStep::Done(Err(RevenueRecoveryError::ScheduleTimeFetchFailed))
    );
    let awaiting_insert = RecoveryState::AwaitingInsert { intent: intent(None) };
    assert_eq!(
        step(awaiting_insert.clone(), RecoveryReply::Inserted(InsertOutcome::CreationFailed)),
        RecoveryStep::Done(Err(RevenueRecoveryError::ProcessTrackerCreationError))
    );
    assert_eq!(
        step(awaiting_insert, RecoveryReply::Inserted(InsertOutcome::InsertFailed)),
        RecoveryStep::Done(Err(RevenueRecoveryError::ProcessTrackerResponseError))
    );
}

#[test]
fn only_a_failed_payment_is_scheduled() {
    for action in [
        RecoveryAction::SuccessPaymentExternal,
        RecoveryAction::PendingPayment,
        RecoveryAction::NoAction,
        RecoveryAction::InvalidAction,
    ] {
        let state = RecoveryState::AwaitingAction {
            parties: parties(),
            intent: intent(None),
            attempt_id: None,
        };
        let reply = RecoveryReply::Action(action);
        assert!(reply.can_be_taken());
        assert_eq!(step(state, reply), RecoveryStep::Done(Ok(WebhookResponseTracker::NoEffect)));
    }
    assert!(!RecoveryReply::Action(RecoveryAction::CancelInvoice).can_be_taken());
    assert!(!RecoveryReply::Intent(Lookup::Found(intent(Some(u16::MAX)))).can_be_taken());
    assert!(RecoveryReply::Intent(Lookup::Found(intent(Some(7)))).can_be_taken());
}

#[test]
fn record_request_is_built_from_the_attempt() {
    let mut data = attempt_data();
    data.error_message = None;
    let request = RevenueRecoveryAttempt(data)
        .create_payment_record_request(&"mca_billing".to_string(), None);
    assert_eq!(request.error, None);
    assert_eq!(request.connector, None);
    assert_eq!(request.payment_merchant_connector_id, None);
    assert_eq!(request.payment_method_type, PaymentMethod::Card);
    assert_eq!(request.payment_method_subtype, PaymentMethodType::Credit);
    assert_eq!(request.transaction_created_at, Some(1_700_000_000));
    assert_eq!(request.processor_payment_method_token, "pm_1");
    assert_eq!(request.connector_customer_id, "cus_1");
    let entry =
        process_tracker_entry(parties(), &intent(None), "attempt_1".to_string(), 99);
    assert_eq!(entry.retry_count, 0);
    assert_eq!(entry.id, "PASSIVE_RECOVERY_WORKFLOW_EXECUTE_WORKFLOW_pay_1");
}

#[test]
fn stream_of_a_shard_is_named_after_it() {
    let mut store = Store {
        config: StoreConfig {
            drainer_stream_name: "DRAINER_STREAM".to_string(),
            drainer_num_partitions: 64,
        },
        master_key: vec![1, 2, 3],
        is_redis_available: true,
    };
    assert_eq!(store.get_drainer_stream_name("shard_5"), "{shard_5}_DRAINER_STREAM");
    assert_eq!(store.redis_conn(), Ok(()));
    store.is_redis_available = false;
    assert_eq!(store.redis_conn(), Err(RedisError::RedisConnectionError));
}

#[test]
fn master_key_is_read_from_hexadecimal() {
    assert_eq!(master_key_from_hex(&b"6b697769".to_vec()), Some(b"kiwi".to_vec()));
    assert_eq!(master_key_from_hex(&b"00FfaB10".to_vec()), Some(vec![0x00, 0xff, 0xab, 0x10]));
    assert_eq!(master_key_from_hex(&b"".to_vec()), Some(Vec::new()));
    assert_eq!(master_key_from_hex(&b"123".to_vec()), None);
    assert_eq!(master_key_from_hex(&b"zz".to_vec()), None);
}

#[test]
fn keys_are_made_of_random_bytes() {
    assert_eq!(key_from_random(None), Err(CryptoError::EncodingFailed));
    assert_eq!(key_from_random(Some([7u8; 32])), Ok([7u8; 32]));
    let first = generate_aes256_key().unwrap();
    let second = generate_aes256_key().unwrap();
    assert_eq!(first.len(), 32);
    assert_ne!(first, second);
}

#[test]
fn stand_in_store_keeps_payments_in_order() {
    let mut db = MockDb::new();
    let first = db
        .insert_payment_intent(new_intent("pay_1", "merchant_1"), "postgres_only".to_string(), 100)
        .unwrap();
    let second = db
        .insert_payment_intent(new_intent("pay_2", "merchant_1"), "postgres_only".to_string(), 200)
        .unwrap();
    assert_eq!(first.id, 0);
    assert_eq!(second.id, 1);
    assert_eq!(first.created_at, 100);
    assert_eq!(first.modified_at, 5);
    assert_eq!(first.updated_by, "postgres_only");
    assert_eq!(db.payment_intents.len(), 2);
    assert_eq!(
        db.find_payment_intent_by_payment_id_merchant_id("pay_2", "merchant_1"),
        Some(second.clone())
    );
    assert_eq!(db.find_payment_intent_by_payment_id_merchant_id("pay_2", "merchant_2"), None);
    assert_eq!(db.find_payment_intent_by_payment_id_merchant_id("pay_3", "merchant_1"), None);

    let mut changed = first.duplicate();
    changed.status = IntentStatus::Succeeded;
    changed.amount_captured = Some(1000);
    assert_eq!(db.update_payment_intent(&first, changed.duplicate()), Ok(changed.clone()));
    assert_eq!(
        db.find_payment_intent_by_payment_id_merchant_id("pay_1", "merchant_1"),
        Some(changed)
    );
    assert_eq!(db.payment_intents[1], second);
}

#[test]
fn stand_in_store_finds_the_active_attempt() {
    let mut db = MockDb::new();
    let attempt = PaymentAttempt {
        attempt_id: "attempt_1".to_string(),
        payment_id: "pay_1".to_string(),
        merchant_id: "merchant_1".to_string(),
        status: AttemptStatus::Pending,
        amount: 1000,
    };
    db.payment_attempts.push(PaymentAttempt {
        attempt_id: "attempt_1".to_string(),
        payment_id: "pay_9".to_string(),
        merchant_id: "merchant_2".to_string(),
        status: AttemptStatus::Failure,
        amount: 5,
    });
    db.payment_attempts.push(attempt.clone());
    let mut payment = db
        .insert_payment_intent(new_intent("pay_1", "merchant_1"), "postgres_only".to_string(), 100)
        .unwrap();
    assert_eq!(db.get_active_payment_attempt(&mut payment), Ok(attempt.clone()));
    assert_eq!(payment.active_attempt, RemoteStorageObject::Object(attempt.clone()));
    assert_eq!(db.get_active_payment_attempt(&mut payment), Ok(attempt));
    let mut lost = db
        .insert_payment_intent(new_intent("pay_2", "merchant_3"), "postgres_only".to_string(), 100)
        .unwrap();
    assert_eq!(
        db.get_active_payment_attempt(&mut lost),
        Err(StorageError::ValueNotFound("Attempt not found"))
    );
    assert_eq!(lost.active_attempt, RemoteStorageObject::ForeignID("attempt_1".to_string()));
}
