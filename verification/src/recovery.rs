//! Revenue recovery: what is done when a billing connector reports on an
//! invoice by webhook.
//!
//! The flow asks for work that is done elsewhere (a call to the billing
//! connector, a look into the store) and decides on each answer what to
//! ask for next. The decisions are the function [`step`]; whoever runs the
//! flow does what a step asks for and hands the answer back.

use vstd::prelude::*;
use crate::currency::{Currency, MinorUnit};
use crate::enums::{AttemptStatus, IntentStatus, PaymentMethod, PaymentMethodType, TriggeredBy};
use crate::router_data::RouterData;
use crate::text::{join3, owned};

verus! {

/// Why a webhook of a billing connector could not be taken.
#[derive(Clone, Copy, Debug, PartialEq, Eq, Hash, Structural)]
pub enum RevenueRecoveryError {
    WebhookAuthenticationFailed,
    InvoiceWebhookProcessingFailed,
    TransactionWebhookProcessingFailed,
    PaymentIntentFetchFailed,
    PaymentIntentCreateFailed,
    PaymentAttemptFetchFailed,
    PaymentMerchantConnectorAccountNotFound,
    ScheduleTimeFetchFailed,
    PaymentAttemptIdNotFound,
    ProcessTrackerCreationError,
    ProcessTrackerResponseError,
    AdditionalRevenueRecoveryCallFailed,
}

/// What a webhook calls for, given who set the attempt off that it
/// reports on.
#[derive(Clone, Copy, Debug, PartialEq, Eq, Hash, Structural)]
pub enum RecoveryAction {
    CancelInvoice,
    ScheduleFailedPayment,
    SuccessPaymentExternal,
    PendingPayment,
    NoAction,
    InvalidAction,
}

/// What taking a webhook came to.
#[derive(Clone, Debug, PartialEq, Eq)]
pub enum WebhookResponseTracker {
    Payment { payment_id: String, status: IntentStatus },
    NoEffect,
}

/// The invoice that a webhook reports on.
#[derive(Clone, Debug, PartialEq, Eq)]
pub struct RevenueRecoveryInvoiceData {
    pub amount: MinorUnit,
    pub currency: Currency,
    pub merchant_reference_id: String,
}

/// The attempt at a payment that a webhook reports on.
#[derive(Clone, Debug, PartialEq, Eq)]
pub struct RevenueRecoveryAttemptData {
    pub amount: MinorUnit,
    pub currency: Currency,
    pub merchant_reference_id: String,
    pub connector_transaction_id: Option<String>,
    pub error_code: Option<String>,
    pub error_message: Option<String>,
    pub processor_payment_method_token: String,
    pub connector_customer_id: String,
    pub connector_account_reference_id: String,
    /// Seconds since the epoch.
    pub transaction_created_at: Option<i64>,
    pub status: AttemptStatus,
    pub payment_method_type: PaymentMethod,
    pub payment_method_sub_type: PaymentMethodType,
}

/// The invoice of a webhook, as the flow holds it.
#[derive(Clone, Debug, PartialEq, Eq)]
pub struct RevenueRecoveryInvoice(pub RevenueRecoveryInvoiceData);

/// The attempt of a webhook, as the flow holds it.
#[derive(Clone, Debug, PartialEq, Eq)]
pub struct RevenueRecoveryAttempt(pub RevenueRecoveryAttemptData);

/// What the billing connector says of a payment when it is asked: the
/// invoice and the attempt at paying it.
#[derive(Clone, Debug, PartialEq, Eq)]
pub struct GetAdditionalRevenueRecoveryResponseData {
    pub invoice: RevenueRecoveryInvoiceData,
    pub attempt: RevenueRecoveryAttemptData,
}

/// The question to the billing connector about a payment.
#[derive(Clone, Debug, PartialEq, Eq)]
pub struct GetAdditionalRevenueRecoveryRequestData {
    pub additional_revenue_recovery_id: String,
}

/// The question to the billing connector in its context.
pub type AdditionalRevenueRecoveryDetailsRouterData = RouterData<
    GetAdditionalRevenueRecoveryRequestData,
    GetAdditionalRevenueRecoveryResponseData,
>;

/// What the billing connector answered, as the flow holds it.
#[derive(Clone, Debug, PartialEq, Eq)]
pub struct AdditionalRevenueRecoveryResponse(pub GetAdditionalRevenueRecoveryResponseData);

/// The question to the billing connector, as the flow holds it.
#[derive(Debug, PartialEq, Eq)]
pub struct AdditionalRevenueRecoveryRouterData(pub AdditionalRevenueRecoveryDetailsRouterData);

impl AdditionalRevenueRecoveryResponse {
    /// What the billing connector answered.
    pub fn inner(self) -> (res: GetAdditionalRevenueRecoveryResponseData)
        ensures
            res == self.0,
    {
        self.0
    }
}

impl AdditionalRevenueRecoveryRouterData {
    /// The question to the billing connector.
    pub fn inner(self) -> (res: AdditionalRevenueRecoveryDetailsRouterData)
        ensures
            res == self.0,
    {
        self.0
    }
}

/// The payment of an invoice, as far as the flow reads it.
#[derive(Clone, Debug, PartialEq, Eq)]
pub struct RecoveryPaymentIntent {
    pub payment_id: String,
    pub status: IntentStatus,
    /// How often the payment has been retried, where that is on record.
    pub retry_count: Option<u16>,
}

impl RecoveryPaymentIntent {
    /// Whether one more retry can be counted.
    pub open spec fn wf(self) -> bool {
        self.retry_count != Some(u16::MAX)
    }
}

/// An attempt at a payment, as far as the flow reads it.
#[derive(Clone, Debug, PartialEq, Eq)]
pub struct RecoveryPaymentAttempt {
    pub attempt_id: String,
    pub attempt_status: AttemptStatus,
    pub triggered_by: Option<TriggeredBy>,
}

/// The account with the connector that made a payment.
#[derive(Clone, Debug, PartialEq, Eq)]
pub struct MerchantConnectorAccount {
    pub id: String,
    pub connector_name: String,
}

/// What is known of a failure that is put on record with an attempt.
#[derive(Clone, Debug, PartialEq, Eq)]
pub struct RecordAttemptErrorDetails {
    pub code: String,
    pub message: String,
}

/// The request to put an attempt on record that another system made.
#[derive(Clone, Debug, PartialEq, Eq)]
pub struct PaymentsAttemptRecordRequest {
    pub amount: MinorUnit,
    pub status: AttemptStatus,
    pub connector: Option<String>,
    pub payment_merchant_connector_id: Option<String>,
    pub error: Option<RecordAttemptErrorDetails>,
    pub connector_transaction_id: Option<String>,
    pub payment_method_type: PaymentMethod,
    pub billing_connector_id: String,
    pub payment_method_subtype: PaymentMethodType,
    pub attempt_triggered_by: TriggeredBy,
    pub transaction_created_at: Option<i64>,
    pub processor_payment_method_token: String,
    pub connector_customer_id: String,
}

/// The failure that an attempt reports: its code and its message, where
/// it has both.
pub open spec fn spec_record_error(data: RevenueRecoveryAttemptData) -> Option<
    RecordAttemptErrorDetails,
> {
    match (data.error_code, data.error_message) {
        (Some(code), Some(message)) => Some(RecordAttemptErrorDetails { code, message }),
        _ => None,
    }
}

impl RevenueRecoveryAttempt {
    /// The request that puts the attempt on record. The attempt counts as
    /// set off elsewhere, since another system made it.
    pub open spec fn spec_record_request(
        self,
        billing_merchant_connector_account_id: String,
        payment_merchant_connector_account: Option<MerchantConnectorAccount>,
    ) -> PaymentsAttemptRecordRequest {
        PaymentsAttemptRecordRequest {
            amount: self.0.amount,
            status: self.0.status,
            connector: match payment_merchant_connector_account {
                Some(account) => Some(account.connector_name),
                None => None,
            },
            payment_merchant_connector_id: match payment_merchant_connector_account {
                Some(account) => Some(account.id),
                None => None,
            },
            error: spec_record_error(self.0),
            connector_transaction_id: self.0.connector_transaction_id,
            payment_method_type: self.0.payment_method_type,
            billing_connector_id: billing_merchant_connector_account_id,
            payment_method_subtype: self.0.payment_method_sub_type,
            attempt_triggered_by: TriggeredBy::External,
            transaction_created_at: self.0.transaction_created_at,
            processor_payment_method_token: self.0.processor_payment_method_token,
            connector_customer_id: self.0.connector_customer_id,
        }
    }

    /// Builds the request that puts the attempt on record.
    pub fn create_payment_record_request(
        &self,
        billing_merchant_connector_account_id: &String,
        payment_merchant_connector_account: Option<MerchantConnectorAccount>,
    ) -> (res: PaymentsAttemptRecordRequest)
        ensures
            res == self.spec_record_request(
                *billing_merchant_connector_account_id,
                payment_merchant_connector_account,
            ),
    {
        let error = match (&self.0.error_code, &self.0.error_message) {
            (Some(code), Some(message)) => Some(
                RecordAttemptErrorDetails { code: code.clone(), message: message.clone() },
            ),
            _ => None,
        };
        let (connector, payment_merchant_connector_id) = match payment_merchant_connector_account {
            Some(account) => (Some(account.connector_name), Some(account.id)),
            None => (None, None),
        };
        PaymentsAttemptRecordRequest {
            amount: self.0.amount,
            status: self.0.status,
            connector,
            payment_merchant_connector_id,
            error,
            connector_transaction_id: self.0.connector_transaction_id.clone(),
            payment_method_type: self.0.payment_method_type,
            billing_connector_id: billing_merchant_connector_account_id.clone(),
            payment_method_subtype: self.0.payment_method_sub_type,
            attempt_triggered_by: TriggeredBy::External,
            transaction_created_at: self.0.transaction_created_at,
            processor_payment_method_token: self.0.processor_payment_method_token.clone(),
            connector_customer_id: self.0.connector_customer_id.clone(),
        }
    }
}

/// The name of the workflow that retries failed payments.
pub const PASSIVE_RECOVERY_RUNNER: &'static str = "PASSIVE_RECOVERY_WORKFLOW";

/// The name of the task that runs a retry.
pub const EXECUTE_WORKFLOW_TASK: &'static str = "EXECUTE_WORKFLOW";

/// The tag of the tasks of revenue recovery.
pub const RECOVERY_TAG: &'static str = "PCR";

/// What a task that retries a payment is told.
#[derive(Clone, Debug, PartialEq, Eq)]
pub struct PcrWorkflowTrackingData {
    pub global_payment_id: String,
    pub merchant_id: String,
    pub profile_id: String,
    pub payment_attempt_id: String,
}

/// A task for the workflow that retries failed payments.
#[derive(Clone, Debug, PartialEq, Eq)]
pub struct ProcessTrackerEntry {
    pub id: String,
    pub name: String,
    pub runner: String,
    pub tag: String,
    pub tracking_data: PcrWorkflowTrackingData,
    pub retry_count: i32,
    /// Seconds since the epoch.
    pub schedule_time: i64,
}

/// Who a webhook is taken for.
#[derive(Clone, Debug, PartialEq, Eq)]
pub struct RecoveryParties {
    pub merchant_id: String,
    pub profile_id: String,
    pub billing_connector_account_id: String,
}

/// Work that the flow asks for.
#[derive(Clone, Debug, PartialEq, Eq)]
pub enum RecoveryRequest {
    /// Ask the billing connector about the transaction.
    FetchBillingDetails { transaction_id: String },
    /// Read the invoice out of the webhook.
    ReadInvoice,
    /// Look for the payment that was made for the invoice.
    FindIntent { merchant_reference_id: String },
    /// Make a payment for the invoice.
    CreateIntent { invoice: RevenueRecoveryInvoiceData },
    /// Read the attempt out of the webhook.
    ReadAttempt,
    /// Look for the account with the connector that made the payment.
    FindConnectorAccount { connector_account_reference_id: String },
    /// Look among the attempts at the payment for the one with the
    /// transaction.
    FindAttempt { payment_id: String, connector_transaction_id: Option<String> },
    /// Put the attempt on record.
    RecordAttempt { payment_id: String, request: PaymentsAttemptRecordRequest },
    /// Tell what the webhook calls for.
    ChooseAction { triggered_by: Option<TriggeredBy> },
    /// Tell when the payment is to be retried.
    FetchScheduleTime { merchant_id: String, retry_count: i32 },
    /// Hand the task to the workflow.
    InsertProcess { entry: ProcessTrackerEntry },
}

/// What a look into the store came to.
#[derive(Clone, Debug, PartialEq, Eq)]
pub enum Lookup<T> {
    Found(T),
    NotFound,
    Failed,
}

/// The answer to a request of the flow.
#[derive(Clone, Debug, PartialEq, Eq)]
pub enum RecoveryReply {
    /// The billing connector answered, or could not be asked.
    BillingDetails(Option<AdditionalRevenueRecoveryResponse>),
    /// The invoice of the webhook, where it could be read.
    Invoice(Option<RevenueRecoveryInvoiceData>),
    /// The payment was found, there is none, or the look failed.
    Intent(Lookup<RecoveryPaymentIntent>),
    /// The payment was made, or could not be.
    CreatedIntent(Option<RecoveryPaymentIntent>),
    /// The attempt of the webhook, where it could be read.
    Attempt(Option<RevenueRecoveryAttemptData>),
    /// The account was found, none is referred to, or the look failed.
    ConnectorAccount(Lookup<MerchantConnectorAccount>),
    /// The attempt was found, there is none, or the look failed.
    FoundAttempt(Lookup<RecoveryPaymentAttempt>),
    /// The attempt was put on record, or could not be.
    RecordedAttempt(Option<RecoveryPaymentAttempt>),
    /// What the webhook calls for.
    Action(RecoveryAction),
    /// When the payment is to be retried, where that is settled.
    ScheduleTime(Option<i64>),
    /// What became of the task.
    Inserted(InsertOutcome),
}

/// What became of a task that was handed to the workflow.
#[derive(Clone, Copy, Debug, PartialEq, Eq, Hash, Structural)]
pub enum InsertOutcome {
    Inserted,
    /// The task could not be written down.
    CreationFailed,
    /// The store did not take the task.
    InsertFailed,
}

/// What the flow waits for, with what it knows.
#[derive(Clone, Debug, PartialEq, Eq)]
pub enum RecoveryState {
    AwaitingBillingDetails { is_transaction_event: bool, parties: RecoveryParties },
    AwaitingInvoice { is_transaction_event: bool, parties: RecoveryParties },
    AwaitingIntent {
        is_transaction_event: bool,
        parties: RecoveryParties,
        details: Option<GetAdditionalRevenueRecoveryResponseData>,
        invoice: RevenueRecoveryInvoiceData,
    },
    AwaitingCreatedIntent {
        is_transaction_event: bool,
        parties: RecoveryParties,
        details: Option<GetAdditionalRevenueRecoveryResponseData>,
    },
    AwaitingAttempt { parties: RecoveryParties, intent: RecoveryPaymentIntent },
    AwaitingConnectorAccount {
        parties: RecoveryParties,
        intent: RecoveryPaymentIntent,
        attempt: RevenueRecoveryAttemptData,
    },
    AwaitingFoundAttempt {
        parties: RecoveryParties,
        intent: RecoveryPaymentIntent,
        attempt: RevenueRecoveryAttemptData,
        account: Option<MerchantConnectorAccount>,
    },
    AwaitingRecordedAttempt { parties: RecoveryParties, intent: RecoveryPaymentIntent },
    AwaitingAction {
        parties: RecoveryParties,
        intent: RecoveryPaymentIntent,
        attempt_id: Option<String>,
    },
    AwaitingScheduleTime {
        parties: RecoveryParties,
        intent: RecoveryPaymentIntent,
        attempt_id: Option<String>,
    },
    AwaitingInsert { intent: RecoveryPaymentIntent },
}

/// What the flow does next: it asks for work and waits, or it is done.
#[derive(Debug, PartialEq, Eq)]
pub enum RecoveryStep {
    Ask { request: RecoveryRequest, state: RecoveryState },
    Done(Result<WebhookResponseTracker, RevenueRecoveryError>),
}

impl RecoveryState {
    /// How far the flow has come. Every step that asks for work moves the
    /// flow on.
    pub open spec fn spec_progress(self) -> nat {
        match self {
            RecoveryState::AwaitingBillingDetails { .. } => 1,
            RecoveryState::AwaitingInvoice { .. } => 2,
            RecoveryState::AwaitingIntent { .. } => 3,
            RecoveryState::AwaitingCreatedIntent { .. } => 4,
            RecoveryState::AwaitingAttempt { .. } => 5,
            RecoveryState::AwaitingConnectorAccount { .. } => 6,
            RecoveryState::AwaitingFoundAttempt { .. } => 7,
            RecoveryState::AwaitingRecordedAttempt { .. } => 8,
            RecoveryState::AwaitingAction { .. } => 9,
            RecoveryState::AwaitingScheduleTime { .. } => 10,
            RecoveryState::AwaitingInsert { .. } => 11,
        }
    }

    /// Whether one more retry of the payment that the flow holds can be
    /// counted.
    pub open spec fn wf(self) -> bool {
        match self {
            RecoveryState::AwaitingAttempt { intent, .. }
            | RecoveryState::AwaitingConnectorAccount { intent, .. }
            | RecoveryState::AwaitingFoundAttempt { intent, .. }
            | RecoveryState::AwaitingRecordedAttempt { intent, .. }
            | RecoveryState::AwaitingAction { intent, .. }
            | RecoveryState::AwaitingScheduleTime { intent, .. }
            | RecoveryState::AwaitingInsert { intent } => intent.wf(),
            _ => true,
        }
    }

    /// Whether `reply` answers what the flow waits for.
    pub open spec fn spec_expects(self, reply: RecoveryReply) -> bool {
        match (self, reply) {
            (RecoveryState::AwaitingBillingDetails { .. }, RecoveryReply::BillingDetails(_))
            | (RecoveryState::AwaitingInvoice { .. }, RecoveryReply::Invoice(_))
            | (RecoveryState::AwaitingIntent { .. }, RecoveryReply::Intent(_))
            | (RecoveryState::AwaitingCreatedIntent { .. }, RecoveryReply::CreatedIntent(_))
            | (RecoveryState::AwaitingAttempt { .. }, RecoveryReply::Attempt(_))
            | (RecoveryState::AwaitingConnectorAccount { .. }, RecoveryReply::ConnectorAccount(_))
            | (RecoveryState::AwaitingFoundAttempt { .. }, RecoveryReply::FoundAttempt(_))
            | (RecoveryState::AwaitingRecordedAttempt { .. }, RecoveryReply::RecordedAttempt(_))
            | (RecoveryState::AwaitingAction { .. }, RecoveryReply::Action(_))
            | (RecoveryState::AwaitingScheduleTime { .. }, RecoveryReply::ScheduleTime(_))
            | (RecoveryState::AwaitingInsert { .. }, RecoveryReply::Inserted(_)) => true,
            _ => false,
        }
    }
}

impl RecoveryReply {
    /// Whether the flow can take the reply: one more retry of the payment
    /// that it brings can be counted, and it does not call for an invoice
    /// to be cancelled, which the flow does not provide for.
    pub open spec fn wf(self) -> bool {
        match self {
            RecoveryReply::Intent(Lookup::Found(intent)) => intent.wf(),
            RecoveryReply::CreatedIntent(Some(intent)) => intent.wf(),
            RecoveryReply::Action(action) => action != RecoveryAction::CancelInvoice,
            _ => true,
        }
    }

    /// Tells whether the flow can take the reply.
    pub fn can_be_taken(&self) -> (res: bool)
        ensures
            res == self.wf(),
    {
        match self {
            RecoveryReply::Intent(Lookup::Found(intent)) => match intent.retry_count {
                Some(count) => count != u16::MAX,
                None => true,
            },
            RecoveryReply::CreatedIntent(Some(intent)) => match intent.retry_count {
                Some(count) => count != u16::MAX,
                None => true,
            },
            RecoveryReply::Action(action) => !matches!(action, RecoveryAction::CancelInvoice),
            _ => true,
        }
    }
}

impl RecoveryStep {
    /// Whether one more retry of the payment that the flow holds can be
    /// counted.
    pub open spec fn wf(self) -> bool {
        match self {
            RecoveryStep::Ask { state, .. } => state.wf(),
            RecoveryStep::Done(_) => true,
        }
    }

    /// How far the flow has come; a flow that is done has come all the
    /// way.
    pub open spec fn spec_progress(self) -> nat {
        match self {
            RecoveryStep::Ask { state, .. } => state.spec_progress(),
            RecoveryStep::Done(_) => 12,
        }
    }
}

/// The first step of the flow.
///
/// A webhook whose source is not verified is rejected: nothing is on
/// record yet that it could be checked against. A webhook of a connector
/// that is not known cannot be taken. Where the billing connector has to
/// be asked about the payment, it is asked for the transaction that the
/// webhook refers to; otherwise the invoice is read out of the webhook.
pub open spec fn spec_start(
    source_verified: bool,
    connector_known: bool,
    asks_billing_connector: bool,
    transaction_id: Option<String>,
    is_transaction_event: bool,
    parties: RecoveryParties,
) -> RecoveryStep {
    if !source_verified {
        RecoveryStep::Done(Err(RevenueRecoveryError::WebhookAuthenticationFailed))
    } else if !connector_known {
        RecoveryStep::Done(Err(RevenueRecoveryError::InvoiceWebhookProcessingFailed))
    } else if asks_billing_connector {
        match transaction_id {
            Some(transaction_id) => RecoveryStep::Ask {
                request: RecoveryRequest::FetchBillingDetails { transaction_id },
                state: RecoveryState::AwaitingBillingDetails { is_transaction_event, parties },
            },
            None => RecoveryStep::Done(
                Err(RevenueRecoveryError::AdditionalRevenueRecoveryCallFailed),
            ),
        }
    } else {
        RecoveryStep::Ask {
            request: RecoveryRequest::ReadInvoice,
            state: RecoveryState::AwaitingInvoice { is_transaction_event, parties },
        }
    }
}

/// Takes the first step of the flow.
pub fn start(
    source_verified: bool,
    connector_known: bool,
    asks_billing_connector: bool,
    transaction_id: Option<String>,
    is_transaction_event: bool,
    parties: RecoveryParties,
) -> (res: RecoveryStep)
    ensures
        res == spec_start(
            source_verified,
            connector_known,
            asks_billing_connector,
            transaction_id,
            is_transaction_event,
            parties,
        ),
        res.wf(),
{
    if !source_verified {
        return RecoveryStep::Done(Err(RevenueRecoveryError::WebhookAuthenticationFailed));
    }
    if !connector_known {
        return RecoveryStep::Done(Err(RevenueRecoveryError::InvoiceWebhookProcessingFailed));
    }
    if asks_billing_connector {
        match transaction_id {
            Some(transaction_id) => RecoveryStep::Ask {
                request: RecoveryRequest::FetchBillingDetails { transaction_id },
                state: RecoveryState::AwaitingBillingDetails { is_transaction_event, parties },
            },
            None => RecoveryStep::Done(
                Err(RevenueRecoveryError::AdditionalRevenueRecoveryCallFailed),
            ),
        }
    } else {
        RecoveryStep::Ask {
            request: RecoveryRequest::ReadInvoice,
            state: RecoveryState::AwaitingInvoice { is_transaction_event, parties },
        }
    }
}

/// The step that asks for the payment of an invoice.
pub open spec fn spec_find_intent(
    is_transaction_event: bool,
    parties: RecoveryParties,
    details: Option<GetAdditionalRevenueRecoveryResponseData>,
    invoice: RevenueRecoveryInvoiceData,
) -> RecoveryStep {
    RecoveryStep::Ask {
        request: RecoveryRequest::FindIntent { merchant_reference_id: invoice.merchant_reference_id },
        state: RecoveryState::AwaitingIntent { is_transaction_event, parties, details, invoice },
    }
}

/// The step that follows once the payment is known: a webhook that
/// reports on a transaction has its attempt looked for, taken from what
/// the billing connector said or read out of the webhook; any other
/// webhook is acted on without an attempt.
pub open spec fn spec_with_intent(
    is_transaction_event: bool,
    parties: RecoveryParties,
    details: Option<GetAdditionalRevenueRecoveryResponseData>,
    intent: RecoveryPaymentIntent,
) -> RecoveryStep {
    if !is_transaction_event {
        RecoveryStep::Ask {
            request: RecoveryRequest::ChooseAction { triggered_by: None },
            state: RecoveryState::AwaitingAction { parties, intent, attempt_id: None },
        }
    } else {
        match details {
            Some(details) => spec_find_account(parties, intent, details.attempt),
            None => RecoveryStep::Ask {
                request: RecoveryRequest::ReadAttempt,
                state: RecoveryState::AwaitingAttempt { parties, intent },
            },
        }
    }
}

/// The step that asks for the account with the connector that made the
/// payment.
pub open spec fn spec_find_account(
    parties: RecoveryParties,
    intent: RecoveryPaymentIntent,
    attempt: RevenueRecoveryAttemptData,
) -> RecoveryStep {
    RecoveryStep::Ask {
        request: RecoveryRequest::FindConnectorAccount {
            connector_account_reference_id: attempt.connector_account_reference_id,
        },
        state: RecoveryState::AwaitingConnectorAccount { parties, intent, attempt },
    }
}

/// The step that asks for the attempt with the transaction that the
/// webhook reports on.
pub open spec fn spec_find_attempt(
    parties: RecoveryParties,
    intent: RecoveryPaymentIntent,
    attempt: RevenueRecoveryAttemptData,
    account: Option<MerchantConnectorAccount>,
) -> RecoveryStep {
    RecoveryStep::Ask {
        request: RecoveryRequest::FindAttempt {
            payment_id: intent.payment_id,
            connector_transaction_id: attempt.connector_transaction_id,
        },
        state: RecoveryState::AwaitingFoundAttempt { parties, intent, attempt, account },
    }
}

/// The step that asks what the webhook calls for, given the attempt that
/// it reports on.
pub open spec fn spec_choose_action(
    parties: RecoveryParties,
    intent: RecoveryPaymentIntent,
    attempt: RecoveryPaymentAttempt,
) -> RecoveryStep {
    RecoveryStep::Ask {
        request: RecoveryRequest::ChooseAction { triggered_by: attempt.triggered_by },
        state: RecoveryState::AwaitingAction {
            parties,
            intent,
            attempt_id: Some(attempt.attempt_id),
        },
    }
}

/// How often a payment has been retried: not at all where nothing is on
/// record.
pub open spec fn spec_retry_count(intent: RecoveryPaymentIntent) -> int {
    match intent.retry_count {
        Some(count) => count as int,
        None => 0,
    }
}

/// The id of the task that retries a payment.
pub open spec fn spec_process_tracker_id(payment_id: Seq<char>) -> Seq<char> {
    PASSIVE_RECOVERY_RUNNER@ + "_"@ + EXECUTE_WORKFLOW_TASK@ + "_"@ + payment_id
}

/// Whether `entry` is the task that retries a payment at a given time.
pub open spec fn spec_is_entry(
    parties: RecoveryParties,
    intent: RecoveryPaymentIntent,
    attempt_id: String,
    schedule_time: i64,
    entry: ProcessTrackerEntry,
) -> bool {
    &&& entry.id@ == spec_process_tracker_id(intent.payment_id@)
    &&& entry.name@ == EXECUTE_WORKFLOW_TASK@
    &&& entry.runner@ == PASSIVE_RECOVERY_RUNNER@
    &&& entry.tag@ == RECOVERY_TAG@
    &&& entry.tracking_data == (PcrWorkflowTrackingData {
        global_payment_id: intent.payment_id,
        merchant_id: parties.merchant_id,
        profile_id: parties.profile_id,
        payment_attempt_id: attempt_id,
    })
    &&& entry.retry_count == spec_retry_count(intent)
    &&& entry.schedule_time == schedule_time
}

/// Whether `res` is the step that the flow takes on a reply.
///
/// A reply that does not answer what the flow waits for ends the flow
/// with the error of the work that was asked for.
pub open spec fn spec_is_step(state: RecoveryState, reply: RecoveryReply, res: RecoveryStep) -> bool {
    match state {
        RecoveryState::AwaitingBillingDetails { is_transaction_event, parties } => match reply {
            RecoveryReply::BillingDetails(Some(response)) => res == spec_find_intent(
                is_transaction_event,
                parties,
                Some(response.0),
                response.0.invoice,
            ),
            _ => res == RecoveryStep::Done(
                Err(RevenueRecoveryError::AdditionalRevenueRecoveryCallFailed),
            ),
        },
        RecoveryState::AwaitingInvoice { is_transaction_event, parties } => match reply {
            RecoveryReply::Invoice(Some(invoice)) => res == spec_find_intent(
                is_transaction_event,
                parties,
                None,
                invoice,
            ),
            _ => res == RecoveryStep::Done(
                Err(RevenueRecoveryError::InvoiceWebhookProcessingFailed),
            ),
        },
        RecoveryState::AwaitingIntent { is_transaction_event, parties, details, invoice } =>
            match reply {
            RecoveryReply::Intent(Lookup::Found(intent)) => res == spec_with_intent(
                is_transaction_event,
                parties,
                details,
                intent,
            ),
            RecoveryReply::Intent(Lookup::NotFound) => res == (RecoveryStep::Ask {
                request: RecoveryRequest::CreateIntent { invoice },
                state: RecoveryState::AwaitingCreatedIntent {
                    is_transaction_event,
                    parties,
                    details,
                },
            }),
            _ => res == RecoveryStep::Done(Err(RevenueRecoveryError::PaymentIntentFetchFailed)),
        },
        RecoveryState::AwaitingCreatedIntent { is_transaction_event, parties, details } =>
            match reply {
            RecoveryReply::CreatedIntent(Some(intent)) => res == spec_with_intent(
                is_transaction_event,
                parties,
                details,
                intent,
            ),
            _ => res == RecoveryStep::Done(Err(RevenueRecoveryError::PaymentIntentCreateFailed)),
        },
        RecoveryState::AwaitingAttempt { parties, intent } => match reply {
            RecoveryReply::Attempt(Some(attempt)) => res == spec_find_account(
                parties,
                intent,
                attempt,
            ),
            _ => res == RecoveryStep::Done(
                Err(RevenueRecoveryError::TransactionWebhookProcessingFailed),
            ),
        },
        RecoveryState::AwaitingConnectorAccount { parties, intent, attempt } => match reply {
            RecoveryReply::ConnectorAccount(Lookup::Found(account)) => res == spec_find_attempt(
                parties,
                intent,
                attempt,
                Some(account),
            ),
            RecoveryReply::ConnectorAccount(Lookup::NotFound) => res == spec_find_attempt(
                parties,
                intent,
                attempt,
                None,
            ),
            _ => res == RecoveryStep::Done(
                Err(RevenueRecoveryError::PaymentMerchantConnectorAccountNotFound),
            ),
        },
        RecoveryState::AwaitingFoundAttempt { parties, intent, attempt, account } => match reply {
            RecoveryReply::FoundAttempt(Lookup::Found(found)) => res == spec_choose_action(
                parties,
                intent,
                found,
            ),
            RecoveryReply::FoundAttempt(Lookup::NotFound) => res == (RecoveryStep::Ask {
                request: RecoveryRequest::RecordAttempt {
                    payment_id: intent.payment_id,
                    request: RevenueRecoveryAttempt(attempt).spec_record_request(
                        parties.billing_connector_account_id,
                        account,
                    ),
                },
                state: RecoveryState::AwaitingRecordedAttempt { parties, intent },
            }),
            _ => res == RecoveryStep::Done(Err(RevenueRecoveryError::PaymentAttemptFetchFailed)),
        },
        RecoveryState::AwaitingRecordedAttempt { parties, intent } => match reply {
            RecoveryReply::RecordedAttempt(Some(recorded)) => res == spec_choose_action(
                parties,
                intent,
                recorded,
            ),
            _ => res == RecoveryStep::Done(Err(RevenueRecoveryError::PaymentAttemptFetchFailed)),
        },
        RecoveryState::AwaitingAction { parties, intent, attempt_id } => match reply {
            RecoveryReply::Action(RecoveryAction::ScheduleFailedPayment) => res == (
            RecoveryStep::Ask {
                request: RecoveryRequest::FetchScheduleTime {
                    merchant_id: parties.merchant_id,
                    retry_count: (spec_retry_count(intent) + 1) as i32,
                },
                state: RecoveryState::AwaitingScheduleTime { parties, intent, attempt_id },
            }),
            RecoveryReply::Action(_) => res == RecoveryStep::Done(
                Ok(WebhookResponseTracker::NoEffect),
            ),
            _ => res == RecoveryStep::Done(
                Err(RevenueRecoveryError::InvoiceWebhookProcessingFailed),
            ),
        },
        RecoveryState::AwaitingScheduleTime { parties, intent, attempt_id } => match reply {
            RecoveryReply::ScheduleTime(Some(schedule_time)) => match attempt_id {
                Some(attempt_id) => {
                    &&& res matches RecoveryStep::Ask {
                        request: RecoveryRequest::InsertProcess { entry },
                        state: next,
                    }
                    &&& spec_is_entry(parties, intent, attempt_id, schedule_time, entry)
                    &&& next == (RecoveryState::AwaitingInsert { intent })
                },
                None => res == RecoveryStep::Done(
                    Err(RevenueRecoveryError::PaymentAttemptIdNotFound),
                ),
            },
            _ => res == RecoveryStep::Done(Err(RevenueRecoveryError::ScheduleTimeFetchFailed)),
        },
        RecoveryState::AwaitingInsert { intent } => match reply {
            RecoveryReply::Inserted(InsertOutcome::Inserted) => res == RecoveryStep::Done(
                Ok(
                    WebhookResponseTracker::Payment {
                        payment_id: intent.payment_id,
                        status: intent.status,
                    },
                ),
            ),
            RecoveryReply::Inserted(InsertOutcome::CreationFailed) => res == RecoveryStep::Done(
                Err(RevenueRecoveryError::ProcessTrackerCreationError),
            ),
            _ => res == RecoveryStep::Done(Err(RevenueRecoveryError::ProcessTrackerResponseError)),
        },
    }
}

fn find_intent(
    is_transaction_event: bool,
    parties: RecoveryParties,
    details: Option<GetAdditionalRevenueRecoveryResponseData>,
    invoice: RevenueRecoveryInvoiceData,
) -> (res: RecoveryStep)
    ensures
        res == spec_find_intent(is_transaction_event, parties, details, invoice),
{
    RecoveryStep::Ask {
        request: RecoveryRequest::FindIntent {
            merchant_reference_id: invoice.merchant_reference_id.clone(),
        },
        state: RecoveryState::AwaitingIntent { is_transaction_event, parties, details, invoice },
    }
}

fn find_account(
    parties: RecoveryParties,
    intent: RecoveryPaymentIntent,
    attempt: RevenueRecoveryAttemptData,
) -> (res: RecoveryStep)
    ensures
        res == spec_find_account(parties, intent, attempt),
{
    RecoveryStep::Ask {
        request: RecoveryRequest::FindConnectorAccount {
            connector_account_reference_id: attempt.connector_account_reference_id.clone(),
        },
        state: RecoveryState::AwaitingConnectorAccount { parties, intent, attempt },
    }
}

fn with_intent(
    is_transaction_event: bool,
    parties: RecoveryParties,
    details: Option<GetAdditionalRevenueRecoveryResponseData>,
    intent: RecoveryPaymentIntent,
) -> (res: RecoveryStep)
    ensures
        res == spec_with_intent(is_transaction_event, parties, details, intent),
{
    if !is_transaction_event {
        RecoveryStep::Ask {
            request: RecoveryRequest::ChooseAction { triggered_by: None },
            state: RecoveryState::AwaitingAction { parties, intent, attempt_id: None },
        }
    } else {
        match details {
            Some(details) => find_account(parties, intent, details.attempt),
            None => RecoveryStep::Ask {
                request: RecoveryRequest::ReadAttempt,
                state: RecoveryState::AwaitingAttempt { parties, intent },
            },
        }
    }
}

fn find_attempt(
    parties: RecoveryParties,
    intent: RecoveryPaymentIntent,
    attempt: RevenueRecoveryAttemptData,
    account: Option<MerchantConnectorAccount>,
) -> (res: RecoveryStep)
    ensures
        res == spec_find_attempt(parties, intent, attempt, account),
{
    RecoveryStep::Ask {
        request: RecoveryRequest::FindAttempt {
            payment_id: intent.payment_id.clone(),
            connector_transaction_id: attempt.connector_transaction_id.clone(),
        },
        state: RecoveryState::AwaitingFoundAttempt { parties, intent, attempt, account },
    }
}

fn choose_action(
    parties: RecoveryParties,
    intent: RecoveryPaymentIntent,
    attempt: RecoveryPaymentAttempt,
) -> (res: RecoveryStep)
    ensures
        res == spec_choose_action(parties, intent, attempt),
{
    RecoveryStep::Ask {
        request: RecoveryRequest::ChooseAction { triggered_by: attempt.triggered_by },
        state: RecoveryState::AwaitingAction {
            parties,
            intent,
            attempt_id: Some(attempt.attempt_id),
        },
    }
}

/// Builds the task that retries a payment at a given time.
pub fn process_tracker_entry(
    parties: RecoveryParties,
    intent: &RecoveryPaymentIntent,
    attempt_id: String,
    schedule_time: i64,
) -> (res: ProcessTrackerEntry)
    ensures
        spec_is_entry(parties, *intent, attempt_id, schedule_time, res),
{
    let mut id = join3(PASSIVE_RECOVERY_RUNNER, "_", EXECUTE_WORKFLOW_TASK);
    id.append("_");
    id.append(intent.payment_id.as_str());
    let retry_count: i32 = match intent.retry_count {
        Some(count) => count as i32,
        None => 0,
    };
    ProcessTrackerEntry {
        id,
        name: owned(EXECUTE_WORKFLOW_TASK),
        runner: owned(PASSIVE_RECOVERY_RUNNER),
        tag: owned(RECOVERY_TAG),
        tracking_data: PcrWorkflowTrackingData {
            global_payment_id: intent.payment_id.clone(),
            merchant_id: parties.merchant_id,
            profile_id: parties.profile_id,
            payment_attempt_id: attempt_id,
        },
        retry_count,
        schedule_time,
    }
}

/// Takes the step of the flow that follows on a reply.
pub fn step(state: RecoveryState, reply: RecoveryReply) -> (res: RecoveryStep)
    requires
        state.wf(),
        reply.wf(),
    ensures
        spec_is_step(state, reply, res),
        res.wf(),
        res.spec_progress() > state.spec_progress(),
        !state.spec_expects(reply) ==> res matches RecoveryStep::Done(Err(_)),
{
    match state {
        RecoveryState::AwaitingBillingDetails { is_transaction_event, parties } => match reply {
            RecoveryReply::BillingDetails(Some(response)) => {
                let details = response.inner();
                let invoice = RevenueRecoveryInvoiceData {
                    amount: details.invoice.amount,
                    currency: details.invoice.currency,
                    merchant_reference_id: details.invoice.merchant_reference_id.clone(),
                };
                find_intent(is_transaction_event, parties, Some(details), invoice)
            },
            _ => RecoveryStep::Done(Err(RevenueRecoveryError::AdditionalRevenueRecoveryCallFailed)),
        },
        RecoveryState::AwaitingInvoice { is_transaction_event, parties } => match reply {
            RecoveryReply::Invoice(Some(invoice)) => find_intent(
                is_transaction_event,
                parties,
                None,
                invoice,
            ),
            _ => RecoveryStep::Done(Err(RevenueRecoveryError::InvoiceWebhookProcessingFailed)),
        },
        RecoveryState::AwaitingIntent { is_transaction_event, parties, details, invoice } =>
            match reply {
            RecoveryReply::Intent(Lookup::Found(intent)) => with_intent(
                is_transaction_event,
                parties,
                details,
                intent,
            ),
            RecoveryReply::Intent(Lookup::NotFound) => RecoveryStep::Ask {
                request: RecoveryRequest::CreateIntent { invoice },
                state: RecoveryState::AwaitingCreatedIntent {
                    is_transaction_event,
                    parties,
                    details,
                },
            },
            _ => RecoveryStep::Done(Err(RevenueRecoveryError::PaymentIntentFetchFailed)),
        },
        RecoveryState::AwaitingCreatedIntent { is_transaction_event, parties, details } =>
            match reply {
            RecoveryReply::CreatedIntent(Some(intent)) => with_intent(
                is_transaction_event,
                parties,
                details,
                intent,
            ),
            _ => RecoveryStep::Done(Err(RevenueRecoveryError::PaymentIntentCreateFailed)),
        },
        RecoveryState::AwaitingAttempt { parties, intent } => match reply {
            RecoveryReply::Attempt(Some(attempt)) => find_account(parties, intent, attempt),
            _ => RecoveryStep::Done(Err(RevenueRecoveryError::TransactionWebhookProcessingFailed)),
        },
        RecoveryState::AwaitingConnectorAccount { parties, intent, attempt } => match reply {
            RecoveryReply::ConnectorAccount(Lookup::Found(account)) => find_attempt(
                parties,
                intent,
                attempt,
                Some(account),
            ),
            RecoveryReply::ConnectorAccount(Lookup::NotFound) => find_attempt(
                parties,
                intent,
                attempt,
                None,
            ),
            _ => RecoveryStep::Done(
                Err(RevenueRecoveryError::PaymentMerchantConnectorAccountNotFound),
            ),
        },
        RecoveryState::AwaitingFoundAttempt { parties, intent, attempt, account } => match reply {
            RecoveryReply::FoundAttempt(Lookup::Found(found)) => choose_action(parties, intent, found),
            RecoveryReply::FoundAttempt(Lookup::NotFound) => {
                let request = RevenueRecoveryAttempt(attempt).create_payment_record_request(
                    &parties.billing_connector_account_id,
                    account,
                );
                RecoveryStep::Ask {
                    request: RecoveryRequest::RecordAttempt {
                        payment_id: intent.payment_id.clone(),
                        request,
                    },
                    state: RecoveryState::AwaitingRecordedAttempt { parties, intent },
                }
            },
            _ => RecoveryStep::Done(Err(RevenueRecoveryError::PaymentAttemptFetchFailed)),
        },
        RecoveryState::AwaitingRecordedAttempt { parties, intent } => match reply {
            RecoveryReply::RecordedAttempt(Some(recorded)) => choose_action(
                parties,
                intent,
                recorded,
            ),
            _ => RecoveryStep::Done(Err(RevenueRecoveryError::PaymentAttemptFetchFailed)),
        },
        RecoveryState::AwaitingAction { parties, intent, attempt_id } => match reply {
            RecoveryReply::Action(action) => match action {
                RecoveryAction::ScheduleFailedPayment => {
                    let total_retry_count: u16 = match intent.retry_count {
                        Some(count) => count,
                        None => 0,
                    };
                    let next_retry: u16 = total_retry_count + 1;
                    RecoveryStep::Ask {
                        request: RecoveryRequest::FetchScheduleTime {
                            merchant_id: parties.merchant_id.clone(),
                            retry_count: next_retry as i32,
                        },
                        state: RecoveryState::AwaitingScheduleTime { parties, intent, attempt_id },
                    }
                },
                RecoveryAction::CancelInvoice => RecoveryStep::Done(
                    Ok(WebhookResponseTracker::NoEffect),
                ),
                RecoveryAction::SuccessPaymentExternal
                | RecoveryAction::PendingPayment
                | RecoveryAction::NoAction
                | RecoveryAction::InvalidAction => RecoveryStep::Done(
                    Ok(WebhookResponseTracker::NoEffect),
                ),
            },
            _ => RecoveryStep::Done(Err(RevenueRecoveryError::InvoiceWebhookProcessingFailed)),
        },
        RecoveryState::AwaitingScheduleTime { parties, intent, attempt_id } => match reply {
            RecoveryReply::ScheduleTime(Some(schedule_time)) => match attempt_id {
                Some(attempt_id) => {
                    let entry = process_tracker_entry(parties, &intent, attempt_id, schedule_time);
                    RecoveryStep::Ask {
                        request: RecoveryRequest::InsertProcess { entry },
                        state: RecoveryState::AwaitingInsert { intent },
                    }
                },
                None => RecoveryStep::Done(Err(RevenueRecoveryError::PaymentAttemptIdNotFound)),
            },
            _ => RecoveryStep::Done(Err(RevenueRecoveryError::ScheduleTimeFetchFailed)),
        },
        RecoveryState::AwaitingInsert { intent } => match reply {
            RecoveryReply::Inserted(outcome) => match outcome {
                InsertOutcome::Inserted => RecoveryStep::Done(
                    Ok(
                        WebhookResponseTracker::Payment {
                            payment_id: intent.payment_id,
                            status: intent.status,
                        },
                    ),
                ),
                InsertOutcome::CreationFailed => RecoveryStep::Done(
                    Err(RevenueRecoveryError::ProcessTrackerCreationError),
                ),
                InsertOutcome::InsertFailed => RecoveryStep::Done(
                    Err(RevenueRecoveryError::ProcessTrackerResponseError),
                ),
            },
            _ => RecoveryStep::Done(Err(RevenueRecoveryError::ProcessTrackerResponseError)),
        },
    }
}

/// A webhook whose source is not verified sets no work off: the flow ends
/// at once, with the error for a webhook that is not authentic.
pub proof fn lemma_unverified_source_is_rejected(
    connector_known: bool,
    asks_billing_connector: bool,
    transaction_id: Option<String>,
    is_transaction_event: bool,
    parties: RecoveryParties,
)
    ensures
        spec_start(
            false,
            connector_known,
            asks_billing_connector,
            transaction_id,
            is_transaction_event,
            parties,
        ) == RecoveryStep::Done(Err(RevenueRecoveryError::WebhookAuthenticationFailed)),
{
}

/// A task is handed to the workflow only where the webhook calls for a
/// failed payment to be scheduled: on any other action that the flow
/// takes, it ends without effect.
pub proof fn lemma_only_failed_payments_are_scheduled(
    parties: RecoveryParties,
    intent: RecoveryPaymentIntent,
    attempt_id: Option<String>,
    action: RecoveryAction,
    res: RecoveryStep,
)
    requires
        spec_is_step(
            RecoveryState::AwaitingAction { parties, intent, attempt_id },
            RecoveryReply::Action(action),
            res,
        ),
    ensures
        action != RecoveryAction::ScheduleFailedPayment ==> res == RecoveryStep::Done(
            Ok(WebhookResponseTracker::NoEffect),
        ),
        action == RecoveryAction::ScheduleFailedPayment ==> res is Ask,
{
}

} // verus!
