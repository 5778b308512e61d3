use hyperswitch::address::{
    address_answered, address_decrypted, address_inserted, address_updated, addresses_decrypted,
    find_payment_address, insert_payment_address, update_payment_address, Address, AddressChange,
    AddressInterface, AddressNew, HsetnxReply, MerchantStorageScheme, MockDb, StorageError,
    StoreStep,
};
use hyperswitch::api::connector_step::CallConnectorAction;
use hyperswitch::authentication::{
    client_secret_prefix, create_new_authentication, duplicate_authentication,
    get_authentication_connector_data, get_connector_data_if_separate_authn_supported,
    update_trackers, value_kept, AcquirerDetails, AuthNFlow, AuthenticationFor, AuthenticationLifecycleStatus,
    AuthenticationResponseData, AuthenticationStatus, AuthenticationUpdate, ConnectorCallType,
    ConnectorData, ConnectorRoutingData, DecoupledAuthenticationType, RequestedConnector,
    TransStatus,
};
use hyperswitch::cancel_flow::{build_flow_specific_connector_request, needs_connector_request};
use hyperswitch::enums::{
    is_payment_failure, AttemptStatus, AuthenticationType, CaptureMethod, Currency, IntentStatus,
    MinorUnit, PaymentMethod, RefundStatus,
};
use hyperswitch::errors::{ApiErrorResponse, ConnectorError};
use hyperswitch::fraud_check::{
    new_frm_id, Domain, FraudCheck, FraudCheckCheckoutData, FraudCheckDraft, FraudCheckLastStep,
    FraudCheckOperation, FraudCheckPre, FraudCheckResponseData, FraudCheckStatus,
    FraudCheckTransactionData, FraudCheckType, FraudCheckUpdate, FrmData, FrmRequest, FrmResponse,
    GetTracker, PaymentToFrmData, TrackerStep, UpdateTracker,
};
use hyperswitch::payouts::{
    listed_profiles, merchant_context, payouts_accounts, payouts_cancel, payouts_confirm,
    payouts_create, payouts_fulfill, payouts_list, payouts_list_available_filters_for_merchant,
    payouts_list_available_filters_for_profile, payouts_list_by_filter,
    payouts_list_by_filter_profile, payouts_list_profile, payouts_retrieve, payouts_update,
    ApiKeyAuth, Context, Flow, MerchantContext, PayoutCore, PayoutCreateRequest,
    PayoutRetrieveBody, Permission, ProfileScope, RouteAuth,
};
use hyperswitch::recovery::{
    execute_task_found, execute_task_id, Action, ActionStep, BusinessStatus, Decision,
    PCRAttemptStatus, PaymentOutcome, ProcessTrackerStatus, RecoveryCommand, RecoveryError,
    RecoveryFailure, RecoveryStep, RecoveryTask, StepOutcome,
};
use hyperswitch::refunds::{
    add_refund_execute_task, add_refund_sync_task, check_refund_integrity, check_refund_request,
    merchant_connector_id, refund_create_core, refund_not_stored,
    refund_to_refund_core_workflow_model, schedule_refund_execution, total_amount_captured,
    trigger_refund_to_gateway, validate_and_create_refund, CheckIntegrity, GatewayStatusMap,
    IntegrityCheckError, MerchantAccount, PaymentAttempt, PaymentIntent, Refund, RefundAnswer,
    RefundCallFailure, RefundChecks, RefundDraft, RefundExecution, RefundOutcome, RefundResponse,
    RefundType, RefundUpdate, RefundsCreateRequest, Sending, SendingEvent, StoredId,
};
use hyperswitch::router_data::{
    BillingDetails, ConnectorAuthType, ErrorResponse, RefundsResponseData, ResponseId, RouterData,
};
use hyperswitch::secret::Secret;
use hyperswitch::webhooks::{
    IncomingWebhookEvent, MandateIdType, ObjectReferenceId, PaymentIdType, RefundIdType,
    ValidationError, WebhookFlow, WebhookResponseTracker,
};

fn text(value: &str) -> String {
    value.to_string()
}

fn secret(value: &str) -> Secret<String> {
    Secret::new(value.to_string())
}

fn moment(second: i64) -> time::PrimitiveDateTime {
    let at = time::OffsetDateTime::from_unix_timestamp(second).unwrap();
    time::PrimitiveDateTime::new(at.date(), at.time())
}

fn error(reason: Option<&str>) -> ErrorResponse {
    ErrorResponse {
        code: text("E1"),
        message: text("went wrong"),
        reason: reason.map(text),
        status_code: 400,
        attempt_status: None,
        connector_transaction_id: Some(text("txn")),
        network_advice_code: None,
        network_decline_code: None,
        network_error_message: None,
    }
}

// Webhooks

#[test]
fn webhooks_go_to_their_flows() {
    let flow = |event| WebhookFlow::from(event);
    assert!(flow(IncomingWebhookEvent::PaymentIntentSuccess) == WebhookFlow::Payment);
    assert!(flow(IncomingWebhookEvent::RefundFailure) == WebhookFlow::Refund);
    assert!(flow(IncomingWebhookEvent::MandateRevoked) == WebhookFlow::Mandate);
    assert!(flow(IncomingWebhookEvent::EventNotSupported) == WebhookFlow::ReturnResponse);
    assert!(flow(IncomingWebhookEvent::EndpointVerification) == WebhookFlow::ReturnResponse);
    assert!(flow(IncomingWebhookEvent::FrmRejected) == WebhookFlow::FraudCheck);
    assert!(flow(IncomingWebhookEvent::PayoutReversed) == WebhookFlow::Payout);
    assert!(flow(IncomingWebhookEvent::RecoveryInvoiceCancel) == WebhookFlow::Recovery);
    assert!(flow(IncomingWebhookEvent::SourceChargeable) == WebhookFlow::BankTransfer);
    assert!(
        flow(IncomingWebhookEvent::ExternalAuthenticationARes)
            == WebhookFlow::ExternalAuthentication
    );
    assert!(IncomingWebhookEvent::RecoveryPaymentPending.is_recovery_transaction_event());
    assert!(!IncomingWebhookEvent::RecoveryInvoiceCancel.is_recovery_transaction_event());
}

#[test]
fn trackers_name_their_payment() {
    let tracker = WebhookResponseTracker::Refund {
        payment_id: text("pay_1"),
        refund_id: text("ref_1"),
        status: RefundStatus::Success,
    };
    assert_eq!(tracker.get_payment_id(), Some(text("pay_1")));
    assert_eq!(tracker.get_payment_method_id(), None);
    let tracker = WebhookResponseTracker::PaymentMethod {
        payment_method_id: text("pm_1"),
        status: text("active"),
    };
    assert_eq!(tracker.get_payment_id(), None);
    assert_eq!(tracker.get_payment_method_id(), Some(text("pm_1")));
    assert_eq!(WebhookResponseTracker::NoEffect.get_payment_id(), None);
}

#[test]
fn references_give_the_connectors_id() {
    let id = ObjectReferenceId::PaymentId(PaymentIdType::ConnectorTransactionId(text("t1")));
    assert_eq!(id.get_connector_transaction_id_as_string(), Ok(text("t1")));
    let id = ObjectReferenceId::PaymentId(PaymentIdType::PaymentAttemptId(text("a1")));
    assert_eq!(
        id.get_connector_transaction_id_as_string(),
        Err(ValidationError::IncorrectValueProvided {
            field_name: "ConnectorTransactionId variant of PaymentId is required but received otherr variant"
        }),
    );
    let id = ObjectReferenceId::RefundId(RefundIdType::RefundId(text("r1")));
    assert!(id.get_connector_transaction_id_as_string().is_err());
    let id = ObjectReferenceId::MandateId(MandateIdType::MandateId(text("m1")));
    assert!(id.get_connector_transaction_id_as_string().is_err());
}

// Recovery

#[test]
fn tasks_after_a_payment_was_made() {
    let finish = |task, business_status| RecoveryCommand::Finish { task, business_status };
    assert_eq!(
        PCRAttemptStatus::Succeeded.update_pt_status_based_on_attempt_status(3).commands,
        vec![
            finish(RecoveryTask::Psync, BusinessStatus::PsyncWorkflowComplete),
            finish(RecoveryTask::Execute, BusinessStatus::ExecuteWorkflowComplete),
        ],
    );
    assert_eq!(
        PCRAttemptStatus::Failed.update_pt_status_based_on_attempt_status(3).commands,
        vec![
            finish(RecoveryTask::Psync, BusinessStatus::PsyncWorkflowComplete),
            RecoveryCommand::AskRetryTime { retry_count: 4 },
            RecoveryCommand::RetryIfPossible { task: RecoveryTask::Execute },
        ],
    );
    assert_eq!(
        PCRAttemptStatus::Processing.update_pt_status_based_on_attempt_status(3).commands,
        vec![finish(RecoveryTask::Execute, BusinessStatus::ExecuteWorkflowCompleteForPsync)],
    );
    assert_eq!(
        PCRAttemptStatus::InvalidAction(text("x")).update_pt_status_based_on_attempt_status(3).commands,
        vec![RecoveryCommand::Update {
            task: RecoveryTask::Execute,
            status: ProcessTrackerStatus::Review,
            business_status: BusinessStatus::ExecuteWorkflowCompleteForPsync,
        }],
    );
}

#[test]
fn tasks_after_a_payment_was_asked_for() {
    let after = |status: PCRAttemptStatus| {
        status.update_pt_status_based_on_attempt_status_for_psync_task(0).commands
    };
    assert_eq!(after(PCRAttemptStatus::Succeeded).len(), 1);
    assert_eq!(
        after(PCRAttemptStatus::Failed)[2],
        RecoveryCommand::RetryIfPossible { task: RecoveryTask::Psync },
    );
    assert_eq!(after(PCRAttemptStatus::Processing), vec![RecoveryCommand::SyncPayment]);
    assert_eq!(after(PCRAttemptStatus::InvalidAction(text("x"))), vec![]);
}

#[test]
fn decisions() {
    let decide = |status, called, active, synced| {
        Decision::<u8>::get_decision_based_on_params(status, called, active, synced)
    };
    let none = || Ok(None);
    assert_eq!(decide(IntentStatus::Failed, false, false, none()), Ok(Decision::ExecuteTask));
    assert_eq!(
        decide(IntentStatus::Failed, true, true, none()),
        Ok(Decision::ReviewTaskFailedPayment),
    );
    assert_eq!(
        decide(IntentStatus::Succeeded, true, true, none()),
        Ok(Decision::ReviewTaskSuccessfulPayment),
    );
    assert_eq!(decide(IntentStatus::Failed, true, false, none()), Ok(Decision::InvalidTask));
    assert_eq!(
        decide(IntentStatus::Processing, true, true, Ok(Some(7))),
        Ok(Decision::PsyncTask(7)),
    );
    assert_eq!(
        decide(IntentStatus::Processing, true, true, none()),
        Err(RecoveryError::ValueNotFound),
    );
    assert_eq!(
        decide(
            IntentStatus::Processing,
            true,
            true,
            Err(RecoveryError::PaymentsResponseGenerationFailed),
        ),
        Err(RecoveryError::PaymentsResponseGenerationFailed),
    );
    assert!(Decision::<u8>::requires_sync(IntentStatus::Processing, true, true));
    assert!(!Decision::<u8>::requires_sync(IntentStatus::Processing, false, true));
}

#[test]
fn actions() {
    let made = |status| PaymentOutcome::Attempt(status);
    let decided = |action| ActionStep::Decided(action);
    assert_eq!(
        Action::execute_payment(&made(PCRAttemptStatus::Succeeded), false, 0),
        decided(Action::SuccessfulPayment),
    );
    assert_eq!(
        Action::execute_payment(&made(PCRAttemptStatus::Failed), false, 1),
        ActionStep::AskRetryTime { retry_count: 2 },
    );
    assert_eq!(
        Action::execute_payment(&PaymentOutcome::CallFailed, true, 0),
        decided(Action::SyncPayment),
    );
    assert_eq!(
        Action::execute_payment(&PaymentOutcome::CallFailed, false, 0),
        decided(Action::ReviewPayment),
    );
    assert_eq!(Action::decide_retry_failure_action(&Some(1)), Action::RetryPayment);
    assert_eq!(Action::decide_retry_failure_action::<u8>(&None), Action::TerminalFailure);
    assert_eq!(
        Action::payment_sync_call(Ok(Some(PCRAttemptStatus::Processing)), false, 0),
        Ok(decided(Action::SyncPayment)),
    );
    assert_eq!(
        Action::payment_sync_call(
            Ok(Some(PCRAttemptStatus::InvalidAction(text("x")))),
            false,
            0,
        ),
        Ok(decided(Action::ManualReviewAction)),
    );
    assert_eq!(Action::payment_sync_call(Ok(None), true, 0), Err(RecoveryError::ValueNotFound));
    assert_eq!(
        Action::payment_sync_call(Err(RecoveryError::ProcessTrackerFailure), false, 0),
        Ok(decided(Action::ReviewPayment)),
    );
}

#[test]
fn commands_of_actions() {
    assert_eq!(
        Action::SyncPayment.execute_payment_task_response_handler(0).commands,
        vec![
            RecoveryCommand::InsertPsyncTask,
            RecoveryCommand::Finish {
                task: RecoveryTask::Execute,
                business_status: BusinessStatus::ExecuteWorkflowCompleteForPsync,
            },
        ],
    );
    assert_eq!(Action::TerminalFailure.execute_payment_task_response_handler(0).commands, vec![]);
    assert_eq!(
        Action::RetryPayment.execute_payment_task_response_handler(5).commands[0],
        RecoveryCommand::AskRetryTime { retry_count: 6 },
    );
    assert_eq!(
        Action::RetryPayment.psync_response_handler().commands,
        vec![
            RecoveryCommand::Finish {
                task: RecoveryTask::Psync,
                business_status: BusinessStatus::PsyncWorkflowComplete,
            },
            RecoveryCommand::FindExecuteTask,
            RecoveryCommand::Update {
                task: RecoveryTask::Execute,
                status: ProcessTrackerStatus::Pending,
                business_status: BusinessStatus::Pending,
            },
        ],
    );
    assert_eq!(
        Action::ReviewPayment.psync_response_handler().commands,
        vec![
            RecoveryCommand::InsertReviewTask,
            RecoveryCommand::Finish {
                task: RecoveryTask::Psync,
                business_status: BusinessStatus::PsyncWorkflowCompleteForReview,
            },
        ],
    );
    assert_eq!(execute_task_id("RUNNER", "pay_1"), "RUNNER_EXECUTE_WORKFLOW_pay_1");
}

#[test]
fn the_asking_task_is_closed_unless_the_payment_is_open() {
    let closes = |action: Action| {
        action.psync_response_handler().commands.iter().any(|command| match command {
            RecoveryCommand::Finish { task, .. } => *task == RecoveryTask::Psync,
            RecoveryCommand::Update { task, status, .. } => {
                *task == RecoveryTask::Psync && *status == ProcessTrackerStatus::Review
            }
            _ => false,
        })
    };
    assert!(!closes(Action::SyncPayment));
    assert!(closes(Action::RetryPayment));
    assert!(closes(Action::TerminalFailure));
    assert!(closes(Action::SuccessfulPayment));
    assert!(closes(Action::ReviewPayment));
    assert!(closes(Action::ManualReviewAction));
}

type Report = Result<(), RecoveryFailure<&'static str>>;

fn tracker_failure() -> Report {
    Err(RecoveryFailure::Recovery(RecoveryError::ProcessTrackerFailure))
}

#[test]
fn a_failed_insert_keeps_the_execute_task() {
    let mut run = Action::SyncPayment.execute_payment_task_response_handler(0);
    assert!(matches!(run.next_step(), RecoveryStep::InsertPsyncTask));
    assert_eq!(run.report(StepOutcome::Failed("down")), tracker_failure());
    let mut run = Action::SyncPayment.execute_payment_task_response_handler(0);
    let report: Report = run.report(StepOutcome::Done);
    assert_eq!(report, Ok(()));
    assert!(matches!(
        run.next_step(),
        RecoveryStep::Finish {
            task: RecoveryTask::Execute,
            business_status: BusinessStatus::ExecuteWorkflowCompleteForPsync,
        }
    ));
    assert_eq!(run.report(StepOutcome::Failed("down")), tracker_failure());
    let run = Action::SuccessfulPayment.execute_payment_task_response_handler(0);
    assert!(matches!(run.next_step(), RecoveryStep::Complete));
}

#[test]
fn a_missing_execute_task_is_a_failure() {
    assert_eq!(execute_task_found(Ok(true)), Ok(()));
    assert_eq!(execute_task_found(Ok(false)), Err(RecoveryError::ProcessTrackerFailure));
    assert_eq!(execute_task_found(Err(())), Err(RecoveryError::ProcessTrackerFailure));
    for (found, expected) in
        [(Ok(true), Ok(())), (Ok(false), tracker_failure()), (Err(()), tracker_failure())]
    {
        let mut run = Action::RetryPayment.psync_response_handler();
        assert!(matches!(
            run.next_step(),
            RecoveryStep::Finish { task: RecoveryTask::Psync, .. }
        ));
        let report: Report = run.report(StepOutcome::Done);
        assert_eq!(report, Ok(()));
        assert!(matches!(run.next_step(), RecoveryStep::FindExecuteTask));
        let went_on = expected.is_ok();
        assert_eq!(run.report(StepOutcome::ExecuteTask(found)), expected);
        if went_on {
            assert!(matches!(
                run.next_step(),
                RecoveryStep::Update {
                    task: RecoveryTask::Execute,
                    status: ProcessTrackerStatus::Pending,
                    business_status: BusinessStatus::Pending,
                }
            ));
            let report: Report = run.report(StepOutcome::Done);
            assert_eq!(report, Ok(()));
            assert!(matches!(run.next_step(), RecoveryStep::Complete));
        }
    }
}

#[test]
fn a_failed_payment_is_retried_at_the_time_found() {
    let at_last = |found| {
        let mut run = PCRAttemptStatus::Failed.update_pt_status_based_on_attempt_status(3);
        let report: Report = run.report(StepOutcome::Done);
        assert_eq!(report, Ok(()));
        assert!(matches!(run.next_step(), RecoveryStep::AskRetryTime { retry_count: 4 }));
        let report: Report = run.report(StepOutcome::RetryTime(found));
        assert_eq!(report, Ok(()));
        run
    };
    match at_last(Some(moment(5))).next_step() {
        RecoveryStep::Retry { task, schedule_time } => {
            assert_eq!(task, RecoveryTask::Execute);
            assert_eq!(schedule_time, moment(5));
        }
        _ => panic!("a retry was expected"),
    }
    let mut run = at_last(None);
    assert!(matches!(run.next_step(), RecoveryStep::Pass));
    let report: Report = run.report(StepOutcome::Done);
    assert_eq!(report, Ok(()));
    assert!(matches!(run.next_step(), RecoveryStep::Complete));
    let mut run = at_last(Some(moment(5)));
    assert_eq!(
        run.report(StepOutcome::Failed("down")),
        Err(RecoveryFailure::Scheduler("down")),
    );
    let mut run = Action::RetryPayment.execute_payment_task_response_handler(0);
    let report: Report = run.report(StepOutcome::RetryTime(Some(moment(6))));
    assert_eq!(report, Ok(()));
    match run.next_step() {
        RecoveryStep::RescheduleAndUpdate { schedule_time, .. } => {
            assert_eq!(schedule_time, Some(moment(6)));
        }
        _ => panic!("another time was expected"),
    }
    let mut run = Action::ReviewPayment.psync_response_handler();
    assert_eq!(
        run.report(StepOutcome::Failed("down")),
        Err(RecoveryFailure::Scheduler("down")),
    );
}

// Authentication

fn routing(name: &str, separate: bool) -> ConnectorRoutingData {
    ConnectorRoutingData {
        connector_data: ConnectorData {
            connector_name: text(name),
            separate_authentication_supported: separate,
            merchant_connector_id: None,
        },
        network: None,
    }
}

#[test]
fn separate_authentication() {
    let find = |call| {
        get_connector_data_if_separate_authn_supported(&call).map(|data| data.connector_name)
    };
    assert_eq!(find(ConnectorCallType::PreDetermined(routing("a", true))), Some(text("a")));
    assert_eq!(find(ConnectorCallType::PreDetermined(routing("a", false))), None);
    let list = vec![routing("a", true), routing("b", true)];
    assert_eq!(find(ConnectorCallType::Retryable(list)), Some(text("a")));
    let list = vec![routing("a", false), routing("b", true)];
    assert_eq!(find(ConnectorCallType::Retryable(list)), None);
    assert_eq!(find(ConnectorCallType::Retryable(vec![])), None);
    assert_eq!(find(ConnectorCallType::SessionMultiple(vec![])), None);
}

#[test]
fn authentication_statuses() {
    let status = AttemptStatus::foreign_from;
    assert!(status(AuthenticationStatus::Started) == AttemptStatus::AuthenticationPending);
    assert!(status(AuthenticationStatus::Pending) == AttemptStatus::AuthenticationPending);
    assert!(status(AuthenticationStatus::Success) == AttemptStatus::AuthenticationSuccessful);
    assert!(status(AuthenticationStatus::Failed) == AttemptStatus::AuthenticationFailed);
    assert!(is_payment_failure(status(AuthenticationStatus::Failed)));
    assert!(!is_payment_failure(status(AuthenticationStatus::Success)));
}

#[test]
fn authentication_answers() {
    let answer = AuthenticationResponseData::AuthNResponse {
        authn_flow_type: AuthNFlow {
            acs_url: Some(text("https://acs.example")),
            challenge_request: None,
            acs_reference_number: None,
            acs_trans_id: None,
            acs_signed_content: None,
            authentication_type: DecoupledAuthenticationType::Challenge,
        },
        authentication_value: Some(secret("cavv")),
        trans_status: TransStatus {
            code: text("C"),
            authentication_status: AuthenticationStatus::Pending,
        },
        connector_metadata: None,
        ds_trans_id: Some(text("ds")),
        eci: None,
    };
    let plan = update_trackers(Ok(answer), text("authn_1"), None);
    assert!(plan.value_to_tokenize == Some((secret("cavv"), text("authn_1"))));
    match plan.update {
        AuthenticationUpdate::AuthenticationUpdate {
            acs_url, authentication_status, ds_trans_id, ..
        } => {
            assert_eq!(acs_url, Some(text("https://acs.example")));
            assert!(authentication_status == AuthenticationStatus::Pending);
            assert_eq!(ds_trans_id, Some(text("ds")));
        }
        _ => panic!("another change was expected"),
    }
    let answer = AuthenticationResponseData::PreAuthVersionCallResponse {
        maximum_supported_3ds_version: text("2.2.0"),
    };
    match update_trackers(Ok(answer), text("authn_1"), None).update {
        AuthenticationUpdate::PreAuthenticationVersionCallUpdate {
            maximum_supported_3ds_version,
            message_version,
        } => {
            assert_eq!(maximum_supported_3ds_version, "2.2.0");
            assert_eq!(message_version, "2.2.0");
        }
        _ => panic!("another change was expected"),
    }
    let answer = AuthenticationResponseData::PreAuthThreeDsMethodCallResponse {
        threeds_server_transaction_id: text("s1"),
        three_ds_method_data: None,
        three_ds_method_url: None,
        connector_metadata: None,
    };
    let acquirer = AcquirerDetails {
        acquirer_bin: text("bin"),
        acquirer_merchant_id: text("mid"),
        acquirer_country_code: None,
    };
    match update_trackers(Ok(answer), text("authn_1"), Some(acquirer)).update {
        AuthenticationUpdate::PreAuthenticationThreeDsMethodCall {
            acquirer_bin, acquirer_merchant_id, ..
        } => {
            assert_eq!(acquirer_bin, Some(text("bin")));
            assert_eq!(acquirer_merchant_id, Some(text("mid")));
        }
        _ => panic!("another change was expected"),
    }
}

#[test]
fn values_are_kept_under_the_id_of_their_authentication() {
    let answer = |authentication_value| AuthenticationResponseData::PostAuthNResponse {
        trans_status: TransStatus {
            code: text("Y"),
            authentication_status: AuthenticationStatus::Success,
        },
        authentication_value,
        eci: Some(text("05")),
    };
    let plan = update_trackers(Ok(answer(Some(secret("cavv")))), text("authn_2"), None);
    assert!(plan.value_to_tokenize == Some((secret("cavv"), text("authn_2"))));
    match value_kept(plan.update, Ok(())) {
        Ok(AuthenticationUpdate::PostAuthenticationUpdate { authentication_status, .. }) => {
            assert!(authentication_status == AuthenticationStatus::Success);
        }
        _ => panic!("a change was expected"),
    }
    let plan = update_trackers(Ok(answer(None)), text("authn_2"), None);
    assert!(plan.value_to_tokenize.is_none());
    let refused = value_kept(plan.update, Err(ApiErrorResponse::InternalServerError));
    assert!(refused.err() == Some(ApiErrorResponse::InternalServerError));
    let plan = update_trackers(Err(error(None)), text("authn_2"), None);
    assert!(plan.value_to_tokenize.is_none());
}

#[test]
fn authentication_errors() {
    let told = |error| match update_trackers(Err(error), text("authn_1"), None).update {
        AuthenticationUpdate::ErrorUpdate {
            error_message,
            error_code,
            authentication_status,
            connector_authentication_id,
        } => {
            assert!(authentication_status == AuthenticationStatus::Failed);
            assert_eq!(error_code, Some(text("E1")));
            assert_eq!(connector_authentication_id, Some(text("txn")));
            error_message
        }
        _ => panic!("an error was expected"),
    };
    assert_eq!(told(error(Some("why"))), Some(text("message: went wrong, reason: why")));
    assert_eq!(told(error(None)), Some(text("went wrong")));
}

#[test]
fn new_authentications() {
    let record = create_new_authentication(
        AuthenticationFor {
            merchant_id: text("m"),
            authentication_connector: text("threedsecureio"),
            token: text("tok"),
            profile_id: text("p"),
            payment_id: text("pay"),
            merchant_connector_id: text("mca"),
            organization_id: text("org"),
            force_3ds_challenge: Some(true),
            psd2_sca_exemption_type: None,
        },
        text("authn_1"),
        text("authn_1_secret_x"),
    );
    assert_eq!(record.authentication_id, "authn_1");
    assert_eq!(record.payment_method_id, "eph_tok");
    assert!(record.authentication_status == AuthenticationStatus::Started);
    assert!(record.authentication_lifecycle_status == AuthenticationLifecycleStatus::Unused);
    assert_eq!(record.authentication_client_secret, Some(text("authn_1_secret_x")));
    assert_eq!(record.error_message, None);
    assert_eq!(client_secret_prefix("authn_1"), "authn_1_secret");
    assert_eq!(
        duplicate_authentication("authn_1"),
        ApiErrorResponse::GenericDuplicateError {
            message: text("Authentication with authentication_id authn_1 already exists"),
        },
    );
}

#[test]
fn authentication_services() {
    let find = get_authentication_connector_data;
    let refused = |message: &str| {
        Err(ApiErrorResponse::UnprocessableEntity { message: text(message) })
    };
    let known = RequestedConnector { name: text("gpayments"), known: Some(text("gpayments")) };
    assert_eq!(find(Some(known), &None, "p1"), Ok(text("gpayments")));
    let unknown = RequestedConnector { name: text("nobody"), known: None };
    assert_eq!(
        find(Some(unknown), &None, "p1"),
        refused("Invalid authentication_connector found in request : nobody"),
    );
    assert_eq!(
        find(None, &None, "p1"),
        refused("authentication_connector_details is not available in business profile"),
    );
    assert_eq!(
        find(None, &Some(vec![]), "p1"),
        refused("No authentication_connector found for profile_id p1"),
    );
    assert_eq!(find(None, &Some(vec![text("a"), text("b")]), "p1"), Ok(text("a")));
}

// Cancelling

#[test]
fn cancelling() {
    let trigger = CallConnectorAction::Trigger;
    assert!(needs_connector_request(&trigger));
    assert!(!needs_connector_request(&CallConnectorAction::Avoid));
    let built: Result<Option<u8>, u8> = Ok(Some(3));
    assert_eq!(build_flow_specific_connector_request(&trigger, built), Ok((Some(3), true)));
    let failed: Result<Option<u8>, u8> = Err(9);
    assert_eq!(build_flow_specific_connector_request(&trigger, failed), Err(9));
    assert_eq!(
        build_flow_specific_connector_request(&CallConnectorAction::Avoid, failed),
        Ok((None, true)),
    );
}

// Fraud checks

fn payment() -> PaymentToFrmData<u8> {
    PaymentToFrmData {
        payment_id: text("pay"),
        merchant_id: text("m"),
        attempt_id: text("att"),
        capture_method: Some(CaptureMethod::Manual),
        context: 5,
    }
}

fn draft() -> FraudCheckDraft {
    FraudCheckDraft {
        frm_id: text("frm_1"),
        frm_name: text("signifyd"),
        payment_details: None,
        created_at: moment(1),
        modified_at: moment(2),
    }
}

fn check() -> FraudCheck {
    match FraudCheckPre.get_trackers(None, &payment(), draft()) {
        TrackerStep::Insert(check) => check,
        TrackerStep::Use(_) => panic!("a new check was expected"),
    }
}

#[test]
fn fraud_check_ids_are_random() {
    let id = new_frm_id();
    assert_eq!(id.len(), 32);
    assert!(id.chars().all(|c| c.is_ascii_digit() || ('a'..='f').contains(&c)));
    assert_eq!(id.chars().nth(12), Some('4'));
    assert!(matches!(id.chars().nth(16), Some('8' | '9' | 'a' | 'b')));
    assert!(id != new_frm_id());
}

#[test]
fn fraud_checks_are_found_or_made() {
    let made = check();
    assert_eq!(made.frm_id, "frm_1");
    assert_eq!(made.payment_id, "pay");
    assert!(made.frm_status == FraudCheckStatus::Pending);
    assert!(made.frm_transaction_type == FraudCheckType::PreFrm);
    assert!(made.last_step == FraudCheckLastStep::Processing);
    assert!(made.payment_capture_method == Some(CaptureMethod::Manual));
    assert!(matches!(
        FraudCheckPre.get_trackers(Some(made), &payment(), draft()),
        TrackerStep::Use(_)
    ));
    let taken: Option<FrmData<u8, u8>> = FraudCheckPre.take_under(Some(check()), payment());
    assert!(taken.unwrap().refund.is_none());
    let none: Option<FrmData<u8, u8>> = FraudCheckPre.take_under(None, payment());
    assert!(none.is_none());
    assert!(FraudCheckPre.to_get_tracker().is_ok());
    assert!(FraudCheckPre.to_domain().is_ok());
    assert!(FraudCheckPre.to_update_tracker().is_ok());
}

struct NoCheck;

impl FraudCheckOperation for NoCheck {
    type Tracker = FraudCheckPre;
    type Calls = FraudCheckPre;
    type Updater = FraudCheckPre;
}

#[test]
fn a_check_without_parts_has_none() {
    assert!(NoCheck.to_get_tracker().err() == Some(ApiErrorResponse::InternalServerError));
    assert!(NoCheck.to_domain().err() == Some(ApiErrorResponse::InternalServerError));
    assert!(NoCheck.to_update_tracker().err() == Some(ApiErrorResponse::InternalServerError));
}

fn frm_data() -> FrmData<u8, u8> {
    FraudCheckPre.take_under(Some(check()), payment()).unwrap()
}

fn call<Req>(request: Req) -> RouterData<Req, FraudCheckResponseData> {
    let missing = ConnectorError::MissingRequiredField { field_name: "f" };
    RouterData {
        connector: text("signifyd"),
        merchant_id: text("m"),
        payment_id: text("pay"),
        attempt_id: text("att"),
        status: AttemptStatus::Started,
        payment_method: PaymentMethod::Wallet,
        auth_type: AuthenticationType::NoThreeDs,
        connector_auth_type: ConnectorAuthType::NoKey,
        billing: BillingDetails { full_name: Err(missing), country: Err(missing) },
        payment_method_token: None,
        preprocessing_id: None,
        connector_request_reference_id: text("ref"),
        amount_captured: None,
        refund_id: None,
        dispute_id: None,
        connector_http_status_code: None,
        external_latency: None,
        raw_connector_response: None,
        request,
        response: Ok(told(FraudCheckStatus::Legit)),
    }
}

fn told(status: FraudCheckStatus) -> FraudCheckResponseData {
    FraudCheckResponseData::TransactionResponse {
        resource_id: ResponseId::ConnectorTransactionId(text("case_1")),
        connector_metadata: None,
        status,
        reason: None,
        score: Some(12),
    }
}

#[test]
fn calls_of_fraud_checks() {
    let mut data = frm_data();
    let router_data = FraudCheckPre.pre_payment_frm(
        &mut data,
        call(FraudCheckCheckoutData {
            amount: 10,
            order_details: None,
            currency: Some(Currency { code: text("USD") }),
            browser_info: None,
            payment_method_data: None,
            email: None,
            gateway: None,
        }),
    );
    assert!(data.fraud_check.last_step == FraudCheckLastStep::CheckoutOrSale);
    assert!(matches!(router_data.request, FrmRequest::Checkout(request) if request.amount == 10));
    let router_data = FraudCheckPre.post_payment_frm(
        &mut data,
        call(FraudCheckTransactionData {
            amount: 11,
            order_details: None,
            currency: None,
            payment_method: None,
            error_code: None,
            error_message: None,
            connector_transaction_id: None,
            connector: None,
        }),
    );
    assert!(data.fraud_check.last_step == FraudCheckLastStep::TransactionOrRecordRefund);
    match router_data.unwrap().request {
        FrmRequest::Transaction(request) => {
            assert!(request.payment_method == Some(PaymentMethod::Wallet));
        }
        FrmRequest::Checkout(_) => panic!("a transaction was expected"),
    }
    assert!(Domain::<u8, u8>::execute_post_tasks(&FraudCheckPre, data).is_some());
}

#[test]
fn answers_of_fraud_checks() {
    let mut record = check();
    record.last_step = FraudCheckLastStep::CheckoutOrSale;
    record.payment_capture_method = Some(CaptureMethod::Manual);
    let update = |response, message_status| {
        FraudCheckPre.update_tracker(
            &record,
            message_status,
            response,
            moment(9),
        )
    };
    match update(FrmResponse::Checkout(Ok(told(FraudCheckStatus::Fraud))), None) {
        Some(FraudCheckUpdate::ResponseUpdate {
            frm_status,
            frm_transaction_id,
            frm_score,
            modified_at,
            last_step,
            payment_capture_method,
            ..
        }) => {
            assert!(last_step == FraudCheckLastStep::CheckoutOrSale);
            assert!(frm_status == FraudCheckStatus::Fraud);
            assert_eq!(frm_transaction_id, Some(text("case_1")));
            assert_eq!(frm_score, Some(12));
            assert_eq!(modified_at, moment(9));
            assert!(payment_capture_method == Some(CaptureMethod::Manual));
        }
        _ => panic!("a change was expected"),
    }
    let answer = FrmResponse::Transaction(Ok(told(FraudCheckStatus::Fraud)));
    match update(answer, Some(FraudCheckStatus::Legit)) {
        Some(FraudCheckUpdate::ResponseUpdate { frm_status, payment_capture_method, .. }) => {
            assert!(frm_status == FraudCheckStatus::Legit);
            assert!(payment_capture_method.is_none());
        }
        _ => panic!("a change was expected"),
    }
    let fulfilled = FraudCheckResponseData::FulfillmentResponse {
        order_id: text("o"),
        shipment_ids: vec![],
    };
    assert!(update(FrmResponse::Checkout(Ok(fulfilled)), None).is_none());
    let message = |response| match update(response, None) {
        Some(FraudCheckUpdate::ErrorUpdate { status, error_message }) => {
            assert!(status == FraudCheckStatus::TransactionFailure);
            error_message.unwrap().unwrap()
        }
        _ => panic!("an error was expected"),
    };
    assert_eq!(message(FrmResponse::Checkout(Err(error(None)))), "went wrong");
    let returned = FraudCheckResponseData::RecordReturnResponse {
        resource_id: ResponseId::NoResponseId,
        connector_metadata: None,
        return_id: None,
    };
    assert_eq!(
        message(FrmResponse::Transaction(Ok(returned))),
        "Error: Got Record Return Response response in current Checkout flow",
    );
    assert_eq!(
        message(FrmResponse::Sale(Ok(told(FraudCheckStatus::Legit)))),
        "Error: Got Pre(Sale) flow response in current post flow",
    );
    assert!(FraudCheckPre.take_over(frm_data(), None).is_ok());
    assert!(FraudCheckPre.take_over(frm_data(), Some(Some(check()))).is_ok());
    assert!(
        FraudCheckPre.take_over(frm_data(), Some(None)).err()
            == Some(ApiErrorResponse::PaymentNotFound)
    );
}

// Refunds

fn intent(status: IntentStatus, captured: Option<i64>) -> PaymentIntent {
    PaymentIntent {
        status,
        status_name: text("the_status"),
        amount_captured: captured.map(MinorUnit),
        currency: Currency { code: text("USD") },
        profile_id: text("profile"),
    }
}

fn attempt() -> PaymentAttempt {
    PaymentAttempt {
        id: text("att"),
        connector: Some(text("checkout")),
        connector_payment_id: Some(text("cpay")),
        merchant_connector_id: Some(text("mca")),
        total_amount: MinorUnit(100),
    }
}

fn account() -> MerchantAccount {
    MerchantAccount { id: text("m"), organization_id: text("org") }
}

fn refund_request() -> RefundsCreateRequest {
    RefundsCreateRequest {
        payment_id: text("pay"),
        merchant_reference_id: text("mref"),
        merchant_id: Some(text("m")),
        global_refund_id: Some(text("gref")),
        amount: None,
        reason: Some(text("broken")),
        refund_type: None,
        metadata: None,
    }
}

#[test]
fn refundable_payments() {
    let find = |status, captured, asked: Option<i64>| {
        refund_create_core(&intent(status, captured), asked.map(MinorUnit))
    };
    assert_eq!(find(IntentStatus::Succeeded, Some(100), None), Ok(MinorUnit(100)));
    assert_eq!(find(IntentStatus::PartiallyCaptured, Some(100), Some(7)), Ok(MinorUnit(7)));
    assert_eq!(
        find(IntentStatus::Succeeded, None, None),
        Err(ApiErrorResponse::InternalServerError),
    );
    assert_eq!(
        find(IntentStatus::Succeeded, None, Some(0)),
        Err(ApiErrorResponse::InvalidDataFormat {
            field_name: text("amount"),
            expected_format: text("positive integer"),
        }),
    );
    assert_eq!(
        find(IntentStatus::Failed, Some(100), None),
        Err(ApiErrorResponse::PaymentUnexpectedState {
            current_flow: text("refund"),
            field_name: text("status"),
            current_value: text("the_status"),
            states: text("succeeded, partially_captured"),
        }),
    );
}

#[test]
fn refund_requests_are_checked() {
    let ids = check_refund_request(&refund_request(), &account(), &attempt()).ok().unwrap();
    assert_eq!(ids.id, "gref");
    assert_eq!(ids.connector_payment_id, "cpay");
    let mut request = refund_request();
    request.global_refund_id = None;
    request.merchant_id = Some(text("other"));
    assert!(
        check_refund_request(&request, &account(), &attempt()).err()
            == Some(ApiErrorResponse::InternalServerError)
    );
    let mut request = refund_request();
    request.merchant_id = Some(text("other"));
    assert!(
        check_refund_request(&request, &account(), &attempt()).err()
            == Some(ApiErrorResponse::InvalidDataFormat {
                field_name: text("merchant_id"),
                expected_format: text("merchant_id from merchant account"),
            })
    );
    let mut without = attempt();
    without.connector_payment_id = None;
    assert!(
        check_refund_request(&refund_request(), &account(), &without).err()
            == Some(ApiErrorResponse::InternalServerError)
    );
    let paid = intent(IntentStatus::Succeeded, None);
    assert_eq!(total_amount_captured(&paid, &attempt()), MinorUnit(100));
    let paid = intent(IntentStatus::Succeeded, Some(60));
    assert_eq!(total_amount_captured(&paid, &attempt()), MinorUnit(60));
}

#[test]
fn new_refunds() {
    let make_from = |request: RefundsCreateRequest,
                     attempt: &PaymentAttempt,
                     recent_enough,
                     amount_fits,
                     attempts_left| {
        validate_and_create_refund(
            request,
            &account(),
            &intent(IntentStatus::Succeeded, Some(100)),
            attempt,
            RefundChecks { recent_enough, amount_fits, attempts_left },
            365,
            RefundDraft {
                refund_amount: MinorUnit(40),
                default_refund_type: RefundType::Scheduled,
                created_at: moment(1),
                modified_at: moment(2),
            },
            |id| StoredId { id: id.clone() + "_short", data: Some(id) },
        )
    };
    let make = |attempt: &PaymentAttempt, recent_enough, amount_fits, attempts_left| {
        make_from(refund_request(), attempt, recent_enough, amount_fits, attempts_left)
    };
    let refund = make(&attempt(), true, true, true).ok().unwrap();
    assert_eq!(refund.id, "gref");
    assert_eq!(refund.connector_transaction_id, "cpay_short");
    assert_eq!(refund.processor_transaction_data, Some(text("cpay")));
    assert_eq!(refund.external_reference_id, Some(text("mref")));
    assert_eq!(refund.refund_amount, MinorUnit(40));
    assert_eq!(refund.total_amount, MinorUnit(100));
    assert!(refund.refund_status == RefundStatus::Pending);
    assert!(refund.refund_type == RefundType::Scheduled);
    assert!(!refund.sent_to_gateway);
    assert_eq!(refund.description, Some(text("broken")));
    assert_eq!(refund.refund_reason, Some(text("broken")));
    assert_eq!(refund.updated_by, "");
    assert_eq!(refund.organization_id, "org");
    assert!(
        make(&attempt(), false, false, false).err()
            == Some(ApiErrorResponse::InvalidDataFormat {
                field_name: text("created_at"),
                expected_format: text("created_at not older than 365 days"),
            })
    );
    assert!(
        make(&attempt(), true, false, false).err()
            == Some(ApiErrorResponse::RefundAmountExceedsPaymentAmount)
    );
    assert!(
        make(&attempt(), true, true, false).err() == Some(ApiErrorResponse::MaximumRefundCount)
    );
    let mut without = attempt();
    without.connector = None;
    assert!(
        make(&without, true, true, true).err() == Some(ApiErrorResponse::InternalServerError)
    );
    let mut without = attempt();
    without.connector_payment_id = None;
    assert!(
        make(&without, false, false, false).err() == Some(ApiErrorResponse::InternalServerError)
    );
    let mut request = refund_request();
    request.merchant_id = Some(text("other"));
    assert!(
        make_from(request, &without, false, false, false).err()
            == Some(ApiErrorResponse::InvalidDataFormat {
                field_name: text("merchant_id"),
                expected_format: text("merchant_id from merchant account"),
            })
    );
    let mut request = refund_request();
    request.merchant_id = None;
    assert!(make_from(request, &attempt(), true, true, true).is_ok());
    let mut request = refund_request();
    request.global_refund_id = None;
    request.merchant_id = Some(text("other"));
    assert!(
        make_from(request, &attempt(), true, true, true).err()
            == Some(ApiErrorResponse::InternalServerError)
    );
    assert_eq!(refund_not_stored(true), ApiErrorResponse::DuplicateRefundRequest);
    assert_eq!(refund_not_stored(false), ApiErrorResponse::RefundNotFound);
}

fn refund(refund_status: RefundStatus, sent_to_gateway: bool) -> Refund {
    Refund {
        id: text("gref"),
        merchant_reference_id: text("mref"),
        payment_id: text("pay"),
        merchant_id: text("m"),
        connector_transaction_id: text("cpay"),
        connector: text("checkout"),
        refund_amount: MinorUnit(40),
        currency: Currency { code: text("USD") },
        refund_status,
        sent_to_gateway,
        refund_error_message: None,
        refund_error_code: Some(text("IE")),
        metadata: None,
        refund_reason: None,
        profile_id: Some(text("profile")),
        connector_id: Some(text("mca")),
        created_at: moment(1),
        modified_at: moment(2),
        processor_transaction_data: None,
        unified_code: Some(text("UE_1")),
        unified_message: Some(text("declined")),
    }
}

#[test]
fn refunds_are_sent_once() {
    let pending = RefundStatus::Pending;
    let plan = |status, sent, process, kind| {
        schedule_refund_execution(&refund(status, sent), process, kind)
    };
    assert!(plan(pending, false, false, RefundType::Scheduled) == RefundExecution::AddExecuteTask);
    assert!(
        plan(pending, false, false, RefundType::Instant)
            == RefundExecution::TriggerThenAddSyncTask
    );
    assert!(plan(pending, true, false, RefundType::Scheduled) == RefundExecution::AddSyncTask);
    assert!(plan(pending, false, true, RefundType::Scheduled) == RefundExecution::AddSyncTask);
    assert!(plan(pending, true, false, RefundType::Instant) == RefundExecution::Keep);
    assert!(
        plan(RefundStatus::Success, false, false, RefundType::Instant) == RefundExecution::Keep
    );
    assert!(
        plan(RefundStatus::Failure, false, false, RefundType::Scheduled) == RefundExecution::Keep
    );
}

#[test]
fn refund_tasks() {
    let made = add_refund_execute_task(&refund(RefundStatus::Pending, false), "RUN", moment(5));
    assert_eq!(made.id, "RUN_EXECUTE_REFUND_gref");
    assert_eq!(made.name, "EXECUTE_REFUND");
    assert_eq!(made.tag, vec![text("REFUND")]);
    assert_eq!(made.schedule_time, moment(5));
    let sync = add_refund_sync_task(&refund(RefundStatus::Pending, false), "RUN", moment(5));
    assert_eq!(sync.id, "RUN_SYNC_REFUND_gref");
    assert_ne!(sync.id, made.id);
    let told = refund_to_refund_core_workflow_model(&refund(RefundStatus::Pending, false));
    assert_eq!(made.tracking_data, told);
    assert_eq!(told.connector_transaction_id, "cpay");
}

#[test]
fn refund_responses() {
    let response = RefundResponse::foreign_try_from(refund(RefundStatus::Success, true), 1u8);
    let response = response.ok().unwrap();
    assert_eq!(response.status, 1);
    assert_eq!(response.profile_id, "profile");
    assert_eq!(response.merchant_connector_id, "mca");
    assert_eq!(response.connector_refund_reference_id, Some(text("gref")));
    let details = response.error_details.unwrap();
    assert_eq!(details.code, "IE");
    assert_eq!(details.message, "");
    let mut without = refund(RefundStatus::Success, true);
    without.profile_id = None;
    assert!(
        RefundResponse::foreign_try_from(without, 1u8).err()
            == Some(ApiErrorResponse::InternalServerError)
    );
    let told = refund(RefundStatus::Failure, true);
    assert_eq!(told.to_translate(), Some((text("UE_1"), text("declined"))));
    assert_eq!(
        told.with_translation(Some(text("abgelehnt"))).unified_message,
        Some(text("abgelehnt")),
    );
    let told = refund(RefundStatus::Failure, true).with_translation(None);
    assert_eq!(told.unified_message, Some(text("declined")));
    let mut codeless = refund(RefundStatus::Failure, true);
    codeless.unified_code = None;
    assert_eq!(codeless.to_translate(), None);
    let told = codeless.with_translation(Some(text("abgelehnt")));
    assert_eq!(told.unified_message, Some(text("declined")));
}

fn refund_answer(refund_status: RefundStatus) -> RefundAnswer {
    RefundAnswer {
        connector_refund_id: StoredId { id: text("cref"), data: Some(text("whole")) },
        refund_status,
    }
}

fn next(event: SendingEvent) -> Sending {
    trigger_refund_to_gateway(event, text("redis_kv"))
}

#[test]
fn refunds_at_the_connector() {
    assert_eq!(merchant_connector_id(&attempt()), Ok(text("mca")));
    match next(SendingEvent::Asked(&attempt())) {
        Sending::AskToken(account) => assert_eq!(account, "mca"),
        _ => panic!("a token was to be asked for"),
    }
    let mut without = attempt();
    without.merchant_connector_id = None;
    match next(SendingEvent::Asked(&without)) {
        Sending::EndWithError(error) => {
            assert_eq!(error, ApiErrorResponse::InternalServerError);
        }
        _ => panic!("an error was expected"),
    }
    let uncalled = || RefundOutcome { response: Err(error(None)), integrity: Ok(()) };
    let asked = |supports_access_token, has_access_token| {
        next(SendingEvent::TokenAsked {
            supports_access_token,
            has_access_token,
            uncalled: uncalled(),
        })
    };
    assert!(matches!(asked(false, false), Sending::CallConnector));
    assert!(matches!(asked(true, true), Sending::CallConnector));
    assert!(matches!(asked(true, false), Sending::LookUpRefundError(_)));
    let called = next(SendingEvent::Called(RefundOutcome {
        response: Ok(refund_answer(RefundStatus::Success)),
        integrity: Ok(()),
    }));
    match called {
        Sending::StoreUpdate(RefundUpdate::Update {
            connector_refund_id,
            refund_status,
            sent_to_gateway,
            refund_arn,
            updated_by,
            processor_refund_data,
            ..
        }) => {
            assert_eq!(connector_refund_id, "cref");
            assert!(refund_status == RefundStatus::Success);
            assert!(sent_to_gateway);
            assert_eq!(refund_arn, "");
            assert_eq!(updated_by, "redis_kv");
            assert_eq!(processor_refund_data, Some(text("whole")));
        }
        _ => panic!("a change was expected"),
    }
}

#[test]
fn refunds_whose_answer_does_not_agree() {
    let called = next(SendingEvent::Called(RefundOutcome {
        response: Ok(refund_answer(RefundStatus::Success)),
        integrity: Err(IntegrityCheckError {
            field_names: text("amount"),
            connector_transaction_id: Some(StoredId { id: text("t"), data: None }),
        }),
    }));
    match called {
        Sending::StoreUpdate(RefundUpdate::ErrorUpdate {
            refund_status,
            refund_error_message,
            refund_error_code,
            connector_refund_id,
            ..
        }) => {
            assert!(refund_status == Some(RefundStatus::ManualReview));
            assert_eq!(
                refund_error_message,
                Some(text("Integrity Check Failed! as data mismatched for fields amount")),
            );
            assert_eq!(refund_error_code, Some(text("IE")));
            assert_eq!(connector_refund_id, Some(text("t")));
        }
        _ => panic!("a change was expected"),
    }
}

#[test]
fn refused_refunds() {
    let looked_up = next(SendingEvent::RefundErrorLookedUp(error(Some("why")), None));
    assert!(matches!(looked_up, Sending::LookUpPaymentError(_)));
    let known = GatewayStatusMap {
        unified_code: Some(text("UE_1")),
        unified_message: Some(text("declined")),
    };
    match next(SendingEvent::RefundErrorLookedUp(error(Some("why")), Some(known))) {
        Sending::StoreUpdate(RefundUpdate::ErrorUpdate {
            refund_status,
            refund_error_message,
            refund_error_code,
            unified_code,
            unified_message,
            ..
        }) => {
            assert!(refund_status == Some(RefundStatus::Failure));
            assert_eq!(refund_error_message, Some(text("why")));
            assert_eq!(refund_error_code, Some(text("E1")));
            assert_eq!(unified_code, Some(text("UE_1")));
            assert_eq!(unified_message, Some(text("declined")));
        }
        _ => panic!("a change was expected"),
    }
    let half = GatewayStatusMap { unified_code: Some(text("UE_1")), unified_message: None };
    match next(SendingEvent::PaymentErrorLookedUp(error(None), Some(half))) {
        Sending::StoreUpdate(RefundUpdate::ErrorUpdate {
            refund_error_message,
            unified_code,
            unified_message,
            ..
        }) => {
            assert_eq!(refund_error_message, Some(text("went wrong")));
            assert_eq!(unified_code, Some(text("UE_9000")));
            assert_eq!(unified_message, Some(text("Something went wrong")));
        }
        _ => panic!("a change was expected"),
    }
}

#[test]
fn refunds_that_cannot_be_asked_for() {
    let failed = next(SendingEvent::CallFailed(RefundCallFailure::NotSupported {
        message: text("Refund"),
        connector: text("acme"),
    }));
    match failed {
        Sending::RecordCallFailure(RefundUpdate::ErrorUpdate {
            refund_status,
            refund_error_message,
            refund_error_code,
            ..
        }) => {
            assert!(refund_status == Some(RefundStatus::Failure));
            assert_eq!(refund_error_message, Some(text("Refund is not supported by acme")));
            assert_eq!(refund_error_code, Some(text("NOT_SUPPORTED")));
        }
        _ => panic!("a change was expected"),
    }
    let failed = next(SendingEvent::CallFailed(RefundCallFailure::NotImplemented {
        text: text("no refunds"),
    }));
    match failed {
        Sending::RecordCallFailure(RefundUpdate::ErrorUpdate {
            refund_error_message,
            refund_error_code,
            ..
        }) => {
            assert_eq!(refund_error_message, Some(text("no refunds")));
            assert_eq!(refund_error_code, Some(text("NOT_IMPLEMENTED")));
        }
        _ => panic!("a change was expected"),
    }
    assert!(matches!(
        next(SendingEvent::CallFailed(RefundCallFailure::Other)),
        Sending::EndWithCallFailure
    ));
}

struct Wants(Option<String>);

impl CheckIntegrity for Wants {
    fn check_integrity(&self, connector_refund_id: Option<String>) -> Result<(), IntegrityCheckError> {
        if connector_refund_id == self.0 {
            Ok(())
        } else {
            Err(IntegrityCheckError {
                field_names: text("id"),
                connector_transaction_id: None,
            })
        }
    }
}

#[test]
fn answers_are_held_against_requests() {
    let answer = || {
        Ok(RefundsResponseData {
            connector_refund_id: text("cref"),
            refund_status: RefundStatus::Success,
        })
    };
    assert!(check_refund_integrity(&Wants(Some(text("cref"))), &answer()).is_ok());
    assert!(check_refund_integrity(&Wants(Some(text("else"))), &answer()).is_err());
    assert!(check_refund_integrity(&Wants(None), &Err(error(None))).is_ok());
}

// Addresses

fn address(address_id: &str, customer_id: Option<&str>) -> Address {
    Address {
        address_id: text(address_id),
        city: Some(text("Turin")),
        country: Some(text("IT")),
        line1: Some(secret("encrypted")),
        line2: None,
        line3: None,
        state: None,
        zip: None,
        first_name: None,
        last_name: None,
        phone_number: None,
        country_code: None,
        created_at: moment(1),
        modified_at: moment(1),
        customer_id: customer_id.map(text),
        merchant_id: text("m"),
        payment_id: None,
        updated_by: text("x"),
        email: None,
    }
}

struct MoveTo(&'static str);

impl AddressChange for MoveTo {
    fn create_address(self, source: Address) -> Address {
        Address { city: Some(text(self.0)), ..source }
    }
}

#[test]
fn addresses_are_found() {
    let mut db = MockDb::new();
    assert!(
        db.find_address_by_address_id("a").err()
            == Some(StorageError::ValueNotFound(text("address not found")))
    );
    assert!(db.insert_address_for_payments(address("a", None)).is_ok());
    assert!(db.insert_address_for_customers(address("b", Some("c1"))).is_ok());
    assert!(db.find_address_by_address_id("b") == Ok(address("b", Some("c1"))));
    assert!(
        db.find_address_by_merchant_id_payment_id_address_id("other", "other", "a")
            == Ok(address("a", None))
    );
    assert!(db.insert_address_for_payments(address("a", Some("late"))).is_ok());
    assert!(db.find_address_by_address_id("a") == Ok(address("a", None)));
}

#[test]
fn addresses_are_changed() {
    let mut db = MockDb::new();
    for id in ["a", "b", "c"] {
        assert!(db.insert_address_for_customers(address(id, Some("c1"))).is_ok());
    }
    assert!(db.update_address(text("b"), MoveTo("Rome")).is_ok());
    let city = |db: &MockDb, id: &str| match db.find_address_by_address_id(id) {
        Ok(address) => address.city,
        Err(_) => None,
    };
    assert_eq!(city(&db, "a"), Some(text("Turin")));
    assert_eq!(city(&db, "b"), Some(text("Rome")));
    assert_eq!(city(&db, "c"), Some(text("Turin")));
    assert!(
        db.update_address(text("z"), MoveTo("Rome")).err()
            == Some(StorageError::ValueNotFound(text("cannot find address to update")))
    );
    assert!(db.update_address_for_payments(&address("c", None), MoveTo("Bari")).is_ok());
    assert_eq!(city(&db, "c"), Some(text("Bari")));
    match db.update_address_by_merchant_id_customer_id("c1", "m", MoveTo("Pisa")) {
        Ok(list) => assert_eq!(list.len(), 1),
        Err(_) => panic!("a change was expected"),
    }
    assert_eq!(city(&db, "a"), Some(text("Pisa")));
    assert_eq!(city(&db, "b"), Some(text("Rome")));
    assert!(
        db.update_address_by_merchant_id_customer_id("c1", "n", MoveTo("Pisa")).err()
            == Some(StorageError::ValueNotFound(text("address not found")))
    );
}

fn new_address() -> AddressNew {
    AddressNew {
        address_id: text("a1"),
        city: Some(text("Turin")),
        country: None,
        line1: None,
        line2: None,
        line3: None,
        state: None,
        zip: None,
        first_name: None,
        last_name: None,
        phone_number: None,
        country_code: None,
        customer_id: None,
        merchant_id: text("m"),
        payment_id: Some(text("p")),
        created_at: moment(1),
        modified_at: moment(2),
        updated_by: text("before"),
        email: Some(secret("e")),
    }
}

#[test]
fn addresses_are_put_where_they_are_looked_for() {
    let redis = MerchantStorageScheme::RedisKv;
    let postgres = MerchantStorageScheme::PostgresOnly;
    assert!(matches!(
        find_payment_address(postgres, "m", "p", "a1"),
        StoreStep::FindInDatabase
    ));
    let looked_for = match find_payment_address(redis, "m", "p", "a1") {
        StoreStep::FindInStore(place) => place,
        _ => panic!("the store was expected"),
    };
    assert_eq!(looked_for.key.merchant_id, "m");
    assert_eq!(looked_for.key.payment_id, "p");
    assert_eq!(looked_for.field, "add_a1");
    match insert_payment_address(Some(new_address()), "p", redis, text("redis_kv")) {
        StoreStep::InsertIntoStore { place, record, .. } => {
            assert_eq!(place, looked_for);
            assert_eq!(record.updated_by, "redis_kv");
            assert_eq!(record.city, Some(text("Turin")));
            assert!(record.email == Some(secret("e")));
        }
        _ => panic!("the store was expected"),
    }
    assert!(matches!(
        insert_payment_address(Some(new_address()), "p", postgres, text("postgres_only")),
        StoreStep::InsertIntoDatabase(_)
    ));
    assert!(matches!(
        insert_payment_address(None, "p", redis, text("redis_kv")),
        StoreStep::Fail(StorageError::EncryptionError)
    ));
    match update_payment_address(Some(address("a1", None)), "p", redis, MoveTo("Rome")) {
        StoreStep::UpdateInStore { place, record, before } => {
            assert_eq!(place, looked_for);
            assert_eq!(record.city, Some(text("Rome")));
            assert_eq!(before.city, Some(text("Turin")));
        }
        _ => panic!("the store was expected"),
    }
    assert!(matches!(
        update_payment_address(Some(address("a1", None)), "p", postgres, MoveTo("Rome")),
        StoreStep::UpdateInDatabase(_)
    ));
    assert!(matches!(
        update_payment_address(None, "p", postgres, MoveTo("Rome")),
        StoreStep::Fail(StorageError::EncryptionError)
    ));
}

#[test]
fn answers_of_the_store() {
    let record = || address("a1", None);
    assert!(matches!(address_answered(Ok(record())), StoreStep::Decrypt(_)));
    assert!(matches!(
        address_answered(Err(StorageError::DatabaseError)),
        StoreStep::Fail(StorageError::DatabaseError)
    ));
    assert!(matches!(
        address_inserted(record(), Some(HsetnxReply::KeySet)),
        StoreStep::Decrypt(_)
    ));
    match address_inserted(record(), Some(HsetnxReply::KeyNotSet)) {
        StoreStep::Fail(error) => assert_eq!(
            error,
            StorageError::DuplicateValue { entity: "address", key: Some(text("a1")) },
        ),
        _ => panic!("an error was expected"),
    }
    assert!(matches!(address_inserted(record(), None), StoreStep::Fail(StorageError::KVError)));
    assert!(matches!(address_updated(record(), true), StoreStep::Decrypt(_)));
    assert!(matches!(address_updated(record(), false), StoreStep::Fail(StorageError::KVError)));
    assert_eq!(address_decrypted(Some(1)), Ok(1));
    assert_eq!(address_decrypted::<u8>(None), Err(StorageError::DecryptionError));
    assert_eq!(addresses_decrypted(vec![Some(1), Some(2)]), Ok(vec![1, 2]));
    assert_eq!(addresses_decrypted(vec![Some(1), None]), Err(StorageError::DecryptionError));
}

// Payouts

#[test]
fn routes_of_payouts() {
    let key = ApiKeyAuth { is_connected_allowed: false, is_platform_allowed: false };
    let body = |id: Option<&str>| PayoutCreateRequest {
        payout_id: id.map(text),
        confirm: Some(false),
        details: 1u8,
    };
    let call = payouts_create(body(None));
    assert!(call.rules.flow == Flow::PayoutsCreate);
    assert!(call.rules.auth == RouteAuth::ApiKey(key));
    assert_eq!(call.payload.payout_id, None);
    let call = payouts_update(text("p1"), body(Some("p2")));
    assert_eq!(call.payload.payout_id, Some(text("p1")));
    assert_eq!(call.payload.confirm, Some(false));
    let call = payouts_confirm(body(None), text("p1"));
    assert!(call.rules.auth == RouteAuth::ClientSecret);
    assert_eq!(call.payload.payout_id, Some(text("p1")));
    assert_eq!(call.payload.confirm, Some(true));
    let query = PayoutRetrieveBody { force_sync: Some(true), merchant_id: None };
    let call = payouts_retrieve(text("p1"), query);
    assert_eq!(call.payload.force_sync, Some(true));
    assert!(call.rules.auth == RouteAuth::ApiKeyOrUser(key, Permission::ProfilePayoutRead));
    assert_eq!(payouts_cancel(text("p1")).payload.payout_id, "p1");
    assert!(payouts_fulfill(text("p1")).rules.core == PayoutCore::Fulfill);
    assert_eq!(payouts_accounts(), "accounts");
}

#[test]
fn lists_of_payouts() {
    let merchant = [
        payouts_list(0u8).rules,
        payouts_list_by_filter(0u8).rules,
        payouts_list_available_filters_for_merchant(0u8).rules,
    ];
    for rules in merchant {
        assert!(rules.scope == ProfileScope::Merchant);
        assert!(matches!(
            rules.auth,
            RouteAuth::ApiKeyOrUser(_, Permission::MerchantPayoutRead)
        ));
    }
    let profile = [
        payouts_list_profile(0u8).rules,
        payouts_list_by_filter_profile(0u8).rules,
        payouts_list_available_filters_for_profile(0u8).rules,
    ];
    for rules in profile {
        assert!(rules.scope == ProfileScope::CallersProfile);
        assert!(matches!(
            rules.auth,
            RouteAuth::ApiKeyOrUser(_, Permission::ProfilePayoutRead)
        ));
    }
    assert_eq!(listed_profiles(ProfileScope::Merchant, Some(text("p"))), None);
    assert_eq!(
        listed_profiles(ProfileScope::CallersProfile, Some(text("p"))),
        Some(vec![text("p")]),
    );
    assert_eq!(listed_profiles(ProfileScope::CallersProfile, None), None);
    assert_eq!(
        merchant_context(1, 2),
        MerchantContext::NormalMerchant(Box::new(Context(1, 2))),
    );
}
