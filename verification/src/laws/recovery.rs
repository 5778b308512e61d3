//! Laws of the recovery of failed recurring payments.
use vstd::prelude::*;
use crate::enums::IntentStatus;
use crate::recovery::{execute_task_found, execute_task_id, Action, ActionStep, BusinessStatus, Decision, PCRAttemptStatus, PaymentOutcome, ProcessTrackerStatus, RecoveryCause, RecoveryCommand, RecoveryError, RecoveryFailure, RecoveryRun, RecoveryStep, RecoveryTask, StepOutcome};

verus! {

/// Whether a command finishes a task as done in this way.
pub open spec fn finishes(
    command: RecoveryCommand,
    task: RecoveryTask,
    business_status: BusinessStatus,
) -> bool {
    command is Finish && command->Finish_task == task && command->Finish_business_status
        == business_status
}

/// Whether a command sets where a task stands in this way.
pub open spec fn sets(
    command: RecoveryCommand,
    task: RecoveryTask,
    status: ProcessTrackerStatus,
    business_status: BusinessStatus,
) -> bool {
    command is Update && command->Update_task == task && command->Update_status == status
        && command->Update_business_status == business_status
}

/// After a payment was made: success finishes both tasks; a failure finishes the one that asks,
/// and tries to pay once more; a payment under way leaves the asking task to go on; and what
/// cannot be acted on is for a person to look at.
pub proof fn law_made_payment_moves_its_tasks(
    status: &PCRAttemptStatus,
    retry_count: i32,
    run: RecoveryRun,
)
    requires
        *status is Failed ==> retry_count < i32::MAX,
        call_ensures(
            PCRAttemptStatus::update_pt_status_based_on_attempt_status,
            (status, retry_count),
            run,
        ),
    ensures
        run.done == 0,
        run.retry_time is None,
        run.cause is AttemptStatus,
        *status is Succeeded ==> run.commands@.len() == 2 && finishes(
            run.commands@[0],
            RecoveryTask::Psync,
            BusinessStatus::PsyncWorkflowComplete,
        ) && finishes(
            run.commands@[1],
            RecoveryTask::Execute,
            BusinessStatus::ExecuteWorkflowComplete,
        ),
        *status is Failed ==> run.commands@.len() == 3 && finishes(
            run.commands@[0],
            RecoveryTask::Psync,
            BusinessStatus::PsyncWorkflowComplete,
        ) && run.commands@[1] is AskRetryTime && run.commands@[1]->retry_count == retry_count + 1
            && run.commands@[2] is RetryIfPossible && run.commands@[2]->RetryIfPossible_task
            is Execute,
        *status is Processing ==> run.commands@.len() == 1 && finishes(
            run.commands@[0],
            RecoveryTask::Execute,
            BusinessStatus::ExecuteWorkflowCompleteForPsync,
        ),
        *status is InvalidAction ==> run.commands@.len() == 1 && sets(
            run.commands@[0],
            RecoveryTask::Execute,
            ProcessTrackerStatus::Review,
            BusinessStatus::ExecuteWorkflowCompleteForPsync,
        ),
{
}

/// After the state of a payment was found: success and failure finish the task that asked, and a
/// failure tries once more; a payment under way is asked for again; nothing else changes a task.
pub proof fn law_asked_payment_moves_its_task(
    status: &PCRAttemptStatus,
    retry_count: i32,
    run: RecoveryRun,
)
    requires
        *status is Failed ==> retry_count < i32::MAX,
        call_ensures(
            PCRAttemptStatus::update_pt_status_based_on_attempt_status_for_psync_task,
            (status, retry_count),
            run,
        ),
    ensures
        run.done == 0,
        run.retry_time is None,
        run.cause is AttemptStatus,
        *status is Succeeded || *status is Failed ==> run.commands@.len() > 0 && finishes(
            run.commands@[0],
            RecoveryTask::Psync,
            BusinessStatus::PsyncWorkflowComplete,
        ),
        *status is Succeeded ==> run.commands@.len() == 1,
        *status is Failed ==> run.commands@.len() == 3 && run.commands@[1] is AskRetryTime
            && run.commands@[1]->retry_count == retry_count + 1 && run.commands@[2]
            is RetryIfPossible && run.commands@[2]->RetryIfPossible_task is Psync,
        *status is Processing ==> run.commands@.len() == 1 && run.commands@[0] is SyncPayment,
        *status is InvalidAction ==> run.commands@.len() == 0,
{
}

/// Which action follows from where a payment stands: each state has its own, and a failure depends
/// on whether there is a time to try again.
pub proof fn law_action_follows_the_state(
    status: PCRAttemptStatus,
    has_active_attempt: bool,
    retry_count: i32,
    made: ActionStep,
    asked: Result<ActionStep, RecoveryError>,
)
    requires
        status is Failed ==> retry_count < i32::MAX,
        call_ensures(
            Action::execute_payment,
            (&PaymentOutcome::Attempt(status), has_active_attempt, retry_count),
            made,
        ),
        call_ensures(
            Action::payment_sync_call,
            (Ok(Some(status)), has_active_attempt, retry_count),
            asked,
        ),
    ensures
        asked is Ok,
        asked->Ok_0 == made,
        status is Succeeded <==> made == ActionStep::Decided(Action::SuccessfulPayment),
        status is Processing <==> made == ActionStep::Decided(Action::SyncPayment),
        status is InvalidAction <==> made == ActionStep::Decided(Action::ManualReviewAction),
        status is Failed <==> made is AskRetryTime,
        made is AskRetryTime ==> made->retry_count == retry_count + 1,
{
}

/// A payment whose call failed is asked after where an attempt is open, and otherwise looked at. A
/// call that told of no attempt is an error.
pub proof fn law_failed_calls_are_followed_up(
    error: RecoveryError,
    has_active_attempt: bool,
    retry_count: i32,
    made: ActionStep,
    asked: Result<ActionStep, RecoveryError>,
    untold: Result<ActionStep, RecoveryError>,
)
    requires
        call_ensures(
            Action::execute_payment,
            (&PaymentOutcome::CallFailed, has_active_attempt, retry_count),
            made,
        ),
        call_ensures(
            Action::payment_sync_call,
            (Err(error), has_active_attempt, retry_count),
            asked,
        ),
        call_ensures(
            Action::payment_sync_call,
            (Ok(None), has_active_attempt, retry_count),
            untold,
        ),
    ensures
        has_active_attempt ==> made == ActionStep::Decided(Action::SyncPayment),
        !has_active_attempt ==> made == ActionStep::Decided(Action::ReviewPayment),
        asked is Ok && asked->Ok_0 == made,
        untold is Err && untold->Err_0 is ValueNotFound,
{
}

/// A failed payment is tried again exactly where a time was found, and has failed for good
/// otherwise.
pub proof fn law_retry_needs_a_time<T>(schedule_time: &Option<T>, res: Action)
    requires
        call_ensures(Action::decide_retry_failure_action::<T>, (schedule_time,), res),
    ensures
        res is RetryPayment <==> schedule_time is Some,
        res is TerminalFailure <==> schedule_time is None,
{
}

/// What an action changes for the task that made the payment.
pub proof fn law_actions_move_the_execute_task(action: &Action, retry_count: i32, run: RecoveryRun)
    requires
        *action is RetryPayment ==> retry_count < i32::MAX,
        call_ensures(Action::execute_payment_task_response_handler, (action, retry_count), run),
    ensures
        run.done == 0,
        run.retry_time is None,
        run.cause is ExecuteAction,
        *action is SyncPayment ==> run.commands@.len() == 2 && run.commands@[0] is InsertPsyncTask
            && finishes(
            run.commands@[1],
            RecoveryTask::Execute,
            BusinessStatus::ExecuteWorkflowCompleteForPsync,
        ),
        *action is RetryPayment ==> ({
            &&& run.commands@.len() == 2
            &&& run.commands@[0] is AskRetryTime
            &&& run.commands@[0]->retry_count == retry_count + 1
            &&& run.commands@[1] is RescheduleAndUpdate
            &&& run.commands@[1]->RescheduleAndUpdate_task is Execute
            &&& run.commands@[1]->RescheduleAndUpdate_status is Pending
            &&& run.commands@[1]->RescheduleAndUpdate_business_status is Pending
        }),
        *action is ManualReviewAction ==> run.commands@.len() == 1 && sets(
            run.commands@[0],
            RecoveryTask::Execute,
            ProcessTrackerStatus::Review,
            BusinessStatus::ExecuteWorkflowCompleteForPsync,
        ),
        *action is TerminalFailure || *action is SuccessfulPayment || *action is ReviewPayment
            <==> run.commands@.len() == 0,
{
}

/// What an action changes for the task that asked for the state of the payment.
pub proof fn law_actions_move_the_psync_task(action: &Action, run: RecoveryRun)
    requires
        call_ensures(Action::psync_response_handler, (action,), run),
    ensures
        run.done == 0,
        run.retry_time is None,
        run.cause is PsyncAction,
        *action is SyncPayment ==> run.commands@.len() == 1 && sets(
            run.commands@[0],
            RecoveryTask::Psync,
            ProcessTrackerStatus::Pending,
            BusinessStatus::Pending,
        ),
        *action is RetryPayment ==> run.commands@.len() == 3 && finishes(
            run.commands@[0],
            RecoveryTask::Psync,
            BusinessStatus::PsyncWorkflowComplete,
        ) && run.commands@[1] is FindExecuteTask && sets(
            run.commands@[2],
            RecoveryTask::Execute,
            ProcessTrackerStatus::Pending,
            BusinessStatus::Pending,
        ),
        *action is TerminalFailure || *action is SuccessfulPayment ==> run.commands@.len() == 1
            && finishes(
            run.commands@[0],
            RecoveryTask::Psync,
            BusinessStatus::PsyncWorkflowComplete,
        ),
        *action is ReviewPayment ==> run.commands@.len() == 2 && run.commands@[0]
            is InsertReviewTask && finishes(
            run.commands@[1],
            RecoveryTask::Psync,
            BusinessStatus::PsyncWorkflowCompleteForReview,
        ),
        *action is ManualReviewAction ==> run.commands@.len() == 1 && sets(
            run.commands@[0],
            RecoveryTask::Psync,
            ProcessTrackerStatus::Review,
            BusinessStatus::PsyncWorkflowComplete,
        ),
{
}

/// A task pays exactly where the payment failed without a connector or an open attempt; it asks
/// exactly where the payment is under way at a connector with an open attempt, of which it is
/// told; and a payment that a connector settled with an open attempt is looked at. Nothing else
/// is done.
pub proof fn law_decision_follows_the_payment<A>(
    intent_status: IntentStatus,
    called_connector: bool,
    has_active_attempt: bool,
    synced: Result<Option<A>, RecoveryError>,
    needs: bool,
    res: Result<Decision<A>, RecoveryError>,
)
    requires
        call_ensures(
            Decision::<A>::requires_sync,
            (intent_status, called_connector, has_active_attempt),
            needs,
        ),
        call_ensures(
            Decision::<A>::get_decision_based_on_params,
            (intent_status, called_connector, has_active_attempt, synced),
            res,
        ),
    ensures
        needs <==> intent_status is Processing && called_connector && has_active_attempt,
        res is Err <==> needs && !(synced is Ok && synced->Ok_0 is Some),
        res is Err && synced is Err ==> res->Err_0 == synced->Err_0,
        res is Err && synced is Ok ==> res->Err_0 is ValueNotFound,
        res is Ok ==> (res->Ok_0 is PsyncTask <==> needs),
        res is Ok && res->Ok_0 is PsyncTask ==> synced->Ok_0 == Some(res->Ok_0->PsyncTask_0),
        res is Ok ==> (res->Ok_0 is ExecuteTask <==> intent_status is Failed && !called_connector
            && !has_active_attempt),
        res is Ok ==> (res->Ok_0 is ReviewTaskFailedPayment <==> intent_status is Failed
            && called_connector && has_active_attempt),
        res is Ok ==> (res->Ok_0 is ReviewTaskSuccessfulPayment <==> intent_status is Succeeded
            && called_connector && has_active_attempt),
{
}

/// The next step is the next command, as it was given; a task is tried again, and its time set, at
/// the time that was found.
pub proof fn law_steps_are_the_commands(run: &RecoveryRun, res: RecoveryStep)
    requires
        call_ensures(RecoveryRun::next_step, (run,), res),
    ensures
        res is Complete <==> run.done >= run.commands@.len(),
        run.done < run.commands@.len() ==> ({
            let command = run.commands@[run.done as int];
            &&& res is Finish <==> command is Finish
            &&& res is Finish ==> res->Finish_task == command->Finish_task
                && res->Finish_business_status == command->Finish_business_status
            &&& res is Update <==> command is Update
            &&& res is Update ==> res->Update_task == command->Update_task && res->Update_status
                == command->Update_status && res->Update_business_status
                == command->Update_business_status
            &&& res is AskRetryTime <==> command is AskRetryTime
            &&& res is AskRetryTime ==> res->retry_count == command->retry_count
            &&& res is Retry <==> command is RetryIfPossible && run.retry_time is Some
            &&& res is Retry ==> res->Retry_task == command->RetryIfPossible_task
                && run.retry_time == Some(res->Retry_schedule_time)
            &&& res is Pass <==> command is RetryIfPossible && run.retry_time is None
            &&& res is RescheduleAndUpdate <==> command is RescheduleAndUpdate
            &&& res is RescheduleAndUpdate ==> res->RescheduleAndUpdate_task
                == command->RescheduleAndUpdate_task && res->RescheduleAndUpdate_status
                == command->RescheduleAndUpdate_status && res->RescheduleAndUpdate_business_status
                == command->RescheduleAndUpdate_business_status
                && res->RescheduleAndUpdate_schedule_time == run.retry_time
            &&& res is InsertPsyncTask <==> command is InsertPsyncTask
            &&& res is InsertReviewTask <==> command is InsertReviewTask
            &&& res is FindExecuteTask <==> command is FindExecuteTask
            &&& res is SyncPayment <==> command is SyncPayment
        }),
{
}

/// A step that was done brings the run one command on; a time that was found is remembered; all
/// else of the run stays. A step that failed leaves the run as it was.
pub proof fn law_reports_bring_the_run_on<E>(
    run: &mut RecoveryRun,
    outcome: StepOutcome<E>,
    res: Result<(), RecoveryFailure<E>>,
)
    requires
        old(run).done < old(run).commands@.len(),
        call_ensures(RecoveryRun::report::<E>, (run, outcome), res),
    ensures
        res is Err <==> outcome is Failed || (outcome is ExecuteTask && !(outcome->ExecuteTask_0
            is Ok && outcome->ExecuteTask_0->Ok_0)),
        res is Err ==> *final(run) == *old(run),
        res is Ok ==> final(run).done == old(run).done + 1 && final(run).commands
            == old(run).commands && final(run).cause == old(run).cause,
        res is Ok && outcome is RetryTime ==> final(run).retry_time == outcome->RetryTime_0,
        res is Ok && outcome !is RetryTime ==> final(run).retry_time == old(run).retry_time,
        res is Err && outcome is ExecuteTask ==> res->Err_0 == RecoveryFailure::<E>::Recovery(
            RecoveryError::ProcessTrackerFailure,
        ),
        res is Err && outcome is Failed ==> ({
            let command = old(run).commands@[old(run).done as int];
            let hidden = match old(run).cause {
                RecoveryCause::AttemptStatus => false,
                RecoveryCause::ExecuteAction => command is InsertPsyncTask || command is Finish,
                RecoveryCause::PsyncAction => command is Update || command is Finish
                    && command->Finish_business_status !is PsyncWorkflowCompleteForReview,
            };
            &&& hidden ==> res->Err_0 == RecoveryFailure::<E>::Recovery(
                RecoveryError::ProcessTrackerFailure,
            )
            &&& !hidden ==> res->Err_0 == RecoveryFailure::<E>::Scheduler(outcome->Failed_0)
        }),
{
    assert(run.commands.len() == run.commands@.len());
}

/// The task that makes a payment is found where it is there, and is looked for under an id that
/// tells the runner and the payment.
pub proof fn law_execute_task_is_sought(
    found: Result<bool, ()>,
    runner: &str,
    global_payment_id: &str,
    res: Result<(), RecoveryError>,
    id: String,
)
    requires
        call_ensures(execute_task_found, (found,), res),
        call_ensures(execute_task_id, (runner, global_payment_id), id),
    ensures
        res is Ok <==> found is Ok && found->Ok_0,
        res is Err ==> res->Err_0 is ProcessTrackerFailure,
        id@ == runner@ + "_EXECUTE_WORKFLOW_"@ + global_payment_id@,
{
}

} // verus!
