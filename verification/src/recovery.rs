//! Recovery of failed recurring payments: what to do about a payment, and which tasks of
//! the scheduler that changes.
//!
//! The functions give a [`RecoveryRun`]: commands to be performed in order. The caller does what
//! [`RecoveryRun::next_step`] says and tells [`RecoveryRun::report`] what came of it, until the
//! run is complete or has failed.
use vstd::prelude::*;
use crate::enums::IntentStatus;
use crate::text::concat3;

verus! {

/// A task of the scheduler.
#[derive(Clone, Copy, Debug, PartialEq, Eq, Structural)]
pub enum RecoveryTask {
    /// The task that asks for the state of the payment.
    Psync,
    /// The task that makes the payment.
    Execute,
}

/// Where a task stands.
#[derive(Clone, Copy, Debug, PartialEq, Eq, Structural)]
pub enum ProcessTrackerStatus {
    New,
    Pending,
    Processing,
    ProcessStarted,
    Finish,
    Review,
}

/// Why a task stands where it stands.
#[derive(Clone, Copy, Debug, PartialEq, Eq, Structural)]
pub enum BusinessStatus {
    Pending,
    PsyncWorkflowComplete,
    PsyncWorkflowCompleteForReview,
    ExecuteWorkflowComplete,
    ExecuteWorkflowCompleteForPsync,
}

/// A command to the scheduler, or to what surrounds it.
#[derive(Clone, Copy, Debug, PartialEq, Eq, Structural)]
pub enum RecoveryCommand {
    /// Finish the task.
    Finish { task: RecoveryTask, business_status: BusinessStatus },
    /// Set where the task stands.
    Update {
        task: RecoveryTask,
        status: ProcessTrackerStatus,
        business_status: BusinessStatus,
    },
    /// Find out when the payment may be tried for this many times.
    AskRetryTime { retry_count: i32 },
    /// Try the task again at the time found, if there is one.
    RetryIfPossible { task: RecoveryTask },
    /// Set the time of the task to the one found, and where the task stands.
    RescheduleAndUpdate {
        task: RecoveryTask,
        status: ProcessTrackerStatus,
        business_status: BusinessStatus,
    },
    /// Add a task that asks for the state of the payment.
    InsertPsyncTask,
    /// Add a task for a person to look at.
    InsertReviewTask,
    /// Find the task that makes the payment.
    FindExecuteTask,
    /// Ask for the state of the payment, then act on [`Action::psync_response_handler`].
    SyncPayment,
}

/// What the commands of a run follow from.
#[derive(Clone, Copy, Debug, PartialEq, Eq, Structural)]
pub enum RecoveryCause {
    /// Where a payment stands.
    AttemptStatus,
    /// What is to be done after a payment was made.
    ExecuteAction,
    /// What is to be done after the state of a payment was asked for.
    PsyncAction,
}

/// Commands that are performed in order.
pub struct RecoveryRun {
    pub cause: RecoveryCause,
    pub commands: Vec<RecoveryCommand>,
    /// How many of the commands are done.
    pub done: usize,
    /// The time found at which the payment may be tried again.
    pub retry_time: Option<time::PrimitiveDateTime>,
}

/// What the caller of a run is to do.
#[allow(inconsistent_fields)]
pub enum RecoveryStep {
    /// Nothing more: all commands are done.
    Complete,
    /// Nothing for this command.
    Pass,
    /// Finish the task.
    Finish { task: RecoveryTask, business_status: BusinessStatus },
    /// Set where the task stands.
    Update {
        task: RecoveryTask,
        status: ProcessTrackerStatus,
        business_status: BusinessStatus,
    },
    /// Set the time of the task, and where the task stands.
    RescheduleAndUpdate {
        task: RecoveryTask,
        schedule_time: Option<time::PrimitiveDateTime>,
        status: ProcessTrackerStatus,
        business_status: BusinessStatus,
    },
    /// Find out when the payment may be tried for this many times.
    AskRetryTime { retry_count: i32 },
    /// Try the task again at this time.
    Retry { task: RecoveryTask, schedule_time: time::PrimitiveDateTime },
    /// Add a task that asks for the state of the payment.
    InsertPsyncTask,
    /// Add a task for a person to look at.
    InsertReviewTask,
    /// Find the task that makes the payment, under the id of [`execute_task_id`].
    FindExecuteTask,
    /// Ask for the state of the payment, then act on [`Action::psync_response_handler`].
    SyncPayment,
}

/// What came of a step. `E` is an error of what surrounds the scheduler.
pub enum StepOutcome<E> {
    /// It was done.
    Done,
    /// The time was looked for. There may be none.
    RetryTime(Option<time::PrimitiveDateTime>),
    /// The task that makes the payment was looked for: whether it is there, or nothing where
    /// looking failed.
    ExecuteTask(Result<bool, ()>),
    /// It failed.
    Failed(E),
}

/// How a run fails.
#[derive(Debug, PartialEq, Eq)]
pub enum RecoveryFailure<E> {
    Recovery(RecoveryError),
    /// The error of the step, as it is.
    Scheduler(E),
}

/// Whether an outcome can be the one of a command.
pub open spec fn fits<E>(command: RecoveryCommand, outcome: StepOutcome<E>) -> bool {
    match command {
        RecoveryCommand::AskRetryTime { .. } => outcome is RetryTime,
        RecoveryCommand::FindExecuteTask => outcome is ExecuteTask,
        _ => outcome is Done || outcome is Failed,
    }
}

/// Whether a failure at a command is told as one of the scheduler, whatever it was.
pub open spec fn told_as_tracker_failure(cause: RecoveryCause, command: RecoveryCommand) -> bool {
    match cause {
        RecoveryCause::AttemptStatus => false,
        RecoveryCause::ExecuteAction => command is InsertPsyncTask || command is Finish,
        RecoveryCause::PsyncAction => match command {
            RecoveryCommand::Finish { business_status, .. } => {
                business_status !is PsyncWorkflowCompleteForReview
            },
            _ => command is Update,
        },
    }
}

/// The failure that an error at a command leads to.
pub open spec fn failure_at<E>(cause: RecoveryCause, command: RecoveryCommand, error: E) -> RecoveryFailure<E> {
    if told_as_tracker_failure(cause, command) {
        RecoveryFailure::Recovery(RecoveryError::ProcessTrackerFailure)
    } else {
        RecoveryFailure::Scheduler(error)
    }
}

/// Goes on after the task that makes a payment was looked for. A task that is missing, or could
/// not be looked for, is a failure of the scheduler.
pub fn execute_task_found(found: Result<bool, ()>) -> (res: Result<(), RecoveryError>)
    ensures
        res is Ok <==> found == Ok::<bool, ()>(true),
        res is Err ==> res == Err::<(), RecoveryError>(RecoveryError::ProcessTrackerFailure),
{
    match found {
        Ok(true) => Ok(()),
        Ok(false) => Err(RecoveryError::ProcessTrackerFailure),
        Err(()) => Err(RecoveryError::ProcessTrackerFailure),
    }
}

impl RecoveryRun {
    /// Whether the run is at its start, with these commands.
    pub open spec fn starts_with(self, cause: RecoveryCause, commands: Seq<RecoveryCommand>) -> bool {
        &&& self.cause == cause
        &&& self.commands@ == commands
        &&& self.done == 0
        &&& self.retry_time is None
    }

    /// What is to be done next.
    pub open spec fn step(self) -> RecoveryStep {
        if self.done >= self.commands@.len() {
            RecoveryStep::Complete
        } else {
            match self.commands@[self.done as int] {
                RecoveryCommand::Finish { task, business_status } => RecoveryStep::Finish {
                    task,
                    business_status,
                },
                RecoveryCommand::Update { task, status, business_status } => {
                    RecoveryStep::Update { task, status, business_status }
                },
                RecoveryCommand::RescheduleAndUpdate { task, status, business_status } => {
                    RecoveryStep::RescheduleAndUpdate {
                        task,
                        schedule_time: self.retry_time,
                        status,
                        business_status,
                    }
                },
                RecoveryCommand::AskRetryTime { retry_count } => RecoveryStep::AskRetryTime {
                    retry_count,
                },
                RecoveryCommand::RetryIfPossible { task } => match self.retry_time {
                    Some(schedule_time) => RecoveryStep::Retry { task, schedule_time },
                    None => RecoveryStep::Pass,
                },
                RecoveryCommand::InsertPsyncTask => RecoveryStep::InsertPsyncTask,
                RecoveryCommand::InsertReviewTask => RecoveryStep::InsertReviewTask,
                RecoveryCommand::FindExecuteTask => RecoveryStep::FindExecuteTask,
                RecoveryCommand::SyncPayment => RecoveryStep::SyncPayment,
            }
        }
    }

    /// The run after its next command, or how it failed there.
    pub open spec fn after<E>(self, outcome: StepOutcome<E>) -> Result<RecoveryRun, RecoveryFailure<E>> {
        let going_on = RecoveryRun { done: (self.done + 1) as usize, ..self };
        match outcome {
            StepOutcome::Done => Ok(going_on),
            StepOutcome::RetryTime(retry_time) => Ok(RecoveryRun { retry_time, ..going_on }),
            StepOutcome::ExecuteTask(found) => if found == Ok::<bool, ()>(true) {
                Ok(going_on)
            } else {
                Err(RecoveryFailure::Recovery(RecoveryError::ProcessTrackerFailure))
            },
            StepOutcome::Failed(error) => Err(
                failure_at(self.cause, self.commands@[self.done as int], error),
            ),
        }
    }

    fn start(cause: RecoveryCause, commands: Vec<RecoveryCommand>) -> (res: RecoveryRun)
        ensures
            res.starts_with(cause, commands@),
    {
        RecoveryRun { cause, commands, done: 0, retry_time: None }
    }

    /// Says what is to be done next.
    pub fn next_step(&self) -> (res: RecoveryStep)
        ensures
            res == self.step(),
    {
        if self.done >= self.commands.len() {
            return RecoveryStep::Complete;
        }
        match self.commands[self.done] {
            RecoveryCommand::Finish { task, business_status } => RecoveryStep::Finish {
                task,
                business_status,
            },
            RecoveryCommand::Update { task, status, business_status } => RecoveryStep::Update {
                task,
                status,
                business_status,
            },
            RecoveryCommand::RescheduleAndUpdate { task, status, business_status } => {
                RecoveryStep::RescheduleAndUpdate {
                    task,
                    schedule_time: self.retry_time,
                    status,
                    business_status,
                }
            },
            RecoveryCommand::AskRetryTime { retry_count } => RecoveryStep::AskRetryTime {
                retry_count,
            },
            RecoveryCommand::RetryIfPossible { task } => match self.retry_time {
                Some(schedule_time) => RecoveryStep::Retry { task, schedule_time },
                None => RecoveryStep::Pass,
            },
            RecoveryCommand::InsertPsyncTask => RecoveryStep::InsertPsyncTask,
            RecoveryCommand::InsertReviewTask => RecoveryStep::InsertReviewTask,
            RecoveryCommand::FindExecuteTask => RecoveryStep::FindExecuteTask,
            RecoveryCommand::SyncPayment => RecoveryStep::SyncPayment,
        }
    }

    /// Takes over what came of the next command. A run that has failed is left as it was: none
    /// of its further commands is performed.
    pub fn report<E>(&mut self, outcome: StepOutcome<E>) -> (res: Result<(), RecoveryFailure<E>>)
        requires
            old(self).done < old(self).commands@.len(),
            fits(old(self).commands@[old(self).done as int], outcome),
        ensures
            match old(self).after(outcome) {
                Ok(run) => res == Ok::<(), RecoveryFailure<E>>(()) && *final(self) == run,
                Err(failure) => res == Err::<(), RecoveryFailure<E>>(failure) && *final(self)
                    == *old(self),
            },
    {
        assert(self.done < self.commands.len());
        match outcome {
            StepOutcome::Done => {
                self.done = self.done + 1;
                Ok(())
            },
            StepOutcome::RetryTime(retry_time) => {
                self.retry_time = retry_time;
                self.done = self.done + 1;
                Ok(())
            },
            StepOutcome::ExecuteTask(found) => match execute_task_found(found) {
                Ok(()) => {
                    self.done = self.done + 1;
                    Ok(())
                },
                Err(error) => Err(RecoveryFailure::Recovery(error)),
            },
            StepOutcome::Failed(error) => {
                if self.hides_error() {
                    Err(RecoveryFailure::Recovery(RecoveryError::ProcessTrackerFailure))
                } else {
                    Err(RecoveryFailure::Scheduler(error))
                }
            },
        }
    }

    fn hides_error(&self) -> (res: bool)
        requires
            self.done < self.commands@.len(),
        ensures
            res == told_as_tracker_failure(self.cause, self.commands@[self.done as int]),
    {
        match (self.cause, self.commands[self.done]) {
            (RecoveryCause::AttemptStatus, _) => false,
            (RecoveryCause::ExecuteAction, RecoveryCommand::InsertPsyncTask) => true,
            (RecoveryCause::ExecuteAction, RecoveryCommand::Finish { .. }) => true,
            (RecoveryCause::ExecuteAction, _) => false,
            (RecoveryCause::PsyncAction, RecoveryCommand::Finish { business_status, .. }) => {
                match business_status {
                    BusinessStatus::PsyncWorkflowCompleteForReview => false,
                    _ => true,
                }
            },
            (RecoveryCause::PsyncAction, RecoveryCommand::Update { .. }) => true,
            (RecoveryCause::PsyncAction, _) => false,
        }
    }
}

/// Where a recovered payment stands.
#[derive(Debug, PartialEq, Eq)]
pub enum PCRAttemptStatus {
    Succeeded,
    Failed,
    Processing,
    InvalidAction(String),
}

/// What changes when a payment was made.
pub open spec fn after_execution(status: PCRAttemptStatus, retry_count: i32) -> Seq<RecoveryCommand> {
    match status {
        PCRAttemptStatus::Succeeded => seq![
            RecoveryCommand::Finish {
                task: RecoveryTask::Psync,
                business_status: BusinessStatus::PsyncWorkflowComplete,
            },
            RecoveryCommand::Finish {
                task: RecoveryTask::Execute,
                business_status: BusinessStatus::ExecuteWorkflowComplete,
            },
        ],
        PCRAttemptStatus::Failed => seq![
            RecoveryCommand::Finish {
                task: RecoveryTask::Psync,
                business_status: BusinessStatus::PsyncWorkflowComplete,
            },
            RecoveryCommand::AskRetryTime { retry_count: (retry_count + 1) as i32 },
            RecoveryCommand::RetryIfPossible { task: RecoveryTask::Execute },
        ],
        PCRAttemptStatus::Processing => seq![
            RecoveryCommand::Finish {
                task: RecoveryTask::Execute,
                business_status: BusinessStatus::ExecuteWorkflowCompleteForPsync,
            },
        ],
        PCRAttemptStatus::InvalidAction(_) => seq![
            RecoveryCommand::Update {
                task: RecoveryTask::Execute,
                status: ProcessTrackerStatus::Review,
                business_status: BusinessStatus::ExecuteWorkflowCompleteForPsync,
            },
        ],
    }
}

/// What changes when the state of a payment was found.
pub open spec fn after_sync(status: PCRAttemptStatus, retry_count: i32) -> Seq<RecoveryCommand> {
    match status {
        PCRAttemptStatus::Succeeded => seq![
            RecoveryCommand::Finish {
                task: RecoveryTask::Psync,
                business_status: BusinessStatus::PsyncWorkflowComplete,
            },
        ],
        PCRAttemptStatus::Failed => seq![
            RecoveryCommand::Finish {
                task: RecoveryTask::Psync,
                business_status: BusinessStatus::PsyncWorkflowComplete,
            },
            RecoveryCommand::AskRetryTime { retry_count: (retry_count + 1) as i32 },
            RecoveryCommand::RetryIfPossible { task: RecoveryTask::Psync },
        ],
        PCRAttemptStatus::Processing => seq![RecoveryCommand::SyncPayment],
        PCRAttemptStatus::InvalidAction(_) => Seq::empty(),
    }
}

impl PCRAttemptStatus {
    /// What changes when a payment was made. `retry_count` tells how often the task was
    /// tried before.
    pub fn update_pt_status_based_on_attempt_status(&self, retry_count: i32) -> (res: RecoveryRun)
        requires
            self is Failed ==> retry_count < i32::MAX,
        ensures
            res.starts_with(RecoveryCause::AttemptStatus, after_execution(*self, retry_count)),
    {
        let mut commands: Vec<RecoveryCommand> = Vec::new();
        match self {
            PCRAttemptStatus::Succeeded => {
                commands.push(
                    RecoveryCommand::Finish {
                        task: RecoveryTask::Psync,
                        business_status: BusinessStatus::PsyncWorkflowComplete,
                    },
                );
                commands.push(
                    RecoveryCommand::Finish {
                        task: RecoveryTask::Execute,
                        business_status: BusinessStatus::ExecuteWorkflowComplete,
                    },
                );
            },
            PCRAttemptStatus::Failed => {
                commands.push(
                    RecoveryCommand::Finish {
                        task: RecoveryTask::Psync,
                        business_status: BusinessStatus::PsyncWorkflowComplete,
                    },
                );
                commands.push(RecoveryCommand::AskRetryTime { retry_count: retry_count + 1 });
                commands.push(RecoveryCommand::RetryIfPossible { task: RecoveryTask::Execute });
            },
            PCRAttemptStatus::Processing => {
                commands.push(
                    RecoveryCommand::Finish {
                        task: RecoveryTask::Execute,
                        business_status: BusinessStatus::ExecuteWorkflowCompleteForPsync,
                    },
                );
            },
            PCRAttemptStatus::InvalidAction(_) => {
                commands.push(
                    RecoveryCommand::Update {
                        task: RecoveryTask::Execute,
                        status: ProcessTrackerStatus::Review,
                        business_status: BusinessStatus::ExecuteWorkflowCompleteForPsync,
                    },
                );
            },
        }
        assert(commands@ == after_execution(*self, retry_count));
        RecoveryRun::start(RecoveryCause::AttemptStatus, commands)
    }

    /// What changes when the state of a payment was found. `retry_count` tells how often
    /// the task was tried before.
    pub fn update_pt_status_based_on_attempt_status_for_psync_task(
        &self,
        retry_count: i32,
    ) -> (res: RecoveryRun)
        requires
            self is Failed ==> retry_count < i32::MAX,
        ensures
            res.starts_with(RecoveryCause::AttemptStatus, after_sync(*self, retry_count)),
    {
        let mut commands: Vec<RecoveryCommand> = Vec::new();
        match self {
            PCRAttemptStatus::Succeeded => {
                commands.push(
                    RecoveryCommand::Finish {
                        task: RecoveryTask::Psync,
                        business_status: BusinessStatus::PsyncWorkflowComplete,
                    },
                );
            },
            PCRAttemptStatus::Failed => {
                commands.push(
                    RecoveryCommand::Finish {
                        task: RecoveryTask::Psync,
                        business_status: BusinessStatus::PsyncWorkflowComplete,
                    },
                );
                commands.push(RecoveryCommand::AskRetryTime { retry_count: retry_count + 1 });
                commands.push(RecoveryCommand::RetryIfPossible { task: RecoveryTask::Psync });
            },
            PCRAttemptStatus::Processing => {
                commands.push(RecoveryCommand::SyncPayment);
            },
            PCRAttemptStatus::InvalidAction(_) => {},
        }
        assert(commands@ == after_sync(*self, retry_count));
        RecoveryRun::start(RecoveryCause::AttemptStatus, commands)
    }
}

/// What a task is to do about a payment. `A` is an attempt to make the payment.
#[derive(Debug, PartialEq, Eq)]
pub enum Decision<A> {
    ExecuteTask,
    PsyncTask(A),
    InvalidTask,
    ReviewTaskSuccessfulPayment,
    ReviewTaskFailedPayment,
}

/// Why a recovery cannot go on.
#[derive(Clone, Copy, Debug, PartialEq, Eq, Structural)]
pub enum RecoveryError {
    /// The scheduler failed.
    ProcessTrackerFailure,
    /// The state of the payment could not be found.
    PaymentsResponseGenerationFailed,
    /// The state of the payment tells of no attempt.
    ValueNotFound,
}

/// Whether the state of a payment has to be found before a task can go on.
pub open spec fn needs_sync(
    intent_status: IntentStatus,
    called_connector: bool,
    has_active_attempt: bool,
) -> bool {
    intent_status is Processing && called_connector && has_active_attempt
}

/// What a task is to do about a payment, where its state does not have to be found.
pub open spec fn decision_without_sync<A>(
    intent_status: IntentStatus,
    called_connector: bool,
    has_active_attempt: bool,
) -> Decision<A> {
    if intent_status is Failed && !called_connector && !has_active_attempt {
        Decision::ExecuteTask
    } else if intent_status is Failed && called_connector && has_active_attempt {
        Decision::ReviewTaskFailedPayment
    } else if intent_status is Succeeded && called_connector && has_active_attempt {
        Decision::ReviewTaskSuccessfulPayment
    } else {
        Decision::InvalidTask
    }
}

impl<A> Decision<A> {
    /// Whether the state of a payment has to be found before a task can go on.
    pub fn requires_sync(
        intent_status: IntentStatus,
        called_connector: bool,
        has_active_attempt: bool,
    ) -> (res: bool)
        ensures
            res == needs_sync(intent_status, called_connector, has_active_attempt),
    {
        match (intent_status, called_connector, has_active_attempt) {
            (IntentStatus::Processing, true, true) => true,
            _ => false,
        }
    }

    /// Decides what a task is to do about a payment. `synced` is the attempt that the
    /// state of the payment tells of; it counts where [`Decision::requires_sync`] holds.
    pub fn get_decision_based_on_params(
        intent_status: IntentStatus,
        called_connector: bool,
        has_active_attempt: bool,
        synced: Result<Option<A>, RecoveryError>,
    ) -> (res: Result<Decision<A>, RecoveryError>)
        ensures
            if needs_sync(intent_status, called_connector, has_active_attempt) {
                match synced {
                    Err(error) => res == Err::<Decision<A>, RecoveryError>(error),
                    Ok(None) => res == Err::<Decision<A>, RecoveryError>(
                        RecoveryError::ValueNotFound,
                    ),
                    Ok(Some(attempt)) => res == Ok::<Decision<A>, RecoveryError>(
                        Decision::PsyncTask(attempt),
                    ),
                }
            } else {
                res == Ok::<Decision<A>, RecoveryError>(
                    decision_without_sync(intent_status, called_connector, has_active_attempt),
                )
            },
    {
        match (intent_status, called_connector, has_active_attempt) {
            (IntentStatus::Failed, false, false) => Ok(Decision::ExecuteTask),
            (IntentStatus::Processing, true, true) => match synced {
                Err(error) => Err(error),
                Ok(None) => Err(RecoveryError::ValueNotFound),
                Ok(Some(attempt)) => Ok(Decision::PsyncTask(attempt)),
            },
            (IntentStatus::Failed, true, true) => Ok(Decision::ReviewTaskFailedPayment),
            (IntentStatus::Succeeded, true, true) => Ok(Decision::ReviewTaskSuccessfulPayment),
            _ => Ok(Decision::InvalidTask),
        }
    }
}

/// What to do about a payment.
#[derive(Clone, Copy, Debug, PartialEq, Eq, Structural)]
pub enum Action {
    SyncPayment,
    RetryPayment,
    TerminalFailure,
    SuccessfulPayment,
    ReviewPayment,
    ManualReviewAction,
}

/// What is known of a payment after it was made, or after its state was asked for.
pub enum PaymentOutcome {
    /// The payment stands here.
    Attempt(PCRAttemptStatus),
    /// Nothing: the call failed.
    CallFailed,
}

/// What to do about a payment: decided, or depending on whether it may be tried again.
#[derive(Clone, Copy, Debug, PartialEq, Eq, Structural)]
pub enum ActionStep {
    Decided(Action),
    /// Find out when the payment may be tried for this many times, then decide by
    /// [`Action::decide_retry_failure_action`].
    AskRetryTime { retry_count: i32 },
}

/// What to do about a payment.
pub open spec fn action_step(
    outcome: PaymentOutcome,
    has_active_attempt: bool,
    retry_count: i32,
) -> ActionStep {
    match outcome {
        PaymentOutcome::Attempt(PCRAttemptStatus::Succeeded) => ActionStep::Decided(
            Action::SuccessfulPayment,
        ),
        PaymentOutcome::Attempt(PCRAttemptStatus::Failed) => ActionStep::AskRetryTime {
            retry_count: (retry_count + 1) as i32,
        },
        PaymentOutcome::Attempt(PCRAttemptStatus::Processing) => ActionStep::Decided(
            Action::SyncPayment,
        ),
        PaymentOutcome::Attempt(PCRAttemptStatus::InvalidAction(_)) => ActionStep::Decided(
            Action::ManualReviewAction,
        ),
        PaymentOutcome::CallFailed => ActionStep::Decided(
            if has_active_attempt {
                Action::SyncPayment
            } else {
                Action::ReviewPayment
            },
        ),
    }
}

/// What changes for a task that made a payment.
pub open spec fn execute_commands(action: Action, retry_count: i32) -> Seq<RecoveryCommand> {
    match action {
        Action::SyncPayment => seq![
            RecoveryCommand::InsertPsyncTask,
            RecoveryCommand::Finish {
                task: RecoveryTask::Execute,
                business_status: BusinessStatus::ExecuteWorkflowCompleteForPsync,
            },
        ],
        Action::RetryPayment => seq![
            RecoveryCommand::AskRetryTime { retry_count: (retry_count + 1) as i32 },
            RecoveryCommand::RescheduleAndUpdate {
                task: RecoveryTask::Execute,
                status: ProcessTrackerStatus::Pending,
                business_status: BusinessStatus::Pending,
            },
        ],
        Action::TerminalFailure | Action::SuccessfulPayment | Action::ReviewPayment => Seq::empty(),
        Action::ManualReviewAction => seq![
            RecoveryCommand::Update {
                task: RecoveryTask::Execute,
                status: ProcessTrackerStatus::Review,
                business_status: BusinessStatus::ExecuteWorkflowCompleteForPsync,
            },
        ],
    }
}

/// What changes for a task that asked for the state of a payment.
pub open spec fn psync_commands(action: Action) -> Seq<RecoveryCommand> {
    match action {
        Action::SyncPayment => seq![
            RecoveryCommand::Update {
                task: RecoveryTask::Psync,
                status: ProcessTrackerStatus::Pending,
                business_status: BusinessStatus::Pending,
            },
        ],
        Action::RetryPayment => seq![
            RecoveryCommand::Finish {
                task: RecoveryTask::Psync,
                business_status: BusinessStatus::PsyncWorkflowComplete,
            },
            RecoveryCommand::FindExecuteTask,
            RecoveryCommand::Update {
                task: RecoveryTask::Execute,
                status: ProcessTrackerStatus::Pending,
                business_status: BusinessStatus::Pending,
            },
        ],
        Action::TerminalFailure | Action::SuccessfulPayment => seq![
            RecoveryCommand::Finish {
                task: RecoveryTask::Psync,
                business_status: BusinessStatus::PsyncWorkflowComplete,
            },
        ],
        Action::ReviewPayment => seq![
            RecoveryCommand::InsertReviewTask,
            RecoveryCommand::Finish {
                task: RecoveryTask::Psync,
                business_status: BusinessStatus::PsyncWorkflowCompleteForReview,
            },
        ],
        Action::ManualReviewAction => seq![
            RecoveryCommand::Update {
                task: RecoveryTask::Psync,
                status: ProcessTrackerStatus::Review,
                business_status: BusinessStatus::PsyncWorkflowComplete,
            },
        ],
    }
}

impl Action {
    fn decide(outcome: &PaymentOutcome, has_active_attempt: bool, retry_count: i32) -> (res: ActionStep)
        requires
            *outcome matches PaymentOutcome::Attempt(PCRAttemptStatus::Failed) ==> retry_count
                < i32::MAX,
        ensures
            res == action_step(*outcome, has_active_attempt, retry_count),
    {
        match outcome {
            PaymentOutcome::Attempt(status) => match status {
                PCRAttemptStatus::Succeeded => ActionStep::Decided(Action::SuccessfulPayment),
                PCRAttemptStatus::Failed => ActionStep::AskRetryTime {
                    retry_count: retry_count + 1,
                },
                PCRAttemptStatus::Processing => ActionStep::Decided(Action::SyncPayment),
                PCRAttemptStatus::InvalidAction(_) => ActionStep::Decided(
                    Action::ManualReviewAction,
                ),
            },
            PaymentOutcome::CallFailed => {
                if has_active_attempt {
                    ActionStep::Decided(Action::SyncPayment)
                } else {
                    ActionStep::Decided(Action::ReviewPayment)
                }
            },
        }
    }

    /// What to do about a payment after it was made. `has_active_attempt` tells whether the
    /// payment names an attempt, and `retry_count` how often the task was tried before.
    pub fn execute_payment(outcome: &PaymentOutcome, has_active_attempt: bool, retry_count: i32) -> (res: ActionStep)
        requires
            *outcome matches PaymentOutcome::Attempt(PCRAttemptStatus::Failed) ==> retry_count
                < i32::MAX,
        ensures
            res == action_step(*outcome, has_active_attempt, retry_count),
    {
        Action::decide(outcome, has_active_attempt, retry_count)
    }

    /// What to do about a payment after its state was asked for. A call that went well and
    /// told of no attempt is an error.
    pub fn payment_sync_call(
        response: Result<Option<PCRAttemptStatus>, RecoveryError>,
        has_active_attempt: bool,
        retry_count: i32,
    ) -> (res: Result<ActionStep, RecoveryError>)
        requires
            response matches Ok(Some(PCRAttemptStatus::Failed)) ==> retry_count < i32::MAX,
        ensures
            match response {
                Ok(None) => res == Err::<ActionStep, RecoveryError>(RecoveryError::ValueNotFound),
                Ok(Some(status)) => res == Ok::<ActionStep, RecoveryError>(
                    action_step(PaymentOutcome::Attempt(status), has_active_attempt, retry_count),
                ),
                Err(_) => res == Ok::<ActionStep, RecoveryError>(
                    action_step(PaymentOutcome::CallFailed, has_active_attempt, retry_count),
                ),
            },
    {
        match response {
            Ok(None) => Err(RecoveryError::ValueNotFound),
            Ok(Some(status)) => Ok(
                Action::decide(&PaymentOutcome::Attempt(status), has_active_attempt, retry_count),
            ),
            Err(_) => Ok(
                Action::decide(&PaymentOutcome::CallFailed, has_active_attempt, retry_count),
            ),
        }
    }

    /// What to do about a failed payment, given the time at which it may be tried again.
    pub fn decide_retry_failure_action<T>(schedule_time: &Option<T>) -> (res: Action)
        ensures
            res == (if *schedule_time is Some {
                Action::RetryPayment
            } else {
                Action::TerminalFailure
            }),
    {
        match schedule_time {
            Some(_) => Action::RetryPayment,
            None => Action::TerminalFailure,
        }
    }

    /// What changes for a task that made a payment. `retry_count` tells how often the task
    /// was tried before.
    pub fn execute_payment_task_response_handler(&self, retry_count: i32) -> (res: RecoveryRun)
        requires
            self is RetryPayment ==> retry_count < i32::MAX,
        ensures
            res.starts_with(RecoveryCause::ExecuteAction, execute_commands(*self, retry_count)),
    {
        let mut commands: Vec<RecoveryCommand> = Vec::new();
        match self {
            Action::SyncPayment => {
                commands.push(RecoveryCommand::InsertPsyncTask);
                commands.push(
                    RecoveryCommand::Finish {
                        task: RecoveryTask::Execute,
                        business_status: BusinessStatus::ExecuteWorkflowCompleteForPsync,
                    },
                );
            },
            Action::RetryPayment => {
                commands.push(RecoveryCommand::AskRetryTime { retry_count: retry_count + 1 });
                commands.push(
                    RecoveryCommand::RescheduleAndUpdate {
                        task: RecoveryTask::Execute,
                        status: ProcessTrackerStatus::Pending,
                        business_status: BusinessStatus::Pending,
                    },
                );
            },
            Action::TerminalFailure | Action::SuccessfulPayment | Action::ReviewPayment => {},
            Action::ManualReviewAction => {
                commands.push(
                    RecoveryCommand::Update {
                        task: RecoveryTask::Execute,
                        status: ProcessTrackerStatus::Review,
                        business_status: BusinessStatus::ExecuteWorkflowCompleteForPsync,
                    },
                );
            },
        }
        assert(commands@ == execute_commands(*self, retry_count));
        RecoveryRun::start(RecoveryCause::ExecuteAction, commands)
    }

    /// What changes for a task that asked for the state of a payment.
    pub fn psync_response_handler(&self) -> (res: RecoveryRun)
        ensures
            res.starts_with(RecoveryCause::PsyncAction, psync_commands(*self)),
    {
        let mut commands: Vec<RecoveryCommand> = Vec::new();
        match self {
            Action::SyncPayment => {
                commands.push(
                    RecoveryCommand::Update {
                        task: RecoveryTask::Psync,
                        status: ProcessTrackerStatus::Pending,
                        business_status: BusinessStatus::Pending,
                    },
                );
            },
            Action::RetryPayment => {
                commands.push(
                    RecoveryCommand::Finish {
                        task: RecoveryTask::Psync,
                        business_status: BusinessStatus::PsyncWorkflowComplete,
                    },
                );
                commands.push(RecoveryCommand::FindExecuteTask);
                commands.push(
                    RecoveryCommand::Update {
                        task: RecoveryTask::Execute,
                        status: ProcessTrackerStatus::Pending,
                        business_status: BusinessStatus::Pending,
                    },
                );
            },
            Action::TerminalFailure | Action::SuccessfulPayment => {
                commands.push(
                    RecoveryCommand::Finish {
                        task: RecoveryTask::Psync,
                        business_status: BusinessStatus::PsyncWorkflowComplete,
                    },
                );
            },
            Action::ReviewPayment => {
                commands.push(RecoveryCommand::InsertReviewTask);
                commands.push(
                    RecoveryCommand::Finish {
                        task: RecoveryTask::Psync,
                        business_status: BusinessStatus::PsyncWorkflowCompleteForReview,
                    },
                );
            },
            Action::ManualReviewAction => {
                commands.push(
                    RecoveryCommand::Update {
                        task: RecoveryTask::Psync,
                        status: ProcessTrackerStatus::Review,
                        business_status: BusinessStatus::PsyncWorkflowComplete,
                    },
                );
            },
        }
        assert(commands@ == psync_commands(*self));
        RecoveryRun::start(RecoveryCause::PsyncAction, commands)
    }
}

/// The id of the task that makes a payment, under the name of the workflow's runner.
pub fn execute_task_id(runner: &str, global_payment_id: &str) -> (res: String)
    ensures
        res@ == runner@ + "_EXECUTE_WORKFLOW_"@ + global_payment_id@,
{
    concat3(runner, "_EXECUTE_WORKFLOW_", global_payment_id)
}

/// Whether the commands finish a task, or put it to review.
pub open spec fn closes(commands: Seq<RecoveryCommand>, task: RecoveryTask) -> bool {
    exists|i: int|
        0 <= i < commands.len() && (match #[trigger] commands[i] {
            RecoveryCommand::Finish { task: finished, .. } => finished == task,
            RecoveryCommand::Update { task: updated, status, .. } => updated == task
                && status is Review,
            _ => false,
        })
}

/// A task that asked for the state of a payment is closed unless the state is still open.
pub proof fn law_psync_task_is_closed(action: Action)
    ensures
        action !is SyncPayment <==> closes(psync_commands(action), RecoveryTask::Psync),
{
    let commands = psync_commands(action);
    match action {
        Action::SyncPayment => {},
        Action::ReviewPayment => {
            assert(commands[1] is Finish);
        },
        _ => {
            assert(commands[0] is Finish || commands[0] is Update);
        },
    }
}

/// The task that makes a payment is set going again, by either task, exactly where the
/// payment is to be tried again.
pub proof fn law_only_retries_reopen(action: Action, retry_count: i32)
    ensures
        action is RetryPayment <==> psync_commands(action).contains(
            RecoveryCommand::Update {
                task: RecoveryTask::Execute,
                status: ProcessTrackerStatus::Pending,
                business_status: BusinessStatus::Pending,
            },
        ),
        action is RetryPayment <==> execute_commands(action, retry_count).contains(
            RecoveryCommand::RescheduleAndUpdate {
                task: RecoveryTask::Execute,
                status: ProcessTrackerStatus::Pending,
                business_status: BusinessStatus::Pending,
            },
        ),
{
    if action is RetryPayment {
        assert(psync_commands(action)[2] is Update);
        assert(execute_commands(action, retry_count)[1] is RescheduleAndUpdate);
    }
}

/// A failed step ends the run, and so does a task that is looked for and missing.
pub proof fn law_failure_ends_the_run<E>(run: RecoveryRun, outcome: StepOutcome<E>)
    ensures
        run.after(outcome) is Err <==> outcome is Failed || (outcome matches StepOutcome::ExecuteTask(
            found,
        ) && found != Ok::<bool, ()>(true)),
{
}

/// Where the task that asks for the state of a payment cannot be added, the run fails at its
/// first command, so the task that made the payment is not finished. Otherwise that task is
/// finished next, and nothing more is done.
pub proof fn law_failed_insert_keeps_the_task<E>(run: RecoveryRun, retry_count: i32, error: E)
    requires
        run.starts_with(
            RecoveryCause::ExecuteAction,
            execute_commands(Action::SyncPayment, retry_count),
        ),
    ensures
        run.step() is InsertPsyncTask,
        run.after(StepOutcome::Failed(error)) == Err::<RecoveryRun, RecoveryFailure<E>>(
            RecoveryFailure::Recovery(RecoveryError::ProcessTrackerFailure),
        ),
        ({
            &&& run.after::<E>(StepOutcome::Done) matches Ok(second)
            &&& second.step() == (RecoveryStep::Finish {
                task: RecoveryTask::Execute,
                business_status: BusinessStatus::ExecuteWorkflowCompleteForPsync,
            })
            &&& second.after::<E>(StepOutcome::Done) matches Ok(third)
            &&& third.step() is Complete
        }),
{
}

/// Nothing is done about the tasks of a payment that was made and is done with.
pub proof fn law_settled_payments_change_nothing(run: RecoveryRun, action: Action, retry_count: i32)
    requires
        action is TerminalFailure || action is SuccessfulPayment || action is ReviewPayment,
        run.starts_with(RecoveryCause::ExecuteAction, execute_commands(action, retry_count)),
    ensures
        run.step() is Complete,
{
}

/// A payment that is to be tried again after its state was asked for: the task that asked is
/// finished, then the task that makes the payment is looked for. Where it is missing, or looking
/// fails, the run fails there and no task is changed. Where it is found, it is set going.
pub proof fn law_missing_execute_task_changes_nothing<E>(run: RecoveryRun)
    requires
        run.starts_with(RecoveryCause::PsyncAction, psync_commands(Action::RetryPayment)),
    ensures
        run.step() == (RecoveryStep::Finish {
            task: RecoveryTask::Psync,
            business_status: BusinessStatus::PsyncWorkflowComplete,
        }),
        ({
            &&& run.after::<E>(StepOutcome::Done) matches Ok(second)
            &&& second.step() is FindExecuteTask
            &&& second.after::<E>(StepOutcome::ExecuteTask(Ok(false))) == Err::<
                RecoveryRun,
                RecoveryFailure<E>,
            >(RecoveryFailure::Recovery(RecoveryError::ProcessTrackerFailure))
            &&& second.after::<E>(StepOutcome::ExecuteTask(Err(()))) == Err::<
                RecoveryRun,
                RecoveryFailure<E>,
            >(RecoveryFailure::Recovery(RecoveryError::ProcessTrackerFailure))
            &&& second.after::<E>(StepOutcome::ExecuteTask(Ok(true))) matches Ok(third)
            &&& third.step() == (RecoveryStep::Update {
                task: RecoveryTask::Execute,
                status: ProcessTrackerStatus::Pending,
                business_status: BusinessStatus::Pending,
            })
            &&& third.after::<E>(StepOutcome::Done) matches Ok(fourth)
            &&& fourth.step() is Complete
        }),
{
}

/// The last steps for a payment that failed: the time is looked for, and the task is tried
/// again exactly where there is one, at that time.
pub open spec fn retries_at_found_time(
    run: RecoveryRun,
    task: RecoveryTask,
    retry_count: i32,
    found: Option<time::PrimitiveDateTime>,
) -> bool {
    &&& run.step() == (RecoveryStep::AskRetryTime { retry_count: (retry_count + 1) as i32 })
    &&& run.after::<()>(StepOutcome::RetryTime(found)) matches Ok(last)
    &&& last.step() == (match found {
        Some(schedule_time) => RecoveryStep::Retry { task, schedule_time },
        None => RecoveryStep::Pass,
    })
    &&& last.after::<()>(StepOutcome::Done) matches Ok(end)
    &&& end.step() is Complete
}

/// A failed payment is tried again, by the task that found it failed, exactly where a time for
/// that was found, and at that time. The task that asks for its state is finished before.
pub proof fn law_retried_only_at_found_time(
    made: RecoveryRun,
    asked: RecoveryRun,
    retry_count: i32,
    found: Option<time::PrimitiveDateTime>,
)
    requires
        made.starts_with(
            RecoveryCause::AttemptStatus,
            after_execution(PCRAttemptStatus::Failed, retry_count),
        ),
        asked.starts_with(
            RecoveryCause::AttemptStatus,
            after_sync(PCRAttemptStatus::Failed, retry_count),
        ),
    ensures
        made.step() == (RecoveryStep::Finish {
            task: RecoveryTask::Psync,
            business_status: BusinessStatus::PsyncWorkflowComplete,
        }),
        asked.step() == made.step(),
        ({
            &&& made.after::<()>(StepOutcome::Done) matches Ok(second)
            &&& retries_at_found_time(second, RecoveryTask::Execute, retry_count, found)
        }),
        ({
            &&& asked.after::<()>(StepOutcome::Done) matches Ok(second)
            &&& retries_at_found_time(second, RecoveryTask::Psync, retry_count, found)
        }),
{
}

/// A payment that is to be tried again after it was made: its task is set going, at the time
/// found, where there is one.
pub proof fn law_rescheduled_at_found_time(
    run: RecoveryRun,
    retry_count: i32,
    found: Option<time::PrimitiveDateTime>,
)
    requires
        run.starts_with(
            RecoveryCause::ExecuteAction,
            execute_commands(Action::RetryPayment, retry_count),
        ),
    ensures
        run.step() == (RecoveryStep::AskRetryTime { retry_count: (retry_count + 1) as i32 }),
        ({
            &&& run.after::<()>(StepOutcome::RetryTime(found)) matches Ok(last)
            &&& last.step() == (RecoveryStep::RescheduleAndUpdate {
                task: RecoveryTask::Execute,
                schedule_time: found,
                status: ProcessTrackerStatus::Pending,
                business_status: BusinessStatus::Pending,
            })
        }),
{
}

/// A payment is made only where it failed, no connector was called for it, and no attempt
/// is open.
pub proof fn law_executed_only_when_untried<A>(
    intent_status: IntentStatus,
    called_connector: bool,
    has_active_attempt: bool,
)
    ensures
        decision_without_sync::<A>(intent_status, called_connector, has_active_attempt)
            is ExecuteTask <==> intent_status is Failed && !called_connector
            && !has_active_attempt,
        needs_sync(intent_status, called_connector, has_active_attempt)
            ==> decision_without_sync::<A>(
            intent_status,
            called_connector,
            has_active_attempt,
        ) is InvalidTask,
{
}

} // verus!
