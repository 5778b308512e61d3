//! Laws of refunds.
use vstd::prelude::*;
use crate::enums::{IntentStatus, MinorUnit, RefundStatus};
use crate::errors::ApiErrorResponse;
use crate::refunds::{add_refund_execute_task, add_refund_sync_task, check_refund_integrity, check_refund_request, execute_task_id, merchant_connector_id, refund_create_core, refund_not_stored, refund_to_refund_core_workflow_model, schedule_refund_execution, total_amount_captured, trigger_refund_to_gateway, validate_and_create_refund, CheckIntegrity, GatewayStatusMap, IntegrityCheckError, MerchantAccount, PaymentAttempt, PaymentIntent, Refund, RefundAnswer, RefundCallFailure, RefundChecks, RefundCoreWorkflow, RefundDraft, RefundExecution, RefundIds, RefundNew, RefundOutcome, RefundResponse, RefundTask, RefundType, RefundUpdate, RefundsCreateRequest, Sending, SendingEvent, StoredId};
use crate::router_data::{ErrorResponse, RefundsResponseData};

verus! {

/// A refund is made of the amount that was asked for, or of all that was captured where none was
/// asked for; only of a payment that succeeded or was captured in part, and only of a positive
/// amount. Everything else is refused, and the refusal tells why.
pub proof fn law_refund_is_of_the_asked_amount(
    payment_intent: &PaymentIntent,
    asked: Option<MinorUnit>,
    res: Result<MinorUnit, ApiErrorResponse>,
)
    requires
        call_ensures(refund_create_core, (payment_intent, asked), res),
    ensures
        res is Ok ==> (payment_intent.status is Succeeded || payment_intent.status
            is PartiallyCaptured) && res->Ok_0.0 > 0,
        res is Ok && asked is Some ==> res->Ok_0 == asked->0,
        res is Ok && asked is None ==> payment_intent.amount_captured == Some(res->Ok_0),
        (payment_intent.status is Succeeded || payment_intent.status is PartiallyCaptured) && (
        asked matches Some(amount) && amount.0 > 0) ==> res is Ok,
        (payment_intent.status is Succeeded || payment_intent.status is PartiallyCaptured) && asked
            is None && (payment_intent.amount_captured matches Some(amount) && amount.0 > 0)
            ==> res is Ok,
        res matches Err(error) ==> (error is PaymentUnexpectedState <==> !(payment_intent.status
            is Succeeded || payment_intent.status is PartiallyCaptured)),
        res matches Err(error) ==> (error is InvalidDataFormat || error is InternalServerError
            || error is PaymentUnexpectedState),
        res matches Err(error) ==> (error is InternalServerError ==> asked is None
            && payment_intent.amount_captured is None),
        res matches Err(ApiErrorResponse::PaymentUnexpectedState {
            current_flow,
            field_name,
            current_value,
            states,
        }) ==> current_flow@ == "refund"@ && field_name@ == "status"@ && current_value@
            == payment_intent.status_name@ && states@ == "succeeded, partially_captured"@,
        res matches Err(ApiErrorResponse::InvalidDataFormat { field_name, expected_format })
            ==> field_name@ == "amount"@ && expected_format@ == "positive integer"@,
{
}

/// A refund rests on its own id and on the payment's id at the connector. A request that names
/// another merchant is refused, and one that names none or the right one is not.
pub proof fn law_refund_ids_are_the_requests(
    request: &RefundsCreateRequest,
    merchant_account: &MerchantAccount,
    payment_attempt: &PaymentAttempt,
    res: Result<RefundIds, ApiErrorResponse>,
)
    requires
        call_ensures(check_refund_request, (request, merchant_account, payment_attempt), res),
    ensures
        res matches Ok(ids) ==> request.global_refund_id == Some(ids.id)
            && payment_attempt.connector_payment_id == Some(ids.connector_payment_id),
        res is Ok <==> request.global_refund_id is Some && payment_attempt.connector_payment_id
            is Some && (request.merchant_id is Some ==> request.merchant_id->0@
            == merchant_account.id@),
        res matches Err(error) ==> (error is InvalidDataFormat <==> request.global_refund_id is Some
            && request.merchant_id is Some && request.merchant_id->0@ != merchant_account.id@),
        res matches Err(error) ==> (error is InvalidDataFormat || error is InternalServerError),
        res matches Err(ApiErrorResponse::InvalidDataFormat { field_name, expected_format })
            ==> field_name@ == "merchant_id"@ && expected_format@
            == "merchant_id from merchant account"@,
{
}

/// What a payment took is what was captured of it, where that is known.
pub proof fn law_taken_amount(
    payment_intent: &PaymentIntent,
    payment_attempt: &PaymentAttempt,
    res: MinorUnit,
)
    requires
        call_ensures(total_amount_captured, (payment_intent, payment_attempt), res),
    ensures
        payment_intent.amount_captured matches Some(amount) ==> res == amount,
        payment_intent.amount_captured is None ==> res == payment_attempt.total_amount,
{
}

/// The record of a new refund holds what was asked for, of whom and for which payment. It is
/// open, and was not sent.
pub proof fn law_new_refund_is_the_asked_one<F: FnOnce(String) -> StoredId>(
    request: RefundsCreateRequest,
    merchant_account: &MerchantAccount,
    payment_intent: &PaymentIntent,
    payment_attempt: &PaymentAttempt,
    checks: RefundChecks,
    max_age: u64,
    draft: RefundDraft,
    form_id_and_data: F,
    res: Result<RefundNew, ApiErrorResponse>,
)
    requires
        call_ensures(
            validate_and_create_refund::<F>,
            (
                request,
                merchant_account,
                payment_intent,
                payment_attempt,
                checks,
                max_age,
                draft,
                form_id_and_data,
            ),
            res,
        ),
        res is Ok,
    ensures
        ({
            let refund = res->Ok_0;
            &&& request.global_refund_id == Some(refund.id)
            &&& refund.merchant_reference_id == request.merchant_reference_id
            &&& refund.external_reference_id == Some(request.merchant_reference_id)
            &&& refund.payment_id == request.payment_id
            &&& refund.merchant_id == merchant_account.id
            &&& refund.organization_id == merchant_account.organization_id
            &&& payment_attempt.connector == Some(refund.connector)
            &&& refund.connector_id == payment_attempt.merchant_connector_id
            &&& refund.attempt_id == payment_attempt.id
            &&& refund.total_amount == payment_attempt.total_amount
            &&& refund.refund_amount == draft.refund_amount
            &&& refund.currency == payment_intent.currency
            &&& refund.profile_id == Some(payment_intent.profile_id)
            &&& refund.refund_status is Pending
            &&& !refund.sent_to_gateway
            &&& refund.metadata == request.metadata
            &&& refund.description == request.reason
            &&& refund.refund_reason == request.reason
            &&& refund.created_at == draft.created_at
            &&& refund.modified_at == draft.modified_at
            &&& request.refund_type is Some ==> refund.refund_type == request.refund_type->0
            &&& request.refund_type is None ==> refund.refund_type == draft.default_refund_type
            &&& refund.charges is None
            &&& refund.split_refunds is None
            &&& refund.connector_refund_id is None
            &&& refund.refund_arn is None
            &&& refund.processor_refund_data is None
            &&& refund.updated_by@.len() == 0
            &&& exists|stored: StoredId| #[trigger]
                call_ensures(
                    form_id_and_data,
                    (payment_attempt.connector_payment_id->0,),
                    stored,
                ) && refund.connector_transaction_id == stored.id
                    && refund.processor_transaction_data == stored.data
        }),
        payment_attempt.connector_payment_id is Some,
        checks.recent_enough && checks.amount_fits && checks.attempts_left,
        request.merchant_id matches Some(merchant_id) ==> merchant_id@ == merchant_account.id@,
{
}

/// A refund is refused for the first of these that holds: it has no id, names another merchant,
/// the payment has no id at the connector, it is too late, too much is asked for, too often was
/// refunded, the payment has no connector. Otherwise it is made.
pub proof fn law_refund_is_refused_for_a_reason<F: FnOnce(String) -> StoredId>(
    request: RefundsCreateRequest,
    merchant_account: &MerchantAccount,
    payment_intent: &PaymentIntent,
    payment_attempt: &PaymentAttempt,
    checks: RefundChecks,
    max_age: u64,
    draft: RefundDraft,
    form_id_and_data: F,
    res: Result<RefundNew, ApiErrorResponse>,
)
    requires
        call_ensures(
            validate_and_create_refund::<F>,
            (
                request,
                merchant_account,
                payment_intent,
                payment_attempt,
                checks,
                max_age,
                draft,
                form_id_and_data,
            ),
            res,
        ),
    ensures
        res is Ok <==> request.global_refund_id is Some && (request.merchant_id is Some
            ==> request.merchant_id->0@ == merchant_account.id@)
            && payment_attempt.connector_payment_id is Some && checks.recent_enough
            && checks.amount_fits && checks.attempts_left && payment_attempt.connector is Some,
        res matches Err(ApiErrorResponse::RefundAmountExceedsPaymentAmount) ==> !checks.amount_fits
            && checks.recent_enough,
        res matches Err(ApiErrorResponse::MaximumRefundCount) ==> !checks.attempts_left
            && checks.amount_fits && checks.recent_enough,
        request.global_refund_id is None ==> res->Err_0 is InternalServerError,
        request.global_refund_id is Some && (request.merchant_id is None
            || request.merchant_id->0@ == merchant_account.id@)
            && payment_attempt.connector_payment_id is None ==> res->Err_0 is InternalServerError,
        request.global_refund_id is Some && (request.merchant_id is None
            || request.merchant_id->0@ == merchant_account.id@)
            && payment_attempt.connector_payment_id is Some && checks.recent_enough
            && checks.amount_fits && checks.attempts_left && payment_attempt.connector is None
            ==> res->Err_0 is InternalServerError,
        request.global_refund_id is Some && (request.merchant_id is None
            || request.merchant_id->0@ == merchant_account.id@)
            && payment_attempt.connector_payment_id is Some ==> {
            &&& !checks.recent_enough ==> res->Err_0 is InvalidDataFormat
                && res->Err_0->InvalidDataFormat_field_name@ == "created_at"@
                && res->Err_0->InvalidDataFormat_expected_format@ == "created_at not older than "@
                + crate::text::number_text(max_age as nat) + " days"@
            &&& checks.recent_enough && !checks.amount_fits ==> res->Err_0
                is RefundAmountExceedsPaymentAmount
            &&& checks.recent_enough && checks.amount_fits && !checks.attempts_left ==> res->Err_0
                is MaximumRefundCount
        },
        request.global_refund_id is Some && (request.merchant_id matches Some(other) && other@
            != merchant_account.id@) ==> res->Err_0 is InvalidDataFormat
            && res->Err_0->InvalidDataFormat_field_name@ == "merchant_id"@
            && res->Err_0->InvalidDataFormat_expected_format@
            == "merchant_id from merchant account"@,
{
}

/// A refund that could not be stored is a second one, or else is not there.
pub proof fn law_unstored_refund_is_told(already_there: bool, res: ApiErrorResponse)
    requires
        call_ensures(refund_not_stored, (already_there,), res),
    ensures
        res is DuplicateRefundRequest <==> already_there,
        res is RefundNotFound <==> !already_there,
{
}

/// A message is translated where there is a code, a message and a translation, and nothing else
/// of the refund changes.
pub proof fn law_only_the_message_is_translated(
    refund: Refund,
    pair: Option<(String, String)>,
    translated: Option<String>,
    res: Refund,
)
    requires
        call_ensures(Refund::to_translate, (&refund,), pair),
        call_ensures(Refund::with_translation, (refund, translated), res),
    ensures
        pair is Some <==> refund.unified_code is Some && refund.unified_message is Some,
        pair matches Some((code, message)) ==> refund.unified_code == Some(code)
            && refund.unified_message == Some(message),
        pair is Some && translated is Some ==> res.unified_message == translated,
        pair is None || translated is None ==> res == refund,
        res == (Refund { unified_message: res.unified_message, ..refund }),
{
}

/// A merchant is told of a refund what its record holds, each thing under its own name, and the
/// status as it was given.
pub proof fn law_merchant_is_told_the_record<S>(
    refund: Refund,
    status: S,
    res: Result<RefundResponse<S>, ApiErrorResponse>,
)
    requires
        call_ensures(RefundResponse::<S>::foreign_try_from, (refund, status), res),
    ensures
        res is Ok <==> refund.profile_id is Some && refund.connector_id is Some,
        res matches Err(error) ==> error is InternalServerError,
        res matches Ok(told) ==> {
            &&& told.id == refund.id
            &&& told.payment_id == refund.payment_id
            &&& told.merchant_reference_id == Some(refund.merchant_reference_id)
            &&& told.amount == refund.refund_amount
            &&& told.currency == refund.currency
            &&& told.status == status
            &&& told.reason == refund.refund_reason
            &&& told.metadata == refund.metadata
            &&& told.created_at == refund.created_at
            &&& told.updated_at == refund.modified_at
            &&& told.connector == refund.connector
            &&& refund.profile_id == Some(told.profile_id)
            &&& refund.connector_id == Some(told.merchant_connector_id)
            &&& told.connector_refund_reference_id == Some(refund.id)
            &&& told.error_details is Some
            &&& refund.refund_error_code matches Some(code) ==> told.error_details->0.code@
                == code@
            &&& refund.refund_error_code is None ==> told.error_details->0.code@.len() == 0
            &&& refund.refund_error_message matches Some(message)
                ==> told.error_details->0.message@ == message@
            &&& refund.refund_error_message is None ==> told.error_details->0.message@.len() == 0
        },
{
}

/// The account of the merchant at the connector is the one that the attempt names.
pub proof fn law_account_is_the_attempts(
    payment_attempt: &PaymentAttempt,
    res: Result<String, ApiErrorResponse>,
)
    requires
        call_ensures(merchant_connector_id, (payment_attempt,), res),
    ensures
        res is Ok <==> payment_attempt.merchant_connector_id is Some,
        res matches Ok(id) ==> payment_attempt.merchant_connector_id == Some(id),
        res matches Err(error) ==> error is InternalServerError,
{
}

/// An answer is held against its request by the refund's id that it gives, if it gives one.
pub proof fn law_answer_is_held_against_its_request<Request: CheckIntegrity>(
    request: &Request,
    answered: RefundsResponseData,
    refused: ErrorResponse,
    of_answer: Result<(), IntegrityCheckError>,
    of_refusal: Result<(), IntegrityCheckError>,
)
    requires
        call_ensures(check_refund_integrity::<Request>, (request, &Ok(answered)), of_answer),
        call_ensures(check_refund_integrity::<Request>, (request, &Err(refused)), of_refusal),
    ensures
        call_ensures(
            Request::check_integrity,
            (request, Some(answered.connector_refund_id)),
            of_answer,
        ),
        call_ensures(Request::check_integrity, (request, None::<String>), of_refusal),
{
}

/// Where the connector took a refund and its answer agrees with the request, the status stored is
/// the status answered, whichever it is, with the ids that were answered.
pub proof fn law_answered_status_is_stored(
    answer: RefundAnswer,
    storage_scheme: String,
    res: Sending,
)
    requires
        call_ensures(
            trigger_refund_to_gateway,
            (
                SendingEvent::Called(RefundOutcome { response: Ok(answer), integrity: Ok(()) }),
                storage_scheme,
            ),
            res,
        ),
    ensures
        res is StoreUpdate,
        res->StoreUpdate_0 is Update,
        ({
            let stored = res->StoreUpdate_0;
            &&& stored->Update_refund_status == answer.refund_status
            &&& stored->Update_connector_refund_id == answer.connector_refund_id.id
            &&& stored->Update_processor_refund_data == answer.connector_refund_id.data
            &&& stored->sent_to_gateway
            &&& stored->Update_refund_error_message is None
            &&& stored->refund_arn@.len() == 0
            &&& stored->Update_updated_by == storage_scheme
        }),
{
}

/// Where the answer does not agree with the request, whatever it says, the refund is for someone
/// to look at, and what does not agree is told.
pub proof fn law_disagreeing_answers_are_looked_at(
    answer: RefundAnswer,
    error: IntegrityCheckError,
    storage_scheme: String,
    res: Sending,
)
    requires
        call_ensures(
            trigger_refund_to_gateway,
            (
                SendingEvent::Called(RefundOutcome { response: Ok(answer), integrity: Err(error) }),
                storage_scheme,
            ),
            res,
        ),
    ensures
        res is StoreUpdate,
        res->StoreUpdate_0 is ErrorUpdate,
        ({
            let stored = res->StoreUpdate_0;
            &&& stored->ErrorUpdate_refund_status == Some(RefundStatus::ManualReview)
            &&& stored->ErrorUpdate_refund_error_message is Some
            &&& stored->ErrorUpdate_refund_error_message->0@
                == "Integrity Check Failed! as data mismatched for fields "@ + error.field_names@
            &&& stored->refund_error_code is Some
            &&& stored->refund_error_code->0@ == "IE"@
            &&& stored->ErrorUpdate_updated_by == storage_scheme
            &&& error.connector_transaction_id matches Some(id)
                ==> stored->ErrorUpdate_connector_refund_id == Some(id.id)
                && stored->ErrorUpdate_processor_refund_data == id.data
            &&& error.connector_transaction_id is None ==> stored->ErrorUpdate_connector_refund_id
                is None && stored->ErrorUpdate_processor_refund_data is None
            &&& stored->unified_code is None
            &&& stored->unified_message is None
        }),
{
}

/// What is stored of a refund that the connector refused: that it failed, the connector's own
/// words and code, and what is known of the error where both a code and a message are.
pub open spec fn is_stored_refusal(
    stored: RefundUpdate,
    error: ErrorResponse,
    known: Option<GatewayStatusMap>,
    storage_scheme: String,
) -> bool {
    &&& stored is ErrorUpdate
    &&& stored->ErrorUpdate_refund_status == Some(RefundStatus::Failure)
    &&& stored->refund_error_code == Some(error.code)
    &&& error.reason is Some ==> stored->ErrorUpdate_refund_error_message == error.reason
    &&& error.reason is None ==> stored->ErrorUpdate_refund_error_message == Some(error.message)
    &&& stored->ErrorUpdate_updated_by == storage_scheme
    &&& stored->ErrorUpdate_connector_refund_id is None
    &&& stored->ErrorUpdate_processor_refund_data is None
    &&& stored->unified_code is Some
    &&& stored->unified_message is Some
    &&& if known is Some && known->0.unified_code is Some && known->0.unified_message is Some {
        stored->unified_code->0@ == known->0.unified_code->0@ && stored->unified_message->0@
            == known->0.unified_message->0@
    } else {
        stored->unified_code->0@ == "UE_9000"@ && stored->unified_message->0@
            == "Something went wrong"@
    }
}

/// A refund that the connector refused is looked up among the errors of refunds, then among those
/// of payments, and is stored as failed with what was found.
pub proof fn law_refused_refunds_fail(
    error: ErrorResponse,
    integrity: Result<(), IntegrityCheckError>,
    known: Option<GatewayStatusMap>,
    storage_scheme: String,
    after_call: Sending,
    after_first: Sending,
    after_second: Sending,
)
    requires
        call_ensures(
            trigger_refund_to_gateway,
            (
                SendingEvent::Called(RefundOutcome { response: Err(error), integrity }),
                storage_scheme,
            ),
            after_call,
        ),
        call_ensures(
            trigger_refund_to_gateway,
            (SendingEvent::RefundErrorLookedUp(error, known), storage_scheme),
            after_first,
        ),
        call_ensures(
            trigger_refund_to_gateway,
            (SendingEvent::PaymentErrorLookedUp(error, known), storage_scheme),
            after_second,
        ),
    ensures
        after_call is LookUpRefundError,
        after_call->LookUpRefundError_0 == error,
        known is None ==> after_first is LookUpPaymentError && after_first->LookUpPaymentError_0
            == error,
        known is Some ==> after_first is StoreUpdate && is_stored_refusal(
            after_first->StoreUpdate_0,
            error,
            known,
            storage_scheme,
        ),
        after_second is StoreUpdate,
        is_stored_refusal(after_second->StoreUpdate_0, error, known, storage_scheme),
{
}

/// The connector is called after a token was asked for, unless it wants one and none was given;
/// then what the refund holds without a call is handled as an answer is.
pub proof fn law_refund_is_called_with_a_token(
    supports_access_token: bool,
    has_access_token: bool,
    uncalled: RefundOutcome,
    storage_scheme: String,
    res: Sending,
)
    requires
        call_ensures(
            trigger_refund_to_gateway,
            (
                SendingEvent::TokenAsked { supports_access_token, has_access_token, uncalled },
                storage_scheme,
            ),
            res,
        ),
    ensures
        res is CallConnector <==> has_access_token || !supports_access_token,
        res !is CallConnector && uncalled.response is Err ==> res is LookUpRefundError
            && res->LookUpRefundError_0 == uncalled.response->Err_0,
        res !is CallConnector && uncalled.response is Ok ==> res is StoreUpdate,
        res !is CallConnector && uncalled.response is Ok && uncalled.integrity is Ok
            ==> res->StoreUpdate_0 is Update && res->StoreUpdate_0->Update_refund_status
            == uncalled.response->Ok_0.refund_status
            && res->StoreUpdate_0->Update_connector_refund_id
            == uncalled.response->Ok_0.connector_refund_id.id,
        res !is CallConnector && uncalled.response is Ok && uncalled.integrity is Err
            ==> res->StoreUpdate_0 is ErrorUpdate && res->StoreUpdate_0->ErrorUpdate_refund_status
            == Some(RefundStatus::ManualReview),
{
}

/// The token is asked for with the merchant's account at the connector.
pub proof fn law_refund_is_prepared_for_the_account(
    payment_attempt: &PaymentAttempt,
    storage_scheme: String,
    res: Sending,
)
    requires
        call_ensures(
            trigger_refund_to_gateway,
            (SendingEvent::Asked(payment_attempt), storage_scheme),
            res,
        ),
    ensures
        payment_attempt.merchant_connector_id matches Some(account) ==> res is AskToken
            && res->AskToken_0 == account,
        payment_attempt.merchant_connector_id is None ==> res is EndWithError
            && res->EndWithError_0 is InternalServerError,
{
}

/// A refund that the connector's code does not do is stored as failed, with what the code said.
/// Any other error of the call leaves the record alone.
pub proof fn law_uncalled_refunds_fail(
    failure: RefundCallFailure,
    storage_scheme: String,
    res: Sending,
)
    requires
        call_ensures(
            trigger_refund_to_gateway,
            (SendingEvent::CallFailed(failure), storage_scheme),
            res,
        ),
    ensures
        failure is Other <==> res is EndWithCallFailure,
        failure !is Other <==> res is RecordCallFailure,
        res is RecordCallFailure ==> ({
            let stored = res->RecordCallFailure_0;
            &&& stored is ErrorUpdate
            &&& stored->ErrorUpdate_refund_status == Some(RefundStatus::Failure)
            &&& stored->ErrorUpdate_refund_error_message is Some
            &&& stored->refund_error_code is Some
            &&& stored->ErrorUpdate_updated_by == storage_scheme
            &&& stored->ErrorUpdate_connector_refund_id is None
            &&& stored->ErrorUpdate_processor_refund_data is None
            &&& stored->unified_code is None
            &&& stored->unified_message is None
            &&& failure matches RefundCallFailure::NotImplemented { text }
                ==> stored->refund_error_code->0@ == "NOT_IMPLEMENTED"@
                && stored->ErrorUpdate_refund_error_message->0@ == text@
            &&& failure matches RefundCallFailure::NotSupported { message, connector }
                ==> stored->refund_error_code->0@ == "NOT_SUPPORTED"@
                && stored->ErrorUpdate_refund_error_message->0@ == message@
                + " is not supported by "@ + connector@
        }),
{
}

/// A stored refund is sent now or by a task as the merchant wants it, unless it was sent, is to be
/// sent already, or its outcome is known; a scheduled one that was sent is asked after.
pub proof fn law_refund_is_executed_as_wanted(
    refund: &Refund,
    has_process: bool,
    refund_type: RefundType,
    res: RefundExecution,
)
    requires
        call_ensures(schedule_refund_execution, (refund, has_process, refund_type), res),
    ensures
        res is AddExecuteTask <==> (refund.refund_status is Pending || refund.refund_status
            is ManualReview) && !refund.sent_to_gateway && !has_process && refund_type is Scheduled,
        res is TriggerThenAddSyncTask <==> (refund.refund_status is Pending || refund.refund_status
            is ManualReview) && !refund.sent_to_gateway && !has_process && refund_type is Instant,
        res is AddSyncTask <==> (refund.refund_status is Pending || refund.refund_status
            is ManualReview) && (refund.sent_to_gateway || has_process) && refund_type is Scheduled,
{
}

/// The tasks of a refund are told which refund, which payment and which merchant they are for,
/// each under its own name.
pub proof fn law_tasks_know_their_refund(refund: &Refund, res: RefundCoreWorkflow)
    requires
        call_ensures(refund_to_refund_core_workflow_model, (refund,), res),
    ensures
        res.refund_id == refund.id,
        res.connector_transaction_id == refund.connector_transaction_id,
        res.merchant_id == refund.merchant_id,
        res.payment_id == refund.payment_id,
        res.processor_transaction_data == refund.processor_transaction_data,
{
}

/// A task of a refund runs at its time, under the name of what it does; its id is made of the
/// runner, that name and the refund's id, so that the task that is looked for is the one that was
/// added.
pub proof fn law_tasks_are_found_again(
    refund: &Refund,
    runner: &str,
    schedule_time: time::PrimitiveDateTime,
    sought: String,
    told: RefundCoreWorkflow,
    execute: RefundTask,
    sync: RefundTask,
)
    requires
        call_ensures(execute_task_id, (runner, refund), sought),
        call_ensures(refund_to_refund_core_workflow_model, (refund,), told),
        call_ensures(add_refund_execute_task, (refund, runner, schedule_time), execute),
        call_ensures(add_refund_sync_task, (refund, runner, schedule_time), sync),
    ensures
        sought@ == runner@ + "_"@ + "EXECUTE_REFUND"@ + "_"@ + refund.id@,
        execute.id@ == sought@,
        sync.id@ == runner@ + "_"@ + "SYNC_REFUND"@ + "_"@ + refund.id@,
        execute.name@ == "EXECUTE_REFUND"@,
        sync.name@ == "SYNC_REFUND"@,
        execute.runner@ == runner@,
        sync.runner@ == runner@,
        execute.tag@.len() == 1,
        execute.tag@[0]@ == "REFUND"@,
        sync.tag@.len() == 1,
        sync.tag@[0]@ == "REFUND"@,
        execute.tracking_data == told,
        sync.tracking_data == told,
        execute.schedule_time == schedule_time,
        sync.schedule_time == schedule_time,
{
    assert(crate::text::views(execute.tag@).len() == 1);
    assert(crate::text::views(execute.tag@)[0] == "REFUND"@);
    assert(crate::text::views(sync.tag@).len() == 1);
    assert(crate::text::views(sync.tag@)[0] == "REFUND"@);
}

} // verus!
