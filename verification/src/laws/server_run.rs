//! Laws of the work that is done for a request.
use vstd::prelude::*;
use crate::api::server::{server_wrap_util, WrapOutcome, WrapState};

verus! {

/// Whether a request went through these states, one call of [`server_wrap_util`] after the
/// other.
pub open spec fn is_run(states: Seq<WrapState>, outcomes: Seq<(WrapOutcome, bool)>) -> bool {
    &&& states.len() == outcomes.len() + 1
    &&& states[0] is ExtractRequestId
    &&& forall|i: int|
        0 <= i < outcomes.len() ==> call_ensures(
            server_wrap_util,
            (states[i], (#[trigger] outcomes[i]).0, outcomes[i].1),
            states[i + 1],
        )
}

/// Whether all work is done: the client was authenticated as this merchant, and nothing failed.
pub open spec fn all_done(outcomes: Seq<(WrapOutcome, bool)>, merchant_id: String) -> bool {
    &&& forall|i: int|
        0 <= i < outcomes.len() && i != 4 ==> (#[trigger] outcomes[i]).0 is Done
    &&& outcomes.len() > 4 ==> outcomes[4].0 == (WrapOutcome::Authenticated { merchant_id })
}

/// A run in which all work is done goes through the work in its order, writes the answer to the
/// log exactly where the output is JSON, and ends well.
pub proof fn law_undisturbed_run_finishes(
    states: Seq<WrapState>,
    outcomes: Seq<(WrapOutcome, bool)>,
    merchant_id: String,
)
    requires
        is_run(states, outcomes),
        outcomes.len() == (if outcomes[7].1 {
            10int
        } else {
            9int
        }),
        all_done(outcomes, merchant_id),
    ensures
        states[0] == WrapState::ExtractRequestId,
        states[1] == WrapState::SerializeRequest,
        states[2] == WrapState::ResolveTenant,
        states[3] == WrapState::OpenSession,
        states[4] == WrapState::Authenticate,
        states[5] == (WrapState::AcquireLock { merchant_id }),
        states[6] == (WrapState::RunHandler { merchant_id }),
        states[7] == (WrapState::ReleaseLock { merchant_id, handler_failed: false }),
        outcomes[7].1 ==> states[8] == WrapState::SerializeResponse,
        states[states.len() - 2] == WrapState::LogEvent,
        states.last() == WrapState::Finished,
{
    assert(outcomes[0].0 is Done);
    assert(outcomes[1].0 is Done);
    assert(outcomes[2].0 is Done);
    assert(outcomes[3].0 is Done);
    assert(outcomes[5].0 is Done);
    assert(outcomes[6].0 is Done);
    assert(outcomes[7].0 is Done);
    assert(outcomes[8].0 is Done);
    if outcomes[7].1 {
        assert(outcomes[9].0 is Done);
    }
}

/// A run in which the handler failed, and nothing else, releases the lock and ends in what the
/// handler gave; nothing is written of an output that is not there.
pub proof fn law_failed_handler_run_finishes(
    states: Seq<WrapState>,
    outcomes: Seq<(WrapOutcome, bool)>,
    merchant_id: String,
)
    requires
        is_run(states, outcomes),
        outcomes.len() == 9,
        outcomes[6].0 is Failed,
        all_done(outcomes.update(6, (WrapOutcome::Done, false)), merchant_id),
    ensures
        states[5] == (WrapState::AcquireLock { merchant_id }),
        states[6] == (WrapState::RunHandler { merchant_id }),
        states[7] == (WrapState::ReleaseLock { merchant_id, handler_failed: true }),
        states[8] == WrapState::LogEvent,
        states[9] == WrapState::Finished,
{
    let others = outcomes.update(6, (WrapOutcome::Done, false));
    assert(others[0].0 is Done && outcomes[0].0 is Done);
    assert(others[1].0 is Done && outcomes[1].0 is Done);
    assert(others[2].0 is Done && outcomes[2].0 is Done);
    assert(others[3].0 is Done && outcomes[3].0 is Done);
    assert(others[4].0 == outcomes[4].0);
    assert(others[5].0 is Done && outcomes[5].0 is Done);
    assert(others[7].0 is Done && outcomes[7].0 is Done);
    assert(others[8].0 is Done && outcomes[8].0 is Done);
}

/// An error of the switch comes exactly of reading the request's id, of writing the request or
/// of writing the answer, where that failed. The error of the work itself comes exactly where
/// the tenant, the session, the authentication or the lock failed. Once a request has ended it
/// stays so.
pub proof fn law_errors_come_of_failures(
    state: WrapState,
    outcome: WrapOutcome,
    json_output: bool,
    res: WrapState,
)
    requires
        call_ensures(server_wrap_util, (state, outcome, json_output), res),
        state is Authenticate ==> outcome !is Done,
        outcome is Authenticated ==> state is Authenticate,
    ensures
        res is InternalError <==> state is InternalError || outcome is Failed && (state
            is ExtractRequestId || state is SerializeRequest || state is SerializeResponse),
        res is StepError <==> state is StepError || outcome is Failed && (state is ResolveTenant
            || state is OpenSession || state is Authenticate || state is AcquireLock || state
            is ReleaseLock),
        res is Finished <==> state is Finished || state is LogEvent,
{
}

/// No work is done twice or left out: what comes before each piece of work is always the same.
pub proof fn law_work_comes_in_order(
    state: WrapState,
    outcome: WrapOutcome,
    json_output: bool,
    res: WrapState,
)
    requires
        call_ensures(server_wrap_util, (state, outcome, json_output), res),
        state is Authenticate ==> outcome !is Done,
        outcome is Authenticated ==> state is Authenticate,
    ensures
        res !is ExtractRequestId,
        res is SerializeRequest <==> state is ExtractRequestId && outcome is Done,
        res is ResolveTenant <==> state is SerializeRequest && outcome is Done,
        res is OpenSession <==> state is ResolveTenant && outcome is Done,
        res is Authenticate <==> state is OpenSession && outcome is Done,
        res is AcquireLock <==> state is Authenticate && outcome is Authenticated,
        res is AcquireLock ==> res->AcquireLock_merchant_id == outcome->merchant_id,
        res is RunHandler <==> state is AcquireLock && outcome is Done,
        res is RunHandler ==> res->RunHandler_merchant_id == state->AcquireLock_merchant_id,
        res is ReleaseLock <==> state is RunHandler,
        res is ReleaseLock ==> res->ReleaseLock_merchant_id == state->RunHandler_merchant_id && (
        res->handler_failed <==> outcome is Failed),
        res is SerializeResponse <==> state is ReleaseLock && outcome is Done
            && !state->handler_failed && json_output,
        res is LogEvent <==> outcome is Done && (state is SerializeResponse || state is ReleaseLock
            && (state->handler_failed || !json_output)),
{
}

} // verus!
