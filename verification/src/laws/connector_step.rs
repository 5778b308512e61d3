//! Laws of one call of a connector.
use vstd::prelude::*;
use crate::api::connector_step::{execute_connector_processing_step, handle_response, classify_response, ApiClientError, CallConnectorAction, CallOutcome, EventLog, PendingAnswer, RawResponse, Response, ResponseClass, Step, StepEvent};
use crate::enums::AttemptStatus;
use crate::errors::ConnectorError;
use crate::router_data::{ErrorResponse, RouterData};

verus! {

/// After an answer was read, the payment is as the connector's code read it: its status and its
/// response are those that were read, and so is all else but the status of the answer, the time
/// spent in outside calls and, where it was asked for, the answer itself.
pub proof fn law_what_was_read_is_kept<Req, Resp, R>(
    pending: PendingAnswer,
    read: RouterData<Req, Resp>,
    res: Step<Req, Resp, R>,
)
    requires
        call_ensures(
            execute_connector_processing_step::<Req, Resp, R>,
            (StepEvent::ResponseRead { pending, handled: Ok(read) },),
            res,
        ),
        read.external_latency matches Some(sum) ==> sum + pending.external_latency <= u128::MAX,
    ensures
        res is Finished,
        res->event is Call,
        res->result is Ok ==> ({
            let after = res->result->Ok_0;
            &&& after.status == read.status
            &&& after.response == read.response
            &&& after == (RouterData {
                connector_http_status_code: after.connector_http_status_code,
                external_latency: after.external_latency,
                raw_connector_response: after.raw_connector_response,
                ..read
            })
            &&& after.connector_http_status_code == Some(pending.status_code)
            &&& after.external_latency is Some
            &&& read.external_latency is None ==> after.external_latency->0
                == pending.external_latency
            &&& read.external_latency matches Some(sum) ==> after.external_latency->0 - sum
                == pending.external_latency
            &&& pending.raw_response is None ==> after.raw_connector_response
                == read.raw_connector_response
            &&& pending.raw_response is Some ==> after.raw_connector_response is Some
        }),
        pending.raw_response is None ==> res->result is Ok,
        pending.raw_response matches Some(bytes) ==> (res->result is Ok
            <==> vstd::utf8::valid_utf8(bytes@)),
        res->result is Err ==> res->result->Err_0 is ResponseDeserializationFailed,
{
}

/// The answer itself is given on as it was, but for the marks of byte order before it.
pub proof fn law_raw_answer_is_given_on<Req, Resp, R>(
    pending: PendingAnswer,
    read: RouterData<Req, Resp>,
    res: Step<Req, Resp, R>,
    text: Seq<char>,
)
    requires
        call_ensures(
            execute_connector_processing_step::<Req, Resp, R>,
            (StepEvent::ResponseRead { pending, handled: Ok(read) },),
            res,
        ),
        pending.raw_response is Some,
        vstd::utf8::valid_utf8(pending.raw_response->0@),
        text == vstd::utf8::decode_utf8(pending.raw_response->0@),
    ensures
        res->result is Ok,
        res->result->Ok_0.raw_connector_response is Some,
        text.len() == 0 || text[0] != '\u{feff}'
            ==> res->result->Ok_0.raw_connector_response->0.inner_secret@ == text,
        exists|n: int|
            0 <= n <= text.len() && #[trigger] text.skip(n)
                == res->result->Ok_0.raw_connector_response->0.inner_secret@,
{
    lemma_marks_are_skipped(text);
}

proof fn lemma_marks_are_skipped(text: Seq<char>)
    ensures
        text.len() == 0 || text[0] != '\u{feff}' ==> crate::text::without_leading_marks(text)
            == text,
        exists|n: int|
            0 <= n <= text.len() && #[trigger] text.skip(n) == crate::text::without_leading_marks(
                text,
            ),
    decreases text.len(),
{
    assert(text.skip(0) == text);
    if text.len() > 0 && text[0] == '\u{feff}' {
        lemma_marks_are_skipped(text.skip(1));
        let n = choose|n: int|
            0 <= n <= text.skip(1).len() && #[trigger] text.skip(1).skip(n)
                == crate::text::without_leading_marks(text.skip(1));
        assert(text.skip(1).skip(n) == text.skip(n + 1));
    }
}

/// Where the connector's code could not read an answer, the step ends in that error.
pub proof fn law_unread_answers_are_errors<Req, Resp, R>(
    pending: PendingAnswer,
    error: ConnectorError,
    res: Step<Req, Resp, R>,
)
    requires
        call_ensures(
            execute_connector_processing_step::<Req, Resp, R>,
            (StepEvent::ResponseRead { pending, handled: Err(error) },),
            res,
        ),
    ensures
        res is Finished,
        res->result is Err,
        res->result->Err_0 == error,
        res->event is CallWithError,
{
}

/// A connector that is to be left alone is left alone, and the payment is as it was.
pub proof fn law_avoided_connectors_change_nothing<Req, Resp, R>(
    router_data: RouterData<Req, Resp>,
    connector_request: Option<R>,
    res: Step<Req, Resp, R>,
)
    requires
        call_ensures(
            execute_connector_processing_step::<Req, Resp, R>,
            (
                StepEvent::Asked {
                    router_data,
                    action: CallConnectorAction::Avoid,
                    connector_request,
                },
            ),
            res,
        ),
    ensures
        res is Finished,
        res->result is Ok,
        res->result->Ok_0 == router_data,
        res->event is Silent,
{
}

/// A status that is known otherwise is taken over as it is, with the error that came with it;
/// all else of the payment stays, and the answer too where no error came.
pub proof fn law_known_status_is_taken_over<Req, Resp, R>(
    router_data: RouterData<Req, Resp>,
    status: AttemptStatus,
    error_code: Option<String>,
    error_message: Option<String>,
    connector_request: Option<R>,
    res: Step<Req, Resp, R>,
)
    requires
        call_ensures(
            execute_connector_processing_step::<Req, Resp, R>,
            (
                StepEvent::Asked {
                    router_data,
                    action: CallConnectorAction::StatusUpdate { status, error_code, error_message },
                    connector_request,
                },
            ),
            res,
        ),
    ensures
        res is Finished,
        res->event is Silent,
        res->result is Ok,
        ({
            let after = res->result->Ok_0;
            &&& after.status == status
            &&& after == (RouterData { status, response: after.response, ..router_data })
            &&& error_code is None && error_message is None ==> after.response
                == router_data.response
            &&& error_code is Some || error_message is Some ==> {
                &&& after.response is Err
                &&& after.response->Err_0.status_code == 200
                &&& after.response->Err_0.reason is None
                &&& error_code matches Some(code) ==> after.response->Err_0.code@ == code@
                &&& error_message matches Some(message) ==> after.response->Err_0.message@
                    == message@
                &&& error_code is None ==> after.response->Err_0.code@ == "No error code"@
                &&& error_message is None ==> after.response->Err_0.message@
                    == "No error message"@
            }
        }),
{
}

/// A connector is called exactly where it is to be called: with the request that was built
/// before, or with the one that its code builds now, for the payment as it is.
pub proof fn law_connector_is_called_where_asked<Req, Resp, R>(
    router_data: RouterData<Req, Resp>,
    action: CallConnectorAction,
    connector_request: Option<R>,
    res: Step<Req, Resp, R>,
)
    requires
        call_ensures(
            execute_connector_processing_step::<Req, Resp, R>,
            (StepEvent::Asked { router_data, action, connector_request },),
            res,
        ),
    ensures
        res is CallConnector <==> action is Trigger && connector_request is Some,
        res is CallConnector ==> res->request == connector_request->0 && res->CallConnector_data
            == router_data,
        res is BuildRequest <==> action is Trigger && connector_request is None,
        res is BuildRequest ==> res->BuildRequest_data == router_data,
        res is ReadStored <==> action is HandleResponse,
        action matches CallConnectorAction::HandleResponse(body) ==> ({
            &&& res->ReadStored_response.response == body
            &&& res->ReadStored_response.status_code == 200
            &&& res->ReadStored_response.headers is None
        }),
        res !is ReadResponse && res !is ReadError,
{
}

/// The request that was built is sent; where none is needed the payment is as it was, and where
/// it could not be built the step ends in that error.
pub proof fn law_built_request_is_sent<Req, Resp, R>(
    data: RouterData<Req, Resp>,
    built: Result<Option<R>, ConnectorError>,
    res: Step<Req, Resp, R>,
)
    requires
        call_ensures(
            execute_connector_processing_step::<Req, Resp, R>,
            (StepEvent::RequestBuilt { data, built },),
            res,
        ),
    ensures
        built matches Ok(Some(request)) ==> res is CallConnector && res->request == request
            && res->CallConnector_data == data,
        built matches Ok(None) ==> res is Finished && res->result is Ok && res->result->Ok_0 == data
            && res->event is Silent,
        built matches Err(error) ==> res is Finished && res->result is Err && res->result->Err_0
            == error && res->event is Silent,
{
}

/// The answer to a request that went well is handed on for reading as it came, with the time
/// that the call took; its body is kept exactly where it has to be returned.
pub proof fn law_good_answer_is_read<Req, Resp, R>(
    data: RouterData<Req, Resp>,
    response: Response,
    external_latency: u128,
    return_raw_connector_response: Option<bool>,
    res: Step<Req, Resp, R>,
)
    requires
        call_ensures(
            execute_connector_processing_step::<Req, Resp, R>,
            (
                StepEvent::CallFinished {
                    data,
                    outcome: CallOutcome::Success(response),
                    external_latency,
                    return_raw_connector_response,
                },
            ),
            res,
        ),
    ensures
        res is ReadResponse,
        res->ReadResponse_response == response,
        res->pending.status_code == response.status_code,
        res->pending.external_latency == external_latency,
        res->pending.raw_response is Some <==> return_raw_connector_response == Some(true),
        res->pending.raw_response matches Some(body) ==> body@ == response.response@,
{
}

/// The answer to a request that was refused is handed on for reading as it came. Of the payment
/// only what is told of the call changes: the status of the answer, and the time.
pub proof fn law_refusal_is_read<Req, Resp, R>(
    data: RouterData<Req, Resp>,
    response: Response,
    external_latency: u128,
    return_raw_connector_response: Option<bool>,
    res: Step<Req, Resp, R>,
)
    requires
        call_ensures(
            execute_connector_processing_step::<Req, Resp, R>,
            (
                StepEvent::CallFinished {
                    data,
                    outcome: CallOutcome::Failure(response),
                    external_latency,
                    return_raw_connector_response,
                },
            ),
            res,
        ),
        data.external_latency matches Some(sum) ==> sum + external_latency <= u128::MAX,
    ensures
        res is ReadError,
        res->ReadError_response == response,
        res->server_error <==> 500 <= response.status_code <= 511,
        ({
            let after = res->ReadError_data;
            &&& after == (RouterData {
                connector_http_status_code: after.connector_http_status_code,
                external_latency: after.external_latency,
                ..data
            })
            &&& after.connector_http_status_code == Some(response.status_code)
            &&& after.external_latency is Some
            &&& data.external_latency is None ==> after.external_latency->0 == external_latency
            &&& data.external_latency matches Some(sum) ==> after.external_latency->0 - sum
                == external_latency
        }),
{
}

/// A connector that does not answer in time leaves the payment where it stands, with an error
/// that tells so. A call that failed otherwise is an error of the step.
pub proof fn law_missing_answer_is_told<Req, Resp, R>(
    data: RouterData<Req, Resp>,
    upstream_timeout: bool,
    external_latency: u128,
    return_raw_connector_response: Option<bool>,
    res: Step<Req, Resp, R>,
)
    requires
        call_ensures(
            execute_connector_processing_step::<Req, Resp, R>,
            (
                StepEvent::CallFinished {
                    data,
                    outcome: CallOutcome::ClientError { upstream_timeout },
                    external_latency,
                    return_raw_connector_response,
                },
            ),
            res,
        ),
        data.external_latency matches Some(sum) ==> sum + external_latency <= u128::MAX,
    ensures
        res is Finished,
        res->event is CallWithError,
        res->result is Ok <==> upstream_timeout,
        res->result is Err ==> res->result->Err_0 is ProcessingStepFailed,
        upstream_timeout ==> ({
            let after = res->result->Ok_0;
            &&& after.status == data.status
            &&& after == (RouterData {
                response: after.response,
                connector_http_status_code: after.connector_http_status_code,
                external_latency: after.external_latency,
                ..data
            })
            &&& after.connector_http_status_code == Some(504u16)
            &&& after.response is Err
            &&& after.response->Err_0.code@ == "TIMEOUT"@
            &&& after.response->Err_0.message@
                == "Connector did not respond in specified time"@
            &&& after.response->Err_0.status_code == 504
            &&& after.response->Err_0.attempt_status is None
            &&& after.external_latency is Some
            &&& data.external_latency is None ==> after.external_latency->0 == external_latency
            &&& data.external_latency matches Some(sum) ==> after.external_latency->0 - sum
                == external_latency
        }),
{
}

/// After a refusal was read, the answer is that error and all else of the payment stays but
/// where it stands: that is what the error tells, unless the connector's server failed or the
/// error tells nothing.
pub proof fn law_refusal_is_kept<Req, Resp, R>(
    data: RouterData<Req, Resp>,
    server_error: bool,
    error: ErrorResponse,
    res: Step<Req, Resp, R>,
)
    requires
        call_ensures(
            execute_connector_processing_step::<Req, Resp, R>,
            (StepEvent::ErrorRead { data, server_error, error: Ok(error) },),
            res,
        ),
    ensures
        res is Finished,
        res->event is Call,
        res->result is Ok,
        ({
            let after = res->result->Ok_0;
            &&& after.response is Err
            &&& after.response->Err_0 == error
            &&& after == (RouterData { status: after.status, response: after.response, ..data })
            &&& server_error || error.attempt_status is None ==> after.status == data.status
            &&& !server_error ==> (error.attempt_status matches Some(told) ==> after.status == told)
        }),
{
}

/// A refusal that could not be read is an error of the step.
pub proof fn law_unread_refusals_are_errors<Req, Resp, R>(
    data: RouterData<Req, Resp>,
    server_error: bool,
    failure: ConnectorError,
    res: Step<Req, Resp, R>,
)
    requires
        call_ensures(
            execute_connector_processing_step::<Req, Resp, R>,
            (StepEvent::ErrorRead { data, server_error, error: Err(failure) },),
            res,
        ),
    ensures
        res is Finished,
        res->event is Silent,
        res->result is Err,
        res->result->Err_0 == failure,
{
}

/// How the status of an answer is taken: the codes that tell of success, all codes of the
/// fourth and the fifth hundred as refusals, and no other.
pub proof fn law_answer_classes(status_code: u16, res: ResponseClass)
    requires
        call_ensures(classify_response, (status_code,), res),
    ensures
        res is Failure <==> status_code / 100 == 4 || status_code / 100 == 5,
        res is Success <==> status_code == 200 || status_code == 201 || status_code == 202
            || status_code == 204 || status_code == 302,
{
}

/// An answer is taken as it came: its status, its header fields and its body are those of the
/// connector.
pub proof fn law_answers_are_taken_as_they_came(
    raw: RawResponse,
    class: ResponseClass,
    res: Result<CallOutcome, ApiClientError>,
)
    requires
        call_ensures(classify_response, (raw.status_code,), class),
        call_ensures(handle_response, (Ok(raw),), res),
    ensures
        res matches Ok(CallOutcome::Success(taken)) ==> class is Success && raw.body
            == Some(taken.response) && taken.status_code == raw.status_code && taken.headers
            == Some(raw.headers),
        res matches Ok(CallOutcome::Failure(taken)) ==> class is Failure && raw.body
            == Some(taken.response) && taken.status_code == raw.status_code && taken.headers
            == Some(raw.headers),
        res matches Ok(outcome) ==> outcome !is ClientError,
        res is Ok <==> raw.body is Some && class !is Unexpected,
        res matches Err(error) ==> (error is UnexpectedServerResponse <==> class is Unexpected)
            && (error is ResponseDecodingFailed <==> class !is Unexpected),
{
}

/// What a request could not be sent for is given on.
pub proof fn law_client_errors_are_given_on(
    error: ApiClientError,
    res: Result<CallOutcome, ApiClientError>,
)
    requires
        call_ensures(handle_response, (Err(error),), res),
    ensures
        res is Err,
        res->Err_0 == error,
{
}

} // verus!
