//! One call of a connector, as a series of steps.
//!
//! The caller does what a [`Step`] asks for and hands the outcome back as the [`StepEvent`]
//! that the step names, until the step is [`Step::Finished`] or [`Step::ReadStored`].
use vstd::prelude::*;
use crate::consts::{NO_ERROR_CODE, NO_ERROR_MESSAGE, REQUEST_TIMEOUT_ERROR_CODE, REQUEST_TIMEOUT_ERROR_MESSAGE};
use crate::enums::AttemptStatus;
use crate::errors::ConnectorError;
use crate::router_data::{ErrorResponse, RouterData};
use crate::secret::Secret;
use crate::text::strip_leading_marks;

verus! {

/// What to do about a connector.
pub enum CallConnectorAction {
    /// Call it.
    Trigger,
    /// Leave the payment as it is.
    Avoid,
    /// Take over a status that is known otherwise.
    StatusUpdate {
        status: AttemptStatus,
        error_code: Option<String>,
        error_message: Option<String>,
    },
    /// Read an answer that came another way.
    HandleResponse(Vec<u8>),
}

/// An answer of a connector.
#[derive(Debug, PartialEq, Eq)]
pub struct Response {
    pub headers: Option<Vec<(String, String)>>,
    pub response: Vec<u8>,
    pub status_code: u16,
}

/// What a call of a connector led to.
pub enum CallOutcome {
    /// An answer to a request that went well.
    Success(Response),
    /// An answer to a request that the connector refused.
    Failure(Response),
    /// No usable answer.
    ClientError { upstream_timeout: bool },
}

/// How an answer's status is taken.
#[derive(Clone, Copy, Debug, PartialEq, Eq, Structural)]
pub enum ResponseClass {
    Success,
    Failure,
    Unexpected,
}

/// How an answer's status is taken.
pub open spec fn response_class(status_code: u16) -> ResponseClass {
    if 200 <= status_code <= 202 || status_code == 204 || status_code == 302 {
        ResponseClass::Success
    } else if 400 <= status_code <= 599 {
        ResponseClass::Failure
    } else {
        ResponseClass::Unexpected
    }
}

/// Tells how an answer's status is taken.
pub fn classify_response(status_code: u16) -> (res: ResponseClass)
    ensures
        res == response_class(status_code),
{
    match status_code {
        200..=202 | 302 | 204 => ResponseClass::Success,
        500..=599 => ResponseClass::Failure,
        400..=499 => ResponseClass::Failure,
        _ => ResponseClass::Unexpected,
    }
}

/// Why no answer of a connector can be used.
#[derive(Clone, Copy, Debug, PartialEq, Eq, Structural)]
pub enum ApiClientError {
    /// The connector did not answer in time.
    UpstreamTimeout,
    /// The answer's body could not be read.
    ResponseDecodingFailed,
    /// The answer's status has no meaning here.
    UnexpectedServerResponse,
    /// The request could not be sent.
    RequestNotSent,
}

/// An answer as it arrives: its status and header fields, and its body where it could be
/// read.
pub struct RawResponse {
    pub status_code: u16,
    pub headers: Vec<(String, String)>,
    pub body: Option<Vec<u8>>,
}

/// Turns what a sent request led to into the outcome of the call.
pub fn handle_response(response: Result<RawResponse, ApiClientError>) -> (res: Result<
    CallOutcome,
    ApiClientError,
>)
    ensures
        match response {
            Err(error) => res == Err::<CallOutcome, ApiClientError>(error),
            Ok(raw) => match (response_class(raw.status_code), raw.body) {
                (ResponseClass::Unexpected, _) => res == Err::<CallOutcome, ApiClientError>(
                    ApiClientError::UnexpectedServerResponse,
                ),
                (_, None) => res == Err::<CallOutcome, ApiClientError>(
                    ApiClientError::ResponseDecodingFailed,
                ),
                (ResponseClass::Success, Some(body)) => res == Ok::<CallOutcome, ApiClientError>(
                    CallOutcome::Success(
                        Response {
                            headers: Some(raw.headers),
                            response: body,
                            status_code: raw.status_code,
                        },
                    ),
                ),
                (ResponseClass::Failure, Some(body)) => res == Ok::<CallOutcome, ApiClientError>(
                    CallOutcome::Failure(
                        Response {
                            headers: Some(raw.headers),
                            response: body,
                            status_code: raw.status_code,
                        },
                    ),
                ),
            },
        },
{
    match response {
        Err(error) => Err(error),
        Ok(raw) => {
            let status_code: u16 = raw.status_code;
            let headers = Some(raw.headers);
            match classify_response(status_code) {
                ResponseClass::Unexpected => Err(ApiClientError::UnexpectedServerResponse),
                ResponseClass::Success => match raw.body {
                    Some(body) => Ok(
                        CallOutcome::Success(Response { headers, response: body, status_code }),
                    ),
                    None => Err(ApiClientError::ResponseDecodingFailed),
                },
                ResponseClass::Failure => match raw.body {
                    Some(body) => Ok(
                        CallOutcome::Failure(Response { headers, response: body, status_code }),
                    ),
                    None => Err(ApiClientError::ResponseDecodingFailed),
                },
            }
        },
    }
}

/// What is written to the event log about a call.
#[derive(Clone, Copy, Debug, PartialEq, Eq, Structural)]
pub enum EventLog {
    /// Nothing.
    Silent,
    /// The call, as it was.
    Call,
    /// The call, with the error that it ended in.
    CallWithError,
}

/// What is remembered while the connector's code reads an answer.
pub struct PendingAnswer {
    pub status_code: u16,
    pub external_latency: u128,
    /// The answer's body, where it has to be returned too.
    pub raw_response: Option<Vec<u8>>,
}

/// What has to be done next.
#[allow(inconsistent_fields)]
pub enum Step<Req, Resp, R> {
    /// Nothing: this is the result, and this goes to the event log.
    Finished { result: Result<RouterData<Req, Resp>, ConnectorError>, event: EventLog },
    /// Let the connector's code read this answer; what it gives is the result.
    ReadStored { response: Response },
    /// Let the connector's code build the request, then go on with [`StepEvent::RequestBuilt`].
    BuildRequest { data: RouterData<Req, Resp> },
    /// Send the request, then go on with [`StepEvent::CallFinished`].
    CallConnector { request: R, data: RouterData<Req, Resp> },
    /// Let the connector's code read this answer, then go on with
    /// [`StepEvent::ResponseRead`].
    ReadResponse { response: Response, pending: PendingAnswer },
    /// Let the connector's code read this answer as an error of its server, or else as any
    /// error, then go on with [`StepEvent::ErrorRead`].
    ReadError { response: Response, data: RouterData<Req, Resp>, server_error: bool },
}

/// The data after a status was taken over.
pub open spec fn status_taken_over<Req, Resp>(
    before: RouterData<Req, Resp>,
    after: RouterData<Req, Resp>,
    status: AttemptStatus,
    error_code: Option<String>,
    error_message: Option<String>,
) -> bool {
    &&& after == (RouterData { status, response: after.response, ..before })
    &&& if error_code is Some || error_message is Some {
        after.response matches Err(error) && error.tells(
            crate::text::view_or(error_code, NO_ERROR_CODE@),
            crate::text::view_or(error_message, NO_ERROR_MESSAGE@),
            None,
            200,
            None,
        )
    } else {
        after.response == before.response
    }
}

/// Whether a step is the first one.
pub open spec fn begun<Req, Resp, R>(
    router_data: RouterData<Req, Resp>,
    action: CallConnectorAction,
    connector_request: Option<R>,
    res: Step<Req, Resp, R>,
) -> bool {
    match action {
        CallConnectorAction::HandleResponse(body) => res == Step::<Req, Resp, R>::ReadStored {
            response: (Response { headers: None, response: body, status_code: 200 }),
        },
        CallConnectorAction::Avoid => res == Step::<Req, Resp, R>::Finished {
            result: Ok(router_data),
            event: EventLog::Silent,
        },
        CallConnectorAction::StatusUpdate { status, error_code, error_message } => {
            &&& res matches Step::Finished { result: Ok(after), event: EventLog::Silent }
            &&& status_taken_over(router_data, after, status, error_code, error_message)
        },
        CallConnectorAction::Trigger => match connector_request {
            Some(request) => res == Step::<Req, Resp, R>::CallConnector {
                request,
                data: router_data,
            },
            None => res == Step::<Req, Resp, R>::BuildRequest { data: router_data },
        },
    }
}

/// Starts a call of a connector.
fn begin<Req, Resp, R>(
    router_data: RouterData<Req, Resp>,
    action: CallConnectorAction,
    connector_request: Option<R>,
) -> (res: Step<Req, Resp, R>)
    ensures
        begun(router_data, action, connector_request, res),
{
    match action {
        CallConnectorAction::HandleResponse(body) => Step::ReadStored {
            response: Response { headers: None, response: body, status_code: 200 },
        },
        CallConnectorAction::Avoid => Step::Finished {
            result: Ok(router_data),
            event: EventLog::Silent,
        },
        CallConnectorAction::StatusUpdate { status, error_code, error_message } => {
            let response = if error_code.is_some() || error_message.is_some() {
                Err(ErrorResponse::from_connector(&error_code, &error_message, &None, 200, None))
            } else {
                router_data.response
            };
            Step::Finished {
                result: Ok(RouterData { status, response, ..router_data }),
                event: EventLog::Silent,
            }
        },
        CallConnectorAction::Trigger => match connector_request {
            Some(request) => Step::CallConnector { request, data: router_data },
            None => Step::BuildRequest { data: router_data },
        },
    }
}

/// Whether a step follows on what the connector's code built.
pub open spec fn gone_on_with<Req, Resp, R>(
    data: RouterData<Req, Resp>,
    built: Result<Option<R>, ConnectorError>,
    res: Step<Req, Resp, R>,
) -> bool {
    res == (match built {
        Err(error) => Step::<Req, Resp, R>::Finished {
            result: Err(error),
            event: EventLog::Silent,
        },
        Ok(None) => Step::<Req, Resp, R>::Finished {
            result: Ok(data),
            event: EventLog::Silent,
        },
        Ok(Some(request)) => Step::<Req, Resp, R>::CallConnector { request, data },
    })
}

/// Goes on after the connector's code built the request, or found that none is needed.
fn request_built<Req, Resp, R>(
    data: RouterData<Req, Resp>,
    built: Result<Option<R>, ConnectorError>,
) -> (res: Step<Req, Resp, R>)
    ensures
        gone_on_with(data, built, res),
{
    match built {
        Err(error) => Step::Finished { result: Err(error), event: EventLog::Silent },
        Ok(None) => Step::Finished { result: Ok(data), event: EventLog::Silent },
        Ok(Some(request)) => Step::CallConnector { request, data },
    }
}

/// The time spent in outside calls after another one.
pub open spec fn added_latency(before: Option<u128>, external_latency: u128) -> int {
    match before {
        Some(sum) => sum + external_latency,
        None => external_latency as int,
    }
}

/// Adds up the time spent in outside calls.
fn add_latency(before: Option<u128>, external_latency: u128) -> (res: Option<u128>)
    requires
        added_latency(before, external_latency) <= u128::MAX,
    ensures
        res == Some(added_latency(before, external_latency) as u128),
{
    match before {
        Some(sum) => Some(sum + external_latency),
        None => Some(external_latency),
    }
}

/// The data after a call to which the connector did not answer in time.
pub open spec fn timed_out<Req, Resp>(
    before: RouterData<Req, Resp>,
    after: RouterData<Req, Resp>,
    external_latency: u128,
) -> bool {
    &&& after == (RouterData {
        connector_http_status_code: Some(504u16),
        external_latency: Some(added_latency(before.external_latency, external_latency) as u128),
        response: after.response,
        ..before
    })
    &&& after.response matches Err(error) && error.tells(
        REQUEST_TIMEOUT_ERROR_CODE@,
        REQUEST_TIMEOUT_ERROR_MESSAGE@,
        Some(REQUEST_TIMEOUT_ERROR_MESSAGE@),
        504,
        None,
    )
}

/// Whether a step follows on a call.
pub open spec fn gone_on_after_call<Req, Resp, R>(
    data: RouterData<Req, Resp>,
    outcome: CallOutcome,
    external_latency: u128,
    return_raw_connector_response: Option<bool>,
    res: Step<Req, Resp, R>,
) -> bool {
    match outcome {
        CallOutcome::Success(response) => {
            &&& res matches Step::ReadResponse { response: handed_on, pending }
            &&& handed_on == response
            &&& pending.status_code == response.status_code
            &&& pending.external_latency == external_latency
            &&& if return_raw_connector_response == Some(true) {
                pending.raw_response matches Some(body) && body@ == response.response@
            } else {
                pending.raw_response is None
            }
        },
        CallOutcome::Failure(response) => res == Step::<Req, Resp, R>::ReadError {
            response,
            data: (RouterData {
                connector_http_status_code: Some(response.status_code),
                external_latency: Some(
                    added_latency(data.external_latency, external_latency) as u128,
                ),
                ..data
            }),
            server_error: 500 <= response.status_code <= 511,
        },
        CallOutcome::ClientError { upstream_timeout } => if upstream_timeout {
            &&& res matches Step::Finished { result: Ok(after), event: EventLog::CallWithError }
            &&& timed_out(data, after, external_latency)
        } else {
            res == Step::<Req, Resp, R>::Finished {
                result: Err(ConnectorError::ProcessingStepFailed),
                event: EventLog::CallWithError,
            }
        },
    }
}

/// Whether the time that a call took is added up right after it.
pub open spec fn latency_is_added(outcome: CallOutcome) -> bool {
    match outcome {
        CallOutcome::Success(_) => false,
        CallOutcome::Failure(_) => true,
        CallOutcome::ClientError { upstream_timeout } => upstream_timeout,
    }
}

/// Goes on after the request was sent. `external_latency` is the time that the call took,
/// in milliseconds.
fn call_finished<Req, Resp, R>(
    data: RouterData<Req, Resp>,
    outcome: CallOutcome,
    external_latency: u128,
    return_raw_connector_response: Option<bool>,
) -> (res: Step<Req, Resp, R>)
    requires
        latency_is_added(outcome) ==> added_latency(data.external_latency, external_latency)
            <= u128::MAX,
    ensures
        gone_on_after_call(data, outcome, external_latency, return_raw_connector_response, res),
{
    match outcome {
        CallOutcome::Success(response) => {
            let status_code: u16 = response.status_code;
            let raw_response = if return_raw_connector_response == Some(true) {
                Some(copy_bytes(&response.response))
            } else {
                None
            };
            Step::ReadResponse {
                response,
                pending: PendingAnswer { status_code, external_latency, raw_response },
            }
        },
        CallOutcome::Failure(response) => {
            let status_code: u16 = response.status_code;
            let server_error = 500 <= status_code && status_code <= 511;
            let latency = add_latency(data.external_latency, external_latency);
            Step::ReadError {
                response,
                data: RouterData {
                    connector_http_status_code: Some(status_code),
                    external_latency: latency,
                    ..data
                },
                server_error,
            }
        },
        CallOutcome::ClientError { upstream_timeout } => {
            if upstream_timeout {
                let error = ErrorResponse {
                    code: REQUEST_TIMEOUT_ERROR_CODE.to_string(),
                    message: REQUEST_TIMEOUT_ERROR_MESSAGE.to_string(),
                    reason: Some(REQUEST_TIMEOUT_ERROR_MESSAGE.to_string()),
                    status_code: 504,
                    attempt_status: None,
                    connector_transaction_id: None,
                    network_advice_code: None,
                    network_decline_code: None,
                    network_error_message: None,
                };
                let latency = add_latency(data.external_latency, external_latency);
                Step::Finished {
                    result: Ok(
                        RouterData {
                            response: Err(error),
                            connector_http_status_code: Some(504),
                            external_latency: latency,
                            ..data
                        },
                    ),
                    event: EventLog::CallWithError,
                }
            } else {
                Step::Finished {
                    result: Err(ConnectorError::ProcessingStepFailed),
                    event: EventLog::CallWithError,
                }
            }
        },
    }
}

/// Copies bytes.
fn copy_bytes(bytes: &Vec<u8>) -> (res: Vec<u8>)
    ensures
        res@ == bytes@,
{
    let mut res: Vec<u8> = Vec::new();
    let mut i: usize = 0;
    while i < bytes.len()
        invariant
            i <= bytes.len(),
            res@ == bytes@.take(i as int),
        decreases bytes.len() - i,
    {
        res.push(bytes[i]);
        assert(bytes@.take(i + 1) == bytes@.take(i as int).push(bytes@[i as int]));
        i = i + 1;
    }
    assert(bytes@.take(bytes.len() as int) == bytes@);
    res
}

/// `String::from_utf8`: bytes that are valid UTF-8 are turned into the text that they
/// encode, others are refused.
#[verifier::external_body]
fn decode_utf8(bytes: Vec<u8>) -> (res: Option<String>)
    ensures
        match res {
            Some(text) => vstd::utf8::valid_utf8(bytes@) && text@ == vstd::utf8::decode_utf8(bytes@),
            None => !vstd::utf8::valid_utf8(bytes@),
        },
{
    String::from_utf8(bytes).ok()
}

/// The text of a connector's answer, without the byte order marks it starts with.
pub open spec fn answer_text(bytes: Seq<u8>) -> Option<Seq<char>> {
    if vstd::utf8::valid_utf8(bytes) {
        Some(crate::text::without_leading_marks(vstd::utf8::decode_utf8(bytes)))
    } else {
        None
    }
}

/// Whether a step follows on what the connector's code read of an answer.
pub open spec fn gone_on_after_response<Req, Resp, R>(
    pending: PendingAnswer,
    handled: Result<RouterData<Req, Resp>, ConnectorError>,
    res: Step<Req, Resp, R>,
) -> bool {
    match handled {
        Err(error) => res == Step::<Req, Resp, R>::Finished {
            result: Err(error),
            event: EventLog::CallWithError,
        },
        Ok(data) => {
            &&& res matches Step::Finished { result, event: EventLog::Call }
            &&& match pending.raw_response {
                None => result == Ok::<RouterData<Req, Resp>, ConnectorError>(
                    (RouterData {
                        connector_http_status_code: Some(pending.status_code),
                        external_latency: Some(
                            added_latency(
                                data.external_latency,
                                pending.external_latency,
                            ) as u128,
                        ),
                        ..data
                    }),
                ),
                Some(bytes) => match answer_text(bytes@) {
                    None => result == Err::<RouterData<Req, Resp>, ConnectorError>(
                        ConnectorError::ResponseDeserializationFailed,
                    ),
                    Some(text) => {
                        &&& result matches Ok(after)
                        &&& after == (RouterData {
                            connector_http_status_code: Some(pending.status_code),
                            external_latency: Some(
                                added_latency(
                                    data.external_latency,
                                    pending.external_latency,
                                ) as u128,
                            ),
                            raw_connector_response: after.raw_connector_response,
                            ..data
                        })
                        &&& after.raw_connector_response matches Some(secret)
                        &&& secret.inner_secret@ == text
                    },
                },
            }
        },
    }
}

/// Goes on after the connector's code read an answer to a request that went well.
fn response_read<Req, Resp, R>(
    pending: PendingAnswer,
    handled: Result<RouterData<Req, Resp>, ConnectorError>,
) -> (res: Step<Req, Resp, R>)
    requires
        handled matches Ok(data) ==> added_latency(data.external_latency, pending.external_latency)
            <= u128::MAX,
    ensures
        gone_on_after_response(pending, handled, res),
{
    match handled {
        Err(error) => Step::Finished { result: Err(error), event: EventLog::CallWithError },
        Ok(data) => {
            let latency = add_latency(data.external_latency, pending.external_latency);
            let mut after = RouterData {
                connector_http_status_code: Some(pending.status_code),
                external_latency: latency,
                ..data
            };
            match pending.raw_response {
                None => Step::Finished { result: Ok(after), event: EventLog::Call },
                Some(bytes) => match decode_utf8(bytes) {
                    None => Step::Finished {
                        result: Err(ConnectorError::ResponseDeserializationFailed),
                        event: EventLog::Call,
                    },
                    Some(decoded) => {
                        after.raw_connector_response = Some(
                            Secret::new(strip_leading_marks(decoded)),
                        );
                        Step::Finished { result: Ok(after), event: EventLog::Call }
                    },
                },
            }
        },
    }
}

/// Whether a step follows on what the connector's code read of an error.
pub open spec fn gone_on_after_error<Req, Resp, R>(
    data: RouterData<Req, Resp>,
    server_error: bool,
    error: Result<ErrorResponse, ConnectorError>,
    res: Step<Req, Resp, R>,
) -> bool {
    res == (match error {
        Err(failure) => Step::<Req, Resp, R>::Finished {
            result: Err(failure),
            event: EventLog::Silent,
        },
        Ok(response) => Step::<Req, Resp, R>::Finished {
            result: Ok(
                (RouterData {
                    status: match response.attempt_status {
                        Some(status) => if server_error {
                            data.status
                        } else {
                            status
                        },
                        None => data.status,
                    },
                    response: Err(response),
                    ..data
                }),
            ),
            event: EventLog::Call,
        },
    })
}

/// Goes on after the connector's code read an answer to a request that it refused.
fn error_read<Req, Resp, R>(
    data: RouterData<Req, Resp>,
    server_error: bool,
    error: Result<ErrorResponse, ConnectorError>,
) -> (res: Step<Req, Resp, R>)
    ensures
        gone_on_after_error(data, server_error, error, res),
{
    match error {
        Err(failure) => Step::Finished { result: Err(failure), event: EventLog::Silent },
        Ok(response) => {
            let status = match response.attempt_status {
                Some(status) => {
                    if server_error {
                        data.status
                    } else {
                        status
                    }
                },
                None => data.status,
            };
            Step::Finished {
                result: Ok(RouterData { status, response: Err(response), ..data }),
                event: EventLog::Call,
            }
        },
    }
}

/// What happened to a payment's step at a connector.
#[allow(inconsistent_fields)]
pub enum StepEvent<Req, Resp, R> {
    /// The step is asked for, with a request if it was built before.
    Asked {
        router_data: RouterData<Req, Resp>,
        action: CallConnectorAction,
        connector_request: Option<R>,
    },
    /// The connector's code built the request, or found that none is needed.
    RequestBuilt { data: RouterData<Req, Resp>, built: Result<Option<R>, ConnectorError> },
    /// The request was sent. The latency is the time that the call took, in milliseconds.
    CallFinished {
        data: RouterData<Req, Resp>,
        outcome: CallOutcome,
        external_latency: u128,
        return_raw_connector_response: Option<bool>,
    },
    /// The connector's code read the answer.
    ResponseRead {
        pending: PendingAnswer,
        handled: Result<RouterData<Req, Resp>, ConnectorError>,
    },
    /// The connector's code read the answer to a request that it refused.
    ErrorRead {
        data: RouterData<Req, Resp>,
        server_error: bool,
        error: Result<ErrorResponse, ConnectorError>,
    },
}

impl<Req, Resp, R> StepEvent<Req, Resp, R> {
    /// Whether the time spent in outside calls can be told.
    pub open spec fn latency_fits(self) -> bool {
        match self {
            StepEvent::CallFinished { data, outcome, external_latency, .. } => latency_is_added(
                outcome,
            ) ==> added_latency(data.external_latency, external_latency) <= u128::MAX,
            StepEvent::ResponseRead { pending, handled } => handled matches Ok(data)
                ==> added_latency(data.external_latency, pending.external_latency) <= u128::MAX,
            _ => true,
        }
    }

    /// How far the step has come.
    pub open spec fn stage(self) -> nat {
        match self {
            StepEvent::Asked { .. } => 0,
            StepEvent::RequestBuilt { .. } => 1,
            StepEvent::CallFinished { .. } => 2,
            StepEvent::ResponseRead { .. } | StepEvent::ErrorRead { .. } => 3,
        }
    }
}

impl<Req, Resp, R> Step<Req, Resp, R> {
    /// How far the step has come.
    pub open spec fn stage(self) -> nat {
        match self {
            Step::BuildRequest { .. } => 1,
            Step::CallConnector { .. } => 2,
            Step::ReadResponse { .. } | Step::ReadError { .. } => 3,
            Step::ReadStored { .. } | Step::Finished { .. } => 4,
        }
    }
}

/// Whether a step follows on an event.
pub open spec fn follows<Req, Resp, R>(
    event: StepEvent<Req, Resp, R>,
    res: Step<Req, Resp, R>,
) -> bool {
    match event {
        StepEvent::Asked { router_data, action, connector_request } => begun(
            router_data,
            action,
            connector_request,
            res,
        ),
        StepEvent::RequestBuilt { data, built } => gone_on_with(data, built, res),
        StepEvent::CallFinished {
            data,
            outcome,
            external_latency,
            return_raw_connector_response,
        } => gone_on_after_call(
            data,
            outcome,
            external_latency,
            return_raw_connector_response,
            res,
        ),
        StepEvent::ResponseRead { pending, handled } => gone_on_after_response(
            pending,
            handled,
            res,
        ),
        StepEvent::ErrorRead { data, server_error, error } => gone_on_after_error(
            data,
            server_error,
            error,
            res,
        ),
    }
}

/// What has to be done next for a payment's step at a connector.
pub fn execute_connector_processing_step<Req, Resp, R>(event: StepEvent<Req, Resp, R>) -> (res: Step<
    Req,
    Resp,
    R,
>)
    requires
        event.latency_fits(),
    ensures
        follows(event, res),
{
    match event {
        StepEvent::Asked { router_data, action, connector_request } => begin(
            router_data,
            action,
            connector_request,
        ),
        StepEvent::RequestBuilt { data, built } => request_built(data, built),
        StepEvent::CallFinished {
            data,
            outcome,
            external_latency,
            return_raw_connector_response,
        } => call_finished(data, outcome, external_latency, return_raw_connector_response),
        StepEvent::ResponseRead { pending, handled } => response_read(pending, handled),
        StepEvent::ErrorRead { data, server_error, error } => error_read(
            data,
            server_error,
            error,
        ),
    }
}

/// A step comes to an end: each event brings it on, and what it is to go on with brings it on
/// further.
pub proof fn law_steps_end<Req, Resp, R>(event: StepEvent<Req, Resp, R>, res: Step<Req, Resp, R>)
    requires
        follows(event, res),
    ensures
        event.stage() < res.stage() <= 4,
        res.stage() == 4 <==> res is Finished || res is ReadStored,
{
}

/// A connector that refuses a request, or does not answer it in time, changes nothing of the
/// payment but where it stands, what was answered, and what is told of the call.
pub proof fn law_refusals_keep_the_payment<Req, Resp, R>(
    event: StepEvent<Req, Resp, R>,
    res: Step<Req, Resp, R>,
)
    requires
        follows(event, res),
    ensures
        (event is CallFinished && res is Finished && res->result is Ok) ==> same_payment(
            event->CallFinished_data,
            res->result->Ok_0,
        ),
        (event is CallFinished && res is ReadError) ==> same_payment(
            event->CallFinished_data,
            res->ReadError_data,
        ),
        (event is ErrorRead && res is Finished && res->result is Ok) ==> same_payment(
            event->ErrorRead_data,
            res->result->Ok_0,
        ),
{
}

/// Whether two states of the data of a payment differ at most in where the payment stands,
/// what was answered, and what is told of the call.
pub open spec fn same_payment<Req, Resp>(
    before: RouterData<Req, Resp>,
    after: RouterData<Req, Resp>,
) -> bool {
    after == (RouterData {
        status: after.status,
        response: after.response,
        connector_http_status_code: after.connector_http_status_code,
        external_latency: after.external_latency,
        ..before
    })
}

/// An answer that is read as an error of the connector's server is always one that the
/// connector refused the request with.
pub proof fn law_server_errors_are_failures(status_code: u16)
    requires
        500 <= status_code <= 511,
    ensures
        response_class(status_code) == ResponseClass::Failure,
{
}

} // verus!
