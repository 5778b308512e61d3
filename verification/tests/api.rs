use hyperswitch::api::authenticate::{
    Authenticate, PaymentMethodListRequest, PaymentsCancelRequest, PaymentsConfirmIntentRequest,
    PaymentsDynamicTaxCalculationRequest, PaymentsPostSessionTokensRequest, PaymentsRequest,
    PaymentsRetrieveRequest, PaymentsSessionRequest, ProxyPaymentsRequest,
};
use hyperswitch::api::connector_step::{
    classify_response, execute_connector_processing_step, handle_response, ApiClientError,
    CallConnectorAction, CallOutcome, EventLog, PendingAnswer, RawResponse, Response,
    ResponseClass, Step, StepEvent,
};
use hyperswitch::api::enhancement::{extract_field_by_dot_path, extract_mapped_fields};
use hyperswitch::api::headers::{append_header, insert_header, HeaderEntry};
use hyperswitch::api::payment_link::{
    build_payment_link_html, build_payment_link_template, build_secure_payment_link_html,
    get_hyper_loader_sdk, get_payment_link_status, get_preload_link_html_template, get_sdk_origin,
    PaymentLinkAssets, PaymentLinkFormData, PaymentLinkStatusData,
};
use hyperswitch::api::redirection::{build_redirection_form, ConnectorUrls};
use hyperswitch::api::response::{
    check_latencies, http_redirect_response, http_response_err, http_response_file_data,
    http_response_html_data, http_response_json, http_response_json_with_headers,
    http_response_ok, http_response_plaintext, http_server_error_json_response, ResponseBody,
};
use hyperswitch::api::server::{
    choose_event_type, default_tenant_id, headers_to_log, overhead_latency, requested_duration,
    resolve_tenant, server_wrap, server_wrap_util, AnswerSettings, ApplicationResponse,
    EmbedError, ErrorReport, Payload, PaymentLinkAction, RedirectionFormData, TenantLookup,
    WrapOutcome, WrapState,
};
use hyperswitch::enums::{
    AttemptStatus, AuthenticationType, Currency, Method, PaymentMethod,
};
use hyperswitch::errors::{ApiErrorResponse, ConnectorError};
use hyperswitch::payment_data::{Card, PaymentMethodData};
use hyperswitch::router_data::{
    BillingDetails, ConnectorAuthType, ErrorResponse, RedirectForm, RouterData,
};
use hyperswitch::secret::{Maskable, Secret};
use hyperswitch::web_url::WebUrl;

fn text(value: &str) -> String {
    value.to_string()
}

fn secret(value: &str) -> Secret<String> {
    Secret::new(value.to_string())
}

fn missing() -> ConnectorError {
    ConnectorError::MissingRequiredField { field_name: "field" }
}

fn router_data() -> RouterData<u8, u8> {
    RouterData {
        connector: text("checkout"),
        merchant_id: text("merchant"),
        payment_id: text("pay"),
        attempt_id: text("att"),
        status: AttemptStatus::Started,
        payment_method: PaymentMethod::Card,
        auth_type: AuthenticationType::NoThreeDs,
        connector_auth_type: ConnectorAuthType::NoKey,
        billing: BillingDetails { full_name: Err(missing()), country: Err(missing()) },
        payment_method_token: None,
        preprocessing_id: None,
        connector_request_reference_id: text("ref"),
        amount_captured: None,
        refund_id: None,
        dispute_id: None,
        connector_http_status_code: None,
        external_latency: None,
        raw_connector_response: None,
        request: 1,
        response: Ok(2),
    }
}

fn error_response(attempt_status: Option<AttemptStatus>) -> ErrorResponse {
    ErrorResponse {
        code: text("c"),
        message: text("m"),
        reason: None,
        status_code: 400,
        attempt_status,
        connector_transaction_id: None,
        network_advice_code: None,
        network_decline_code: None,
        network_error_message: None,
    }
}

fn begin(
    router_data: RouterData<u8, u8>,
    action: CallConnectorAction,
    connector_request: Option<u8>,
) -> Step<u8, u8, u8> {
    execute_connector_processing_step(StepEvent::Asked { router_data, action, connector_request })
}

fn request_built(
    data: RouterData<u8, u8>,
    built: Result<Option<u8>, ConnectorError>,
) -> Step<u8, u8, u8> {
    execute_connector_processing_step(StepEvent::RequestBuilt { data, built })
}

fn call_finished(
    data: RouterData<u8, u8>,
    outcome: CallOutcome,
    external_latency: u128,
    return_raw_connector_response: Option<bool>,
) -> Step<u8, u8, u8> {
    execute_connector_processing_step(StepEvent::CallFinished {
        data,
        outcome,
        external_latency,
        return_raw_connector_response,
    })
}

fn response_read(
    pending: PendingAnswer,
    handled: Result<RouterData<u8, u8>, ConnectorError>,
) -> Step<u8, u8, u8> {
    execute_connector_processing_step(StepEvent::ResponseRead { pending, handled })
}

fn error_read(
    data: RouterData<u8, u8>,
    server_error: bool,
    error: Result<ErrorResponse, ConnectorError>,
) -> Step<u8, u8, u8> {
    execute_connector_processing_step(StepEvent::ErrorRead { data, server_error, error })
}

#[test]
fn test_mime_essence() {
    assert_eq!(mime::APPLICATION_JSON.essence_str(), "application/json");
}

#[test]
fn client_secrets() {
    let request = PaymentsRequest {
        client_secret: Some(text("pay_secret")),
        all_keys_required: Some(true),
    };
    assert_eq!(request.get_client_secret(), Some(&text("pay_secret")));
    assert_eq!(request.should_return_raw_response(), Some(true));
    let request = PaymentMethodListRequest { client_secret: None };
    assert_eq!(request.get_client_secret(), None);
    assert_eq!(request.should_return_raw_response(), None);
    let request = PaymentsSessionRequest { client_secret: text("s") };
    assert_eq!(request.get_client_secret(), Some(&text("s")));
    let request = PaymentsDynamicTaxCalculationRequest { client_secret: secret("tax") };
    assert_eq!(request.get_client_secret(), Some(&text("tax")));
    let request = PaymentsPostSessionTokensRequest { client_secret: secret("post") };
    assert_eq!(request.get_client_secret(), Some(&text("post")));
    let request = PaymentsRetrieveRequest::V1 { all_keys_required: Some(false) };
    assert_eq!(request.get_client_secret(), None);
    assert_eq!(request.should_return_raw_response(), Some(false));
    let request = PaymentsConfirmIntentRequest { return_raw_connector_response: Some(true) };
    assert_eq!(request.get_client_secret(), None);
    assert_eq!(request.should_return_raw_response(), Some(true));
    let request = PaymentsRetrieveRequest::V2 { return_raw_connector_response: Some(true) };
    assert_eq!(request.get_client_secret(), None);
    assert_eq!(request.should_return_raw_response(), Some(true));
    assert_eq!(PaymentsCancelRequest.get_client_secret(), None);
    assert_eq!(PaymentsCancelRequest.should_return_raw_response(), None);
    assert_eq!(ProxyPaymentsRequest.get_client_secret(), None);
}

#[test]
fn responses_by_status_code() {
    assert!(classify_response(199) == ResponseClass::Unexpected);
    assert!(classify_response(200) == ResponseClass::Success);
    assert!(classify_response(202) == ResponseClass::Success);
    assert!(classify_response(302) == ResponseClass::Success);
    assert!(classify_response(303) == ResponseClass::Unexpected);
    assert!(classify_response(400) == ResponseClass::Failure);
    assert!(classify_response(499) == ResponseClass::Failure);
    assert!(classify_response(500) == ResponseClass::Failure);
    assert!(classify_response(599) == ResponseClass::Failure);
    assert!(classify_response(600) == ResponseClass::Unexpected);
}

#[test]
fn raw_responses() {
    let raw = |status_code: u16, body: Option<Vec<u8>>| {
        Ok(RawResponse { status_code, headers: vec![], body })
    };
    match handle_response(raw(200, Some(vec![1]))) {
        Ok(CallOutcome::Success(response)) => {
            assert_eq!(response.response, vec![1]);
            assert_eq!(response.status_code, 200);
        }
        _ => panic!("a success was expected"),
    }
    assert!(matches!(handle_response(raw(404, Some(vec![2]))), Ok(CallOutcome::Failure(_))));
    assert!(matches!(
        handle_response(raw(200, None)),
        Err(ApiClientError::ResponseDecodingFailed)
    ));
    assert!(matches!(
        handle_response(raw(304, Some(vec![]))),
        Err(ApiClientError::UnexpectedServerResponse)
    ));
    assert!(matches!(
        handle_response(Err(ApiClientError::UpstreamTimeout)),
        Err(ApiClientError::UpstreamTimeout)
    ));
}

#[test]
fn a_status_is_taken_over_without_a_call() {
    let action = CallConnectorAction::StatusUpdate {
        status: AttemptStatus::Voided,
        error_code: Some(text("E1")),
        error_message: None,
    };
    let step = begin(router_data(), action, None);
    match step {
        Step::Finished { result: Ok(data), event } => {
            assert!(data.status == AttemptStatus::Voided);
            assert!(event == EventLog::Silent);
            match data.response {
                Err(error) => {
                    assert_eq!(error.code, "E1");
                    assert_eq!(error.message, "No error message");
                    assert_eq!(error.status_code, 200);
                }
                Ok(_) => panic!("an error was expected"),
            }
        }
        _ => panic!("the step should be the last"),
    }
}

#[test]
fn a_call_that_is_avoided_changes_nothing() {
    let step = begin(router_data(), CallConnectorAction::Avoid, None);
    match step {
        Step::Finished { result: Ok(data), .. } => assert!(data.response.is_ok()),
        _ => panic!("the step should be the last"),
    }
}

#[test]
fn a_stored_response_is_read() {
    let action = CallConnectorAction::HandleResponse(vec![7]);
    let step = begin(router_data(), action, None);
    match step {
        Step::ReadStored { response } => {
            assert_eq!(response.response, vec![7]);
            assert_eq!(response.status_code, 200);
        }
        _ => panic!("the response should be read"),
    }
}

#[test]
fn a_request_is_built_unless_given() {
    let step = begin(router_data(), CallConnectorAction::Trigger, Some(5));
    assert!(matches!(step, Step::CallConnector { request: 5, .. }));
    let step = begin(router_data(), CallConnectorAction::Trigger, None);
    assert!(matches!(step, Step::BuildRequest { .. }));
    let step = request_built(router_data(), Ok(Some(6)));
    assert!(matches!(step, Step::CallConnector { request: 6, .. }));
    let step = request_built(router_data(), Ok(None));
    assert!(matches!(step, Step::Finished { result: Ok(_), .. }));
    let step = request_built(router_data(), Err(missing()));
    assert!(matches!(step, Step::Finished { result: Err(_), .. }));
}

#[test]
fn a_timeout_is_told() {
    let outcome = CallOutcome::ClientError { upstream_timeout: true };
    let step = call_finished(router_data(), outcome, 12, None);
    match step {
        Step::Finished { result: Ok(data), .. } => {
            assert_eq!(data.external_latency, Some(12));
            assert_eq!(data.connector_http_status_code, Some(504));
            match data.response {
                Err(error) => {
                    assert_eq!(error.code, "TIMEOUT");
                    assert_eq!(error.message, "Connector did not respond in specified time");
                    assert_eq!(error.status_code, 504);
                }
                Ok(_) => panic!("an error was expected"),
            }
        }
        _ => panic!("the step should be the last"),
    }
}

#[test]
fn a_failed_client_is_an_error() {
    let outcome = CallOutcome::ClientError { upstream_timeout: false };
    let step = call_finished(router_data(), outcome, 12, None);
    assert!(matches!(
        step,
        Step::Finished { result: Err(ConnectorError::ProcessingStepFailed), .. }
    ));
    let mut data = router_data();
    data.external_latency = Some(u128::MAX);
    let outcome = CallOutcome::ClientError { upstream_timeout: false };
    assert!(matches!(call_finished(data, outcome, 12, None), Step::Finished { result: Err(_), .. }));
}

#[test]
fn an_answer_is_read_with_its_raw_text() {
    let response = Response { headers: None, response: b"{}".to_vec(), status_code: 201 };
    let step =
        call_finished(router_data(), CallOutcome::Success(response), 5, Some(true));
    let pending = match step {
        Step::ReadResponse { pending, .. } => pending,
        _ => panic!("the response should be read"),
    };
    assert_eq!(pending.status_code, 201);
    assert_eq!(pending.external_latency, 5);
    let mut handled = router_data();
    handled.external_latency = Some(3);
    let step = response_read(pending, Ok(handled));
    match step {
        Step::Finished { result: Ok(data), .. } => {
            assert_eq!(data.external_latency, Some(8));
            assert_eq!(data.connector_http_status_code, Some(201));
            assert!(data.raw_connector_response == Some(secret("{}")));
        }
        _ => panic!("the step should be the last"),
    }
}

#[test]
fn text_that_is_not_utf8_is_an_error() {
    let pending = PendingAnswer {
        status_code: 200,
        external_latency: 0,
        raw_response: Some(vec![0xff, 0xfe]),
    };
    let step = response_read(pending, Ok(router_data()));
    assert!(matches!(
        step,
        Step::Finished { result: Err(ConnectorError::ResponseDeserializationFailed), .. }
    ));
}

#[test]
fn leading_marks_are_left_out_of_the_raw_text() {
    let pending = PendingAnswer {
        status_code: 200,
        external_latency: 0,
        raw_response: Some("\u{feff}\u{feff}{}".as_bytes().to_vec()),
    };
    let step = response_read(pending, Ok(router_data()));
    match step {
        Step::Finished { result: Ok(data), .. } => {
            assert!(data.raw_connector_response == Some(secret("{}")));
        }
        _ => panic!("the step should be the last"),
    }
}

#[test]
fn errors_of_the_connector_are_taken_over() {
    let failure = |status_code: u16| {
        CallOutcome::Failure(Response { headers: None, response: vec![], status_code })
    };
    let step = call_finished(router_data(), failure(500), 1, None);
    assert!(matches!(step, Step::ReadError { server_error: true, .. }));
    let step = call_finished(router_data(), failure(422), 1, None);
    let data = match step {
        Step::ReadError { data, server_error: false, .. } => data,
        _ => panic!("the error should be read"),
    };
    assert_eq!(data.connector_http_status_code, Some(422));
    let error = error_response(Some(AttemptStatus::Failure));
    let step = error_read(data, false, Ok(error));
    match step {
        Step::Finished { result: Ok(data), .. } => {
            assert!(data.status == AttemptStatus::Failure);
            assert!(data.response == Err(error_response(Some(AttemptStatus::Failure))));
        }
        _ => panic!("the step should be the last"),
    }
}

#[test]
fn fields_are_found_by_path() {
    let value: serde_json::Value =
        serde_json::from_str(r#"{"a":{"b":[{"c":1},{"c":2}]},"d":null}"#).unwrap();
    assert_eq!(extract_field_by_dot_path(&value, "a.b.1.c"), Some(serde_json::Value::from(2)));
    assert_eq!(extract_field_by_dot_path(&value, "a.b.2.c"), None);
    assert_eq!(extract_field_by_dot_path(&value, "a.b.x"), None);
    assert_eq!(extract_field_by_dot_path(&value, "d"), Some(serde_json::Value::Null));
    assert_eq!(extract_field_by_dot_path(&value, "d.e"), None);
    assert_eq!(extract_field_by_dot_path(&value, "a.b.+1.c"), Some(serde_json::Value::from(2)));
    assert_eq!(extract_field_by_dot_path(&value, ""), None);
}

#[test]
fn paths_compose() {
    let value: serde_json::Value = serde_json::from_str(r#"{"a":{"b":{"c":3}}}"#).unwrap();
    let inner = extract_field_by_dot_path(&value, "a.b").unwrap();
    assert_eq!(
        extract_field_by_dot_path(&inner, "c"),
        extract_field_by_dot_path(&value, "a.b.c"),
    );
}

#[test]
fn mapped_fields_are_collected() {
    let value: serde_json::Value = serde_json::from_str(r#"{"a":{"b":1},"c":"x"}"#).unwrap();
    let mapping = vec![(text("a.b"), text("one")), (text("c"), text("two")), (text("z"), text("no"))];
    let expected: serde_json::Value = serde_json::from_str(r#"{"one":1,"two":"x"}"#).unwrap();
    assert_eq!(extract_mapped_fields(&value, Some(&mapping), &None), Some(expected));
    let existing: serde_json::Value = serde_json::from_str(r#"{"old":true,"two":0}"#).unwrap();
    let expected: serde_json::Value =
        serde_json::from_str(r#"{"old":true,"one":1,"two":"x"}"#).unwrap();
    assert_eq!(
        extract_mapped_fields(&value, Some(&mapping), &Some(existing.clone())),
        Some(expected),
    );
    assert_eq!(extract_mapped_fields(&value, None, &Some(existing.clone())), None);
    assert_eq!(
        extract_mapped_fields(&value, Some(&vec![]), &Some(existing.clone())),
        Some(existing),
    );
    let nothing = vec![(text("z"), text("no"))];
    assert_eq!(extract_mapped_fields(&value, Some(&nothing), &None), None);
    let reversed = vec![(text("c"), text("two")), (text("a.b"), text("one"))];
    let straight = vec![(text("a.b"), text("one")), (text("c"), text("two"))];
    assert_eq!(
        extract_mapped_fields(&value, Some(&reversed), &None),
        extract_mapped_fields(&value, Some(&straight), &None),
    );
}

fn header(name: &str, value: &str) -> HeaderEntry {
    HeaderEntry { name: text(name), value: text(value), sensitive: false }
}

#[test]
fn headers_are_appended_or_replaced() {
    let mut list = vec![header("a", "1"), header("b", "2")];
    append_header(&mut list, header("a", "3"));
    assert_eq!(list.len(), 3);
    insert_header(&mut list, header("a", "4"));
    assert_eq!(list.len(), 2);
    assert!(list.iter().any(|entry| entry.name == "a" && entry.value == "4"));
    assert!(list.iter().any(|entry| entry.name == "b" && entry.value == "2"));
}

fn header_value(headers: &[HeaderEntry], name: &str) -> Option<String> {
    headers.iter().find(|entry| entry.name == name).map(|entry| entry.value.clone())
}

#[test]
fn simple_responses() {
    let response = http_response_json(text("{}"));
    assert_eq!(response.status, 200);
    assert_eq!(header_value(&response.headers, "content-type"), Some(text("application/json")));
    assert!(matches!(response.body, ResponseBody::Payload(body) if body == "{}"));

    let response = http_server_error_json_response(ResponseBody::Payload(text("e")));
    assert_eq!(response.status, 500);

    let response = http_response_plaintext(text("hello"));
    assert_eq!(header_value(&response.headers, "content-type"), Some(text("text/plain")));

    let response = http_response_file_data(vec![1u8], text("image/png"));
    assert_eq!(header_value(&response.headers, "content-type"), Some(text("image/png")));

    let response = http_response_ok::<String>();
    assert_eq!(response.status, 200);
    assert!(matches!(response.body, ResponseBody::Empty));

    let response = http_response_err(ResponseBody::Payload(text("bad")));
    assert_eq!(response.status, 400);
    assert_eq!(header_value(&response.headers, "content-type"), Some(text("application/json")));
}

#[test]
fn redirects_name_their_place() {
    let response = http_redirect_response(text("{}"), text("https://shop.example/?a=b"));
    assert_eq!(response.status, 302);
    assert_eq!(header_value(&response.headers, "location"), Some(text("https://shop.example/?a=b")));
    let response = http_redirect_response(text("{}"), text("https://shop.example/\n"));
    assert_eq!(response.status, 500);
}

#[test]
fn pages_carry_more_headers() {
    let response = http_response_html_data(
        text("<p>"),
        Some(vec![("x-frame-options", text("deny")), ("x-other", text("bad\u{7f}"))]),
    );
    assert_eq!(response.status, 200);
    assert_eq!(header_value(&response.headers, "content-type"), Some(text("text/html")));
    assert_eq!(header_value(&response.headers, "x-frame-options"), Some(text("deny")));
    assert_eq!(header_value(&response.headers, "x-other"), None);
}

#[test]
fn latency_is_told_without_the_external_part() {
    let headers = vec![
        (text("x-hs-latency"), Maskable::Normal(text("30"))),
        (text("X-Custom"), Maskable::Masked(secret("v"))),
    ];
    assert!(check_latencies(&headers, Some(100)));
    assert!(!check_latencies(&headers, Some(10)));
    let response = http_response_json_with_headers(text("{}"), headers, Some(100));
    assert_eq!(response.status, 200);
    assert_eq!(header_value(&response.headers, "x-hs-latency"), Some(text("70")));
    assert_eq!(header_value(&response.headers, "x-custom"), Some(text("v")));
    let custom = response.headers.iter().find(|entry| entry.name == "x-custom").unwrap();
    assert!(custom.sensitive);
}

#[test]
fn headers_that_cannot_be_sent_are_refused() {
    let headers = vec![(text("x-a"), Maskable::Normal(text("line\nbreak")))];
    let response = http_response_json_with_headers(text("{}"), headers, None);
    assert_eq!(response.status, 500);
    let headers = vec![(text("not a name"), Maskable::Normal(text("v")))];
    let response = http_response_json_with_headers(text("{}"), headers, None);
    assert_eq!(response.status, 500);
}

#[test]
fn header_names_in_lower_case() {
    let sent = |name: String| {
        let headers = vec![(name, Maskable::Normal(text("v")))];
        http_response_json_with_headers(text("{}"), headers, None)
    };
    for (name, expected) in [("X-Upper-CASE", "x-upper-case"), ("!\"#$%&'*+-.^_`|~09Az", "!\"#$%&'*+-.^_`|~09az")] {
        let response = sent(text(name));
        assert_eq!(response.status, 200);
        assert_eq!(header_value(&response.headers, expected), Some(text("v")));
    }
    for name in ["", "a b", "a:b", "(a)", "a,b", "a/b", "[a]", "{a}", "a@b", "caf\u{e9}", "a\u{7f}"] {
        assert_eq!(sent(text(name)).status, 500);
    }
    let long = "A".repeat(65535);
    let response = sent(long.clone());
    assert_eq!(response.status, 200);
    assert_eq!(header_value(&response.headers, &"a".repeat(65535)), Some(text("v")));
    assert_eq!(sent(long + "a").status, 500);
}

#[test]
fn tenants() {
    let lookup = |enabled: bool, header: Option<&str>, known: Option<&str>, stored: Option<&str>| {
        TenantLookup {
            multitenancy_enabled: enabled,
            default_tenant: Some(text("public")),
            header: header.map(text),
            header_tenant: known.map(text),
            configured_tenant: stored.map(text),
        }
    };
    assert_eq!(default_tenant_id(), "public");
    assert_eq!(resolve_tenant(lookup(false, None, None, Some("public"))), Ok(text("public")));
    assert_eq!(
        resolve_tenant(lookup(true, Some("t1"), Some("t1"), Some("t1"))),
        Ok(text("t1")),
    );
    assert_eq!(
        resolve_tenant(lookup(true, None, None, None)),
        Err(ApiErrorResponse::MissingTenantId),
    );
    assert_eq!(
        resolve_tenant(lookup(true, Some("t1"), Some("t1"), None)),
        Err(ApiErrorResponse::InvalidTenant { tenant_id: text("t1") }),
    );
}

#[test]
fn a_lock_is_released_when_the_handler_fails() {
    let authenticated = WrapOutcome::Authenticated { merchant_id: text("m1") };
    let state = server_wrap_util(WrapState::Authenticate, authenticated, true);
    assert!(state == WrapState::AcquireLock { merchant_id: text("m1") });
    let state = server_wrap_util(state, WrapOutcome::Done, true);
    assert!(state == WrapState::RunHandler { merchant_id: text("m1") });
    let state = server_wrap_util(state, WrapOutcome::Failed, true);
    assert!(state == WrapState::ReleaseLock { merchant_id: text("m1"), handler_failed: true });
    let state = server_wrap_util(state, WrapOutcome::Done, true);
    assert!(state == WrapState::LogEvent);
}

#[test]
fn the_handler_does_not_run_without_the_lock() {
    let acquire = WrapState::AcquireLock { merchant_id: text("m1") };
    let state = server_wrap_util(acquire, WrapOutcome::Failed, true);
    assert!(state == WrapState::StepError);
    let release = WrapState::ReleaseLock { merchant_id: text("m1"), handler_failed: false };
    let state = server_wrap_util(release, WrapOutcome::Failed, true);
    assert!(state == WrapState::StepError);
    let state = server_wrap_util(WrapState::Authenticate, WrapOutcome::Failed, true);
    assert!(state == WrapState::StepError);
}

#[test]
fn latencies_are_read_from_headers() {
    let headers = vec![
        (text("other"), Maskable::Normal(text("1"))),
        (text("x-hs-latency"), Maskable::Normal(text("42"))),
    ];
    assert_eq!(overhead_latency(&headers), Some(42));
    let headers = vec![(text("x-hs-latency"), Maskable::Normal(text("soon")))];
    assert_eq!(overhead_latency(&headers), None);
    assert_eq!(requested_duration(&Some(text("true")), 9), Some(9));
    assert_eq!(requested_duration(&Some(text("false")), 9), None);
    assert_eq!(requested_duration(&None, 9), None);
}

#[test]
fn event_types_in_order() {
    assert_eq!(choose_event_type(Some(1), Some(2), 3), 1);
    assert_eq!(choose_event_type(None, Some(2), 3), 2);
    assert_eq!(choose_event_type(None, None, 3), 3);
}

#[test]
fn logged_headers_are_masked() {
    let headers = vec![header("accept", "text/html"), header("api-key", "secret")];
    let logged = headers_to_log(&headers, &vec![text("accept")]);
    assert_eq!(logged.len(), 2);
    assert_eq!(logged[0].value, "text/html");
    assert_eq!(logged[1].value, "**MASKED**");
    let mut names: Vec<&str> = logged.iter().map(|entry| entry.name.as_str()).collect();
    names.sort();
    let mut expected: Vec<&str> = headers.iter().map(|entry| entry.name.as_str()).collect();
    expected.sort();
    expected.dedup();
    assert_eq!(names, expected);
}

#[test]
fn errors_tell_how_they_came_about_where_asked() {
    let report = |detailed_errors, error_trace| ErrorReport {
        error: ApiErrorResponse::MissingTenantId,
        stacktrace: None,
        error_trace,
        detailed_errors,
    };
    let trace = || Some(serde_json::Value::from("trace"));
    let told = report(true, trace()).embed();
    assert_eq!(told.error, ApiErrorResponse::MissingTenantId);
    assert_eq!(told.stacktrace, trace());
    assert_eq!(report(false, trace()).embed().stacktrace, None);
    assert_eq!(report(true, None).embed().stacktrace, None);
    assert_eq!(ApiErrorResponse::MissingTenantId.embed(), ApiErrorResponse::MissingTenantId);
}

fn urls() -> ConnectorUrls {
    ConnectorUrls {
        bluesnap_secondary_base_url: text("https://bluesnap.example/"),
        mifinity_base_url: text("https://mifinity.example/"),
    }
}

fn page(form: RedirectForm) -> String {
    build_redirection_form(&form, &None, "100", "USD", &urls(), "/* log */")
}

#[test]
fn forms_are_escaped() {
    let written = page(RedirectForm::Form {
        endpoint: text("https://acs.example/?a=1&b=2"),
        method: Method::Post,
        form_fields: vec![(text("<name>"), text("plain")), (text("n"), text("a&b\"c"))],
    });
    assert!(written.starts_with("<!DOCTYPE html>"));
    assert!(written.contains("action=\"https://acs.example/?a=1&b=2\""));
    assert!(written.contains("method=\"POST\""));
    assert!(written.contains("name=\"&lt;name&gt;\""));
    assert!(written.contains("value=\"plain\""));
    assert!(written.contains("<input type=\"hidden\" name=\"n\" value=\"a&amp;b&quot;c\">"));
    assert!(written.contains("/* log */"));
}

#[test]
fn pages_of_connectors() {
    let written = page(RedirectForm::Html { html_data: text("<b>hi</b>") });
    assert!(written.contains("<b>hi</b>"));
    let written = page(RedirectForm::Mifinity { initialization_token: text("tok") });
    assert!(written.contains("https://mifinity.example/widgets/sgpg.js"));
    assert!(written.contains("tok"));
    let written = page(RedirectForm::Payme);
    assert!(written.contains("hostedfields.js"));
    let written = page(RedirectForm::CybersourceAuthSetup {
        access_token: text("jwt"),
        ddc_url: text("https://ddc.example"),
        reference_id: text("r1"),
    });
    assert!(written.contains("action=\"https://ddc.example\""));
    assert!(written.contains("jwt"));
    assert!(written.contains("r1"));
    let written = page(RedirectForm::CybersourceConsumerAuth {
        access_token: text("jwt"),
        step_up_url: text("https://up.example"),
    });
    assert!(written.contains("step-up-form"));
    let written = page(RedirectForm::DeutschebankThreeDSChallengeFlow {
        acs_url: text("https://acs.example"),
        creq: text("creq1"),
    });
    assert!(written.contains("PaReqForm"));
    assert!(written.contains("creq1"));
    let written = page(RedirectForm::Braintree {
        client_token: text("ct"),
        card_token: text("card"),
        bin: text("411111"),
        acs_url: text("https://acs.example"),
    });
    assert!(written.contains("411111"));
    assert!(written.contains("100"));
    let written = page(RedirectForm::Nmi {
        amount: text("7.00"),
        currency: text("EUR"),
        public_key: secret("pk"),
        customer_vault_id: text("vault"),
        order_id: text("order"),
    });
    assert!(written.contains("Gateway.js"));
    assert!(written.contains("7.00"));
    assert!(written.contains("vault"));
}

#[test]
fn bluesnap_takes_the_card_code() {
    let card = Card {
        card_number: secret("4111111111111111"),
        card_exp_month: secret("03"),
        card_exp_year: secret("2030"),
        card_cvc: secret("737"),
        expiry_month_year: Err(missing()),
    };
    let form = RedirectForm::BlueSnap { payment_fields_token: text("pft") };
    let written = build_redirection_form(
        &form,
        &Some(PaymentMethodData::Card(card)),
        "100",
        "USD",
        &urls(),
        "",
    );
    assert!(written.contains("https://bluesnap.example/web-sdk/5/bluesnap.js"));
    assert!(written.contains("var saveCardDirectly={cvv: \"737\",amount: 100,currency: \"USD\"};"));
    let written = build_redirection_form(&form, &None, "100", "USD", &urls(), "");
    assert!(!written.contains("cvv: \"737\""));
}

#[test]
fn device_data_is_collected_from_one_host() {
    let written = page(RedirectForm::WorldpayDDCForm {
        endpoint: WebUrl::parse("https://centinel.example:8443/collect?x=1").unwrap(),
        method: Method::Post,
        form_fields: vec![],
        collection_id: Some(text("SessionId")),
    });
    assert!(written.contains("\"https://centinel.example\""));
    assert!(written.contains("SessionId"));
}

#[test]
fn urls_are_taken_apart() {
    let url = WebUrl::parse("HTTPS://Shop.Example/path").unwrap();
    assert_eq!(url.text, "https://shop.example/path");
    assert_eq!(url.scheme, "https");
    assert_eq!(url.host, Some(text("shop.example")));
    assert_eq!(url.port, None);
    assert_eq!(url.allowed_host(), "https://shop.example");
    let url = WebUrl::parse("http://shop.example:81/").unwrap();
    assert_eq!(url.port, Some(81));
    assert_eq!(url.allowed_host(), "http://shop.example");
    let url = WebUrl::parse("mailto:a/b/c/d").unwrap();
    assert_eq!(url.host, None);
    assert_eq!(url.allowed_host(), "mailto:a/b/c");
    assert!(WebUrl::parse("no url").is_none());
}

fn assets() -> PaymentLinkAssets {
    PaymentLinkAssets {
        css_template: text("css:{{ css_color_scheme }}"),
        js_template: text("js:{{ payment_details_js_script }}"),
        html_template: text(
            "[{{ hyperloader_sdk_link }}|{{ rendered_css }}|{{ rendered_js }}|{{ payment_link_initiator }}]",
        ),
        status_css_template: text("scss:{{ css_color_scheme }}"),
        status_js_template: text("sjs:{{ payment_details_js_script }}"),
        status_html_template: text("<{{ rendered_css }}|{{ rendered_js }}>"),
        locale_template: text("locale"),
        logging_template: text("logging"),
        payment_link_initiator: text("open"),
        secure_payment_link_initiator: text("secure"),
    }
}

fn link_data() -> PaymentLinkFormData {
    PaymentLinkFormData {
        js_script: text("window.x=1;"),
        css_script: text("red"),
        sdk_url: WebUrl::parse("https://sdk.example/v1/HyperLoader.js").unwrap(),
        html_meta_tags: text("<meta>"),
    }
}

#[test]
fn sdk_urls() {
    let url = WebUrl::parse("http://localhost:9050/HyperLoader.js").unwrap();
    assert_eq!(get_sdk_origin(&url), Ok(text("http://localhost:9050")));
    let url = WebUrl::parse("http://localhost/HyperLoader.js").unwrap();
    assert_eq!(get_sdk_origin(&url), Err(ApiErrorResponse::InternalServerError));
    let url = WebUrl::parse("https://sdk.example:8443/v1/HyperLoader.js").unwrap();
    assert_eq!(get_sdk_origin(&url), Ok(text("https://sdk.example")));
    let url = WebUrl::parse("https://sdk.example/v1/HyperLoader.js").unwrap();
    assert_eq!(get_sdk_origin(&url), Ok(text("https://sdk.example")));
    assert!(get_hyper_loader_sdk(&url).contains("https://sdk.example/v1/HyperLoader.js"));
    assert!(get_preload_link_html_template(&url).contains("https://sdk.example/v1/HyperLoader.js"));
    let hostless = WebUrl::parse("data:text/plain,x").unwrap();
    assert_eq!(get_sdk_origin(&hostless), Err(ApiErrorResponse::InternalServerError));
}

#[test]
fn payment_links_are_rendered() {
    let draft = build_payment_link_template(&link_data(), &assets());
    assert!(draft.is_ok());
    assert!(assets().check_plain());
    let open = build_payment_link_html(&link_data(), &assets()).unwrap();
    assert!(open.starts_with("["));
    assert!(open.contains("css:red"));
    assert!(open.contains("window.x=1;"));
    assert!(open.contains("|open]"));
    let secure = build_secure_payment_link_html(&link_data(), &assets()).unwrap();
    assert!(secure.contains("|secure]"));
    let status = PaymentLinkStatusData { js_script: text("s()"), css_script: text("blue") };
    let page = get_payment_link_status(&status, &assets()).unwrap();
    assert!(page.contains("scss:blue"));
    assert!(page.contains("s()"));
}

#[test]
fn templates_that_ask_for_more_are_not_plain() {
    let mut with_block = assets();
    with_block.html_template = text("{% if true %}x{% endif %}");
    assert!(!with_block.check_plain());
    let mut with_call = assets();
    with_call.status_js_template = text("{{ get_env(name=\"HOME\") }}");
    assert!(!with_call.check_plain());
    let mut open = assets();
    open.css_template = text("a {{ b");
    assert!(!open.check_plain());
    let mut sum = assets();
    sum.css_template = text("{{ a + b }}");
    assert!(!sum.check_plain());
    for text_of_two in ["{{ a and b }}", "{{ not a }}", "{{ 1a }}", "{{ }}", "{{a b}}"] {
        let mut computed = assets();
        computed.css_template = text(text_of_two);
        assert!(!computed.check_plain());
    }
    for name in ["{{a}}", "{{  a_1 }}", "{{_b9}}"] {
        let mut named = assets();
        named.css_template = text(name);
        assert!(named.check_plain());
    }
    let mut style = assets();
    style.css_template = text("p { margin: 0 } {{ css_color_scheme }}");
    assert!(style.check_plain());
}

#[test]
fn unknown_names_in_a_template_are_an_error() {
    let mut broken = assets();
    broken.html_template = text("{{ nowhere }}");
    assert_eq!(
        build_payment_link_html(&link_data(), &broken),
        Err(ApiErrorResponse::InternalServerError),
    );
}

fn settings() -> AnswerSettings {
    AnswerSettings {
        urls: urls(),
        assets: assets(),
        redirect_logging_template: text("log"),
    }
}

fn body_text(body: ResponseBody<Payload>) -> String {
    match body {
        ResponseBody::Payload(Payload::Text(body)) => body,
        ResponseBody::Payload(Payload::Bytes(bytes)) => String::from_utf8(bytes).unwrap(),
        ResponseBody::Text(body) => text(body),
        ResponseBody::Empty => String::new(),
    }
}

#[test]
fn answers() {
    let response = server_wrap(ApplicationResponse::Json { body: Some(text("{}")) }, &settings(), None);
    assert_eq!(response.status, 200);
    assert_eq!(body_text(response.body), "{}");

    let response = server_wrap(ApplicationResponse::Json { body: None }, &settings(), None);
    assert_eq!(response.status, 400);
    assert!(body_text(response.body).contains("Error serializing response from connector"));

    let response = server_wrap(ApplicationResponse::StatusOk, &settings(), None);
    assert_eq!(response.status, 200);

    let response = server_wrap(ApplicationResponse::TextPlain(text("hi")), &settings(), None);
    assert_eq!(body_text(response.body), "hi");

    let response = server_wrap(
        ApplicationResponse::FileData { data: vec![65], content_type: text("text/csv") },
        &settings(),
        None,
    );
    assert_eq!(header_value(&response.headers, "content-type"), Some(text("text/csv")));

    let form = RedirectionFormData {
        redirect_form: RedirectForm::Payme,
        payment_method_data: None,
        amount: text("1"),
        currency: text("USD"),
    };
    let response = server_wrap(ApplicationResponse::Form(form), &settings(), None);
    assert_eq!(
        header_value(&response.headers, "content-type"),
        Some(text("text/html; charset=utf-8")),
    );
    assert!(body_text(response.body).contains("hostedfields.js"));

    let link = PaymentLinkAction::PaymentLinkFormData(link_data());
    let response = server_wrap(ApplicationResponse::PaymentLinkForm(link), &settings(), None);
    assert!(body_text(response.body).contains("|open]"));

    let status = PaymentLinkStatusData { js_script: text("s()"), css_script: text("blue") };
    let link = PaymentLinkAction::PaymentLinkStatus(status);
    let response = server_wrap(ApplicationResponse::PaymentLinkForm(link), &settings(), None);
    assert!(body_text(response.body).contains("scss:blue"));
}

#[test]
fn only_payment_links_need_plain_templates() {
    let mut settings = settings();
    settings.assets.html_template = text("{% if a %}{{ a }}{% endif %}");
    assert!(!settings.assets.check_plain());
    let response = server_wrap(ApplicationResponse::TextPlain(text("hi")), &settings, None);
    assert_eq!(response.status, 200);
    assert_eq!(body_text(response.body), "hi");
}

#[test]
fn generic_links_say_who_may_frame_them() {
    let response = server_wrap(
        ApplicationResponse::GenericLinkForm {
            link_type: text("payout_link"),
            html: Some(text("<p>link</p>")),
            allowed_domains: vec![text("https://a.example"), text("https://b.example")],
        },
        &settings(),
        None,
    );
    assert_eq!(response.status, 200);
    assert_eq!(
        header_value(&response.headers, "content-security-policy"),
        Some(text("frame-ancestors 'self' https://a.example https://b.example;")),
    );
    assert_eq!(body_text(response.body), "<p>link</p>");
}

#[test]
fn redirections_and_headers() {
    let response = server_wrap(
        ApplicationResponse::JsonForRedirection {
            body: Some(text("{}")),
            return_url_with_query_params: text("https://shop.example/?s=ok"),
        },
        &settings(),
        None,
    );
    assert_eq!(header_value(&response.headers, "location"), Some(text("https://shop.example/?s=ok")));
    let response = server_wrap(
        ApplicationResponse::JsonWithHeaders {
            body: Some(text("{}")),
            headers: vec![(text("x-request-id"), Maskable::Normal(text("r1")))],
        },
        &settings(),
        Some(4),
    );
    assert_eq!(header_value(&response.headers, "x-request-id"), Some(text("r1")));
}

#[test]
fn currencies_are_copied() {
    let usd = Currency { code: text("USD") };
    assert!(usd.clone() == usd);
}
