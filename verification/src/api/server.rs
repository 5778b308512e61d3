//! Serving a request: from its header fields to the answer.
use vstd::prelude::*;
use crate::api::payment_link::{build_payment_link_html, get_payment_link_status, PaymentLinkAssets, PaymentLinkFormData, PaymentLinkStatusData};
use crate::api::redirection::{build_redirection_form, ConnectorUrls};
use crate::api::response::{http_redirect_response, http_response_err, http_response_file_data, http_response_html_data, http_response_json, http_response_json_with_headers, http_response_ok, http_response_plaintext, HttpResponse, ResponseBody};
use crate::api::headers::HeaderEntry;
use crate::consts::{DEFAULT_TENANT, MASKED_HEADER, X_HS_LATENCY, X_TENANT_ID};
use crate::errors::ApiErrorResponse;
use crate::payment_data::PaymentMethodData;
use crate::router_data::RedirectForm;
use crate::secret::Maskable;
use crate::text::{concat3, join_texts, parse_u128, same_text};

verus! {

/// Who a request comes from.
#[derive(Clone, Copy, Debug, PartialEq, Eq, Structural)]
pub enum AuthFlow {
    Client,
    Merchant,
}

/// An answer that sends the client on.
#[derive(Debug, PartialEq, Eq)]
pub struct ApplicationRedirectResponse {
    pub url: String,
}

/// An error that can be made ready for the client.
pub trait EmbedError: Sized {
    /// Makes the error ready.
    fn embed(self) -> (res: Self)
        default_ensures
            res == self,
    {
        self
    }
}

impl EmbedError for ApiErrorResponse {

}

/// An error that a request ended in, with what a client may be told of how it came about.
pub struct ErrorReport {
    pub error: ApiErrorResponse,
    /// How the error came about, as the client is told.
    pub stacktrace: Option<serde_json::Value>,
    /// How the error came about, where that can be written.
    pub error_trace: Option<serde_json::Value>,
    /// Whether clients are told how errors came about.
    pub detailed_errors: bool,
}

impl EmbedError for ErrorReport {
    fn embed(self) -> (res: Self)
        ensures
            res.error == self.error,
            res.error_trace == self.error_trace,
            res.detailed_errors == self.detailed_errors,
            res.stacktrace == (if self.detailed_errors {
                self.error_trace
            } else {
                self.stacktrace
            }),
    {
        let stacktrace = if self.detailed_errors {
            crate::json::clone_optional_json(&self.error_trace)
        } else {
            self.stacktrace
        };
        ErrorReport { stacktrace, ..self }
    }
}

// ---------------------------------------------------------------------------
// Tenants
// ---------------------------------------------------------------------------

/// What is known about the tenant of a request.
pub struct TenantLookup {
    /// Whether requests name their tenant.
    pub multitenancy_enabled: bool,
    /// The default tenant, where its id is valid.
    pub default_tenant: Option<String>,
    /// The tenant that the header field names, where it is there and readable.
    pub header: Option<String>,
    /// The header field as a tenant id, where it is valid.
    pub header_tenant: Option<String>,
    /// The configured tenant of that id, where there is one.
    pub configured_tenant: Option<String>,
}

/// Finds the tenant of a request.
pub fn resolve_tenant(lookup: TenantLookup) -> (res: Result<String, ApiErrorResponse>)
    ensures
        if !lookup.multitenancy_enabled {
            match lookup.default_tenant {
                Some(tenant) => res == Ok::<String, ApiErrorResponse>(tenant),
                None => res == Err::<String, ApiErrorResponse>(
                    ApiErrorResponse::InternalServerError,
                ),
            }
        } else if lookup.header is None {
            res == Err::<String, ApiErrorResponse>(ApiErrorResponse::MissingTenantId)
        } else {
            match (lookup.header_tenant, lookup.configured_tenant) {
                (None, _) => res matches Err(ApiErrorResponse::InvalidRequestData { message })
                    && message@ == "`"@ + X_TENANT_ID@ + "` header is invalid"@,
                (Some(tenant_id), None) => res == Err::<String, ApiErrorResponse>(
                    ApiErrorResponse::InvalidTenant { tenant_id },
                ),
                (Some(_), Some(tenant)) => res == Ok::<String, ApiErrorResponse>(tenant),
            }
        },
{
    if !lookup.multitenancy_enabled {
        return match lookup.default_tenant {
            Some(tenant) => Ok(tenant),
            None => Err(ApiErrorResponse::InternalServerError),
        };
    }
    if lookup.header.is_none() {
        return Err(ApiErrorResponse::MissingTenantId);
    }
    match lookup.header_tenant {
        None => Err(
            ApiErrorResponse::InvalidRequestData {
                message: concat3("`", X_TENANT_ID, "` header is invalid"),
            },
        ),
        Some(tenant_id) => match lookup.configured_tenant {
            None => Err(ApiErrorResponse::InvalidTenant { tenant_id }),
            Some(tenant) => Ok(tenant),
        },
    }
}

/// The id of the tenant that is used where requests do not name theirs.
pub fn default_tenant_id() -> (res: String)
    ensures
        res@ == DEFAULT_TENANT@,
{
    DEFAULT_TENANT.to_string()
}

// ---------------------------------------------------------------------------
// The order of work
// ---------------------------------------------------------------------------

/// The work that is done for a request, in order. From authentication to the release of the
/// lock, the merchant for whom it is done is remembered.
#[derive(Debug, PartialEq, Eq)]
#[allow(inconsistent_fields)]
pub enum WrapState {
    ExtractRequestId,
    SerializeRequest,
    ResolveTenant,
    OpenSession,
    Authenticate,
    AcquireLock { merchant_id: String },
    RunHandler { merchant_id: String },
    ReleaseLock { merchant_id: String, handler_failed: bool },
    SerializeResponse,
    LogEvent,
    /// All is done: the output of the handler is the result.
    Finished,
    /// The result is an error of the switch.
    InternalError,
    /// The result is the error that the last work ended in.
    StepError,
}

/// What the work of a state led to.
#[derive(Debug, PartialEq, Eq)]
pub enum WrapOutcome {
    Done,
    /// The client was authenticated. The id is the one of the merchant, or the one that stands
    /// for none.
    Authenticated { merchant_id: String },
    Failed,
}

/// Whether an outcome can be the one of a state's work.
pub open spec fn outcome_fits(state: WrapState, outcome: WrapOutcome) -> bool {
    state is Authenticate && outcome is Authenticated || state !is Authenticate && outcome is Done
        || outcome is Failed
}

/// The state after the work of another.
pub open spec fn next_state(state: WrapState, outcome: WrapOutcome, json_output: bool) -> WrapState {
    match (state, outcome) {
        (WrapState::ExtractRequestId, WrapOutcome::Done) => WrapState::SerializeRequest,
        (WrapState::ExtractRequestId, WrapOutcome::Failed) => WrapState::InternalError,
        (WrapState::SerializeRequest, WrapOutcome::Done) => WrapState::ResolveTenant,
        (WrapState::SerializeRequest, WrapOutcome::Failed) => WrapState::InternalError,
        (WrapState::ResolveTenant, WrapOutcome::Done) => WrapState::OpenSession,
        (WrapState::OpenSession, WrapOutcome::Done) => WrapState::Authenticate,
        (WrapState::Authenticate, WrapOutcome::Authenticated { merchant_id }) => {
            WrapState::AcquireLock { merchant_id }
        },
        (WrapState::AcquireLock { merchant_id }, WrapOutcome::Done) => WrapState::RunHandler {
            merchant_id,
        },
        (WrapState::RunHandler { merchant_id }, _) => WrapState::ReleaseLock {
            merchant_id,
            handler_failed: outcome is Failed,
        },
        (WrapState::ReleaseLock { handler_failed, .. }, WrapOutcome::Done) => if !handler_failed
            && json_output {
            WrapState::SerializeResponse
        } else {
            WrapState::LogEvent
        },
        (WrapState::SerializeResponse, WrapOutcome::Done) => WrapState::LogEvent,
        (WrapState::SerializeResponse, WrapOutcome::Failed) => WrapState::InternalError,
        (WrapState::LogEvent, _) => WrapState::Finished,
        (WrapState::Finished, _) => WrapState::Finished,
        (WrapState::InternalError, _) => WrapState::InternalError,
        _ => WrapState::StepError,
    }
}

/// Goes on with a request after the work of a state. `json_output` tells whether the
/// handler's output is JSON, which is also written to the log.
pub fn server_wrap_util(state: WrapState, outcome: WrapOutcome, json_output: bool) -> (res: WrapState)
    requires
        outcome_fits(state, outcome),
    ensures
        res == next_state(state, outcome, json_output),
{
    match outcome {
        WrapOutcome::Authenticated { merchant_id } => WrapState::AcquireLock { merchant_id },
        WrapOutcome::Done => match state {
            WrapState::ExtractRequestId => WrapState::SerializeRequest,
            WrapState::SerializeRequest => WrapState::ResolveTenant,
            WrapState::ResolveTenant => WrapState::OpenSession,
            WrapState::OpenSession => WrapState::Authenticate,
            WrapState::Authenticate => WrapState::StepError,
            WrapState::AcquireLock { merchant_id } => WrapState::RunHandler { merchant_id },
            WrapState::RunHandler { merchant_id } => WrapState::ReleaseLock {
                merchant_id,
                handler_failed: false,
            },
            WrapState::ReleaseLock { handler_failed, .. } => {
                if !handler_failed && json_output {
                    WrapState::SerializeResponse
                } else {
                    WrapState::LogEvent
                }
            },
            WrapState::SerializeResponse => WrapState::LogEvent,
            WrapState::LogEvent => WrapState::Finished,
            WrapState::Finished => WrapState::Finished,
            WrapState::InternalError => WrapState::InternalError,
            WrapState::StepError => WrapState::StepError,
        },
        WrapOutcome::Failed => match state {
            WrapState::ExtractRequestId => WrapState::InternalError,
            WrapState::SerializeRequest => WrapState::InternalError,
            WrapState::RunHandler { merchant_id } => WrapState::ReleaseLock {
                merchant_id,
                handler_failed: true,
            },
            WrapState::SerializeResponse => WrapState::InternalError,
            WrapState::LogEvent => WrapState::Finished,
            WrapState::Finished => WrapState::Finished,
            WrapState::InternalError => WrapState::InternalError,
            _ => WrapState::StepError,
        },
    }
}

/// The states that a request goes through, one more than there are outcomes.
pub open spec fn wrap_run(outcomes: Seq<(WrapOutcome, bool)>) -> Seq<WrapState>
    decreases outcomes.len(),
{
    if outcomes.len() == 0 {
        seq![WrapState::ExtractRequestId]
    } else {
        let before = wrap_run(outcomes.drop_last());
        before.push(next_state(before.last(), outcomes.last().0, outcomes.last().1))
    }
}

proof fn lemma_wrap_run(outcomes: Seq<(WrapOutcome, bool)>, i: int)
    requires
        0 <= i < outcomes.len(),
    ensures
        wrap_run(outcomes).len() == outcomes.len() + 1,
        wrap_run(outcomes)[0] == WrapState::ExtractRequestId,
        wrap_run(outcomes)[i + 1] == next_state(
            wrap_run(outcomes)[i],
            outcomes[i].0,
            outcomes[i].1,
        ),
    decreases outcomes.len(),
{
    let shorter = outcomes.drop_last();
    lemma_wrap_run_len(shorter);
    if i < outcomes.len() - 1 {
        lemma_wrap_run(shorter, i);
        assert(shorter[i] == outcomes[i]);
        assert(wrap_run(outcomes)[i] == wrap_run(shorter)[i]);
        assert(wrap_run(outcomes)[i + 1] == wrap_run(shorter)[i + 1]);
    }
}

proof fn lemma_wrap_run_len(outcomes: Seq<(WrapOutcome, bool)>)
    ensures
        wrap_run(outcomes).len() == outcomes.len() + 1,
        wrap_run(outcomes)[0] == WrapState::ExtractRequestId,
    decreases outcomes.len(),
{
    if outcomes.len() > 0 {
        lemma_wrap_run_len(outcomes.drop_last());
    }
}

/// Whatever the handler led to, the lock that it ran under is released next, for the merchant
/// for whom the handler ran.
pub proof fn law_lock_is_released(outcomes: Seq<(WrapOutcome, bool)>, i: int)
    requires
        0 <= i < outcomes.len(),
        wrap_run(outcomes)[i] is RunHandler,
    ensures
        wrap_run(outcomes)[i + 1] == (WrapState::ReleaseLock {
            merchant_id: wrap_run(outcomes)[i]->RunHandler_merchant_id,
            handler_failed: outcomes[i].0 is Failed,
        }),
{
    lemma_wrap_run(outcomes, i);
}

/// The handler runs only after the client was authenticated and the lock acquired, both for
/// the same merchant.
pub proof fn law_handler_runs_locked(outcomes: Seq<(WrapOutcome, bool)>, i: int)
    requires
        0 <= i <= outcomes.len(),
        wrap_run(outcomes)[i] is RunHandler,
    ensures
        i >= 2,
        ({
            let merchant_id = wrap_run(outcomes)[i]->RunHandler_merchant_id;
            &&& wrap_run(outcomes)[i - 1] == (WrapState::AcquireLock { merchant_id })
            &&& outcomes[i - 1].0 == WrapOutcome::Done
            &&& wrap_run(outcomes)[i - 2] == WrapState::Authenticate
            &&& outcomes[i - 2].0 == (WrapOutcome::Authenticated { merchant_id })
        }),
{
    lemma_wrap_run_len(outcomes);
    lemma_wrap_run(outcomes, i - 1);
    lemma_wrap_run(outcomes, i - 2);
}

/// A lock is released only after the handler ran under it, and for the merchant for whom it was
/// acquired: the one whom the client was authenticated as.
pub proof fn law_lock_is_released_for_its_merchant(outcomes: Seq<(WrapOutcome, bool)>, i: int)
    requires
        0 <= i <= outcomes.len(),
        wrap_run(outcomes)[i] is ReleaseLock,
    ensures
        i >= 3,
        ({
            let merchant_id = wrap_run(outcomes)[i]->ReleaseLock_merchant_id;
            &&& wrap_run(outcomes)[i - 1] == (WrapState::RunHandler { merchant_id })
            &&& wrap_run(outcomes)[i - 2] == (WrapState::AcquireLock { merchant_id })
            &&& outcomes[i - 2].0 == WrapOutcome::Done
            &&& outcomes[i - 3].0 == (WrapOutcome::Authenticated { merchant_id })
        }),
{
    lemma_wrap_run_len(outcomes);
    lemma_wrap_run(outcomes, i - 1);
    law_handler_runs_locked(outcomes, i - 1);
}

/// Where the lock cannot be acquired, or cannot be released, the request ends in that error.
pub proof fn law_lock_errors_end_the_request(state: WrapState, json_output: bool)
    requires
        state is AcquireLock || state is ReleaseLock,
    ensures
        next_state(state, WrapOutcome::Failed, json_output) is StepError,
{
}

// ---------------------------------------------------------------------------
// What goes to the log
// ---------------------------------------------------------------------------

/// The first header field that tells the time spent in outside calls.
pub open spec fn latency_header(headers: Seq<(String, Maskable<String>)>) -> Option<String>
    decreases headers.len(),
{
    if headers.len() == 0 {
        None
    } else if headers[0].0@ == X_HS_LATENCY@ {
        Some(headers[0].1.value())
    } else {
        latency_header(headers.skip(1))
    }
}

/// The time spent in outside calls, as the answer's header fields tell it.
pub fn overhead_latency(headers: &Vec<(String, Maskable<String>)>) -> (res: Option<u128>)
    ensures
        match latency_header(headers@) {
            None => res is None,
            Some(text) => match res {
                Some(number) => crate::text::parsed_number(text@, u128::MAX as nat) == Some(
                    number as nat,
                ),
                None => crate::text::parsed_number(text@, u128::MAX as nat) is None,
            },
        },
{
    let mut i: usize = 0;
    assert(headers@.skip(0) == headers@);
    while i < headers.len()
        invariant
            i <= headers.len(),
            latency_header(headers@) == latency_header(headers@.skip(i as int)),
        decreases headers.len() - i,
    {
        assert(headers@.skip(i as int)[0] == headers@[i as int]);
        assert(headers@.skip(i as int).skip(1) == headers@.skip(i + 1));
        if same_text(headers[i].0.as_str(), X_HS_LATENCY) {
            return parse_u128(headers[i].1.inner().as_str());
        }
        i = i + 1;
    }
    None
}

/// The kind of an event: the answer's where it has one, or else the request's, or else
/// the given one.
pub fn choose_event_type<E>(of_response: Option<E>, of_request: Option<E>, otherwise: E) -> (res: E)
    ensures
        res == (match (of_response, of_request) {
            (Some(event), _) => event,
            (None, Some(event)) => event,
            (None, None) => otherwise,
        }),
{
    match of_response {
        Some(event) => event,
        None => match of_request {
            Some(event) => event,
            None => otherwise,
        },
    }
}

/// Whether a header field of this name is written to the log as it is.
pub open spec fn is_unmasked(name: Seq<char>, unmasked: Seq<String>) -> bool {
    exists|i: int| 0 <= i < unmasked.len() && (#[trigger] unmasked[i])@ == name
}

/// The value that is written to the log for a header field.
pub open spec fn logged_value(header: HeaderEntry, unmasked: Seq<String>) -> Seq<char> {
    if is_unmasked(header.name@, unmasked) {
        header.value@
    } else {
        MASKED_HEADER@
    }
}

/// What is written to the log for header fields, by name; the last one of a name stays.
pub open spec fn logged_headers(headers: Seq<HeaderEntry>, unmasked: Seq<String>) -> Seq<
    crate::api::headers::HeaderText,
>
    decreases headers.len(),
{
    if headers.len() == 0 {
        Seq::<crate::api::headers::HeaderText>::empty()
    } else {
        crate::api::headers::with_header(
            logged_headers(headers.drop_last(), unmasked),
            crate::api::headers::plain_header(
                headers.last().name@,
                logged_value(headers.last(), unmasked),
            ),
        )
    }
}

fn check_unmasked(name: &str, unmasked: &Vec<String>) -> (res: bool)
    ensures
        res == is_unmasked(name@, unmasked@),
{
    let mut i: usize = 0;
    while i < unmasked.len()
        invariant
            i <= unmasked.len(),
            forall|j: int| 0 <= j < i ==> (#[trigger] unmasked@[j])@ != name@,
        decreases unmasked.len() - i,
    {
        if same_text(unmasked[i].as_str(), name) {
            return true;
        }
        i = i + 1;
    }
    false
}

/// Makes the header fields of a request ready for the log. Their names are lower case.
pub fn headers_to_log(headers: &Vec<HeaderEntry>, unmasked: &Vec<String>) -> (res: Vec<HeaderEntry>)
    ensures
        crate::api::headers::header_texts(res@) == logged_headers(headers@, unmasked@),
{
    let mut res: Vec<HeaderEntry> = Vec::new();
    let mut i: usize = 0;
    assert(headers@.take(0) == Seq::<HeaderEntry>::empty());
    assert(crate::api::headers::header_texts(res@) == Seq::<
        crate::api::headers::HeaderText,
    >::empty());
    while i < headers.len()
        invariant
            i <= headers.len(),
            crate::api::headers::header_texts(res@) == logged_headers(
                headers@.take(i as int),
                unmasked@,
            ),
        decreases headers.len() - i,
    {
        assert(headers@.take(i + 1).drop_last() == headers@.take(i as int));
        assert(headers@.take(i + 1).last() == headers@[i as int]);
        let value = if check_unmasked(headers[i].name.as_str(), unmasked) {
            headers[i].value.clone()
        } else {
            MASKED_HEADER.to_string()
        };
        let entry = HeaderEntry { name: headers[i].name.clone(), value, sensitive: false };
        crate::api::headers::insert_header(&mut res, entry);
        i = i + 1;
    }
    assert(headers@.take(headers.len() as int) == headers@);
    res
}

proof fn lemma_without_name(list: Seq<crate::api::headers::HeaderText>, name: Seq<char>, i: int)
    requires
        0 <= i < crate::api::headers::without_name(list, name).len(),
    ensures
        crate::api::headers::without_name(list, name)[i].name != name,
        list.contains(crate::api::headers::without_name(list, name)[i]),
    decreases list.len(),
{
    if list.len() > 0 {
        let shorter = list.drop_last();
        let rest = crate::api::headers::without_name(shorter, name);
        if i < rest.len() {
            lemma_without_name(shorter, name, i);
            let j = choose|j: int| 0 <= j < shorter.len() && shorter[j] == rest[i];
            assert(list[j] == rest[i]);
        } else {
            assert(list[list.len() - 1] == list.last());
        }
    }
}

/// Only header fields on the list are logged with their own value.
pub proof fn law_others_are_masked(headers: Seq<HeaderEntry>, unmasked: Seq<String>, i: int)
    requires
        0 <= i < logged_headers(headers, unmasked).len(),
        !is_unmasked(logged_headers(headers, unmasked)[i].name, unmasked),
    ensures
        logged_headers(headers, unmasked)[i].value == MASKED_HEADER@,
    decreases headers.len(),
{
    if headers.len() > 0 {
        let before = logged_headers(headers.drop_last(), unmasked);
        let kept = crate::api::headers::without_name(before, headers.last().name@);
        let logged = logged_headers(headers, unmasked);
        if i < kept.len() {
            lemma_without_name(before, headers.last().name@, i);
            let j = choose|j: int| 0 <= j < before.len() && before[j] == kept[i];
            assert(logged[i] == before[j]);
            law_others_are_masked(headers.drop_last(), unmasked, j);
        }
    }
}

/// Whether a header field of this name is in a list.
pub open spec fn has_name(list: Seq<crate::api::headers::HeaderText>, name: Seq<char>) -> bool {
    exists|i: int| 0 <= i < list.len() && (#[trigger] list[i]).name == name
}

proof fn lemma_kept_names(
    list: Seq<crate::api::headers::HeaderText>,
    dropped: Seq<char>,
    name: Seq<char>,
)
    requires
        name != dropped,
        has_name(list, name),
    ensures
        has_name(crate::api::headers::without_name(list, dropped), name),
    decreases list.len(),
{
    let shorter = list.drop_last();
    let rest = crate::api::headers::without_name(shorter, dropped);
    let kept = crate::api::headers::without_name(list, dropped);
    if list.last().name == name {
        assert(kept[kept.len() - 1].name == name);
    } else {
        let i = choose|i: int| 0 <= i < list.len() && (#[trigger] list[i]).name == name;
        assert(shorter[i].name == name);
        lemma_kept_names(shorter, dropped, name);
        let j = choose|j: int| 0 <= j < rest.len() && (#[trigger] rest[j]).name == name;
        assert(kept[j] == rest[j]);
    }
}

/// Exactly the names of the request's header fields are logged.
pub proof fn law_logged_names_are_the_requests(
    headers: Seq<HeaderEntry>,
    unmasked: Seq<String>,
    name: Seq<char>,
)
    ensures
        has_name(logged_headers(headers, unmasked), name) <==> has_name(
            crate::api::headers::header_texts(headers),
            name,
        ),
    decreases headers.len(),
{
    let logged = logged_headers(headers, unmasked);
    let texts = crate::api::headers::header_texts(headers);
    if headers.len() > 0 {
        let shorter = headers.drop_last();
        let before = logged_headers(shorter, unmasked);
        let kept = crate::api::headers::without_name(before, headers.last().name@);
        law_logged_names_are_the_requests(shorter, unmasked, name);
        assert(crate::api::headers::header_texts(shorter) == texts.drop_last());
        assert(logged[logged.len() - 1].name == headers.last().name@);
        assert(texts[texts.len() - 1].name == headers.last().name@);
        if name != headers.last().name@ {
            if has_name(before, name) {
                lemma_kept_names(before, headers.last().name@, name);
                let j = choose|j: int| 0 <= j < kept.len() && (#[trigger] kept[j]).name == name;
                assert(logged[j].name == name);
                let i = choose|i: int|
                    0 <= i < texts.drop_last().len() && (#[trigger] texts.drop_last()[i]).name
                        == name;
                assert(texts[i].name == name);
            } else {
                assert forall|i: int| 0 <= i < logged.len() implies (#[trigger] logged[i]).name
                    != name by {
                    if i < kept.len() {
                        lemma_without_name(before, headers.last().name@, i);
                        let j = choose|j: int| 0 <= j < before.len() && before[j] == kept[i];
                        assert(before[j].name != name);
                    }
                }
                assert forall|i: int| 0 <= i < texts.len() implies (#[trigger] texts[i]).name
                    != name by {
                    if i < texts.len() - 1 {
                        assert(texts.drop_last()[i].name != name);
                    }
                }
            }
        }
    }
}

/// Each name is logged once.
pub proof fn law_names_are_logged_once(
    headers: Seq<HeaderEntry>,
    unmasked: Seq<String>,
    i: int,
    j: int,
)
    requires
        0 <= i < j < logged_headers(headers, unmasked).len(),
    ensures
        logged_headers(headers, unmasked)[i].name != logged_headers(headers, unmasked)[j].name,
    decreases headers.len(),
{
    let before = logged_headers(headers.drop_last(), unmasked);
    let kept = crate::api::headers::without_name(before, headers.last().name@);
    if j < kept.len() {
        assert forall|a: int, b: int| 0 <= a < b < before.len() implies (#[trigger] before[a]).name
            != (#[trigger] before[b]).name by {
            law_names_are_logged_once(headers.drop_last(), unmasked, a, b);
        }
        lemma_kept_distinct(before, headers.last().name@, i, j);
    } else {
        lemma_without_name(before, headers.last().name@, i);
    }
}

proof fn lemma_kept_distinct(
    list: Seq<crate::api::headers::HeaderText>,
    dropped: Seq<char>,
    i: int,
    j: int,
)
    requires
        forall|a: int, b: int|
            0 <= a < b < list.len() ==> (#[trigger] list[a]).name != (#[trigger] list[b]).name,
        0 <= i < j < crate::api::headers::without_name(list, dropped).len(),
    ensures
        crate::api::headers::without_name(list, dropped)[i].name
            != crate::api::headers::without_name(list, dropped)[j].name,
    decreases list.len(),
{
    let shorter = list.drop_last();
    let rest = crate::api::headers::without_name(shorter, dropped);
    assert forall|a: int, b: int| 0 <= a < b < shorter.len() implies (#[trigger] shorter[a]).name
        != (#[trigger] shorter[b]).name by {
        assert(list[a].name != list[b].name);
    }
    if j < rest.len() {
        lemma_kept_distinct(shorter, dropped, i, j);
    } else {
        lemma_without_name(shorter, dropped, i);
        let a = choose|a: int| 0 <= a < shorter.len() && shorter[a] == rest[i];
        assert(list[a].name != list[list.len() - 1].name);
    }
}

// ---------------------------------------------------------------------------
// The answer
// ---------------------------------------------------------------------------

/// A page that sends the customer on, and what it is made from.
pub struct RedirectionFormData {
    pub redirect_form: RedirectForm,
    pub payment_method_data: Option<PaymentMethodData>,
    pub amount: String,
    pub currency: String,
}

/// A page of a payment link.
pub enum PaymentLinkAction {
    PaymentLinkFormData(PaymentLinkFormData),
    PaymentLinkStatus(PaymentLinkStatusData),
}

/// What a handler gives back. A JSON text is missing where it could not be written.
#[allow(inconsistent_fields)]
pub enum ApplicationResponse {
    Json { body: Option<String> },
    StatusOk,
    TextPlain(String),
    FileData { data: Vec<u8>, content_type: String },
    JsonForRedirection { body: Option<String>, return_url_with_query_params: String },
    Form(RedirectionFormData),
    /// A page of another link, where it could be rendered, and the sites that may frame it.
    GenericLinkForm { link_type: String, html: Option<String>, allowed_domains: Vec<String> },
    PaymentLinkForm(PaymentLinkAction),
    JsonWithHeaders { body: Option<String>, headers: Vec<(String, Maskable<String>)> },
}

/// The payload of an answer.
#[derive(Debug, PartialEq, Eq)]
pub enum Payload {
    Text(String),
    Bytes(Vec<u8>),
}

/// What answers are made with.
pub struct AnswerSettings {
    pub urls: ConnectorUrls,
    pub assets: PaymentLinkAssets,
    /// The script that reports errors of a redirection page.
    pub redirect_logging_template: String,
}

/// Told where a JSON answer could not be written.
pub const SERIALIZATION_ERROR: &'static str = r#"{
                    "error": {
                        "message": "Error serializing response from connector"
                    }
                }"#;

/// Told where a JSON answer with header fields could not be written.
pub const HEADED_SERIALIZATION_ERROR: &'static str = r#"{
                        "error": {
                            "message": "Error serializing response from connector"
                        }
                    }"#;

/// Told where a payment link page could not be rendered.
pub const PAYMENT_LINK_ERROR: &'static str = r#"{
                                "error": {
                                    "message": "Error while rendering payment link html page"
                                }
                            }"#;

/// Told where the status page of a payment link could not be rendered.
pub const PAYMENT_LINK_STATUS_ERROR: &'static str = r#"{
                                "error": {
                                    "message": "Error while rendering payment link status page"
                                }
                            }"#;

/// Whether an answer holds this text, with this status and these header fields.
pub open spec fn is_text_answer(
    answer: HttpResponse<Payload>,
    status: u16,
    headers: Seq<crate::api::headers::HeaderText>,
    text: Seq<char>,
) -> bool {
    &&& answer.status == status
    &&& crate::api::headers::header_texts(answer.headers@) == headers
    &&& answer.body matches ResponseBody::Payload(Payload::Text(body))
    &&& body@ == text
}

/// Whether an answer refuses the request with a fixed text.
pub open spec fn is_refusal(answer: HttpResponse<Payload>, message: &'static str) -> bool {
    answer.is_answer(
        400,
        seq![crate::api::response::content_type("application/json"@)],
        ResponseBody::Text(message),
    )
}

/// The policy that tells which sites may frame a page.
pub open spec fn framing_policy(allowed_domains: Seq<String>) -> Seq<char> {
    "frame-ancestors 'self' "@ + crate::text::join(crate::text::views(allowed_domains), " "@)
        + ";"@
}

/// The header fields of a page that a list of sites may frame.
pub open spec fn framed_page_headers(allowed_domains: Seq<String>) -> Seq<
    crate::api::headers::HeaderText,
> {
    if allowed_domains.len() > 0 && crate::api::headers::is_header_value(
        framing_policy(allowed_domains),
    ) {
        seq![
            crate::api::response::content_type("text/html"@),
            crate::api::headers::plain_header(
                "content-security-policy"@,
                framing_policy(allowed_domains),
            ),
        ]
    } else {
        seq![crate::api::response::content_type("text/html"@)]
    }
}

/// A page of another link.
fn answer_generic_link(
    link_type: String,
    html: Option<String>,
    allowed_domains: Vec<String>,
) -> (res: HttpResponse<Payload>)
    ensures
        match html {
            Some(page) => is_text_answer(
                res,
                200,
                framed_page_headers(allowed_domains@),
                page@,
            ),
            None => is_text_answer(
                res,
                400,
                seq![crate::api::response::content_type("application/json"@)],
                "Error while rendering "@ + link_type@ + " HTML page"@,
            ),
        },
{
    match html {
        Some(page) => {
            let headers = if allowed_domains.len() > 0 {
                let domains = join_texts(&allowed_domains, " ");
                let policy = concat3("frame-ancestors 'self' ", domains.as_str(), ";");
                let mut list: Vec<(&'static str, String)> = Vec::new();
                list.push(("content-security-policy", policy));
                Some(list)
            } else {
                None
            };
            proof {
                reveal_strlit("content-security-policy");
                reveal_strlit("content-type");
                reveal_strlit("text/html");
                assert("content-security-policy"@.len() != "content-type"@.len());
                if allowed_domains.len() > 0 {
                    let extra = headers->0@;
                    assert(extra.drop_last() == Seq::<(&'static str, String)>::empty());
                    let start = crate::api::response::page_headers(
                        Seq::<(&'static str, String)>::empty(),
                    );
                    assert(start == seq![crate::api::response::content_type("text/html"@)]);
                    assert(start.drop_last() == Seq::<crate::api::headers::HeaderText>::empty());
                    reveal_with_fuel(crate::api::headers::without_name, 3);
                    assert(crate::api::headers::without_name(start, "content-security-policy"@)
                        == start);
                    assert(crate::api::response::page_headers(extra) == framed_page_headers(
                        allowed_domains@,
                    ));
                } else {
                    assert(crate::api::response::page_headers(
                        Seq::<(&'static str, String)>::empty(),
                    ) == framed_page_headers(allowed_domains@));
                }
            }
            http_response_html_data(Payload::Text(page), headers)
        },
        None => http_response_err(
            ResponseBody::Payload(
                Payload::Text(
                    concat3("Error while rendering ", link_type.as_str(), " HTML page"),
                ),
            ),
        ),
    }
}

/// Turns what a handler gave back into the answer over HTTP. `request_duration` is the
/// time that the request took, in milliseconds, where the client asked for it.
pub fn server_wrap(
    response: ApplicationResponse,
    settings: &AnswerSettings,
    request_duration: Option<u128>,
) -> (res: HttpResponse<Payload>)
    requires
        response is PaymentLinkForm ==> settings.assets.plain(),
        response matches ApplicationResponse::JsonWithHeaders { body: Some(_), headers }
            ==> crate::api::response::latencies_fit(headers@, request_duration),
    ensures
        match response {
            ApplicationResponse::Json { body: Some(text) } => is_text_answer(
                res,
                200,
                seq![crate::api::response::content_type("application/json"@)],
                text@,
            ),
            ApplicationResponse::Json { body: None } => is_refusal(res, SERIALIZATION_ERROR),
            ApplicationResponse::StatusOk => res.is_answer(200, Seq::empty(), ResponseBody::Empty),
            ApplicationResponse::TextPlain(text) => is_text_answer(
                res,
                200,
                seq![crate::api::response::content_type("text/plain"@)],
                text@,
            ),
            ApplicationResponse::FileData { data, content_type } => res.is_answer(
                200,
                seq![crate::api::response::content_type(content_type@)],
                ResponseBody::Payload(Payload::Bytes(data)),
            ),
            ApplicationResponse::JsonForRedirection {
                body: Some(text),
                return_url_with_query_params,
            } => if crate::api::headers::is_header_value(return_url_with_query_params@) {
                is_text_answer(
                    res,
                    302,
                    seq![
                        crate::api::response::content_type("application/json"@),
                        crate::api::headers::plain_header(
                            "location"@,
                            return_url_with_query_params@,
                        ),
                    ],
                    text@,
                )
            } else {
                crate::api::response::is_framework_error(res, "failed to parse header value")
            },
            ApplicationResponse::JsonForRedirection { body: None, .. } => is_refusal(
                res,
                SERIALIZATION_ERROR,
            ),
            ApplicationResponse::Form(form) => is_text_answer(
                res,
                200,
                seq![crate::api::response::content_type("text/html; charset=utf-8"@)],
                crate::api::redirection::redirection_page(
                    form.redirect_form,
                    form.payment_method_data,
                    form.amount@,
                    form.currency@,
                    settings.urls,
                    settings.redirect_logging_template@,
                ),
            ),
            ApplicationResponse::GenericLinkForm { link_type, html: Some(page), allowed_domains } =>
            is_text_answer(res, 200, framed_page_headers(allowed_domains@), page@),
            ApplicationResponse::GenericLinkForm { link_type, html: None, .. } => is_text_answer(
                res,
                400,
                seq![crate::api::response::content_type("application/json"@)],
                "Error while rendering "@ + link_type@ + " HTML page"@,
            ),
            ApplicationResponse::PaymentLinkForm(PaymentLinkAction::PaymentLinkFormData(data)) =>
            match crate::api::payment_link::link_page(
                data,
                settings.assets,
                settings.assets.payment_link_initiator@,
            ) {
                Some(page) => is_text_answer(
                    res,
                    200,
                    seq![crate::api::response::content_type("text/html"@)],
                    page,
                ),
                None => is_refusal(res, PAYMENT_LINK_ERROR),
            },
            ApplicationResponse::PaymentLinkForm(PaymentLinkAction::PaymentLinkStatus(data)) =>
            match crate::api::payment_link::status_page(data, settings.assets) {
                Some(page) => is_text_answer(
                    res,
                    200,
                    seq![crate::api::response::content_type("text/html"@)],
                    page,
                ),
                None => is_refusal(res, PAYMENT_LINK_STATUS_ERROR),
            },
            ApplicationResponse::JsonWithHeaders { body: None, .. } => is_refusal(
                res,
                HEADED_SERIALIZATION_ERROR,
            ),
            ApplicationResponse::JsonWithHeaders { body: Some(text), headers } =>
            if !crate::api::response::all_values_accepted(headers@, request_duration) {
                res.is_answer(
                    500,
                    seq![crate::api::response::content_type("application/json"@)],
                    ResponseBody::Text("Something Went Wrong"),
                )
            } else if !crate::api::response::all_names_accepted(headers@) {
                crate::api::response::is_framework_error(res, "invalid HTTP header name")
            } else {
                is_text_answer(
                    res,
                    200,
                    crate::api::headers::with_header(
                        crate::api::response::sent_headers(headers@, request_duration),
                        crate::api::response::content_type("application/json"@),
                    ),
                    text@,
                )
            },
        },
{
    match response {
        ApplicationResponse::Json { body } => match body {
            Some(text) => http_response_json(Payload::Text(text)),
            None => http_response_err(ResponseBody::Text(SERIALIZATION_ERROR)),
        },
        ApplicationResponse::StatusOk => http_response_ok(),
        ApplicationResponse::TextPlain(text) => http_response_plaintext(Payload::Text(text)),
        ApplicationResponse::FileData { data, content_type } => http_response_file_data(
            Payload::Bytes(data),
            content_type,
        ),
        ApplicationResponse::JsonForRedirection { body, return_url_with_query_params } => match body {
            Some(text) => http_redirect_response(
                Payload::Text(text),
                return_url_with_query_params,
            ),
            None => http_response_err(ResponseBody::Text(SERIALIZATION_ERROR)),
        },
        ApplicationResponse::Form(form) => {
            let page = build_redirection_form(
                &form.redirect_form,
                &form.payment_method_data,
                form.amount.as_str(),
                form.currency.as_str(),
                &settings.urls,
                settings.redirect_logging_template.as_str(),
            );
            http_response_file_data(Payload::Text(page), "text/html; charset=utf-8".to_string())
        },
        ApplicationResponse::GenericLinkForm { link_type, html, allowed_domains } => {
            answer_generic_link(link_type, html, allowed_domains)
        },
        ApplicationResponse::PaymentLinkForm(action) => {
            assert(crate::api::response::page_headers(Seq::empty()) == seq![
                crate::api::response::content_type("text/html"@),
            ]);
            match action {
                PaymentLinkAction::PaymentLinkFormData(data) => {
                    match build_payment_link_html(&data, &settings.assets) {
                        Ok(page) => http_response_html_data(Payload::Text(page), None),
                        Err(_) => http_response_err(ResponseBody::Text(PAYMENT_LINK_ERROR)),
                    }
                },
                PaymentLinkAction::PaymentLinkStatus(data) => {
                    match get_payment_link_status(&data, &settings.assets) {
                        Ok(page) => http_response_html_data(Payload::Text(page), None),
                        Err(_) => http_response_err(ResponseBody::Text(PAYMENT_LINK_STATUS_ERROR)),
                    }
                },
            }
        },
        ApplicationResponse::JsonWithHeaders { body, headers } => match body {
            Some(text) => http_response_json_with_headers(
                Payload::Text(text),
                headers,
                request_duration,
            ),
            None => http_response_err(ResponseBody::Text(HEADED_SERIALIZATION_ERROR)),
        },
    }
}

/// The time that a request took, where the client asked for it by the latency header
/// field.
pub fn requested_duration(latency_request: &Option<String>, elapsed: u128) -> (res: Option<u128>)
    ensures
        res == (if crate::text::opt_view(*latency_request) == Some("true"@) {
            Some(elapsed)
        } else {
            None
        }),
{
    match latency_request {
        Some(value) => {
            if same_text(value.as_str(), "true") {
                Some(elapsed)
            } else {
                None
            }
        },
        None => None,
    }
}

} // verus!
