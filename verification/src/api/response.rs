//! HTTP answers.
use vstd::prelude::*;
use crate::api::headers::{accepts_value, append_header, application_json, insert_header, parse_header_name, static_header_name, text_html, text_plain, HeaderEntry};
use crate::consts::X_HS_LATENCY;
use crate::secret::Maskable;
use crate::text::{parse_u128, render_u128, same_text};

verus! {

/// What an answer carries.
#[derive(Debug, PartialEq, Eq)]
pub enum ResponseBody<T> {
    /// The payload that the answer was made from.
    Payload(T),
    /// A fixed text.
    Text(&'static str),
    Empty,
}

/// An answer over HTTP.
#[derive(Debug, PartialEq, Eq)]
pub struct HttpResponse<T> {
    pub status: u16,
    pub headers: Vec<HeaderEntry>,
    pub body: ResponseBody<T>,
}

/// The header field that tells the media type of an answer.
pub open spec fn content_type(value: Seq<char>) -> crate::api::headers::HeaderText {
    crate::api::headers::plain_header("content-type"@, value)
}

impl<T> HttpResponse<T> {
    /// Whether an answer has this status, these header fields and this body.
    pub open spec fn is_answer(
        self,
        status: u16,
        headers: Seq<crate::api::headers::HeaderText>,
        body: ResponseBody<T>,
    ) -> bool {
        &&& self.status == status
        &&& crate::api::headers::header_texts(self.headers@) == headers
        &&& self.body == body
    }
}

/// An answer with a media type and no other header field.
fn typed_response<T>(status: u16, media_type: String, body: ResponseBody<T>) -> (res: HttpResponse<T>)
    ensures
        res.is_answer(status, seq![content_type(media_type@)], body),
{
    let mut headers: Vec<HeaderEntry> = Vec::new();
    headers.push(
        HeaderEntry { name: "content-type".to_string(), value: media_type, sensitive: false },
    );
    assert(crate::api::headers::header_texts(headers@) == seq![content_type(media_type@)]);
    HttpResponse { status, headers, body }
}

/// A JSON answer to a request that went well.
pub fn http_response_json<T>(response: T) -> (res: HttpResponse<T>)
    ensures
        res.is_answer(200, seq![content_type("application/json"@)], ResponseBody::Payload(response)),
{
    typed_response(200, application_json(), ResponseBody::Payload(response))
}

/// A JSON answer to a request that failed in the switch.
pub fn http_server_error_json_response<T>(response: ResponseBody<T>) -> (res: HttpResponse<T>)
    ensures
        res.is_answer(500, seq![content_type("application/json"@)], response),
{
    typed_response(500, application_json(), response)
}

/// A plain text answer to a request that went well.
pub fn http_response_plaintext<T>(response: T) -> (res: HttpResponse<T>)
    ensures
        res.is_answer(200, seq![content_type("text/plain"@)], ResponseBody::Payload(response)),
{
    typed_response(200, text_plain(), ResponseBody::Payload(response))
}

/// A file, with its media type.
pub fn http_response_file_data<T>(response: T, media_type: String) -> (res: HttpResponse<T>)
    ensures
        res.is_answer(200, seq![content_type(media_type@)], ResponseBody::Payload(response)),
{
    typed_response(200, media_type, ResponseBody::Payload(response))
}

/// An answer that says no more than that the request went well.
pub fn http_response_ok<T>() -> (res: HttpResponse<T>)
    ensures
        res.is_answer(200, Seq::empty(), ResponseBody::Empty),
{
    let headers: Vec<HeaderEntry> = Vec::new();
    assert(crate::api::headers::header_texts(headers@) == Seq::<crate::api::headers::HeaderText>::empty());
    HttpResponse { status: 200, headers, body: ResponseBody::Empty }
}

/// A JSON answer to a request that cannot be served.
pub fn http_response_err<T>(response: ResponseBody<T>) -> (res: HttpResponse<T>)
    ensures
        res.is_answer(400, seq![content_type("application/json"@)], response),
{
    typed_response(400, application_json(), response)
}

/// The answer that the HTTP framework gives where a header field cannot be built.
pub open spec fn is_framework_error<T>(response: HttpResponse<T>, message: &'static str) -> bool {
    response.is_answer(
        500,
        seq![content_type("text/plain; charset=utf-8"@)],
        ResponseBody::Text(message),
    )
}

fn framework_error<T>(message: &'static str) -> (res: HttpResponse<T>)
    ensures
        is_framework_error(res, message),
{
    typed_response(500, "text/plain; charset=utf-8".to_string(), ResponseBody::Text(message))
}

/// A JSON answer that sends the customer on to another place.
pub fn http_redirect_response<T>(response: T, return_url_with_query_params: String) -> (res: HttpResponse<T>)
    ensures
        if crate::api::headers::is_header_value(return_url_with_query_params@) {
            res.is_answer(
                302,
                seq![
                    content_type("application/json"@),
                    crate::api::headers::plain_header("location"@, return_url_with_query_params@),
                ],
                ResponseBody::Payload(response),
            )
        } else {
            is_framework_error(res, "failed to parse header value")
        },
{
    if !accepts_value(return_url_with_query_params.as_str()) {
        return framework_error("failed to parse header value");
    }
    let mut res = typed_response(302, application_json(), ResponseBody::Payload(response));
    append_header(
        &mut res.headers,
        HeaderEntry {
            name: "location".to_string(),
            value: return_url_with_query_params,
            sensitive: false,
        },
    );
    assert(crate::api::headers::header_texts(res.headers@) == seq![
        content_type("application/json"@),
        crate::api::headers::plain_header("location"@, return_url_with_query_params@),
    ]);
    res
}

// ---------------------------------------------------------------------------
// HTML pages
// ---------------------------------------------------------------------------

/// The header fields of a page: the media type first, then each extra field whose value
/// can be sent, the last one of a name winning.
pub open spec fn page_headers(extra: Seq<(&'static str, String)>) -> Seq<crate::api::headers::HeaderText>
    decreases extra.len(),
{
    if extra.len() == 0 {
        seq![content_type("text/html"@)]
    } else {
        let before = page_headers(extra.drop_last());
        let (name, value) = extra.last();
        if crate::api::headers::is_header_value(value@) {
            crate::api::headers::with_header(
                before,
                crate::api::headers::plain_header(name@, value@),
            )
        } else {
            before
        }
    }
}

/// A page, with extra header fields in the order in which they are set.
pub fn http_response_html_data<T>(
    response: T,
    optional_headers: Option<Vec<(&'static str, String)>>,
) -> (res: HttpResponse<T>)
    requires
        optional_headers matches Some(extra) ==> forall|i: int|
            0 <= i < extra@.len() && crate::api::headers::is_header_value((#[trigger] extra@[i]).1@)
                ==> crate::api::headers::is_lower_name(extra@[i].0@),
    ensures
        res.is_answer(
            200,
            page_headers(
                match optional_headers {
                    Some(extra) => extra@,
                    None => Seq::empty(),
                },
            ),
            ResponseBody::Payload(response),
        ),
{
    let mut res = typed_response(200, text_html(), ResponseBody::Payload(response));
    if let Some(extra) = optional_headers {
        let mut i: usize = 0;
        assert(extra@.take(0) == Seq::<(&'static str, String)>::empty());
        while i < extra.len()
            invariant
                i <= extra.len(),
                forall|j: int|
                    0 <= j < extra@.len() && crate::api::headers::is_header_value(
                        (#[trigger] extra@[j]).1@,
                    ) ==> crate::api::headers::is_lower_name(extra@[j].0@),
                res.is_answer(
                    200,
                    page_headers(extra@.take(i as int)),
                    ResponseBody::Payload(response),
                ),
            decreases extra.len() - i,
        {
            assert(extra@.take(i + 1).drop_last() == extra@.take(i as int));
            assert(extra@.take(i + 1).last() == extra@[i as int]);
            if accepts_value(extra[i].1.as_str()) {
                let name = static_header_name(extra[i].0);
                insert_header(
                    &mut res.headers,
                    HeaderEntry { name, value: extra[i].1.clone(), sensitive: false },
                );
            }
            i = i + 1;
        }
        assert(extra@.take(extra.len() as int) == extra@);
    }
    res
}

// ---------------------------------------------------------------------------
// JSON with header fields
// ---------------------------------------------------------------------------

/// The value that is sent for a header field: the time spent in outside calls is turned
/// into the time spent in the switch, where the whole time is known.
pub open spec fn sent_value(header: (String, Maskable<String>), duration: Option<u128>) -> Seq<char> {
    match (duration, crate::text::parsed_number(header.1.value()@, u128::MAX as nat)) {
        (Some(whole), Some(outside)) => if header.0@ == X_HS_LATENCY@ {
            crate::text::number_text((whole - outside) as nat)
        } else {
            header.1.value()@
        },
        _ => header.1.value()@,
    }
}

/// Whether a header field tells of more time in outside calls than the request took.
pub open spec fn latency_exceeds(header: (String, Maskable<String>), duration: Option<u128>) -> bool {
    match (duration, crate::text::parsed_number(header.1.value()@, u128::MAX as nat)) {
        (Some(whole), Some(outside)) => header.0@ == X_HS_LATENCY@ && outside > whole,
        _ => false,
    }
}

/// Whether no header field that comes to be sent tells of more time in outside calls
/// than the request took.
pub open spec fn latencies_fit(
    headers: Seq<(String, Maskable<String>)>,
    duration: Option<u128>,
) -> bool {
    forall|i: int|
        0 <= i < headers.len() && (forall|j: int|
            0 <= j < i ==> crate::api::headers::is_header_value(
                sent_value(#[trigger] headers[j], duration),
            )) ==> !latency_exceeds(#[trigger] headers[i], duration)
}

/// Whether every value can be sent.
pub open spec fn all_values_accepted(
    headers: Seq<(String, Maskable<String>)>,
    duration: Option<u128>,
) -> bool {
    forall|i: int|
        0 <= i < headers.len() ==> crate::api::headers::is_header_value(
            sent_value(#[trigger] headers[i], duration),
        )
}

/// Whether every name is a name of a header field.
pub open spec fn all_names_accepted(headers: Seq<(String, Maskable<String>)>) -> bool {
    forall|i: int|
        0 <= i < headers.len() ==> crate::api::headers::header_name(
            (#[trigger] headers[i]).0@,
        ) is Some
}

/// The header fields as they are sent.
pub open spec fn sent_headers(
    headers: Seq<(String, Maskable<String>)>,
    duration: Option<u128>,
) -> Seq<crate::api::headers::HeaderText> {
    headers.map_values(
        |header: (String, Maskable<String>)|
            crate::api::headers::HeaderText {
                name: crate::api::headers::header_name(header.0@)->0,
                value: sent_value(header, duration),
                sensitive: header.1 is Masked,
            },
    )
}

/// Tests [`latencies_fit`].
pub fn check_latencies(headers: &Vec<(String, Maskable<String>)>, duration: Option<u128>) -> (res: bool)
    ensures
        res == latencies_fit(headers@, duration),
{
    let mut i: usize = 0;
    while i < headers.len()
        invariant
            i <= headers.len(),
            forall|j: int|
                0 <= j < i ==> crate::api::headers::is_header_value(
                    sent_value(#[trigger] headers@[j], duration),
                ) && !latency_exceeds(headers@[j], duration),
        decreases headers.len() - i,
    {
        let value = headers[i].1.inner().as_str();
        let mut accepted = accepts_value(value);
        if let Some(whole) = duration {
            if same_text(headers[i].0.as_str(), X_HS_LATENCY) {
                if let Some(outside) = parse_u128(value) {
                    if outside > whole {
                        assert(latency_exceeds(headers@[i as int], duration));
                        return false;
                    }
                    let text = render_u128(whole - outside);
                    accepted = accepts_value(text.as_str());
                }
            }
        }
        if !accepted {
            assert(!crate::api::headers::is_header_value(
                sent_value(headers@[i as int], duration),
            ));
            return true;
        }
        i = i + 1;
    }
    true
}

/// A JSON answer with header fields. `request_duration` is the time that the request
/// took, in milliseconds, where the client asked for it.
pub fn http_response_json_with_headers<T>(
    response: T,
    headers: Vec<(String, Maskable<String>)>,
    request_duration: Option<u128>,
) -> (res: HttpResponse<T>)
    requires
        latencies_fit(headers@, request_duration),
    ensures
        if !all_values_accepted(headers@, request_duration) {
            res.is_answer(
                500,
                seq![content_type("application/json"@)],
                ResponseBody::Text("Something Went Wrong"),
            )
        } else if !all_names_accepted(headers@) {
            is_framework_error(res, "invalid HTTP header name")
        } else {
            res.is_answer(
                200,
                crate::api::headers::with_header(
                    sent_headers(headers@, request_duration),
                    content_type("application/json"@),
                ),
                ResponseBody::Payload(response),
            )
        },
{
    let mut fields: Vec<HeaderEntry> = Vec::new();
    let mut names_accepted: bool = true;
    let mut i: usize = 0;
    assert(crate::api::headers::header_texts(fields@) == sent_headers(
        headers@.take(0),
        request_duration,
    ));
    while i < headers.len()
        invariant
            i <= headers.len(),
            latencies_fit(headers@, request_duration),
            forall|j: int|
                0 <= j < i ==> crate::api::headers::is_header_value(
                    sent_value(#[trigger] headers@[j], request_duration),
                ),
            names_accepted == all_names_accepted(headers@.take(i as int)),
            names_accepted ==> crate::api::headers::header_texts(fields@) == sent_headers(
                headers@.take(i as int),
                request_duration,
            ),
        decreases headers.len() - i,
    {
        let ghost header = headers@[i as int];
        let sensitive = headers[i].1.is_masked();
        let mut value = headers[i].1.inner().clone();
        assert(!latency_exceeds(header, request_duration));
        if same_text(headers[i].0.as_str(), X_HS_LATENCY) {
            if let Some(whole) = request_duration {
                if let Some(outside) = parse_u128(value.as_str()) {
                    value = render_u128(whole - outside);
                }
            }
        }
        assert(value@ == sent_value(header, request_duration));
        if !accepts_value(value.as_str()) {
            assert(!all_values_accepted(headers@, request_duration));
            return http_server_error_json_response(ResponseBody::Text("Something Went Wrong"));
        }
        let ghost before = headers@.take(i as int);
        let ghost longer = headers@.take(i + 1);
        assert(longer == before.push(header));
        match parse_header_name(headers[i].0.as_str()) {
            Some(name) => {
                if names_accepted {
                    assert forall|j: int| 0 <= j < longer.len() implies
                        crate::api::headers::header_name(
                        (#[trigger] longer[j]).0@,
                    ) is Some by {
                        if j < i {
                            assert(longer[j] == before[j]);
                        }
                    }
                    append_header(&mut fields, HeaderEntry { name, value, sensitive });
                    assert(crate::api::headers::header_texts(fields@) == sent_headers(
                        longer,
                        request_duration,
                    ));
                } else {
                    let ghost bad = choose|j: int|
                        0 <= j < before.len() && crate::api::headers::header_name(
                            (#[trigger] before[j]).0@,
                        ) is None;
                    assert(longer[bad] == before[bad]);
                }
            },
            None => {
                assert(longer[i as int] == header);
                names_accepted = false;
            },
        }
        i = i + 1;
    }
    assert(headers@.take(headers.len() as int) == headers@);
    if !names_accepted {
        return framework_error("invalid HTTP header name");
    }
    insert_header(
        &mut fields,
        HeaderEntry {
            name: "content-type".to_string(),
            value: application_json(),
            sensitive: false,
        },
    );
    HttpResponse { status: 200, headers: fields, body: ResponseBody::Payload(response) }
}

} // verus!
