//! Laws of the answers over HTTP, and of what is found and logged before them.
use vstd::prelude::*;
use crate::api::headers::{HeaderEntry, HeaderText};
use crate::api::redirection::build_redirection_form;
use crate::api::response::{check_latencies, http_redirect_response, http_response_err, http_response_file_data, http_response_html_data, http_response_json, http_response_json_with_headers, http_response_ok, http_response_plaintext, http_server_error_json_response, HttpResponse, ResponseBody};
use crate::api::payment_link::{build_payment_link_html, get_payment_link_status, PaymentLinkFormData, PaymentLinkStatusData};
use crate::api::server::{choose_event_type, default_tenant_id, headers_to_log, overhead_latency, requested_duration, resolve_tenant, server_wrap, AnswerSettings, ApplicationResponse, EmbedError, ErrorReport, Payload, PaymentLinkAction, RedirectionFormData, TenantLookup};
use crate::errors::ApiErrorResponse;
use crate::secret::Maskable;

verus! {

/// Whether an answer says nothing in its header fields but its media type.
pub open spec fn only_typed<T>(answer: HttpResponse<T>, media_type: Seq<char>) -> bool {
    &&& answer.headers@.len() == 1
    &&& answer.headers@[0].name@ == "content-type"@
    &&& answer.headers@[0].value@ == media_type
    &&& !answer.headers@[0].sensitive
}

proof fn lemma_only_typed<T>(answer: HttpResponse<T>, media_type: Seq<char>)
    requires
        crate::api::headers::header_texts(answer.headers@) == seq![
            crate::api::response::content_type(media_type),
        ],
    ensures
        only_typed(answer, media_type),
{
    let texts = crate::api::headers::header_texts(answer.headers@);
    assert(texts.len() == 1);
    assert(texts[0] == answer.headers@[0]@);
}

/// What is handed over goes out as it is, under its media type; a success is a success and a
/// refusal a refusal.
pub proof fn law_simple_answers<T>(
    payload: T,
    media_type: String,
    body: ResponseBody<T>,
    json: HttpResponse<T>,
    plain: HttpResponse<T>,
    file: HttpResponse<T>,
    ok: HttpResponse<T>,
    err: HttpResponse<T>,
    server_error: HttpResponse<T>,
)
    requires
        call_ensures(http_response_json::<T>, (payload,), json),
        call_ensures(http_response_plaintext::<T>, (payload,), plain),
        call_ensures(http_response_file_data::<T>, (payload, media_type), file),
        call_ensures(http_response_ok::<T>, (), ok),
        call_ensures(http_response_err::<T>, (body,), err),
        call_ensures(http_server_error_json_response::<T>, (body,), server_error),
    ensures
        json.status == 200 && json.body == ResponseBody::Payload(payload),
        only_typed(json, "application/json"@),
        plain.status == 200 && plain.body == ResponseBody::Payload(payload),
        only_typed(plain, "text/plain"@),
        file.status == 200 && file.body == ResponseBody::Payload(payload),
        only_typed(file, media_type@),
        ok.status == 200 && ok.body is Empty && ok.headers@.len() == 0,
        err.status == 400 && err.body == body,
        only_typed(err, "application/json"@),
        server_error.status == 500 && server_error.body == body,
        only_typed(server_error, "application/json"@),
{
    lemma_only_typed(json, "application/json"@);
    lemma_only_typed(plain, "text/plain"@);
    lemma_only_typed(file, media_type@);
    lemma_only_typed(err, "application/json"@);
    lemma_only_typed(server_error, "application/json"@);
    assert(crate::api::headers::header_texts(ok.headers@).len() == 0);
}

/// The client is sent on to the place that was given, where that can stand in a header field.
pub proof fn law_client_is_sent_on<T>(payload: T, url: String, res: HttpResponse<T>)
    requires
        call_ensures(http_redirect_response::<T>, (payload, url), res),
    ensures
        crate::api::headers::is_header_value(url@) ==> {
            &&& res.status == 302
            &&& res.body == ResponseBody::Payload(payload)
            &&& res.headers@.len() == 2
            &&& res.headers@[0].name@ == "content-type"@
            &&& res.headers@[0].value@ == "application/json"@
            &&& res.headers@[1].name@ == "location"@
            &&& res.headers@[1].value@ == url@
        },
        !crate::api::headers::is_header_value(url@) ==> {
            &&& res.status == 500
            &&& res.body == ResponseBody::<T>::Text("failed to parse header value")
            &&& only_typed(res, "text/plain; charset=utf-8"@)
        },
{
    let texts = crate::api::headers::header_texts(res.headers@);
    if crate::api::headers::is_header_value(url@) {
        assert(texts.len() == 2);
        assert(texts[0] == res.headers@[0]@);
        assert(texts[1] == res.headers@[1]@);
    } else {
        lemma_only_typed(res, "text/plain; charset=utf-8"@);
    }
}

/// A handler's text goes to the client as it is. What could not be written is refused, and so is
/// told.
pub proof fn law_handlers_output_is_answered(
    text: String,
    data: Vec<u8>,
    content_type: String,
    settings: &AnswerSettings,
    request_duration: Option<u128>,
    json: HttpResponse<Payload>,
    unwritten: HttpResponse<Payload>,
    ok: HttpResponse<Payload>,
    plain: HttpResponse<Payload>,
    file: HttpResponse<Payload>,
)
    requires
        call_ensures(
            server_wrap,
            (ApplicationResponse::Json { body: Some(text) }, settings, request_duration),
            json,
        ),
        call_ensures(
            server_wrap,
            (ApplicationResponse::Json { body: None }, settings, request_duration),
            unwritten,
        ),
        call_ensures(server_wrap, (ApplicationResponse::StatusOk, settings, request_duration), ok),
        call_ensures(
            server_wrap,
            (ApplicationResponse::TextPlain(text), settings, request_duration),
            plain,
        ),
        call_ensures(
            server_wrap,
            (ApplicationResponse::FileData { data, content_type }, settings, request_duration),
            file,
        ),
    ensures
        json.status == 200 && only_typed(json, "application/json"@),
        json.body matches ResponseBody::Payload(Payload::Text(sent)) && sent@ == text@,
        unwritten.status == 400 && only_typed(unwritten, "application/json"@),
        unwritten.body == ResponseBody::<Payload>::Text(
            r#"{
                    "error": {
                        "message": "Error serializing response from connector"
                    }
                }"#,
        ),
        ok.status == 200 && ok.headers@.len() == 0 && ok.body is Empty,
        plain.status == 200 && only_typed(plain, "text/plain"@),
        plain.body matches ResponseBody::Payload(Payload::Text(sent)) && sent@ == text@,
        file.status == 200 && only_typed(file, content_type@),
        file.body matches ResponseBody::Payload(Payload::Bytes(sent)) && sent == data,
{
    lemma_only_typed(json, "application/json"@);
    lemma_only_typed(unwritten, "application/json"@);
    lemma_only_typed(plain, "text/plain"@);
    lemma_only_typed(file, content_type@);
    assert(crate::api::headers::header_texts(ok.headers@).len() == 0);
}

/// A client is sent on with the handler's text; a text that could not be written is refused.
pub proof fn law_redirections_are_answered(
    body: Option<String>,
    return_url_with_query_params: String,
    settings: &AnswerSettings,
    request_duration: Option<u128>,
    res: HttpResponse<Payload>,
)
    requires
        call_ensures(
            server_wrap,
            (
                ApplicationResponse::JsonForRedirection { body, return_url_with_query_params },
                settings,
                request_duration,
            ),
            res,
        ),
    ensures
        body is None <==> res.status == 400,
        body is None ==> res.body == ResponseBody::<Payload>::Text(
            r#"{
                    "error": {
                        "message": "Error serializing response from connector"
                    }
                }"#,
        ),
        body is Some && crate::api::headers::is_header_value(return_url_with_query_params@) ==> {
            &&& res.status == 302
            &&& res.headers@.len() == 2
            &&& res.headers@[0].name@ == "content-type"@
            &&& res.headers@[0].value@ == "application/json"@
            &&& res.headers@[1].name@ == "location"@
            &&& res.headers@[1].value@ == return_url_with_query_params@
            &&& res.body matches ResponseBody::Payload(Payload::Text(sent))
            &&& sent@ == body->0@
        },
        body is Some && !crate::api::headers::is_header_value(return_url_with_query_params@) ==> {
            &&& res.status == 500
            &&& res.body == ResponseBody::<Payload>::Text("failed to parse header value")
        },
{
    let texts = crate::api::headers::header_texts(res.headers@);
    if body is Some && crate::api::headers::is_header_value(return_url_with_query_params@) {
        assert(texts.len() == 2);
        assert(texts[0] == res.headers@[0]@);
        assert(texts[1] == res.headers@[1]@);
    }
}

/// A form is answered with the page that is built for it, of what the handler gave and of the
/// configured addresses.
pub proof fn law_forms_are_answered(
    form: RedirectionFormData,
    settings: &AnswerSettings,
    request_duration: Option<u128>,
    amount: &str,
    currency: &str,
    logging_template: &str,
    page: String,
    res: HttpResponse<Payload>,
)
    requires
        amount@ == form.amount@,
        currency@ == form.currency@,
        logging_template@ == settings.redirect_logging_template@,
        call_ensures(
            build_redirection_form,
            (
                &form.redirect_form,
                &form.payment_method_data,
                amount,
                currency,
                &settings.urls,
                logging_template,
            ),
            page,
        ),
        call_ensures(
            server_wrap,
            (ApplicationResponse::Form(form), settings, request_duration),
            res,
        ),
    ensures
        res.status == 200,
        only_typed(res, "text/html; charset=utf-8"@),
        res.body matches ResponseBody::Payload(Payload::Text(sent)) && sent@ == page@,
{
    lemma_only_typed(res, "text/html; charset=utf-8"@);
}

/// A payment link is answered with the page that is built for it, or with a refusal where it could
/// not be.
pub proof fn law_payment_links_are_answered(
    form: PaymentLinkFormData,
    status: PaymentLinkStatusData,
    settings: &AnswerSettings,
    request_duration: Option<u128>,
    form_page: Result<String, ApiErrorResponse>,
    status_page: Result<String, ApiErrorResponse>,
    form_answer: HttpResponse<Payload>,
    status_answer: HttpResponse<Payload>,
)
    requires
        call_ensures(build_payment_link_html, (&form, &settings.assets), form_page),
        call_ensures(get_payment_link_status, (&status, &settings.assets), status_page),
        call_ensures(
            server_wrap,
            (
                ApplicationResponse::PaymentLinkForm(PaymentLinkAction::PaymentLinkFormData(form)),
                settings,
                request_duration,
            ),
            form_answer,
        ),
        call_ensures(
            server_wrap,
            (
                ApplicationResponse::PaymentLinkForm(PaymentLinkAction::PaymentLinkStatus(status)),
                settings,
                request_duration,
            ),
            status_answer,
        ),
    ensures
        form_page matches Ok(page) ==> {
            &&& form_answer.status == 200
            &&& only_typed(form_answer, "text/html"@)
            &&& form_answer.body matches ResponseBody::Payload(Payload::Text(sent))
            &&& sent@ == page@
        },
        form_page is Err ==> {
            &&& form_answer.status == 400
            &&& only_typed(form_answer, "application/json"@)
            &&& form_answer.body == ResponseBody::<Payload>::Text(
                r#"{
                                "error": {
                                    "message": "Error while rendering payment link html page"
                                }
                            }"#,
            )
        },
        status_page matches Ok(page) ==> {
            &&& status_answer.status == 200
            &&& only_typed(status_answer, "text/html"@)
            &&& status_answer.body matches ResponseBody::Payload(Payload::Text(sent))
            &&& sent@ == page@
        },
        status_page is Err ==> {
            &&& status_answer.status == 400
            &&& only_typed(status_answer, "application/json"@)
            &&& status_answer.body == ResponseBody::<Payload>::Text(
                r#"{
                                "error": {
                                    "message": "Error while rendering payment link status page"
                                }
                            }"#,
            )
        },
{
    if form_page is Ok {
        lemma_only_typed(form_answer, "text/html"@);
    } else {
        lemma_only_typed(form_answer, "application/json"@);
    }
    if status_page is Ok {
        lemma_only_typed(status_answer, "text/html"@);
    } else {
        lemma_only_typed(status_answer, "application/json"@);
    }
}

/// Another link's page goes out as it is. It may be framed by itself and by the sites that were
/// named, and by no others; without sites nothing is said of framing. A page that could not be
/// rendered is refused, and the refusal tells what it was.
pub proof fn law_other_links_are_answered(
    link_type: String,
    html: Option<String>,
    allowed_domains: Vec<String>,
    settings: &AnswerSettings,
    request_duration: Option<u128>,
    res: HttpResponse<Payload>,
)
    requires
        call_ensures(
            server_wrap,
            (
                ApplicationResponse::GenericLinkForm { link_type, html, allowed_domains },
                settings,
                request_duration,
            ),
            res,
        ),
    ensures
        html is None ==> {
            &&& res.status == 400
            &&& only_typed(res, "application/json"@)
            &&& res.body matches ResponseBody::Payload(Payload::Text(sent))
            &&& sent@ == "Error while rendering "@ + link_type@ + " HTML page"@
        },
        html matches Some(page) ==> {
            &&& res.status == 200
            &&& res.headers@.len() >= 1
            &&& res.headers@[0].name@ == "content-type"@
            &&& res.headers@[0].value@ == "text/html"@
            &&& res.body matches ResponseBody::Payload(Payload::Text(sent))
            &&& sent@ == page@
        },
        html is Some && allowed_domains@.len() == 0 ==> res.headers@.len() == 1,
        html is Some && allowed_domains@.len() == 1 && crate::api::headers::is_header_value(
            "frame-ancestors 'self' "@ + allowed_domains@[0]@ + ";"@,
        ) ==> {
            &&& res.headers@.len() == 2
            &&& res.headers@[1].name@ == "content-security-policy"@
            &&& res.headers@[1].value@ == "frame-ancestors 'self' "@ + allowed_domains@[0]@ + ";"@
        },
        html is Some && allowed_domains@.len() > 0 ==> ({
            let policy = "frame-ancestors 'self' "@ + crate::text::join(
                crate::text::views(allowed_domains@),
                " "@,
            ) + ";"@;
            if crate::api::headers::is_header_value(policy) {
                &&& res.headers@.len() == 2
                &&& res.headers@[1].name@ == "content-security-policy"@
                &&& res.headers@[1].value@ == policy
            } else {
                res.headers@.len() == 1
            }
        }),
{
    let texts = crate::api::headers::header_texts(res.headers@);
    if html is None {
        lemma_only_typed(res, "application/json"@);
    } else {
        assert(texts.len() == res.headers@.len());
        assert(texts[0] == res.headers@[0]@);
        if texts.len() == 2 {
            assert(texts[1] == res.headers@[1]@);
        }
        if allowed_domains@.len() == 1 {
            assert(crate::text::views(allowed_domains@)[0] == allowed_domains@[0]@);
        }
    }
}

/// A JSON answer with header fields that could not be written is refused. One with a value that
/// cannot be sent is an error of the switch.
pub proof fn law_unsendable_fields_are_errors(
    body: Option<String>,
    headers: Vec<(String, Maskable<String>)>,
    settings: &AnswerSettings,
    res: HttpResponse<Payload>,
    i: int,
)
    requires
        call_ensures(
            server_wrap,
            (ApplicationResponse::JsonWithHeaders { body, headers }, settings, None::<u128>),
            res,
        ),
        0 <= i < headers@.len(),
    ensures
        body is None ==> res.status == 400 && res.body == ResponseBody::<Payload>::Text(
            r#"{
                        "error": {
                            "message": "Error serializing response from connector"
                        }
                    }"#,
        ),
        body is Some && !crate::api::headers::is_header_value(headers@[i].1.value()@)
            ==> res.status == 500 && res.body == ResponseBody::<Payload>::Text(
            "Something Went Wrong",
        ),
        body is Some && res.status == 200 ==> (res.body matches ResponseBody::Payload(
            Payload::Text(sent),
        ) && sent@ == body->0@),
{
    assert(crate::api::response::sent_value(headers@[i], None::<u128>) == headers@[i].1.value()@);
}

proof fn lemma_kept(list: Seq<HeaderText>, name: Seq<char>, entry: HeaderText)
    requires
        list.contains(entry),
        entry.name != name,
    ensures
        crate::api::headers::without_name(list, name).contains(entry),
    decreases list.len(),
{
    let rest = crate::api::headers::without_name(list.drop_last(), name);
    let kept = crate::api::headers::without_name(list, name);
    if list.last() == entry {
        assert(kept[kept.len() - 1] == entry);
    } else {
        let i = choose|i: int| 0 <= i < list.len() && list[i] == entry;
        assert(list.drop_last()[i] == entry);
        lemma_kept(list.drop_last(), name, entry);
        let j = choose|j: int| 0 <= j < rest.len() && rest[j] == entry;
        assert(kept[j] == entry);
    }
}

proof fn lemma_has_entry(headers: Seq<HeaderEntry>, entry: HeaderText)
    requires
        crate::api::headers::header_texts(headers).contains(entry),
    ensures
        exists|k: int| 0 <= k < headers.len() && (#[trigger] headers[k])@ == entry,
{
    let texts = crate::api::headers::header_texts(headers);
    let k = choose|k: int| 0 <= k < texts.len() && texts[k] == entry;
    assert(headers[k]@ == entry);
}

/// The header fields of an answer go out under their names in lower case and with their values,
/// and a value that has to be kept out of logs is marked so; the media type is that of JSON. The
/// time spent in outside calls is told as the rest of the time that the request took.
pub proof fn law_fields_are_sent<T>(
    payload: T,
    headers: Vec<(String, Maskable<String>)>,
    request_duration: Option<u128>,
    res: HttpResponse<T>,
    i: int,
)
    requires
        call_ensures(
            http_response_json_with_headers::<T>,
            (payload, headers, request_duration),
            res,
        ),
        res.status == 200,
        0 <= i < headers@.len(),
    ensures
        res.body == ResponseBody::Payload(payload),
        res.headers@.len() > 0,
        res.headers@.last().name@ == "content-type"@,
        res.headers@.last().value@ == "application/json"@,
        !res.headers@.last().sensitive,
        crate::api::headers::lower_text(headers@[i].0@) != "content-type"@ ==> exists|k: int|
            {
                &&& 0 <= k < res.headers@.len()
                &&& (#[trigger] res.headers@[k]).name@ == crate::api::headers::lower_text(
                    headers@[i].0@,
                )
                &&& res.headers@[k].sensitive <==> headers@[i].1 is Masked
                &&& request_duration is None || headers@[i].0@ != "x-hs-latency"@
                    || crate::text::parsed_number(headers@[i].1.value()@, u128::MAX as nat) is None
                    ==> res.headers@[k].value@ == headers@[i].1.value()@
                &&& request_duration matches Some(whole) ==> (crate::text::parsed_number(
                    headers@[i].1.value()@,
                    u128::MAX as nat,
                ) matches Some(outside) ==> (headers@[i].0@ == "x-hs-latency"@ && outside <= whole
                    ==> crate::text::parsed_number(res.headers@[k].value@, u128::MAX as nat)
                    == Some((whole - outside) as nat)))
            },
{
    let texts = crate::api::headers::header_texts(res.headers@);
    let sent = crate::api::response::sent_headers(headers@, request_duration);
    let typed = crate::api::response::content_type("application/json"@);
    assert(texts == crate::api::headers::with_header(sent, typed));
    assert(texts.last() == typed);
    assert(texts.last() == res.headers@.last()@);
    let entry = sent[i];
    let name = crate::api::headers::lower_text(headers@[i].0@);
    assert(crate::api::headers::header_name(headers@[i].0@) is Some);
    assert(entry.name == name);
    if name != "content-type"@ {
        assert(sent.contains(entry));
        lemma_kept(sent, "content-type"@, entry);
        let kept = crate::api::headers::without_name(sent, "content-type"@);
        let j = choose|j: int| 0 <= j < kept.len() && kept[j] == entry;
        assert(texts[j] == entry);
        assert(texts.contains(entry));
        lemma_has_entry(res.headers@, entry);
        let k = choose|k: int| 0 <= k < res.headers@.len() && (#[trigger] res.headers@[k])@
            == entry;
        if request_duration is Some && crate::text::parsed_number(
            headers@[i].1.value()@,
            u128::MAX as nat,
        ) is Some && headers@[i].0@ == "x-hs-latency"@ {
            let whole = request_duration->0;
            let outside = crate::text::parsed_number(
                headers@[i].1.value()@,
                u128::MAX as nat,
            )->0;
            if outside <= whole {
                crate::text::law_number_round_trip((whole - outside) as nat, u128::MAX as nat);
            }
        }
        assert(res.headers@[k].name@ == name);
    }
}

/// A page goes out as it is, as a page; each extra header field that can be sent goes with it,
/// unless a later one of its name does.
pub proof fn law_pages_are_answered<T>(
    payload: T,
    extra: Vec<(&'static str, String)>,
    bare: HttpResponse<T>,
    headed: HttpResponse<T>,
    i: int,
)
    requires
        call_ensures(http_response_html_data::<T>, (payload, None), bare),
        call_ensures(http_response_html_data::<T>, (payload, Some(extra)), headed),
        0 <= i < extra@.len(),
        crate::api::headers::is_header_value(extra@[i].1@),
        forall|j: int|
            i < j < extra@.len() && crate::api::headers::is_header_value(extra@[j].1@) ==> (
            #[trigger] extra@[j]).0@ != extra@[i].0@,
    ensures
        bare.status == 200 && bare.body == ResponseBody::Payload(payload),
        only_typed(bare, "text/html"@),
        headed.status == 200 && headed.body == ResponseBody::Payload(payload),
        exists|k: int|
            0 <= k < headed.headers@.len() && (#[trigger] headed.headers@[k]).name@ == extra@[i].0@
                && headed.headers@[k].value@ == extra@[i].1@,
{
    lemma_only_typed(bare, "text/html"@);
    let entry = crate::api::headers::plain_header(extra@[i].0@, extra@[i].1@);
    lemma_page_header(extra@, i);
    lemma_has_entry(headed.headers@, entry);
    let k = choose|k: int| 0 <= k < headed.headers@.len() && (#[trigger] headed.headers@[k])@
        == entry;
    assert(headed.headers@[k].name@ == extra@[i].0@);
}

proof fn lemma_page_header(extra: Seq<(&'static str, String)>, i: int)
    requires
        0 <= i < extra.len(),
        crate::api::headers::is_header_value(extra[i].1@),
        forall|j: int|
            i < j < extra.len() && crate::api::headers::is_header_value(extra[j].1@) ==> (
            #[trigger] extra[j]).0@ != extra[i].0@,
    ensures
        crate::api::response::page_headers(extra).contains(
            crate::api::headers::plain_header(extra[i].0@, extra[i].1@),
        ),
    decreases extra.len(),
{
    let all = crate::api::response::page_headers(extra);
    let entry = crate::api::headers::plain_header(extra[i].0@, extra[i].1@);
    if i == extra.len() - 1 {
        assert(all[all.len() - 1] == entry);
    } else {
        let shorter = extra.drop_last();
        assert forall|j: int|
            i < j < shorter.len() && crate::api::headers::is_header_value(
                shorter[j].1@,
            ) implies (#[trigger] shorter[j]).0@ != shorter[i].0@ by {
            assert(shorter[j] == extra[j]);
        }
        lemma_page_header(shorter, i);
        let before = crate::api::response::page_headers(shorter);
        let last = extra[extra.len() - 1];
        assert(extra.last() == last);
        if crate::api::headers::is_header_value(last.1@) {
            assert(last.0@ != extra[i].0@);
            lemma_kept(before, last.0@, entry);
            let kept = crate::api::headers::without_name(before, last.0@);
            let k = choose|k: int| 0 <= k < kept.len() && kept[k] == entry;
            assert(all[k] == entry);
        }
    }
}

/// Fields that can all be sent are sent. Where a value cannot be, the request failed in the switch;
/// where all values can and a name cannot, it is the name that is told.
pub proof fn law_unsendable_fields_are_refused<T>(
    payload: T,
    headers: Vec<(String, Maskable<String>)>,
    request_duration: Option<u128>,
    res: HttpResponse<T>,
)
    requires
        call_ensures(
            http_response_json_with_headers::<T>,
            (payload, headers, request_duration),
            res,
        ),
    ensures
        ({
            let values = forall|i: int|
                0 <= i < headers@.len() ==> crate::api::headers::is_header_value(
                    (#[trigger] headers@[i]).1.value()@,
                );
            let names = forall|i: int|
                0 <= i < headers@.len() ==> crate::api::headers::is_lower_name(
                    crate::api::headers::lower_text((#[trigger] headers@[i]).0@),
                );
            &&& values && names ==> res.status == 200
            &&& !values ==> res.status == 500 && only_typed(res, "application/json"@)
                && res.body == ResponseBody::<T>::Text("Something Went Wrong")
            &&& values && !names ==> res.status == 500 && only_typed(
                res,
                "text/plain; charset=utf-8"@,
            ) && res.body == ResponseBody::<T>::Text("invalid HTTP header name")
        }),
{
    assert forall|i: int| 0 <= i < headers@.len() implies (crate::api::headers::is_header_value(
        crate::api::response::sent_value(#[trigger] headers@[i], request_duration),
    ) <==> crate::api::headers::is_header_value(headers@[i].1.value()@)) by {
        let value = headers@[i].1.value()@;
        if crate::text::parsed_number(value, u128::MAX as nat) is Some {
            lemma_numbers_can_be_sent(value);
            if request_duration is Some {
                let rest = (request_duration->0 - crate::text::parsed_number(
                    value,
                    u128::MAX as nat,
                )->0) as nat;
                crate::text::law_number_round_trip(rest, rest);
                lemma_digits_can_be_sent(crate::text::number_text(rest), rest);
            }
        }
    }
    if crate::api::response::all_values_accepted(headers@, request_duration) {
        assert forall|i: int| 0 <= i < headers@.len() implies crate::api::headers::is_header_value(
            (#[trigger] headers@[i]).1.value()@,
        ) by {
            assert(crate::api::headers::is_header_value(
                crate::api::response::sent_value(headers@[i], request_duration),
            ));
        }
        if crate::api::response::all_names_accepted(headers@) {
        } else {
            lemma_only_typed(res, "text/plain; charset=utf-8"@);
            let i = choose|i: int|
                0 <= i < headers@.len() && crate::api::headers::header_name(
                    (#[trigger] headers@[i]).0@,
                ) is None;
            assert(!crate::api::headers::is_lower_name(
                crate::api::headers::lower_text(headers@[i].0@),
            ));
        }
    } else {
        lemma_only_typed(res, "application/json"@);
        let i = choose|i: int|
            0 <= i < headers@.len() && !crate::api::headers::is_header_value(
                crate::api::response::sent_value(#[trigger] headers@[i], request_duration),
            );
        assert(!crate::api::headers::is_header_value(headers@[i].1.value()@));
    }
}

proof fn lemma_numbers_can_be_sent(text: Seq<char>)
    requires
        crate::text::parsed_number(text, u128::MAX as nat) is Some,
    ensures
        crate::api::headers::is_header_value(text),
{
    lemma_digits_can_be_sent(text, u128::MAX as nat);
}

proof fn lemma_digits_can_be_sent(text: Seq<char>, max: nat)
    requires
        crate::text::parsed_number(text, max) is Some,
    ensures
        crate::api::headers::is_header_value(text),
{
    let digits = crate::text::without_plus(text);
    assert forall|i: int| 0 <= i < text.len() implies crate::api::headers::is_value_char(
        #[trigger] text[i],
    ) by {
        if text[0] == '+' {
            if i > 0 {
                assert(digits[i - 1] == text[i]);
                assert(crate::text::is_digit(digits[i - 1]));
            }
        } else {
            assert(digits[i] == text[i]);
            assert(crate::text::is_digit(digits[i]));
        }
    }
}

/// A page carries nothing but its media type and the extra fields that can be sent, none of them
/// kept out of logs; the media type is that of a page unless an extra field says otherwise.
pub proof fn law_pages_carry_nothing_else<T>(
    payload: T,
    extra: Vec<(&'static str, String)>,
    res: HttpResponse<T>,
    k: int,
)
    requires
        call_ensures(http_response_html_data::<T>, (payload, Some(extra)), res),
        0 <= k < res.headers@.len(),
    ensures
        !res.headers@[k].sensitive,
        (res.headers@[k].name@ == "content-type"@ && res.headers@[k].value@ == "text/html"@)
            || exists|j: int|
            {
                &&& 0 <= j < extra@.len()
                &&& (#[trigger] extra@[j]).0@ == res.headers@[k].name@
                &&& extra@[j].1@ == res.headers@[k].value@
                &&& crate::api::headers::is_header_value(extra@[j].1@)
            },
        (forall|j: int| 0 <= j < extra@.len() ==> (#[trigger] extra@[j]).0@ != "content-type"@)
            ==> exists|i: int|
            0 <= i < res.headers@.len() && (#[trigger] res.headers@[i]).name@ == "content-type"@
                && res.headers@[i].value@ == "text/html"@,
{
    let all = crate::api::response::page_headers(extra@);
    let typed = crate::api::response::content_type("text/html"@);
    assert(crate::api::headers::header_texts(res.headers@) == all);
    assert(all[k] == res.headers@[k]@);
    lemma_page_header_is_given(extra@, k);
    if forall|j: int| 0 <= j < extra@.len() ==> (#[trigger] extra@[j]).0@ != "content-type"@ {
        lemma_page_is_typed(extra@);
        lemma_has_entry(res.headers@, typed);
        let i = choose|i: int| 0 <= i < res.headers@.len() && (#[trigger] res.headers@[i])@
            == typed;
        assert(res.headers@[i].name@ == "content-type"@);
        assert(res.headers@[i].value@ == "text/html"@);
    }
}

proof fn lemma_page_is_typed(extra: Seq<(&'static str, String)>)
    requires
        forall|j: int| 0 <= j < extra.len() ==> (#[trigger] extra[j]).0@ != "content-type"@,
    ensures
        crate::api::response::page_headers(extra).contains(
            crate::api::response::content_type("text/html"@),
        ),
    decreases extra.len(),
{
    let all = crate::api::response::page_headers(extra);
    let typed = crate::api::response::content_type("text/html"@);
    if extra.len() == 0 {
        assert(all[0] == typed);
    } else {
        let shorter = extra.drop_last();
        assert forall|j: int| 0 <= j < shorter.len() implies (#[trigger] shorter[j]).0@
            != "content-type"@ by {
            assert(shorter[j] == extra[j]);
        }
        lemma_page_is_typed(shorter);
        let before = crate::api::response::page_headers(shorter);
        let last = extra[extra.len() - 1];
        assert(extra.last() == last);
        if crate::api::headers::is_header_value(last.1@) {
            lemma_kept(before, last.0@, typed);
            let kept = crate::api::headers::without_name(before, last.0@);
            let i = choose|i: int| 0 <= i < kept.len() && kept[i] == typed;
            assert(all[i] == typed);
        }
    }
}

proof fn lemma_page_header_is_given(extra: Seq<(&'static str, String)>, k: int)
    requires
        0 <= k < crate::api::response::page_headers(extra).len(),
    ensures
        ({
            let field = crate::api::response::page_headers(extra)[k];
            &&& !field.sensitive
            &&& (field.name == "content-type"@ && field.value == "text/html"@) || exists|j: int|
                {
                    &&& 0 <= j < extra.len()
                    &&& (#[trigger] extra[j]).0@ == field.name
                    &&& extra[j].1@ == field.value
                    &&& crate::api::headers::is_header_value(extra[j].1@)
                }
        }),
    decreases extra.len(),
{
    if extra.len() > 0 {
        let all = crate::api::response::page_headers(extra);
        let shorter = extra.drop_last();
        let before = crate::api::response::page_headers(shorter);
        let last = extra[extra.len() - 1];
        assert(extra.last() == last);
        let field = all[k];
        if crate::api::headers::is_header_value(last.1@) && k == all.len() - 1 {
            assert(field.name == last.0@);
        } else {
            if crate::api::headers::is_header_value(last.1@) {
                let kept = crate::api::headers::without_name(before, last.0@);
                assert(field == kept[k]);
                lemma_kept_was_there(before, last.0@, k);
            } else {
                assert(before[k] == field);
            }
            let i = choose|i: int| 0 <= i < before.len() && before[i] == field;
            lemma_page_header_is_given(shorter, i);
            if !(field.name == "content-type"@ && field.value == "text/html"@) {
                let j = choose|j: int|
                    {
                        &&& 0 <= j < shorter.len()
                        &&& (#[trigger] shorter[j]).0@ == field.name
                        &&& shorter[j].1@ == field.value
                        &&& crate::api::headers::is_header_value(shorter[j].1@)
                    };
                assert(extra[j] == shorter[j]);
            }
        }
    }
}

proof fn lemma_kept_was_there(list: Seq<HeaderText>, name: Seq<char>, k: int)
    requires
        0 <= k < crate::api::headers::without_name(list, name).len(),
    ensures
        list.contains(crate::api::headers::without_name(list, name)[k]),
    decreases list.len(),
{
    if list.len() > 0 {
        let kept = crate::api::headers::without_name(list, name);
        let rest = crate::api::headers::without_name(list.drop_last(), name);
        if k < rest.len() {
            lemma_kept_was_there(list.drop_last(), name, k);
            let i = choose|i: int| 0 <= i < list.len() - 1 && list.drop_last()[i] == rest[k];
            assert(list[i] == kept[k]);
        } else {
            assert(list[list.len() - 1] == kept[k]);
        }
    }
}

/// Without tenants in requests it is the default one. With them it is the configured one of the
/// id that the request names; every other request is refused, and the refusal tells why.
pub proof fn law_tenant_is_the_named_one(
    lookup: TenantLookup,
    default_id: String,
    res: Result<String, ApiErrorResponse>,
)
    requires
        call_ensures(default_tenant_id, (), default_id),
        call_ensures(resolve_tenant, (lookup,), res),
    ensures
        default_id@ == "public"@,
        !lookup.multitenancy_enabled ==> (res is Ok <==> lookup.default_tenant is Some) && (res
            is Ok ==> lookup.default_tenant == Some(res->Ok_0)) && (res is Err ==> res->Err_0
            is InternalServerError),
        lookup.multitenancy_enabled ==> (res is Ok <==> lookup.header is Some
            && lookup.header_tenant is Some && lookup.configured_tenant is Some) && (res is Ok
            ==> lookup.configured_tenant == Some(res->Ok_0)),
        lookup.multitenancy_enabled && res is Err ==> {
            &&& res->Err_0 is MissingTenantId <==> lookup.header is None
            &&& res->Err_0 is InvalidRequestData <==> lookup.header is Some && lookup.header_tenant
                is None
            &&& res->Err_0 is InvalidTenant <==> lookup.header is Some && lookup.header_tenant
                is Some
            &&& res->Err_0 is InvalidTenant ==> lookup.header_tenant == Some(
                res->Err_0->InvalidTenant_tenant_id,
            )
            &&& res->Err_0 is InvalidRequestData ==> res->Err_0->InvalidRequestData_message@ == "`"@
                + "x-tenant-id"@ + "` header is invalid"@
        },
{
}

/// A client is told how an error came about exactly where clients are told that; nothing else of
/// the error changes.
pub proof fn law_errors_are_told_as_configured(
    report: ErrorReport,
    error: ApiErrorResponse,
    embedded: ErrorReport,
    plain: ApiErrorResponse,
)
    requires
        call_ensures(<ErrorReport as EmbedError>::embed, (report,), embedded),
        call_ensures(<ApiErrorResponse as EmbedError>::embed, (error,), plain),
    ensures
        plain == error,
        report.detailed_errors ==> embedded.stacktrace == report.error_trace,
        !report.detailed_errors ==> embedded == report,
        embedded == (ErrorReport { stacktrace: embedded.stacktrace, ..report }),
{
}

/// The time spent in outside calls is the number in the first header field that tells it.
pub proof fn law_outside_time_is_the_told_one(
    headers: &Vec<(String, Maskable<String>)>,
    i: int,
    res: Option<u128>,
)
    requires
        call_ensures(overhead_latency, (headers,), res),
        0 <= i <= headers@.len(),
        forall|j: int| 0 <= j < i ==> (#[trigger] headers@[j]).0@ != "x-hs-latency"@,
        i < headers@.len() ==> headers@[i].0@ == "x-hs-latency"@,
    ensures
        i == headers@.len() ==> res is None,
        i < headers@.len() ==> (match res {
            Some(number) => crate::text::parsed_number(headers@[i].1.value()@, u128::MAX as nat)
                == Some(number as nat),
            None => crate::text::parsed_number(headers@[i].1.value()@, u128::MAX as nat) is None,
        }),
{
    lemma_first_latency(headers@, i);
}

proof fn lemma_first_latency(headers: Seq<(String, Maskable<String>)>, i: int)
    requires
        0 <= i <= headers.len(),
        forall|j: int| 0 <= j < i ==> (#[trigger] headers[j]).0@ != "x-hs-latency"@,
        i < headers.len() ==> headers[i].0@ == "x-hs-latency"@,
    ensures
        crate::api::server::latency_header(headers) == (if i < headers.len() {
            Some(headers[i].1.value())
        } else {
            None
        }),
    decreases headers.len(),
{
    if headers.len() > 0 && i > 0 {
        assert(headers[0].0@ != "x-hs-latency"@);
        let rest = headers.skip(1);
        assert forall|j: int| 0 <= j < i - 1 implies (#[trigger] rest[j]).0@
            != "x-hs-latency"@ by {
            assert(rest[j] == headers[j + 1]);
        }
        lemma_first_latency(rest, i - 1);
    }
}

/// The kind of an event is the answer's, else the request's, else the given one.
pub proof fn law_event_is_the_answers<E>(
    of_response: Option<E>,
    of_request: Option<E>,
    otherwise: E,
    res: E,
)
    requires
        call_ensures(choose_event_type::<E>, (of_response, of_request, otherwise), res),
    ensures
        of_response matches Some(event) ==> res == event,
        of_response is None ==> (of_request matches Some(event) ==> res == event),
        of_response is None && of_request is None ==> res == otherwise,
{
}

/// Of a request's header fields the log shows the value where the name is on the list, and a mask
/// everywhere else; a later field of a name stands for the earlier ones.
pub proof fn law_log_shows_listed_values(
    headers: &Vec<HeaderEntry>,
    unmasked: &Vec<String>,
    res: Vec<HeaderEntry>,
    i: int,
)
    requires
        call_ensures(headers_to_log, (headers, unmasked), res),
        0 <= i < headers@.len(),
        forall|j: int|
            i < j < headers@.len() ==> (#[trigger] headers@[j]).name@ != headers@[i].name@,
    ensures
        exists|k: int|
            {
                &&& 0 <= k < res@.len()
                &&& (#[trigger] res@[k]).name@ == headers@[i].name@
                &&& (exists|u: int|
                    0 <= u < unmasked@.len() && (#[trigger] unmasked@[u])@ == headers@[i].name@)
                    ==> res@[k].value@ == headers@[i].value@
                &&& !(exists|u: int|
                    0 <= u < unmasked@.len() && (#[trigger] unmasked@[u])@ == headers@[i].name@)
                    ==> res@[k].value@ == "**MASKED**"@
            },
{
    let entry = crate::api::headers::plain_header(
        headers@[i].name@,
        crate::api::server::logged_value(headers@[i], unmasked@),
    );
    lemma_logged(headers@, unmasked@, i);
    lemma_has_entry(res@, entry);
    let k = choose|k: int| 0 <= k < res@.len() && (#[trigger] res@[k])@ == entry;
    assert(res@[k].name@ == headers@[i].name@);
}

proof fn lemma_logged(headers: Seq<HeaderEntry>, unmasked: Seq<String>, i: int)
    requires
        0 <= i < headers.len(),
        forall|j: int| i < j < headers.len() ==> (#[trigger] headers[j]).name@ != headers[i].name@,
    ensures
        crate::api::server::logged_headers(headers, unmasked).contains(
            crate::api::headers::plain_header(
                headers[i].name@,
                crate::api::server::logged_value(headers[i], unmasked),
            ),
        ),
    decreases headers.len(),
{
    let all = crate::api::server::logged_headers(headers, unmasked);
    let entry = crate::api::headers::plain_header(
        headers[i].name@,
        crate::api::server::logged_value(headers[i], unmasked),
    );
    if i == headers.len() - 1 {
        assert(all[all.len() - 1] == entry);
    } else {
        let shorter = headers.drop_last();
        assert forall|j: int| i < j < shorter.len() implies (#[trigger] shorter[j]).name@
            != shorter[i].name@ by {
            assert(shorter[j] == headers[j]);
        }
        lemma_logged(shorter, unmasked, i);
        let before = crate::api::server::logged_headers(shorter, unmasked);
        let last = headers[headers.len() - 1];
        assert(headers.last() == last);
        assert(last.name@ != headers[i].name@);
        lemma_kept(before, last.name@, entry);
        let kept = crate::api::headers::without_name(before, last.name@);
        let k = choose|k: int| 0 <= k < kept.len() && kept[k] == entry;
        assert(all[k] == entry);
    }
}

/// The time that a request took is told exactly where the client asked for it.
pub proof fn law_time_is_told_where_asked(
    latency_request: &Option<String>,
    elapsed: u128,
    res: Option<u128>,
)
    requires
        call_ensures(requested_duration, (latency_request, elapsed), res),
    ensures
        res is Some <==> latency_request is Some && latency_request->0@ == "true"@,
        res matches Some(told) ==> told == elapsed,
{
}

/// Header fields pass the test of their times where none of them tells of more time in outside
/// calls than the request took.
pub proof fn law_fitting_times_pass(
    headers: &Vec<(String, Maskable<String>)>,
    duration: Option<u128>,
    res: bool,
)
    requires
        call_ensures(check_latencies, (headers, duration), res),
    ensures
        duration is None ==> res,
        (forall|i: int|
            0 <= i < headers@.len() ==> (#[trigger] headers@[i]).0@ != "x-hs-latency"@) ==> res,
        headers@.len() == 1 && headers@[0].0@ == "x-hs-latency"@ ==> (duration matches Some(whole)
            ==> (crate::text::parsed_number(headers@[0].1.value()@, u128::MAX as nat) matches Some(
            outside,
        ) ==> (res <==> outside <= whole))),
{
    if headers@.len() == 1 && duration is Some && headers@[0].0@ == "x-hs-latency"@
        && crate::text::parsed_number(headers@[0].1.value()@, u128::MAX as nat) is Some {
        let outside = crate::text::parsed_number(headers@[0].1.value()@, u128::MAX as nat)->0;
        assert(crate::api::response::latency_exceeds(headers@[0], duration) <==> outside
            > duration->0);
        if res {
            assert(!crate::api::response::latency_exceeds(headers@[0], duration));
        }
    }
}

} // verus!
