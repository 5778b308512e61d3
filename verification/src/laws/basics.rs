//! Laws of the small operations that the others rest on.
use vstd::prelude::*;
use crate::api::authenticate::{Authenticate, PaymentMethodListRequest, PaymentsConfirmIntentRequest, PaymentsIncrementalAuthorizationRequest, PaymentsRejectRequest, PaymentsRetrieveRequest, PaymentsUpdateMetadataRequest, ProxyPaymentsRequest};
use crate::api::headers::{append_header, insert_header, HeaderEntry};
use crate::api::payment_link::PaymentLinkAssets;
use crate::checkout::payments::CheckoutPaymentStatus;
use crate::enums::{CaptureMethod, Method};
use crate::errors::{ConnectorError, Required};
use crate::payme::payments::{coded_error, get_pay_sale_error_response, get_sale_query_error_response, write_code, PaymePaySaleResponse, SaleQuery};
use crate::payme::sales::{copy_required, copy_required_secret, get_first_product, get_payme_card, get_services, PaymeCard, ThreeDs};
use crate::payment_data::{Card, PaymentMethodToken};
use crate::router_data::{ErrorResponse, OrderDetails, PaymentsAuthorizeData, PaymentsCaptureData, PaymentsPreProcessingRouterData, RouterData};
use crate::secret::{clone_optional_secret, Maskable, Secret};
use crate::text::{clone_optional, clone_or, concat2, concat3, same_text, strip_leading_marks};
use crate::web_url::WebUrl;

verus! {

/// Text is copied, compared and put together as it is.
pub proof fn law_texts_are_kept(
    first: &str,
    second: &str,
    third: &str,
    value: &Option<String>,
    same: bool,
    two: String,
    three: String,
    copied: Option<String>,
    chosen: String,
)
    requires
        call_ensures(same_text, (first, second), same),
        call_ensures(concat2, (first, second), two),
        call_ensures(concat3, (first, second, third), three),
        call_ensures(clone_optional, (value,), copied),
        call_ensures(clone_or, (value, first), chosen),
    ensures
        same <==> first@ == second@,
        two@ == first@ + second@,
        three@ == two@ + third@,
        copied == *value,
        value is Some ==> chosen@ == value->0@,
        value is None ==> chosen@ == first@,
{
}

/// The marks of byte order before a text are dropped, and nothing else of it is.
pub proof fn law_marks_are_dropped(text: String, n: int, res: String)
    requires
        call_ensures(strip_leading_marks, (text,), res),
        0 <= n <= text@.len(),
        forall|i: int| 0 <= i < n ==> #[trigger] text@[i] == '\u{feff}',
        n < text@.len() ==> text@[n] != '\u{feff}',
    ensures
        res@ == text@.skip(n),
{
    lemma_marks_are_dropped(text@, n);
}

proof fn lemma_marks_are_dropped(text: Seq<char>, n: int)
    requires
        0 <= n <= text.len(),
        forall|i: int| 0 <= i < n ==> #[trigger] text[i] == '\u{feff}',
        n < text.len() ==> text[n] != '\u{feff}',
    ensures
        crate::text::without_leading_marks(text) == text.skip(n),
    decreases n,
{
    if n == 0 {
        assert(text.skip(0) == text);
    } else {
        assert(text[0] == '\u{feff}');
        let rest = text.skip(1);
        assert forall|i: int| 0 <= i < n - 1 implies #[trigger] rest[i] == '\u{feff}' by {
            assert(rest[i] == text[i + 1]);
        }
        lemma_marks_are_dropped(rest, n - 1);
        assert(rest.skip(n - 1) == text.skip(n));
    }
}

/// A secret holds what was put into it, and gives it back.
pub proof fn law_secrets_keep_their_value<S>(
    value: S,
    kept: Secret<S>,
    seen: &S,
    exposed: S,
    texts: &Option<Secret<String>>,
    copied: Option<Secret<String>>,
)
    requires
        call_ensures(Secret::<S>::new, (value,), kept),
        call_ensures(Secret::<S>::peek, (&kept,), seen),
        call_ensures(Secret::<S>::expose, (kept,), exposed),
        call_ensures(clone_optional_secret, (texts,), copied),
    ensures
        *seen == value,
        exposed == value,
        copied == *texts,
{
}

/// A value that is kept out of logs is the same value, and is known to be kept out.
pub proof fn law_masked_values_are_values<T>(
    value: T,
    masked: bool,
    open: bool,
    masked_value: T,
    open_value: T,
    seen: &T,
)
    requires
        call_ensures(
            Maskable::<T>::is_masked,
            (&Maskable::Masked(Secret { inner_secret: value }),),
            masked,
        ),
        call_ensures(Maskable::<T>::is_masked, (&Maskable::Normal(value),), open),
        call_ensures(
            Maskable::<T>::into_inner,
            (Maskable::Masked(Secret { inner_secret: value }),),
            masked_value,
        ),
        call_ensures(Maskable::<T>::into_inner, (Maskable::Normal(value),), open_value),
        call_ensures(
            Maskable::<T>::inner,
            (&Maskable::Masked(Secret { inner_secret: value }),),
            seen,
        ),
    ensures
        masked,
        !open,
        masked_value == value,
        open_value == value,
        *seen == value,
{
}

/// The names of HTTP methods, and what stands where nothing is said: a payment is captured by
/// itself, and is pending at Checkout.
pub proof fn law_names_and_defaults(
    method: &Method,
    name: &str,
    capture: CaptureMethod,
    status: CheckoutPaymentStatus,
)
    requires
        call_ensures(Method::name, (method,), name),
        call_ensures(<CaptureMethod as Default>::default, (), capture),
        call_ensures(<CheckoutPaymentStatus as Default>::default, (), status),
    ensures
        crate::laws::pages::is_method_name(*method, name@),
        capture is Automatic,
        status is Pending,
{
}

/// An address of the web is copied whole.
pub proof fn law_addresses_are_copied_whole(url: &WebUrl, res: WebUrl)
    requires
        call_ensures(WebUrl::copy, (url,), res),
    ensures
        res.text == url.text,
        res.scheme == url.scheme,
        res.host == url.host,
        res.port == url.port,
{
}

/// A header field is added behind the others, which stay.
pub proof fn law_header_is_appended(list: &mut Vec<HeaderEntry>, entry: HeaderEntry, i: int)
    requires
        call_ensures(append_header, (list, entry), ()),
        0 <= i < old(list)@.len(),
    ensures
        final(list)@.len() == old(list)@.len() + 1,
        final(list)@.last().name@ == entry.name@,
        final(list)@.last().value@ == entry.value@,
        final(list)@.last().sensitive == entry.sensitive,
        final(list)@[i].name@ == old(list)@[i].name@,
        final(list)@[i].value@ == old(list)@[i].value@,
        final(list)@[i].sensitive == old(list)@[i].sensitive,
{
    let before = crate::api::headers::header_texts(old(list)@);
    let after = crate::api::headers::header_texts(final(list)@);
    assert(after.len() == before.len() + 1);
    assert(after[i] == before[i]);
    assert(after[i] == final(list)@[i]@);
    assert(before[i] == old(list)@[i]@);
    assert(after.last() == entry@);
    assert(after.last() == final(list)@.last()@);
}

/// A header field that is set is the only one of its name.
pub proof fn law_header_is_set_once(list: &mut Vec<HeaderEntry>, entry: HeaderEntry, i: int)
    requires
        call_ensures(insert_header, (list, entry), ()),
        0 <= i < final(list)@.len() - 1,
    ensures
        final(list)@.last().name@ == entry.name@,
        final(list)@.last().value@ == entry.value@,
        final(list)@.last().sensitive == entry.sensitive,
        final(list)@[i].name@ != entry.name@,
{
    let before = crate::api::headers::header_texts(old(list)@);
    let after = crate::api::headers::header_texts(final(list)@);
    assert(after.last() == entry@);
    assert(after.last() == final(list)@.last()@);
    assert(after[i] == final(list)@[i]@);
    assert(after[i] == crate::api::headers::without_name(before, entry.name@)[i]);
    lemma_name_is_dropped(before, entry.name@, i);
}

proof fn lemma_name_is_dropped(
    list: Seq<crate::api::headers::HeaderText>,
    name: Seq<char>,
    i: int,
)
    requires
        0 <= i < crate::api::headers::without_name(list, name).len(),
    ensures
        crate::api::headers::without_name(list, name)[i].name != name,
    decreases list.len(),
{
    if list.len() > 0 {
        let rest = crate::api::headers::without_name(list.drop_last(), name);
        if i < rest.len() {
            lemma_name_is_dropped(list.drop_last(), name, i);
        }
    }
}

/// Copies are the same values again.
pub proof fn law_copies_are_the_same(
    secret: &Secret<String>,
    address: &crate::address::Address,
    currency: &crate::enums::Currency,
    connector: &crate::authentication::ConnectorData,
    json: &Option<serde_json::Value>,
    of_secret: Secret<String>,
    of_address: crate::address::Address,
    of_currency: crate::enums::Currency,
    of_connector: crate::authentication::ConnectorData,
    of_json: Option<serde_json::Value>,
)
    requires
        call_ensures(<Secret<String> as Clone>::clone, (secret,), of_secret),
        call_ensures(<crate::address::Address as Clone>::clone, (address,), of_address),
        call_ensures(<crate::enums::Currency as Clone>::clone, (currency,), of_currency),
        call_ensures(
            <crate::authentication::ConnectorData as Clone>::clone,
            (connector,),
            of_connector,
        ),
        call_ensures(crate::json::clone_optional_json, (json,), of_json),
    ensures
        of_secret == *secret,
        of_address == *address,
        of_currency == *currency,
        of_connector == *connector,
        of_json == *json,
{
}

/// The templates of all pages.
pub open spec fn templates(assets: PaymentLinkAssets) -> Seq<Seq<char>> {
    seq![
        assets.css_template@,
        assets.js_template@,
        assets.html_template@,
        assets.status_css_template@,
        assets.status_js_template@,
        assets.status_html_template@,
    ]
}

/// Templates without braces only insert values. A template with a statement does more, whichever
/// it is, and so does one that opens an expression which does not start with a name.
pub proof fn law_statements_are_not_plain(
    bare: &PaymentLinkAssets,
    stated: &PaymentLinkAssets,
    computed: &PaymentLinkAssets,
    t: int,
    i: int,
    of_bare: bool,
    of_stated: bool,
    of_computed: bool,
)
    requires
        call_ensures(PaymentLinkAssets::check_plain, (bare,), of_bare),
        call_ensures(PaymentLinkAssets::check_plain, (stated,), of_stated),
        call_ensures(PaymentLinkAssets::check_plain, (computed,), of_computed),
        forall|n: int, k: int|
            0 <= n < 6 && 0 <= k < templates(*bare)[n].len() ==> #[trigger] templates(*bare)[n][k]
                != '{',
        0 <= t < 6,
        0 <= i < templates(*stated)[t].len() - 1,
        templates(*stated)[t][i] == '{',
        templates(*stated)[t][i + 1] == '%',
        0 <= i < templates(*computed)[t].len() - 2,
        templates(*computed)[t][i] == '{',
        templates(*computed)[t][i + 1] == '{',
        ({
            let first = templates(*computed)[t][i + 2];
            first != ' ' && first != '_' && !('a' <= first <= 'z') && !('A' <= first <= 'Z')
        }),
    ensures
        of_bare,
        !of_stated,
        !of_computed,
{
    assert forall|n: int| 0 <= n < 6 implies crate::api::payment_link::is_plain_template(
        #[trigger] templates(*bare)[n],
    ) by {
        let text = templates(*bare)[n];
        assert forall|k: int| !#[trigger] crate::api::payment_link::pair_at(text, k, '{', '%') by {
            if 0 <= k < text.len() {
                assert(templates(*bare)[n][k] != '{');
            }
        }
        assert forall|k: int| !#[trigger] crate::api::payment_link::pair_at(text, k, '{', '{') by {
            if 0 <= k < text.len() {
                assert(templates(*bare)[n][k] != '{');
            }
        }
    }
    assert(crate::api::payment_link::is_plain_template(templates(*bare)[0]));
    assert(crate::api::payment_link::is_plain_template(templates(*bare)[1]));
    assert(crate::api::payment_link::is_plain_template(templates(*bare)[2]));
    assert(crate::api::payment_link::is_plain_template(templates(*bare)[3]));
    assert(crate::api::payment_link::is_plain_template(templates(*bare)[4]));
    assert(crate::api::payment_link::is_plain_template(templates(*bare)[5]));
    assert(crate::api::payment_link::pair_at(templates(*stated)[t], i, '{', '%'));
    assert(!crate::api::payment_link::is_plain_template(templates(*stated)[t]));
    let text = templates(*computed)[t];
    assert(crate::api::payment_link::pair_at(text, i, '{', '{'));
    if crate::api::payment_link::inserts_name(text, i) {
        let j = choose|j: int|
            #![trigger crate::api::payment_link::pair_at(text, j, '}', '}')]
            i + 2 <= j && crate::api::payment_link::pair_at(text, j, '}', '}')
                && crate::api::payment_link::is_name_with_blanks(text, i + 2, j);
        let start = i + 2;
        let (from, to) = choose|from: int, to: int|
            crate::api::payment_link::is_name_between(text, start, from, to, j);
        if from == i + 2 {
            assert(crate::api::payment_link::is_name_start(text[from]));
        } else {
            assert(text[i + 2] == ' ');
        }
    }
    assert(!crate::api::payment_link::is_plain_template(text));
}

/// A template that inserts one value by its name, with or without blanks around the name and with no
/// other brace, does nothing more.
pub proof fn law_names_are_plain(
    assets: &PaymentLinkAssets,
    before: Seq<char>,
    left: Seq<char>,
    name: Seq<char>,
    right: Seq<char>,
    after: Seq<char>,
    plain: bool,
)
    requires
        call_ensures(PaymentLinkAssets::check_plain, (assets,), plain),
        forall|n: int|
            0 <= n < 6 ==> #[trigger] templates(*assets)[n] == before + seq!['{', '{'] + left + name
                + right + seq!['}', '}'] + after,
        forall|k: int| 0 <= k < left.len() ==> #[trigger] left[k] == ' ',
        forall|k: int| 0 <= k < right.len() ==> #[trigger] right[k] == ' ',
        forall|k: int| 0 <= k < before.len() ==> #[trigger] before[k] != '{',
        forall|k: int| 0 <= k < after.len() ==> #[trigger] after[k] != '{',
        name.len() > 0,
        'a' <= name[0] <= 'z' || 'A' <= name[0] <= 'Z' || name[0] == '_',
        forall|k: int|
            0 <= k < name.len() ==> 'a' <= #[trigger] name[k] <= 'z' || 'A' <= name[k] <= 'Z'
                || name[k] == '_' || '0' <= name[k] <= '9',
    ensures
        plain,
{
    let text = before + seq!['{', '{'] + left + name + right + seq!['}', '}'] + after;
    let at = before.len() as int;
    let start = at + 2;
    let from = start + left.len();
    let to = from + name.len();
    let end = to + right.len();
    assert forall|k: int| 0 <= k < at implies #[trigger] text[k] == before[k] by {}
    assert forall|k: int| start <= k < from implies #[trigger] text[k] == left[k - start] by {}
    assert forall|k: int| from <= k < to implies #[trigger] text[k] == name[k - from] by {}
    assert forall|k: int| to <= k < end implies #[trigger] text[k] == right[k - to] by {}
    assert forall|k: int| end + 2 <= k < text.len() implies #[trigger] text[k] == after[k - end
        - 2] by {}
    assert(text[at] == '{' && text[at + 1] == '{' && text[end] == '}' && text[end + 1] == '}');
    assert forall|k: int| start <= k < from implies #[trigger] text[k] == ' ' by {
        assert(left[k - start] == ' ');
    }
    assert forall|k: int| to <= k < end implies #[trigger] text[k] == ' ' by {
        assert(right[k - to] == ' ');
    }
    assert forall|k: int| from <= k < to implies crate::api::payment_link::is_name_char(
        #[trigger] text[k],
    ) by {
        assert(text[k] == name[k - from]);
    }
    assert forall|k: int| 0 <= k < text.len() && #[trigger] text[k] == '{' implies k == at || k == at
        + 1 by {
        if k < at {
            assert(before[k] == text[k]);
        } else if from <= k < to {
            assert(name[k - from] == text[k]);
        } else if k >= end + 2 {
            assert(after[k - end - 2] == text[k]);
        }
    }
    assert(text[start] != '{' && text[start] != '%') by {
        if start < from {
            assert(text[start] == ' ');
        } else {
            assert(text[start] == name[0]);
        }
    }
    assert(text[from] == name[0]);
    assert(crate::api::payment_link::pair_at(text, end, '}', '}'));
    assert(crate::api::payment_link::is_name_between(text, start, from, to, end));
    assert(crate::api::payment_link::is_name_with_blanks(text, start, end));
    assert(crate::api::payment_link::inserts_name(text, at));
    assert(crate::api::payment_link::is_plain_template(text)) by {
        assert forall|i: int| !#[trigger] crate::api::payment_link::pair_at(text, i, '{', '%') by {
            if 0 <= i < text.len() && text[i] == '{' {
                assert(text[i + 1] != '%');
            }
        }
        assert forall|i: int| #[trigger]
            crate::api::payment_link::pair_at(text, i, '{', '{') implies crate::api::payment_link::inserts_name(
            text,
            i,
        ) by {
            assert(i == at);
        }
    }
    assert(templates(*assets)[0] == text);
    assert(templates(*assets)[1] == text);
    assert(templates(*assets)[2] == text);
    assert(templates(*assets)[3] == text);
    assert(templates(*assets)[4] == text);
    assert(templates(*assets)[5] == text);
}

/// A request that carries no secret shows none, and one that asks for nothing more gets nothing
/// more.
pub proof fn law_silent_requests_ask_for_nothing(
    proxy: &ProxyPaymentsRequest,
    metadata: &PaymentsUpdateMetadataRequest,
    incremental: &PaymentsIncrementalAuthorizationRequest,
    reject: &PaymentsRejectRequest,
    confirm: &PaymentsConfirmIntentRequest,
    retrieve: &PaymentsRetrieveRequest,
    methods: &PaymentMethodListRequest,
    shown: Seq<Option<&String>>,
    asked: Seq<Option<bool>>,
)
    requires
        shown.len() == 6,
        asked.len() == 5,
        call_ensures(<ProxyPaymentsRequest as Authenticate>::get_client_secret, (proxy,), shown[0]),
        call_ensures(
            <PaymentsUpdateMetadataRequest as Authenticate>::get_client_secret,
            (metadata,),
            shown[1],
        ),
        call_ensures(
            <PaymentsIncrementalAuthorizationRequest as Authenticate>::get_client_secret,
            (incremental,),
            shown[2],
        ),
        call_ensures(
            <PaymentsRejectRequest as Authenticate>::get_client_secret,
            (reject,),
            shown[3],
        ),
        call_ensures(
            <PaymentsConfirmIntentRequest as Authenticate>::get_client_secret,
            (confirm,),
            shown[4],
        ),
        call_ensures(
            <PaymentsRetrieveRequest as Authenticate>::get_client_secret,
            (retrieve,),
            shown[5],
        ),
        call_ensures(
            <ProxyPaymentsRequest as Authenticate>::should_return_raw_response,
            (proxy,),
            asked[0],
        ),
        call_ensures(
            <PaymentsUpdateMetadataRequest as Authenticate>::should_return_raw_response,
            (metadata,),
            asked[1],
        ),
        call_ensures(
            <PaymentsIncrementalAuthorizationRequest as Authenticate>::should_return_raw_response,
            (incremental,),
            asked[2],
        ),
        call_ensures(
            <PaymentsRejectRequest as Authenticate>::should_return_raw_response,
            (reject,),
            asked[3],
        ),
        call_ensures(
            <PaymentMethodListRequest as Authenticate>::should_return_raw_response,
            (methods,),
            asked[4],
        ),
    ensures
        shown[0] is None,
        shown[1] is None,
        shown[2] is None,
        shown[3] is None,
        shown[4] is None,
        shown[5] is None,
        asked[0] is None,
        asked[1] is None,
        asked[2] is None,
        asked[3] is None,
        asked[4] is None,
{
}

/// An error tells what the connector gave, each text in its own place, and says so where it gave
/// none. It tells nothing of the attempt or of the network.
pub proof fn law_errors_tell_what_was_given(
    code: &Option<String>,
    message: &Option<String>,
    reason: &Option<String>,
    status_code: u16,
    transaction_id: Option<String>,
    res: ErrorResponse,
)
    requires
        call_ensures(
            ErrorResponse::from_connector,
            (code, message, reason, status_code, transaction_id),
            res,
        ),
    ensures
        code is Some ==> res.code@ == code->0@,
        code is None ==> res.code@ == "No error code"@,
        message is Some ==> res.message@ == message->0@,
        message is None ==> res.message@ == "No error message"@,
        res.reason is Some <==> reason is Some,
        reason is Some ==> res.reason->0@ == reason->0@,
        res.status_code == status_code,
        res.connector_transaction_id is Some <==> transaction_id is Some,
        transaction_id is Some ==> res.connector_transaction_id->0@ == transaction_id->0@,
        res.attempt_status is None,
        res.network_advice_code is None,
        res.network_decline_code is None,
        res.network_error_message is None,
{
}

/// What a payment must carry is given where it does, and named where it does not.
pub proof fn law_carried_values_are_given<'a, Req, Resp>(
    data: &'a RouterData<Req, Resp>,
    request: &PaymentsAuthorizeData,
    capture: &PaymentsCaptureData,
    token: Result<&'a PaymentMethodToken, ConnectorError>,
    url: Result<String, ConnectorError>,
    several: bool,
)
    requires
        call_ensures(RouterData::<Req, Resp>::get_payment_method_token, (data,), token),
        call_ensures(PaymentsAuthorizeData::get_router_return_url, (request,), url),
        call_ensures(PaymentsCaptureData::is_multiple_capture, (capture,), several),
    ensures
        token is Ok <==> data.payment_method_token is Some,
        token is Ok ==> *token->Ok_0 == data.payment_method_token->0,
        token is Err ==> token->Err_0 == (ConnectorError::MissingRequiredField {
            field_name: "payment_method_token",
        }),
        url is Ok <==> request.router_return_url is Some,
        url is Ok ==> request.router_return_url == Some(url->Ok_0),
        url is Err ==> url->Err_0 == (ConnectorError::MissingRequiredField {
            field_name: "return_url",
        }),
        several <==> capture.multiple_capture_data is Some,
{
}

/// A sale is named after the first thing that is bought; a card goes to Payme field by field; and
/// 3-D Secure is added exactly where it is wanted.
pub proof fn law_sale_parts_are_the_payments(
    items: &Required<Vec<OrderDetails>>,
    card: &Card,
    item: &PaymentsPreProcessingRouterData,
    text: &Required<String>,
    secret: &Required<Secret<String>>,
    name: Result<String, ConnectorError>,
    payme_card: Result<PaymeCard, ConnectorError>,
    services: Option<ThreeDs>,
    copied: Required<String>,
    copied_secret: Required<Secret<String>>,
)
    requires
        call_ensures(get_first_product, (items,), name),
        call_ensures(get_payme_card, (card,), payme_card),
        call_ensures(get_services, (item,), services),
        call_ensures(copy_required, (text,), copied),
        call_ensures(copy_required_secret, (secret,), copied_secret),
    ensures
        name is Ok <==> items is Ok && items->Ok_0@.len() > 0,
        name is Ok ==> name->Ok_0 == items->Ok_0@[0].product_name,
        *items is Err ==> name->Err_0 == items->Err_0,
        *items is Ok && items->Ok_0@.len() == 0 ==> name->Err_0 == (
        ConnectorError::MissingRequiredField { field_name: "order_details" }),
        payme_card is Ok <==> card.expiry_month_year is Ok,
        payme_card is Err ==> payme_card->Err_0 == card.expiry_month_year->Err_0,
        payme_card is Ok ==> payme_card->Ok_0.credit_card_number == card.card_number
            && payme_card->Ok_0.credit_card_cvv == card.card_cvc
            && payme_card->Ok_0.credit_card_exp == card.expiry_month_year->Ok_0,
        services is Some <==> item.auth_type is ThreeDs,
        services is Some ==> services->0.name is ThreeDs && services->0.settings.active,
        copied == *text,
        copied_secret == *secret,
{
}

/// The errors of sales tell what Payme said of them.
pub proof fn law_sale_errors_tell_what_was_said(
    sale: &PaymePaySaleResponse,
    query: &SaleQuery,
    code: Option<u32>,
    transaction_id: &Option<String>,
    http_code: u16,
    of_sale: ErrorResponse,
    of_query: ErrorResponse,
    of_code: ErrorResponse,
    written: Option<String>,
)
    requires
        call_ensures(get_pay_sale_error_response, ((sale, http_code),), of_sale),
        call_ensures(get_sale_query_error_response, ((query, http_code),), of_query),
        call_ensures(coded_error, (code, http_code, transaction_id), of_code),
        call_ensures(write_code, (code,), written),
    ensures
        crate::laws::payme::tells_code(of_sale, sale.status_error_code),
        sale.status_error_details matches Some(words) ==> of_sale.message@ == words@
            && of_sale.reason is Some && of_sale.reason->0@ == words@,
        sale.status_error_details is None ==> of_sale.message@ == "No error message"@
            && of_sale.reason is None,
        of_sale.status_code == http_code,
        of_sale.connector_transaction_id is Some && of_sale.connector_transaction_id->0@
            == sale.payme_sale_id@,
        query.sale_error_code matches Some(words) ==> of_query.code@ == words@,
        query.sale_error_code is None ==> of_query.code@ == "No error code"@,
        query.sale_error_text matches Some(words) ==> of_query.message@ == words@
            && of_query.reason is Some && of_query.reason->0@ == words@,
        of_query.status_code == http_code,
        of_query.connector_transaction_id is Some && of_query.connector_transaction_id->0@
            == query.sale_payme_id@,
        crate::laws::payme::tells_code_alone(of_code, code, http_code, *transaction_id),
        written is Some <==> code is Some,
        code matches Some(number) ==> written->0@ == crate::text::number_text(number as nat),
{
}

} // verus!
