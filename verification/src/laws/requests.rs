//! Laws of what is read from requests, and of text and numbers.
use vstd::prelude::*;
use crate::api::authenticate::{Authenticate, PaymentMethodListRequest, PaymentsCancelRequest, PaymentsCaptureRequest, PaymentsConfirmIntentRequest, PaymentsDynamicTaxCalculationRequest, PaymentsPostSessionTokensRequest, PaymentsRequest, PaymentsRetrieveRequest, PaymentsSessionRequest, PaymentsStartRequest};
use crate::api::enhancement::{extract_field_by_dot_path, extract_mapped_fields};
use crate::text::{join_texts, parse_u128, parse_usize, render_u128, split_text};

verus! {

/// The secret that a client shows is the one in the request; a request without one shows none.
pub proof fn law_client_secret_is_the_requests<'a>(
    payment: &'a PaymentsRequest,
    methods: &'a PaymentMethodListRequest,
    session: &'a PaymentsSessionRequest,
    tax: &'a PaymentsDynamicTaxCalculationRequest,
    tokens: &'a PaymentsPostSessionTokensRequest,
    cancel: &'a PaymentsCancelRequest,
    capture: &'a PaymentsCaptureRequest,
    start: &'a PaymentsStartRequest,
    shown: Seq<Option<&'a String>>,
)
    requires
        shown.len() == 8,
        call_ensures(<PaymentsRequest as Authenticate>::get_client_secret, (payment,), shown[0]),
        call_ensures(
            <PaymentMethodListRequest as Authenticate>::get_client_secret,
            (methods,),
            shown[1],
        ),
        call_ensures(
            <PaymentsSessionRequest as Authenticate>::get_client_secret,
            (session,),
            shown[2],
        ),
        call_ensures(
            <PaymentsDynamicTaxCalculationRequest as Authenticate>::get_client_secret,
            (tax,),
            shown[3],
        ),
        call_ensures(
            <PaymentsPostSessionTokensRequest as Authenticate>::get_client_secret,
            (tokens,),
            shown[4],
        ),
        call_ensures(
            <PaymentsCancelRequest as Authenticate>::get_client_secret,
            (cancel,),
            shown[5],
        ),
        call_ensures(
            <PaymentsCaptureRequest as Authenticate>::get_client_secret,
            (capture,),
            shown[6],
        ),
        call_ensures(<PaymentsStartRequest as Authenticate>::get_client_secret, (start,), shown[7]),
    ensures
        shown[0] is Some <==> payment.client_secret is Some,
        shown[0] is Some ==> *shown[0]->0 == payment.client_secret->0,
        shown[1] is Some <==> methods.client_secret is Some,
        shown[1] is Some ==> *shown[1]->0 == methods.client_secret->0,
        shown[2] is Some && *shown[2]->0 == session.client_secret,
        shown[3] is Some && *shown[3]->0 == tax.client_secret.inner_secret,
        shown[4] is Some && *shown[4]->0 == tokens.client_secret.inner_secret,
        shown[5] is None,
        shown[6] is None,
        shown[7] is None,
{
}

/// The connector's own answer is returned where the request asks for it.
pub proof fn law_raw_answer_is_returned_where_asked(
    confirm: &PaymentsConfirmIntentRequest,
    payment: &PaymentsRequest,
    retrieve: &PaymentsRetrieveRequest,
    session: &PaymentsSessionRequest,
    of_confirm: Option<bool>,
    of_payment: Option<bool>,
    of_retrieve: Option<bool>,
    of_session: Option<bool>,
)
    requires
        call_ensures(
            <PaymentsConfirmIntentRequest as Authenticate>::should_return_raw_response,
            (confirm,),
            of_confirm,
        ),
        call_ensures(
            <PaymentsRequest as Authenticate>::should_return_raw_response,
            (payment,),
            of_payment,
        ),
        call_ensures(
            <PaymentsRetrieveRequest as Authenticate>::should_return_raw_response,
            (retrieve,),
            of_retrieve,
        ),
        call_ensures(
            <PaymentsSessionRequest as Authenticate>::should_return_raw_response,
            (session,),
            of_session,
        ),
    ensures
        of_confirm == confirm.return_raw_connector_response,
        of_payment == payment.all_keys_required,
        *retrieve is V1 ==> of_retrieve == retrieve->all_keys_required,
        *retrieve is V2 ==> of_retrieve == retrieve->return_raw_connector_response,
        of_session is None,
{
}

/// A path without a dot leads to the member of that key in an object, and in an array to the
/// element of that number; in any other value it leads nowhere.
pub proof fn law_one_step_leads_to_its_field(
    value: &serde_json::Value,
    path: &str,
    res: Option<serde_json::Value>,
)
    requires
        call_ensures(extract_field_by_dot_path, (value, path), res),
        forall|i: int| 0 <= i < path@.len() ==> #[trigger] path@[i] != '.',
    ensures
        crate::json::json_members(*value) matches Some(members) ==> (res is Some
            <==> members.contains_key(path@)) && (res is Some ==> res->0 == members[path@]),
        crate::json::json_members(*value) is None && crate::json::json_elements(*value) is None
            ==> res is None,
        crate::json::json_members(*value) is None ==> (crate::json::json_elements(*value) matches
            Some(elements) ==> (crate::text::parsed_number(path@, usize::MAX as nat) matches Some(
            index,
        ) ==> (res is Some <==> index < elements.len()) && (res is Some ==> res->0
            == elements[index as int]))),
        crate::json::json_members(*value) is None && crate::text::parsed_number(
            path@,
            usize::MAX as nat,
        ) is None ==> res is None,
{
    lemma_unsplit(path@, '.');
    let parts = crate::text::split(path@, '.');
    assert(parts.drop_last() == Seq::<Seq<char>>::empty());
    assert(parts.last() == path@);
    reveal_with_fuel(crate::api::enhancement::descend_all, 2);
}

pub proof fn lemma_unsplit(s: Seq<char>, separator: char)
    requires
        forall|i: int| 0 <= i < s.len() ==> #[trigger] s[i] != separator,
    ensures
        crate::text::split(s, separator) == seq![s],
    decreases s.len(),
{
    if s.len() > 0 {
        let rest = s.drop_last();
        assert forall|i: int| 0 <= i < rest.len() implies #[trigger] rest[i] != separator by {
            assert(rest[i] == s[i]);
        }
        lemma_unsplit(rest, separator);
        assert(s.last() == s[s.len() - 1]);
        let before = crate::text::split(rest, separator);
        assert(before.drop_last() == Seq::<Seq<char>>::empty());
        assert(before.last().push(s.last()) == s);
    } else {
        assert(s == Seq::<char>::empty());
    }
}

/// A path of two parts with a dot between them leads to what the second leads to from where the
/// first leads.
pub proof fn law_steps_lead_on(
    value: &serde_json::Value,
    first: &str,
    second: &str,
    path: &str,
    inner: Option<serde_json::Value>,
    from_inner: Option<serde_json::Value>,
    res: Option<serde_json::Value>,
)
    requires
        path@ == first@ + seq!['.'] + second@,
        call_ensures(extract_field_by_dot_path, (value, first), inner),
        inner matches Some(found) ==> call_ensures(
            extract_field_by_dot_path,
            (&found, second),
            from_inner,
        ),
        call_ensures(extract_field_by_dot_path, (value, path), res),
    ensures
        inner is None ==> res is None,
        inner is Some ==> res == from_inner,
{
    crate::api::enhancement::law_paths_compose(*value, first@, second@);
}

/// A field that is asked for and is there stands under its key, with what was there before under
/// the other keys. Without a mapping there is nothing, and with an empty one all stays.
pub proof fn law_mapped_field_is_set(
    value: &serde_json::Value,
    path: String,
    key: String,
    path_text: &str,
    existing: &Option<serde_json::Value>,
    field: Option<serde_json::Value>,
    entry: &Vec<(String, String)>,
    none: &Vec<(String, String)>,
    unmapped: Option<serde_json::Value>,
    kept: Option<serde_json::Value>,
    res: Option<serde_json::Value>,
)
    requires
        entry@ == seq![(path, key)],
        none@.len() == 0,
        path_text@ == path@,
        call_ensures(extract_field_by_dot_path, (value, path_text), field),
        call_ensures(extract_mapped_fields, (value, None, existing), unmapped),
        call_ensures(extract_mapped_fields, (value, Some(none), existing), kept),
        call_ensures(extract_mapped_fields, (value, Some(entry), existing), res),
    ensures
        unmapped is None,
        kept == *existing,
        field matches Some(found) ==> {
            &&& res is Some
            &&& crate::json::json_members(res->0) is Some
            &&& crate::json::json_members(res->0)->0.contains_key(key@)
            &&& crate::json::json_members(res->0)->0[key@] == found
            &&& *existing matches Some(before) ==> (crate::json::json_members(before) matches Some(
                members,
            ) ==> crate::json::json_members(res->0)->0 == members.insert(key@, found))
            &&& existing is None ==> crate::json::json_members(res->0)->0 == Map::<
                Seq<char>,
                serde_json::Value,
            >::empty().insert(key@, found)
        },
        field is None && existing is None ==> res is None,
        field is None && res is Some ==> existing is Some && crate::json::json_members(res->0)
            == crate::json::json_members(existing->0),
{
    let texts = crate::api::enhancement::mapping_texts(entry@);
    assert(texts.len() == 1);
    assert(texts[0] == (path@, key@));
    assert(texts.drop_last() == Seq::<(Seq<char>, Seq<char>)>::empty());
    let start = crate::api::enhancement::starting_members(*existing);
    reveal_with_fuel(crate::api::enhancement::enhanced, 2);
    let members = crate::api::enhancement::enhanced(*value, texts, start);
    if field is Some {
        assert(members == start.insert(key@, field->0));
        assert(members.contains_key(key@));
        assert(crate::json::any_member(members));
    } else {
        assert(members == start);
    }
}

/// Numbers are written in decimal: one digit each, the last one for the units, and no zero before
/// a larger number.
pub proof fn law_numbers_are_decimal(value: u128, digit: u128, res: String, longer: String)
    requires
        digit < 10,
        value * 10 + digit <= u128::MAX,
        call_ensures(render_u128, (value,), res),
        call_ensures(render_u128, ((value * 10 + digit) as u128,), longer),
    ensures
        value > 0 ==> longer@.len() == res@.len() + 1,
        value > 0 ==> longer@.drop_last() == res@,
        longer@.last() as int == '0' as int + digit,
        value == 0 ==> longer@.len() == 1,
        value == 0 ==> res@ == "0"@,
{
    reveal_strlit("0");
    let n = value * 10 + digit;
    assert(n / 10 == value && n % 10 == digit);
    if value == 0 {
        assert(longer@.last() == longer@[0]);
        assert(res@ == "0"@);
    } else {
        assert(longer@ == res@.push(longer@.last()));
        assert(longer@.drop_last() == res@);
    }
}

/// A number that was written is read again as it was, and so is one with a plus before it. A text
/// that is empty, or holds anything but digits, is no number.
pub proof fn law_numbers_are_read_as_written(
    value: u128,
    written: String,
    text: &str,
    signed: &str,
    empty: &str,
    wrong: &str,
    i: int,
    of_text: Option<u128>,
    of_signed: Option<u128>,
    of_empty: Option<u128>,
    of_wrong: Option<u128>,
    index: Option<usize>,
)
    requires
        call_ensures(render_u128, (value,), written),
        text@ == written@,
        signed@ == seq!['+'] + written@,
        empty@.len() == 0,
        0 < i < wrong@.len(),
        !('0' <= wrong@[i] && wrong@[i] <= '9'),
        call_ensures(parse_u128, (text,), of_text),
        call_ensures(parse_u128, (signed,), of_signed),
        call_ensures(parse_u128, (empty,), of_empty),
        call_ensures(parse_u128, (wrong,), of_wrong),
        call_ensures(parse_usize, (text,), index),
    ensures
        of_text == Some(value),
        of_signed == Some(value),
        of_empty is None,
        of_wrong is None,
        index is Some <==> value <= usize::MAX,
        index matches Some(number) ==> number == value,
{
    crate::text::law_number_round_trip(value as nat, u128::MAX as nat);
    let digits = crate::text::without_plus(text@);
    assert(crate::text::without_plus(signed@) == written@);
    assert(crate::text::parsed_number(written@, u128::MAX as nat) == Some(value as nat));
    if written@.len() > 0 && written@[0] == '+' {
        assert(!crate::text::is_digit('+'));
        lemma_written_is_digits(value as nat);
        assert(crate::text::is_digit(written@[0]));
    }
    assert(digits == written@);
    let rest = crate::text::without_plus(wrong@);
    if rest == wrong@ {
        assert(!crate::text::is_digit(rest[i]));
    } else {
        assert(rest[i - 1] == wrong@[i]);
        assert(!crate::text::is_digit(rest[i - 1]));
    }
    if value <= usize::MAX {
        crate::text::law_number_round_trip(value as nat, usize::MAX as nat);
    }
}

proof fn lemma_written_is_digits(value: nat)
    ensures
        crate::text::number_text(value).len() > 0,
        crate::text::is_digit(crate::text::number_text(value)[0]),
    decreases value,
{
    if value >= 10 {
        lemma_written_is_digits(value / 10);
    }
}

/// Texts are joined in their order, with the separator between each two of them and nowhere else.
pub proof fn law_texts_are_joined(
    one: &Vec<String>,
    parts: &Vec<String>,
    more: &Vec<String>,
    separator: &str,
    joined_one: String,
    joined: String,
    joined_more: String,
)
    requires
        one@.len() == 1,
        parts@.len() > 0,
        more@.len() == parts@.len() + 1,
        more@.drop_last() == parts@,
        call_ensures(join_texts, (one, separator), joined_one),
        call_ensures(join_texts, (parts, separator), joined),
        call_ensures(join_texts, (more, separator), joined_more),
    ensures
        joined_one@ == one@[0]@,
        joined_more@ == joined@ + separator@ + more@.last()@,
{
    let views = crate::text::views(more@);
    assert(views.drop_last() == crate::text::views(parts@));
    assert(views.last() == more@.last()@);
    assert(crate::text::views(one@)[0] == one@[0]@);
}

/// Splitting and joining undo each other, and no part holds the separator.
pub proof fn law_split_parts_are_the_text(
    text: &str,
    separator: char,
    separator_text: &str,
    parts: &Vec<String>,
    joined: String,
    i: int,
    j: int,
)
    requires
        separator_text@ == seq![separator],
        call_ensures(split_text, (text, separator), *parts),
        call_ensures(join_texts, (parts, separator_text), joined),
        0 <= i < parts@.len(),
        0 <= j < parts@[i]@.len(),
    ensures
        joined@ == text@,
        parts@[i]@[j] != separator,
{
    crate::text::law_split_join(text@, separator);
    assert(crate::text::views(parts@)[i] == parts@[i]@);
    assert(crate::text::split(text@, separator)[i][j] != separator);
}

} // verus!
