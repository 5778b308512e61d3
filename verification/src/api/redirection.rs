//! Pages that take the customer on to a connector.
use vstd::prelude::*;
use crate::api::redirection_text::{ALLOWED_HOST, ANIMATION_DATA, AUTH_SETUP_1, AUTH_SETUP_2, AUTH_SETUP_3, AUTH_SETUP_4, AUTH_SETUP_5, AUTH_SETUP_6, BLUESNAP_1, BLUESNAP_2, BLUESNAP_3, BLUESNAP_4, BLUESNAP_5, BLUESNAP_6, BLUESNAP_7, BLUESNAP_SETUP, BLUESNAP_TOKEN_QUERY, BRAINTREE_1, BRAINTREE_2, BRAINTREE_3, BRAINTREE_4, BRAINTREE_5, BRAINTREE_6, BRAINTREE_7, BRAINTREE_8, BRAINTREE_ACTION, BRAINTREE_AMOUNT, BRAINTREE_CLIENT, CARD_1, CARD_2, CARD_3, CARD_4, CHALLENGE_2, CHALLENGE_3, CHALLENGE_4, CHALLENGE_5, COLLECTION_ACTION, CONSUMER_AUTH_2, CONSUMER_AUTH_3, CONSUMER_AUTH_4, CONSUMER_AUTH_5, DDC_1, DDC_2, DDC_3, DDC_4, DDC_5, DDC_FRAME_1, DDC_FRAME_4, DDC_FRAME_5, FORM_1, FORM_2, FORM_3, FORM_4, FORM_5, FORM_6, FORM_ACTION, FRAME_SOURCE, HTML_1, HTML_2, MIFINITY_1, MIFINITY_2, MIFINITY_3, MIFINITY_TOKEN, NMI_1, NMI_2, NMI_3, NMI_4, NMI_5, NMI_6, NMI_7, NMI_8, NMI_9, NMI_KEY, NMI_OPTION, NMI_ORDER, NMI_VAULT, PAYME_1, PAYME_2, REFERENCE_QUERY, WAITING_1, WAITING_2};
use crate::payment_data::PaymentMethodData;
use crate::router_data::RedirectForm;

verus! {

/// What a character becomes in the text of a page or of an attribute.
pub open spec fn escaped_char(c: char) -> Seq<char> {
    if c == '&' {
        "&amp;"@
    } else if c == '<' {
        "&lt;"@
    } else if c == '>' {
        "&gt;"@
    } else if c == '"' {
        "&quot;"@
    } else {
        seq![c]
    }
}

/// What a text becomes in the text of a page or of an attribute.
pub open spec fn escaped(s: Seq<char>) -> Seq<char>
    decreases s.len(),
{
    if s.len() == 0 {
        Seq::<char>::empty()
    } else {
        escaped(s.drop_last()) + escaped_char(s.last())
    }
}

/// `maud::Render::render` of a text, the escaping that `maud` applies to what a page
/// shows: each of the four characters with a meaning in markup becomes its entity, and
/// every other character stays.
#[verifier::external_body]
fn escape_text(text: &str) -> (res: String)
    ensures
        res@ == escaped(text@),
{
    maud::Render::render(text).into_string()
}

/// An escaped text holds no quote and no angle bracket, so that it ends neither the
/// attribute nor the element that it is written into.
pub proof fn law_escaped_text_stays_inside(s: Seq<char>)
    ensures
        forall|i: int|
            0 <= i < escaped(s).len() ==> {
                &&& #[trigger] escaped(s)[i] != '"'
                &&& escaped(s)[i] != '<'
                &&& escaped(s)[i] != '>'
            },
    decreases s.len(),
{
    reveal_strlit("&amp;");
    reveal_strlit("&lt;");
    reveal_strlit("&gt;");
    reveal_strlit("&quot;");
    if s.len() > 0 {
        law_escaped_text_stays_inside(s.drop_last());
        let before = escaped(s.drop_last());
        let added = escaped_char(s.last());
        assert forall|i: int| 0 <= i < escaped(s).len() implies {
            &&& #[trigger] escaped(s)[i] != '"'
            &&& escaped(s)[i] != '<'
            &&& escaped(s)[i] != '>'
        } by {
            if i < before.len() {
                assert(escaped(s)[i] == before[i]);
            } else {
                assert(escaped(s)[i] == added[i - before.len()]);
            }
        }
    }
}

/// A text in which nothing has a meaning in markup is written as it is.
pub proof fn law_plain_text_is_unchanged(s: Seq<char>)
    requires
        forall|i: int|
            0 <= i < s.len() ==> {
                &&& #[trigger] s[i] != '&'
                &&& s[i] != '<'
                &&& s[i] != '>'
                &&& s[i] != '"'
            },
    ensures
        escaped(s) == s,
    decreases s.len(),
{
    if s.len() > 0 {
        let rest = s.drop_last();
        assert forall|i: int| 0 <= i < rest.len() implies {
            &&& #[trigger] rest[i] != '&'
            &&& rest[i] != '<'
            &&& rest[i] != '>'
            &&& rest[i] != '"'
        } by {
            assert(rest[i] == s[i]);
        }
        law_plain_text_is_unchanged(rest);
        assert(s.last() == s[s.len() - 1]);
        assert(escaped(s) == s.drop_last().push(s.last()));
        assert(s.drop_last().push(s.last()) == s);
    }
}

/// The field of a form, out of the customer's sight.
pub open spec fn hidden_input(field: (String, String)) -> Seq<char> {
    "<input type=\"hidden\" name=\""@ + escaped(field.0@) + "\" value=\""@ + escaped(field.1@)
        + "\">"@
}

/// The fields of a form, in order.
pub open spec fn hidden_inputs(fields: Seq<(String, String)>) -> Seq<char>
    decreases fields.len(),
{
    if fields.len() == 0 {
        Seq::<char>::empty()
    } else {
        hidden_inputs(fields.drop_last()) + hidden_input(fields.last())
    }
}

/// Writes the fields of a form.
fn write_hidden_inputs(fields: &Vec<(String, String)>) -> (res: String)
    ensures
        res@ == hidden_inputs(fields@),
{
    let mut res = String::new();
    let mut i: usize = 0;
    assert(fields@.take(0) == Seq::<(String, String)>::empty());
    while i < fields.len()
        invariant
            i <= fields.len(),
            res@ == hidden_inputs(fields@.take(i as int)),
        decreases fields.len() - i,
    {
        let mut input = "<input type=\"hidden\" name=\"".to_string();
        input.append(escape_text(fields[i].0.as_str()).as_str());
        input.append("\" value=\"");
        input.append(escape_text(fields[i].1.as_str()).as_str());
        input.append("\">");
        res.append(input.as_str());
        assert(fields@.take(i + 1).drop_last() == fields@.take(i as int));
        i = i + 1;
    }
    assert(fields@.take(fields.len() as int) == fields@);
    res
}

/// What the customer sees while the page works.
pub open spec fn waiting_body() -> Seq<char> {
    WAITING_1@
        + ANIMATION_DATA@
        + WAITING_2@
}

/// What the customer sees while the page works.
fn write_waiting_body() -> (res: String)
    ensures
        res@ == waiting_body(),
{
    let mut res = WAITING_1.to_string();
    res.append(ANIMATION_DATA);
    res.append(WAITING_2);
    res
}

/// The script that hands the stored card on.
pub open spec fn card_script(cvc: Seq<char>, amount: Seq<char>, currency: Seq<char>) -> Seq<char> {
    CARD_1@
        + cvc
        + CARD_2@
        + amount
        + CARD_3@
        + currency
        + CARD_4@
}

/// The script that hands the stored card on.
fn write_card_script(cvc: &str, amount: &str, currency: &str) -> (res: String)
    ensures
        res@ == card_script(cvc@, amount@, currency@),
{
    let mut res = CARD_1.to_string();
    res.append(cvc);
    res.append(CARD_2);
    res.append(amount);
    res.append(CARD_3);
    res.append(currency);
    res.append(CARD_4);
    res
}

/// A page with a form that sends itself.
pub open spec fn form_page(endpoint: Seq<char>, method: Seq<char>, inputs: Seq<char>, logging: Seq<char>) -> Seq<char> {
    FORM_1@
        + ANIMATION_DATA@
        + FORM_2@
        + FORM_ACTION@
        + endpoint
        + FORM_3@
        + method
        + FORM_4@
        + inputs
        + FORM_5@
        + logging
        + FORM_6@
}

/// A page with a form that sends itself.
fn write_form_page(endpoint: &str, method: &str, inputs: &str, logging: &str) -> (res: String)
    ensures
        res@ == form_page(endpoint@, method@, inputs@, logging@),
{
    let mut res = FORM_1.to_string();
    res.append(ANIMATION_DATA);
    res.append(FORM_2);
    res.append(FORM_ACTION);
    res.append(endpoint);
    res.append(FORM_3);
    res.append(method);
    res.append(FORM_4);
    res.append(inputs);
    res.append(FORM_5);
    res.append(logging);
    res.append(FORM_6);
    res
}

/// A page that the connector wrote, with the error log script behind it.
pub open spec fn html_page(html_data: Seq<char>, logging: Seq<char>) -> Seq<char> {
    html_data
        + HTML_1@
        + logging
        + HTML_2@
}

/// A page that the connector wrote, with the error log script behind it.
fn write_html_page(html_data: &str, logging: &str) -> (res: String)
    ensures
        res@ == html_page(html_data@, logging@),
{
    let mut res = html_data.to_string();
    res.append(HTML_1);
    res.append(logging);
    res.append(HTML_2);
    res
}

/// The page that runs the BlueSnap script.
pub open spec fn bluesnap_page(sdk_url: Seq<char>, logging: Seq<char>, payment_fields_token: Seq<char>, card_details: Seq<char>) -> Seq<char> {
    BLUESNAP_1@
        + sdk_url
        + BLUESNAP_2@
        + ANIMATION_DATA@
        + BLUESNAP_3@
        + logging
        + BLUESNAP_4@
        + BLUESNAP_SETUP@
        + payment_fields_token
        + BLUESNAP_5@
        + BLUESNAP_TOKEN_QUERY@
        + payment_fields_token
        + BLUESNAP_6@
        + card_details
        + BLUESNAP_7@
}

/// The page that runs the BlueSnap script.
fn write_bluesnap_page(sdk_url: &str, logging: &str, payment_fields_token: &str, card_details: &str) -> (res: String)
    ensures
        res@ == bluesnap_page(sdk_url@, logging@, payment_fields_token@, card_details@),
{
    let mut res = BLUESNAP_1.to_string();
    res.append(sdk_url);
    res.append(BLUESNAP_2);
    res.append(ANIMATION_DATA);
    res.append(BLUESNAP_3);
    res.append(logging);
    res.append(BLUESNAP_4);
    res.append(BLUESNAP_SETUP);
    res.append(payment_fields_token);
    res.append(BLUESNAP_5);
    res.append(BLUESNAP_TOKEN_QUERY);
    res.append(payment_fields_token);
    res.append(BLUESNAP_6);
    res.append(card_details);
    res.append(BLUESNAP_7);
    res
}

/// The page that collects device data for Cybersource.
pub open spec fn auth_setup_page(ddc_url: Seq<char>, access_token: Seq<char>, logging: Seq<char>, reference_id: Seq<char>) -> Seq<char> {
    AUTH_SETUP_1@
        + waiting_body()
        + AUTH_SETUP_2@
        + COLLECTION_ACTION@
        + ddc_url
        + AUTH_SETUP_3@
        + access_token
        + AUTH_SETUP_4@
        + logging
        + AUTH_SETUP_5@
        + REFERENCE_QUERY@
        + reference_id
        + AUTH_SETUP_6@
}

/// The page that collects device data for Cybersource.
fn write_auth_setup_page(ddc_url: &str, access_token: &str, logging: &str, reference_id: &str) -> (res: String)
    ensures
        res@ == auth_setup_page(ddc_url@, access_token@, logging@, reference_id@),
{
    let mut res = AUTH_SETUP_1.to_string();
    res.append(write_waiting_body().as_str());
    res.append(AUTH_SETUP_2);
    res.append(COLLECTION_ACTION);
    res.append(ddc_url);
    res.append(AUTH_SETUP_3);
    res.append(access_token);
    res.append(AUTH_SETUP_4);
    res.append(logging);
    res.append(AUTH_SETUP_5);
    res.append(REFERENCE_QUERY);
    res.append(reference_id);
    res.append(AUTH_SETUP_6);
    res
}

/// The page that starts the Cybersource step-up.
pub open spec fn consumer_auth_page(step_up_url: Seq<char>, access_token: Seq<char>, logging: Seq<char>) -> Seq<char> {
    AUTH_SETUP_1@
        + waiting_body()
        + CONSUMER_AUTH_2@
        + step_up_url
        + CONSUMER_AUTH_3@
        + access_token
        + CONSUMER_AUTH_4@
        + logging
        + CONSUMER_AUTH_5@
}

/// The page that starts the Cybersource step-up.
fn write_consumer_auth_page(step_up_url: &str, access_token: &str, logging: &str) -> (res: String)
    ensures
        res@ == consumer_auth_page(step_up_url@, access_token@, logging@),
{
    let mut res = AUTH_SETUP_1.to_string();
    res.append(write_waiting_body().as_str());
    res.append(CONSUMER_AUTH_2);
    res.append(step_up_url);
    res.append(CONSUMER_AUTH_3);
    res.append(access_token);
    res.append(CONSUMER_AUTH_4);
    res.append(logging);
    res.append(CONSUMER_AUTH_5);
    res
}

/// The page that starts the challenge of the issuer.
pub open spec fn challenge_page(acs_url: Seq<char>, creq: Seq<char>, logging: Seq<char>) -> Seq<char> {
    AUTH_SETUP_1@
        + waiting_body()
        + CHALLENGE_2@
        + acs_url
        + CHALLENGE_3@
        + creq
        + CHALLENGE_4@
        + logging
        + CHALLENGE_5@
}

/// The page that starts the challenge of the issuer.
fn write_challenge_page(acs_url: &str, creq: &str, logging: &str) -> (res: String)
    ensures
        res@ == challenge_page(acs_url@, creq@, logging@),
{
    let mut res = AUTH_SETUP_1.to_string();
    res.append(write_waiting_body().as_str());
    res.append(CHALLENGE_2);
    res.append(acs_url);
    res.append(CHALLENGE_3);
    res.append(creq);
    res.append(CHALLENGE_4);
    res.append(logging);
    res.append(CHALLENGE_5);
    res
}

/// The page that asks Payme for the data of the device.
pub open spec fn payme_page(logging: Seq<char>) -> Seq<char> {
    PAYME_1@
        + logging
        + PAYME_2@
}

/// The page that asks Payme for the data of the device.
fn write_payme_page(logging: &str) -> (res: String)
    ensures
        res@ == payme_page(logging@),
{
    let mut res = PAYME_1.to_string();
    res.append(logging);
    res.append(PAYME_2);
    res
}

/// The page that runs the Braintree verification.
pub open spec fn braintree_page(logging: Seq<char>, client_token: Seq<char>, amount: Seq<char>, card_token: Seq<char>, bin: Seq<char>, acs_url: Seq<char>) -> Seq<char> {
    BRAINTREE_1@
        + waiting_body()
        + BRAINTREE_2@
        + logging
        + BRAINTREE_3@
        + BRAINTREE_CLIENT@
        + client_token
        + BRAINTREE_4@
        + BRAINTREE_AMOUNT@
        + amount
        + BRAINTREE_5@
        + card_token
        + BRAINTREE_6@
        + bin
        + BRAINTREE_7@
        + BRAINTREE_ACTION@
        + acs_url
        + BRAINTREE_8@
}

/// The page that runs the Braintree verification.
fn write_braintree_page(logging: &str, client_token: &str, amount: &str, card_token: &str, bin: &str, acs_url: &str) -> (res: String)
    ensures
        res@ == braintree_page(logging@, client_token@, amount@, card_token@, bin@, acs_url@),
{
    let mut res = BRAINTREE_1.to_string();
    res.append(write_waiting_body().as_str());
    res.append(BRAINTREE_2);
    res.append(logging);
    res.append(BRAINTREE_3);
    res.append(BRAINTREE_CLIENT);
    res.append(client_token);
    res.append(BRAINTREE_4);
    res.append(BRAINTREE_AMOUNT);
    res.append(amount);
    res.append(BRAINTREE_5);
    res.append(card_token);
    res.append(BRAINTREE_6);
    res.append(bin);
    res.append(BRAINTREE_7);
    res.append(BRAINTREE_ACTION);
    res.append(acs_url);
    res.append(BRAINTREE_8);
    res
}

/// The page that runs the NMI verification.
pub open spec fn nmi_page(logging: Seq<char>, public_key: Seq<char>, customer_vault_id: Seq<char>, currency: Seq<char>, amount: Seq<char>, order_id: Seq<char>) -> Seq<char> {
    NMI_1@
        + ANIMATION_DATA@
        + NMI_2@
        + logging
        + NMI_3@
        + NMI_KEY@
        + public_key
        + NMI_4@
        + NMI_OPTION@
        + customer_vault_id
        + NMI_5@
        + currency
        + NMI_6@
        + amount
        + NMI_7@
        + NMI_ORDER@
        + order_id
        + NMI_8@
        + NMI_VAULT@
        + customer_vault_id
        + NMI_9@
}

/// The page that runs the NMI verification.
fn write_nmi_page(logging: &str, public_key: &str, customer_vault_id: &str, currency: &str, amount: &str, order_id: &str) -> (res: String)
    ensures
        res@ == nmi_page(logging@, public_key@, customer_vault_id@, currency@, amount@, order_id@),
{
    let mut res = NMI_1.to_string();
    res.append(ANIMATION_DATA);
    res.append(NMI_2);
    res.append(logging);
    res.append(NMI_3);
    res.append(NMI_KEY);
    res.append(public_key);
    res.append(NMI_4);
    res.append(NMI_OPTION);
    res.append(customer_vault_id);
    res.append(NMI_5);
    res.append(currency);
    res.append(NMI_6);
    res.append(amount);
    res.append(NMI_7);
    res.append(NMI_ORDER);
    res.append(order_id);
    res.append(NMI_8);
    res.append(NMI_VAULT);
    res.append(customer_vault_id);
    res.append(NMI_9);
    res
}

/// The page that shows the Mifinity widget.
pub open spec fn mifinity_page(base_url: Seq<char>, initialization_token: Seq<char>) -> Seq<char> {
    MIFINITY_1@
        + base_url
        + MIFINITY_2@
        + MIFINITY_TOKEN@
        + initialization_token
        + MIFINITY_3@
}

/// The page that shows the Mifinity widget.
fn write_mifinity_page(base_url: &str, initialization_token: &str) -> (res: String)
    ensures
        res@ == mifinity_page(base_url@, initialization_token@),
{
    let mut res = MIFINITY_1.to_string();
    res.append(base_url);
    res.append(MIFINITY_2);
    res.append(MIFINITY_TOKEN);
    res.append(initialization_token);
    res.append(MIFINITY_3);
    res
}

/// The inner page that sends the device data form.
pub open spec fn ddc_frame(endpoint: Seq<char>, method: Seq<char>, inputs: Seq<char>, logging: Seq<char>) -> Seq<char> {
    DDC_FRAME_1@
        + endpoint
        + FORM_3@
        + method
        + FORM_4@
        + inputs
        + DDC_FRAME_4@
        + logging
        + DDC_FRAME_5@
}

/// The inner page that sends the device data form.
fn write_ddc_frame(endpoint: &str, method: &str, inputs: &str, logging: &str) -> (res: String)
    ensures
        res@ == ddc_frame(endpoint@, method@, inputs@, logging@),
{
    let mut res = DDC_FRAME_1.to_string();
    res.append(endpoint);
    res.append(FORM_3);
    res.append(method);
    res.append(FORM_4);
    res.append(inputs);
    res.append(DDC_FRAME_4);
    res.append(logging);
    res.append(DDC_FRAME_5);
    res
}

/// The page that collects device data for Worldpay.
pub open spec fn ddc_page(allowed_host: Seq<char>, collection_id: Seq<char>, frame: Seq<char>) -> Seq<char> {
    DDC_1@
        + ANIMATION_DATA@
        + DDC_2@
        + ALLOWED_HOST@
        + allowed_host
        + DDC_3@
        + collection_id
        + DDC_4@
        + FRAME_SOURCE@
        + frame
        + DDC_5@
}

/// The page that collects device data for Worldpay.
fn write_ddc_page(allowed_host: &str, collection_id: &str, frame: &str) -> (res: String)
    ensures
        res@ == ddc_page(allowed_host@, collection_id@, frame@),
{
    let mut res = DDC_1.to_string();
    res.append(ANIMATION_DATA);
    res.append(DDC_2);
    res.append(ALLOWED_HOST);
    res.append(allowed_host);
    res.append(DDC_3);
    res.append(collection_id);
    res.append(DDC_4);
    res.append(FRAME_SOURCE);
    res.append(frame);
    res.append(DDC_5);
    res
}

/// The addresses of the connectors whose pages load a script from a configured place.
pub struct ConnectorUrls {
    pub bluesnap_secondary_base_url: String,
    pub mifinity_base_url: String,
}

/// The script that hands the stored card on; nothing where the payment is not by card.
pub open spec fn card_details(
    payment_method_data: Option<PaymentMethodData>,
    amount: Seq<char>,
    currency: Seq<char>,
) -> Seq<char> {
    match payment_method_data {
        Some(PaymentMethodData::Card(card)) => card_script(
            card.card_cvc.inner_secret@,
            amount,
            currency,
        ),
        _ => ""@,
    }
}

/// The page for a redirection.
pub open spec fn redirection_page(
    form: RedirectForm,
    payment_method_data: Option<PaymentMethodData>,
    amount: Seq<char>,
    currency: Seq<char>,
    urls: ConnectorUrls,
    logging: Seq<char>,
) -> Seq<char> {
    match form {
        RedirectForm::Form { endpoint, method, form_fields } => form_page(
            endpoint@,
            crate::enums::method_name(method),
            hidden_inputs(form_fields@),
            logging,
        ),
        RedirectForm::Html { html_data } => html_page(html_data@, logging),
        RedirectForm::BlueSnap { payment_fields_token } => bluesnap_page(
            urls.bluesnap_secondary_base_url@,
            logging,
            payment_fields_token@,
            card_details(payment_method_data, amount, currency),
        ),
        RedirectForm::CybersourceAuthSetup { access_token, ddc_url, reference_id } => auth_setup_page(
            ddc_url@,
            access_token@,
            logging,
            reference_id@,
        ),
        RedirectForm::CybersourceConsumerAuth { access_token, step_up_url } => consumer_auth_page(
            step_up_url@,
            access_token@,
            logging,
        ),
        RedirectForm::DeutschebankThreeDSChallengeFlow { acs_url, creq } => challenge_page(
            acs_url@,
            creq@,
            logging,
        ),
        RedirectForm::Payme => payme_page(logging),
        RedirectForm::Braintree { client_token, card_token, bin, acs_url } => braintree_page(
            logging,
            client_token@,
            amount,
            card_token@,
            bin@,
            acs_url@,
        ),
        RedirectForm::Nmi {
            amount: form_amount,
            currency: form_currency,
            public_key,
            customer_vault_id,
            order_id,
        } => nmi_page(
            logging,
            public_key.inner_secret@,
            customer_vault_id@,
            form_currency@,
            form_amount@,
            order_id@,
        ),
        RedirectForm::Mifinity { initialization_token } => mifinity_page(
            urls.mifinity_base_url@,
            initialization_token@,
        ),
        RedirectForm::WorldpayDDCForm { endpoint, method, form_fields, collection_id } => ddc_page(
            crate::web_url::allowed_host(endpoint@),
            crate::text::view_or(collection_id, ""@),
            escaped(
                ddc_frame(
                    endpoint.text@,
                    crate::enums::method_name(method),
                    hidden_inputs(form_fields@),
                    logging,
                ),
            ),
        ),
    }
}

/// Writes the page for a redirection. `logging_template` is the script that reports
/// errors of the page.
pub fn build_redirection_form(
    form: &RedirectForm,
    payment_method_data: &Option<PaymentMethodData>,
    amount: &str,
    currency: &str,
    urls: &ConnectorUrls,
    logging_template: &str,
) -> (res: String)
    ensures
        res@ == redirection_page(
            *form,
            *payment_method_data,
            amount@,
            currency@,
            *urls,
            logging_template@,
        ),
{
    match form {
        RedirectForm::Form { endpoint, method, form_fields } => {
            let inputs = write_hidden_inputs(form_fields);
            write_form_page(endpoint.as_str(), method.name(), inputs.as_str(), logging_template)
        },
        RedirectForm::Html { html_data } => write_html_page(html_data.as_str(), logging_template),
        RedirectForm::BlueSnap { payment_fields_token } => {
            let card_details = match payment_method_data {
                Some(PaymentMethodData::Card(card)) => write_card_script(
                    card.card_cvc.peek().as_str(),
                    amount,
                    currency,
                ),
                _ => "".to_string(),
            };
            write_bluesnap_page(
                urls.bluesnap_secondary_base_url.as_str(),
                logging_template,
                payment_fields_token.as_str(),
                card_details.as_str(),
            )
        },
        RedirectForm::CybersourceAuthSetup { access_token, ddc_url, reference_id } => {
            write_auth_setup_page(
                ddc_url.as_str(),
                access_token.as_str(),
                logging_template,
                reference_id.as_str(),
            )
        },
        RedirectForm::CybersourceConsumerAuth { access_token, step_up_url } => {
            write_consumer_auth_page(step_up_url.as_str(), access_token.as_str(), logging_template)
        },
        RedirectForm::DeutschebankThreeDSChallengeFlow { acs_url, creq } => {
            write_challenge_page(acs_url.as_str(), creq.as_str(), logging_template)
        },
        RedirectForm::Payme => write_payme_page(logging_template),
        RedirectForm::Braintree { client_token, card_token, bin, acs_url } => write_braintree_page(
            logging_template,
            client_token.as_str(),
            amount,
            card_token.as_str(),
            bin.as_str(),
            acs_url.as_str(),
        ),
        RedirectForm::Nmi {
            amount: form_amount,
            currency: form_currency,
            public_key,
            customer_vault_id,
            order_id,
        } => write_nmi_page(
            logging_template,
            public_key.peek().as_str(),
            customer_vault_id.as_str(),
            form_currency.as_str(),
            form_amount.as_str(),
            order_id.as_str(),
        ),
        RedirectForm::Mifinity { initialization_token } => write_mifinity_page(
            urls.mifinity_base_url.as_str(),
            initialization_token.as_str(),
        ),
        RedirectForm::WorldpayDDCForm { endpoint, method, form_fields, collection_id } => {
            let inputs = write_hidden_inputs(form_fields);
            let frame = write_ddc_frame(
                endpoint.text.as_str(),
                method.name(),
                inputs.as_str(),
                logging_template,
            );
            let collection = crate::text::clone_or(collection_id, "");
            let host = endpoint.allowed_host();
            write_ddc_page(
                host.as_str(),
                collection.as_str(),
                escape_text(frame.as_str()).as_str(),
            )
        },
    }
}

} // verus!
