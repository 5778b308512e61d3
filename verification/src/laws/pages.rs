//! Laws of the pages that take the customer on to a connector.
use vstd::prelude::*;
use crate::api::redirection::{build_redirection_form, ConnectorUrls};
use crate::enums::Method;
use crate::payment_data::PaymentMethodData;
use crate::router_data::RedirectForm;
use crate::web_url::WebUrl;

verus! {

/// A text with something before it and something behind it.
pub open spec fn within(before: Seq<char>, part: Seq<char>, after: Seq<char>) -> Seq<char> {
    before + part + after
}

/// Whether a page holds a text somewhere.
pub open spec fn holds(page: Seq<char>, part: Seq<char>) -> bool {
    exists|before: Seq<char>, after: Seq<char>| page == #[trigger] within(before, part, after)
}

proof fn lemma_holds(page: Seq<char>, before: Seq<char>, part: Seq<char>, after: Seq<char>)
    requires
        page =~= before + part + after,
    ensures
        holds(page, part),
{
    assert(page == within(before, part, after));
}

proof fn lemma_holds_inside(page: Seq<char>, outer: Seq<char>, part: Seq<char>)
    requires
        holds(page, outer),
        holds(outer, part),
    ensures
        holds(page, part),
{
    let (b1, a1) = choose|before: Seq<char>, after: Seq<char>|
        page == #[trigger] within(before, outer, after);
    let (b2, a2) = choose|before: Seq<char>, after: Seq<char>|
        outer == #[trigger] within(before, part, after);
    lemma_holds(page, b1 + b2, part, a2 + a1);
}

/// The page of the Cybersource step-up sends its form to the step-up address, with the token in
/// the field of that name.
pub proof fn law_step_up_page(
    access_token: String,
    step_up_url: String,
    payment_method_data: &Option<PaymentMethodData>,
    amount: &str,
    currency: &str,
    urls: &ConnectorUrls,
    logging_template: &str,
    page: String,
)
    requires
        call_ensures(
            build_redirection_form,
            (
                &RedirectForm::CybersourceConsumerAuth { access_token, step_up_url },
                payment_method_data,
                amount,
                currency,
                urls,
                logging_template,
            ),
            page,
        ),
    ensures
        holds(
            page@,
            r#"<form id="step-up-form" method="POST" action=""#@ + step_up_url@ + r#"">
                <input type="hidden" name="JWT" value=""#@ + access_token@ + r#"">
              </form><script>
              "#@ + logging_template@,
        ),
{
    lemma_holds(
        page@,
        crate::api::redirection_text::AUTH_SETUP_1@ + crate::api::redirection::waiting_body(),
        r#"<form id="step-up-form" method="POST" action=""#@ + step_up_url@ + r#"">
                <input type="hidden" name="JWT" value=""#@ + access_token@ + r#"">
              </form><script>
              "#@ + logging_template@,
        crate::api::redirection_text::CONSUMER_AUTH_5@,
    );
}

/// The page of the issuer's challenge sends its form to the address of the issuer, with the
/// challenge in the field of that name.
pub proof fn law_challenge_page(
    acs_url: String,
    creq: String,
    payment_method_data: &Option<PaymentMethodData>,
    amount: &str,
    currency: &str,
    urls: &ConnectorUrls,
    logging_template: &str,
    page: String,
)
    requires
        call_ensures(
            build_redirection_form,
            (
                &RedirectForm::DeutschebankThreeDSChallengeFlow { acs_url, creq },
                payment_method_data,
                amount,
                currency,
                urls,
                logging_template,
            ),
            page,
        ),
    ensures
        holds(
            page@,
            r#"<form id="PaReqForm" method="POST" action=""#@ + acs_url@ + r#"">
                        <input type="hidden" name="creq" value=""#@ + creq@ + r#"">
                        </form><script>
                        "#@ + logging_template@,
        ),
{
    lemma_holds(
        page@,
        crate::api::redirection_text::AUTH_SETUP_1@ + crate::api::redirection::waiting_body(),
        r#"<form id="PaReqForm" method="POST" action=""#@ + acs_url@ + r#"">
                        <input type="hidden" name="creq" value=""#@ + creq@ + r#"">
                        </form><script>
                        "#@ + logging_template@,
        crate::api::redirection_text::CHALLENGE_5@,
    );
}

/// The page that collects device data sends its form to the collecting address, with the token
/// in the field of that name, and sends the customer back with the reference.
pub proof fn law_device_data_page(
    access_token: String,
    ddc_url: String,
    reference_id: String,
    payment_method_data: &Option<PaymentMethodData>,
    amount: &str,
    currency: &str,
    urls: &ConnectorUrls,
    logging_template: &str,
    page: String,
)
    requires
        call_ensures(
            build_redirection_form,
            (
                &RedirectForm::CybersourceAuthSetup { access_token, ddc_url, reference_id },
                payment_method_data,
                amount,
                currency,
                urls,
                logging_template,
            ),
            page,
        ),
    ensures
        holds(
            page@,
            r#"<form id="cardinal_collection_form" method="POST" target="collectionIframe" action=""#@
                + ddc_url@ + r#"">
                <input id="cardinal_collection_form_input" type="hidden" name="JWT" value=""#@
                + access_token@,
        ),
        holds(
            page@,
            r#""payments/$1/$2/redirect/complete/cybersource?referenceId="#@ + reference_id@
                + r#"");
                    }
                  }, false);
                </script>
                </html>"#@,
        ),
        holds(page@, logging_template@),
{
    let opening = crate::api::redirection_text::AUTH_SETUP_1@
        + crate::api::redirection::waiting_body() + crate::api::redirection_text::AUTH_SETUP_2@;
    let form =
        r#"<form id="cardinal_collection_form" method="POST" target="collectionIframe" action=""#@
        + ddc_url@ + r#"">
                <input id="cardinal_collection_form_input" type="hidden" name="JWT" value=""#@
        + access_token@;
    let script = crate::api::redirection_text::AUTH_SETUP_4@;
    let listener = crate::api::redirection_text::AUTH_SETUP_5@;
    let query = r#""payments/$1/$2/redirect/complete/cybersource?referenceId="#@ + reference_id@
        + r#"");
                    }
                  }, false);
                </script>
                </html>"#@;
    lemma_holds(page@, opening, form, script + logging_template@ + listener + query);
    lemma_holds(page@, opening + form + script + logging_template@ + listener, query, seq![]);
    lemma_holds(page@, opening + form + script, logging_template@, listener + query);
}

/// What a form calls the method that it is sent with.
pub open spec fn is_method_name(method: Method, name: Seq<char>) -> bool {
    &&& method is Get ==> name == "GET"@
    &&& method is Post ==> name == "POST"@
    &&& method is Put ==> name == "PUT"@
    &&& method is Delete ==> name == "DELETE"@
    &&& method is Patch ==> name == "PATCH"@
}

/// The page of a form sends it to its address, by its method, with each of its fields under the
/// field's name.
pub proof fn law_form_page(
    endpoint: String,
    method: Method,
    form_fields: Vec<(String, String)>,
    payment_method_data: &Option<PaymentMethodData>,
    amount: &str,
    currency: &str,
    urls: &ConnectorUrls,
    logging_template: &str,
    page: String,
    i: int,
)
    requires
        call_ensures(
            build_redirection_form,
            (
                &RedirectForm::Form { endpoint, method, form_fields },
                payment_method_data,
                amount,
                currency,
                urls,
                logging_template,
            ),
            page,
        ),
        0 <= i < form_fields@.len(),
    ensures
        exists|name: Seq<char>| #[trigger]
            is_method_name(method, name) && holds(
                page@,
                r#"<form id="payment_form" action=""#@ + endpoint@ + r#"" method=""#@ + name
                    + r#"">"#@,
            ),
        holds(
            page@,
            "<input type=\"hidden\" name=\""@ + crate::api::redirection::escaped(
                form_fields@[i].0@,
            ) + "\" value=\""@ + crate::api::redirection::escaped(form_fields@[i].1@) + "\">"@,
        ),
        holds(page@, logging_template@),
{
    let opening = crate::api::redirection_text::FORM_1@
        + crate::api::redirection_text::ANIMATION_DATA@ + crate::api::redirection_text::FORM_2@;
    let name = crate::enums::method_name(method);
    let head = r#"<form id="payment_form" action=""#@ + endpoint@ + r#"" method=""#@ + name
        + r#"">"#@;
    let inputs = crate::api::redirection::hidden_inputs(form_fields@);
    let script = crate::api::redirection_text::FORM_5@;
    let ending = crate::api::redirection_text::FORM_6@;
    assert(is_method_name(method, name));
    lemma_holds(page@, opening, head, inputs + script + logging_template@ + ending);
    lemma_holds(page@, opening + head, inputs, script + logging_template@ + ending);
    lemma_holds(page@, opening + head + inputs + script, logging_template@, ending);
    lemma_field_is_written(form_fields@, i);
    lemma_holds_inside(
        page@,
        inputs,
        "<input type=\"hidden\" name=\""@ + crate::api::redirection::escaped(form_fields@[i].0@)
            + "\" value=\""@ + crate::api::redirection::escaped(form_fields@[i].1@) + "\">"@,
    );
}

proof fn lemma_field_is_written(fields: Seq<(String, String)>, i: int)
    requires
        0 <= i < fields.len(),
    ensures
        holds(
            crate::api::redirection::hidden_inputs(fields),
            "<input type=\"hidden\" name=\""@ + crate::api::redirection::escaped(fields[i].0@)
                + "\" value=\""@ + crate::api::redirection::escaped(fields[i].1@) + "\">"@,
        ),
    decreases fields.len(),
{
    let input = "<input type=\"hidden\" name=\""@ + crate::api::redirection::escaped(fields[i].0@)
        + "\" value=\""@ + crate::api::redirection::escaped(fields[i].1@) + "\">"@;
    let before = crate::api::redirection::hidden_inputs(fields.drop_last());
    let last = crate::api::redirection::hidden_input(fields.last());
    if i == fields.len() - 1 {
        lemma_holds(crate::api::redirection::hidden_inputs(fields), before, input, seq![]);
    } else {
        lemma_field_is_written(fields.drop_last(), i);
        lemma_holds(crate::api::redirection::hidden_inputs(fields), seq![], before, last);
        lemma_holds_inside(crate::api::redirection::hidden_inputs(fields), before, input);
    }
}

/// Fields are written in their order: those of a longer list are those of the shorter one, and
/// then the others.
pub proof fn law_fields_are_written_in_order(
    first: Seq<(String, String)>,
    second: Seq<(String, String)>,
)
    ensures
        crate::api::redirection::hidden_inputs(first + second)
            == crate::api::redirection::hidden_inputs(first)
            + crate::api::redirection::hidden_inputs(second),
        crate::api::redirection::hidden_inputs(seq![]) == Seq::<char>::empty(),
    decreases second.len(),
{
    if second.len() == 0 {
        assert(first + second == first);
    } else {
        law_fields_are_written_in_order(first, second.drop_last());
        assert((first + second).drop_last() == first + second.drop_last());
    }
}

proof fn lemma_one_character_is_escaped(c: char)
    ensures
        crate::api::redirection::escaped(seq![c]) == crate::api::redirection::escaped_char(c),
{
    let one = seq![c];
    assert(one.drop_last() == Seq::<char>::empty());
    assert(one.last() == c);
    assert(crate::api::redirection::escaped(one.drop_last()) == Seq::<char>::empty());
    assert(Seq::<char>::empty() + crate::api::redirection::escaped_char(c)
        == crate::api::redirection::escaped_char(c));
}

/// Text is escaped character by character: the four with a meaning in markup become their
/// entities, and every other stays.
pub proof fn law_text_is_escaped_by_characters(first: Seq<char>, second: Seq<char>, c: char)
    ensures
        crate::api::redirection::escaped(first + second) == crate::api::redirection::escaped(first)
            + crate::api::redirection::escaped(second),
        crate::api::redirection::escaped(seq![]) == Seq::<char>::empty(),
        crate::api::redirection::escaped(seq!['&']) == "&amp;"@,
        crate::api::redirection::escaped(seq!['<']) == "&lt;"@,
        crate::api::redirection::escaped(seq!['>']) == "&gt;"@,
        crate::api::redirection::escaped(seq!['"']) == "&quot;"@,
        c != '&' && c != '<' && c != '>' && c != '"' ==> crate::api::redirection::escaped(seq![c])
            == seq![c],
    decreases second.len(),
{
    lemma_one_character_is_escaped('&');
    lemma_one_character_is_escaped('<');
    lemma_one_character_is_escaped('>');
    lemma_one_character_is_escaped('"');
    lemma_one_character_is_escaped(c);
    if second.len() == 0 {
        assert(first + second == first);
    } else {
        law_text_is_escaped_by_characters(first, second.drop_last(), c);
        assert((first + second).drop_last() == first + second.drop_last());
    }
}

/// A page that the connector wrote is shown as it is, with the error log script behind it.
pub proof fn law_html_page(
    html_data: String,
    payment_method_data: &Option<PaymentMethodData>,
    amount: &str,
    currency: &str,
    urls: &ConnectorUrls,
    logging_template: &str,
    page: String,
)
    requires
        call_ensures(
            build_redirection_form,
            (
                &RedirectForm::Html { html_data },
                payment_method_data,
                amount,
                currency,
                urls,
                logging_template,
            ),
            page,
        ),
    ensures
        page@ == html_data@ + " <script>"@ + logging_template@ + "</script>"@,
{
}

/// The BlueSnap page loads the script of the configured place, is set up with the token, sends
/// the customer back with it, and hands on the code of the card that the payment is made with.
#[verifier::rlimit(60)]
#[verifier::spinoff_prover]
pub proof fn law_bluesnap_page(
    payment_fields_token: String,
    payment_method_data: &Option<PaymentMethodData>,
    amount: &str,
    currency: &str,
    urls: &ConnectorUrls,
    logging_template: &str,
    page: String,
)
    requires
        call_ensures(
            build_redirection_form,
            (
                &RedirectForm::BlueSnap { payment_fields_token },
                payment_method_data,
                amount,
                currency,
                urls,
                logging_template,
            ),
            page,
        ),
    ensures
        holds(
            page@,
            r#"<!DOCTYPE html><html><head><meta name="viewport" content="width=device-width, initial-scale=1"><script src=""#@
                + urls.bluesnap_secondary_base_url@,
        ),
        holds(page@, r#"bluesnap.threeDsPaymentsSetup(""#@ + payment_fields_token@),
        holds(
            page@,
            r#""payments/$1/$2/redirect/complete/bluesnap?paymentToken="#@ + payment_fields_token@,
        ),
        holds(page@, logging_template@),
        *payment_method_data matches Some(PaymentMethodData::Card(card)) ==> holds(
            page@,
            r#"var saveCardDirectly={cvv: ""#@ + card.card_cvc.inner_secret@ + r#"",amount: "#@
                + amount@ + r#",currency: ""#@ + currency@ + r#""};"#@ + r#"
                    bluesnap.threeDsPaymentsSubmitData(saveCardDirectly);
                </script>
                </html>"#@,
        ),
{
    let a =
        r#"<!DOCTYPE html><html><head><meta name="viewport" content="width=device-width, initial-scale=1"><script src=""#@
        + urls.bluesnap_secondary_base_url@;
    let b = crate::api::redirection_text::BLUESNAP_2@
        + crate::api::redirection_text::ANIMATION_DATA@
        + crate::api::redirection_text::BLUESNAP_3@;
    let l = logging_template@;
    let c = crate::api::redirection_text::BLUESNAP_4@;
    let d = r#"bluesnap.threeDsPaymentsSetup(""#@ + payment_fields_token@;
    let e = crate::api::redirection_text::BLUESNAP_5@;
    let f = r#""payments/$1/$2/redirect/complete/bluesnap?paymentToken="#@ + payment_fields_token@;
    let g = crate::api::redirection_text::BLUESNAP_6@;
    let details = crate::api::redirection::card_details(
        *payment_method_data,
        amount@,
        currency@,
    );
    let h = details + crate::api::redirection_text::BLUESNAP_7@;
    assert(page@ =~= a + b + l + c + d + e + f + g + h);
    lemma_holds(page@, seq![], a, b + l + c + d + e + f + g + h);
    lemma_holds(page@, a + b, l, c + d + e + f + g + h);
    lemma_holds(page@, a + b + l + c, d, e + f + g + h);
    lemma_holds(page@, a + b + l + c + d + e, f, g + h);
    lemma_holds(page@, a + b + l + c + d + e + f + g, h, seq![]);
    if let Some(PaymentMethodData::Card(card)) = *payment_method_data {
        assert(h == r#"var saveCardDirectly={cvv: ""#@ + card.card_cvc.inner_secret@
            + r#"",amount: "#@ + amount@ + r#",currency: ""#@ + currency@ + r#""};"#@
            + r#"
                    bluesnap.threeDsPaymentsSubmitData(saveCardDirectly);
                </script>
                </html>"#@);
    }
}

/// The Payme page asks for the data of the device, reports errors, and sends the customer back.
pub proof fn law_payme_page(
    payment_method_data: &Option<PaymentMethodData>,
    amount: &str,
    currency: &str,
    urls: &ConnectorUrls,
    logging_template: &str,
    page: String,
)
    requires
        call_ensures(
            build_redirection_form,
            (
                &RedirectForm::Payme,
                payment_method_data,
                amount,
                currency,
                urls,
                logging_template,
            ),
            page,
        ),
    ensures
        holds(
            page@,
            r#"<!DOCTYPE html><head><script src="https://cdn.paymeservice.com/hf/v1/hostedfields.js"></script></head><script>
                    "#@ + logging_template@,
        ),
{
    lemma_holds(
        page@,
        seq![],
        r#"<!DOCTYPE html><head><script src="https://cdn.paymeservice.com/hf/v1/hostedfields.js"></script></head><script>
                    "#@ + logging_template@,
        crate::api::redirection_text::PAYME_2@,
    );
}

/// The Braintree page verifies the card of the token, for the amount of the payment, with the
/// client's token, and sends the customer to the address of the issuer.
#[verifier::rlimit(60)]
#[verifier::spinoff_prover]
pub proof fn law_braintree_page(
    client_token: String,
    card_token: String,
    bin: String,
    acs_url: String,
    payment_method_data: &Option<PaymentMethodData>,
    amount: &str,
    currency: &str,
    urls: &ConnectorUrls,
    logging_template: &str,
    page: String,
)
    requires
        call_ensures(
            build_redirection_form,
            (
                &RedirectForm::Braintree { client_token, card_token, bin, acs_url },
                payment_method_data,
                amount,
                currency,
                urls,
                logging_template,
            ),
            page,
        ),
    ensures
        holds(page@, r#"var clientToken = ""#@ + client_token@),
        holds(
            page@,
            r#"amount: ""#@ + amount@ + r#"",
                                            nonce: ""#@ + card_token@
                + r#"",
                                            bin: ""#@ + bin@,
        ),
        holds(page@, r#"f.action=""#@ + acs_url@),
        holds(page@, logging_template@),
{
    let a = crate::api::redirection_text::BRAINTREE_1@ + crate::api::redirection::waiting_body()
        + crate::api::redirection_text::BRAINTREE_2@;
    let l = logging_template@;
    let b = crate::api::redirection_text::BRAINTREE_3@;
    let c = r#"var clientToken = ""#@ + client_token@;
    let d = crate::api::redirection_text::BRAINTREE_4@;
    let e = r#"amount: ""#@ + amount@ + r#"",
                                            nonce: ""#@ + card_token@
        + r#"",
                                            bin: ""#@ + bin@;
    let f = crate::api::redirection_text::BRAINTREE_7@;
    let g = r#"f.action=""#@ + acs_url@;
    let h = crate::api::redirection_text::BRAINTREE_8@;
    assert(page@ =~= a + l + b + c + d + e + f + g + h);
    lemma_holds(page@, a, l, b + c + d + e + f + g + h);
    lemma_holds(page@, a + l + b, c, d + e + f + g + h);
    lemma_holds(page@, a + l + b + c + d, e, f + g + h);
    lemma_holds(page@, a + l + b + c + d + e + f, g, h);
}

/// The NMI page is started with the public key, and verifies the card that is kept for the
/// customer, for the amount and the currency of the form. What it sends back tells the order and
/// the customer.
#[verifier::rlimit(60)]
#[verifier::spinoff_prover]
pub proof fn law_nmi_page(
    form: &RedirectForm,
    payment_method_data: &Option<PaymentMethodData>,
    amount: &str,
    currency: &str,
    urls: &ConnectorUrls,
    logging_template: &str,
    page: String,
)
    requires
        *form is Nmi,
        call_ensures(
            build_redirection_form,
            (form, payment_method_data, amount, currency, urls, logging_template),
            page,
        ),
    ensures
        holds(page@, "const gateway = Gateway.create('"@ + form->public_key.inner_secret@),
        holds(
            page@,
            "customerVaultId: '"@ + form->customer_vault_id@ + "',
                        currency: '"@ + form->Nmi_currency@ + "',
                        amount: '"@ + form->Nmi_amount@,
        ),
        holds(
            page@,
            "item5.name='orderId';
                        item5.value='"@ + form->order_id@,
        ),
        holds(
            page@,
            "item6.name='customerVaultId';
                        item6.value='"@ + form->customer_vault_id@,
        ),
        holds(page@, logging_template@),
{
    let a = crate::api::redirection_text::NMI_1@ + crate::api::redirection_text::ANIMATION_DATA@
        + crate::api::redirection_text::NMI_2@;
    let l = logging_template@;
    let b = crate::api::redirection_text::NMI_3@;
    let c = "const gateway = Gateway.create('"@ + form->public_key.inner_secret@;
    let d = crate::api::redirection_text::NMI_4@;
    let e = "customerVaultId: '"@ + form->customer_vault_id@ + "',
                        currency: '"@ + form->Nmi_currency@ + "',
                        amount: '"@ + form->Nmi_amount@;
    let f = crate::api::redirection_text::NMI_7@;
    let g = "item5.name='orderId';
                        item5.value='"@ + form->order_id@;
    let h = crate::api::redirection_text::NMI_8@;
    let i = "item6.name='customerVaultId';
                        item6.value='"@ + form->customer_vault_id@;
    let j = crate::api::redirection_text::NMI_9@;
    assert(page@ =~= a + l + b + c + d + e + f + g + h + i + j);
    lemma_holds(page@, a, l, b + c + d + e + f + g + h + i + j);
    lemma_holds(page@, a + l + b, c, d + e + f + g + h + i + j);
    lemma_holds(page@, a + l + b + c + d, e, f + g + h + i + j);
    lemma_holds(page@, a + l + b + c + d + e + f, g, h + i + j);
    lemma_holds(page@, a + l + b + c + d + e + f + g + h, i, j);
}

/// The Mifinity page loads the widget of the configured place and starts it with the token.
pub proof fn law_mifinity_page(
    initialization_token: String,
    payment_method_data: &Option<PaymentMethodData>,
    amount: &str,
    currency: &str,
    urls: &ConnectorUrls,
    logging_template: &str,
    page: String,
)
    requires
        call_ensures(
            build_redirection_form,
            (
                &RedirectForm::Mifinity { initialization_token },
                payment_method_data,
                amount,
                currency,
                urls,
                logging_template,
            ),
            page,
        ),
    ensures
        holds(page@, "<!DOCTYPE html><head><script src='"@ + urls.mifinity_base_url@),
        holds(page@, "token: '"@ + initialization_token@),
{
    let a = "<!DOCTYPE html><head><script src='"@ + urls.mifinity_base_url@;
    let b = crate::api::redirection_text::MIFINITY_2@;
    let c = "token: '"@ + initialization_token@;
    let d = crate::api::redirection_text::MIFINITY_3@;
    lemma_holds(page@, seq![], a, b + c + d);
    lemma_holds(page@, a + b, c, d);
}

/// The Worldpay page takes messages from the site of the endpoint alone, knows the field that the
/// collection is told in, and frames a form that is sent to the endpoint by its method with each
/// of its fields.
#[verifier::rlimit(60)]
#[verifier::spinoff_prover]
pub proof fn law_worldpay_page(
    endpoint: WebUrl,
    method: Method,
    form_fields: Vec<(String, String)>,
    collection_id: Option<String>,
    payment_method_data: &Option<PaymentMethodData>,
    amount: &str,
    currency: &str,
    urls: &ConnectorUrls,
    logging_template: &str,
    page: String,
    i: int,
)
    requires
        call_ensures(
            build_redirection_form,
            (
                &RedirectForm::WorldpayDDCForm { endpoint, method, form_fields, collection_id },
                payment_method_data,
                amount,
                currency,
                urls,
                logging_template,
            ),
            page,
        ),
        0 <= i < form_fields@.len(),
    ensures
        endpoint.host matches Some(host) ==> holds(
            page@,
            r#"var allowedHost = ""#@ + (endpoint.scheme@ + "://"@ + host@)
                + r#"";
                                var collectionField = ""#@,
        ),
        collection_id matches Some(id) ==> holds(
            page@,
            r#"";
                                var collectionField = ""#@ + id@,
        ),
        exists|frame: Seq<char>, name: Seq<char>|
            {
                &&& #[trigger] is_method_name(method, name)
                &&& #[trigger] holds(
                    page@,
                    r#"<iframe style="display: none;" srcdoc=""#@
                        + crate::api::redirection::escaped(frame) + r#""></iframe></body></html>"#@,
                )
                &&& holds(
                    frame,
                    r#"<!DOCTYPE html><html><body><form id="payment_form" action=""#@
                        + endpoint.text@ + r#"" method=""#@ + name + r#"">"#@,
                )
                &&& holds(
                    frame,
                    "<input type=\"hidden\" name=\""@ + crate::api::redirection::escaped(
                        form_fields@[i].0@,
                    ) + "\" value=\""@ + crate::api::redirection::escaped(form_fields@[i].1@)
                        + "\">"@,
                )
                &&& holds(frame, logging_template@)
            },
{
    let name = crate::enums::method_name(method);
    assert(is_method_name(method, name));
    let inputs = crate::api::redirection::hidden_inputs(form_fields@);
    let frame = crate::api::redirection::ddc_frame(endpoint.text@, name, inputs, logging_template@);
    let head = r#"<!DOCTYPE html><html><body><form id="payment_form" action=""#@ + endpoint.text@
        + r#"" method=""#@ + name + r#"">"#@;
    let script = crate::api::redirection_text::DDC_FRAME_4@;
    let ending = crate::api::redirection_text::DDC_FRAME_5@;
    lemma_holds(frame, seq![], head, inputs + script + logging_template@ + ending);
    lemma_holds(frame, head, inputs, script + logging_template@ + ending);
    lemma_holds(frame, head + inputs + script, logging_template@, ending);
    lemma_field_is_written(form_fields@, i);
    lemma_holds_inside(
        frame,
        inputs,
        "<input type=\"hidden\" name=\""@ + crate::api::redirection::escaped(form_fields@[i].0@)
            + "\" value=\""@ + crate::api::redirection::escaped(form_fields@[i].1@) + "\">"@,
    );
    let a = crate::api::redirection_text::DDC_1@ + crate::api::redirection_text::ANIMATION_DATA@
        + crate::api::redirection_text::DDC_2@;
    let b = r#"var allowedHost = ""#@ + crate::web_url::allowed_host(endpoint@);
    let c = r#"";
                                var collectionField = ""#@;
    let id = crate::text::view_or(collection_id, ""@);
    let d = crate::api::redirection_text::DDC_4@;
    let e = r#"<iframe style="display: none;" srcdoc=""#@ + crate::api::redirection::escaped(frame)
        + r#""></iframe></body></html>"#@;
    assert(page@ =~= a + b + c + id + d + e);
    lemma_holds(page@, a, b + c, id + d + e);
    lemma_holds(page@, a + b, c + id, d + e);
    lemma_holds(page@, a + b + c + id + d, e, seq![]);
}

} // verus!
