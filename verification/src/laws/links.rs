//! Laws of payment link pages and of the addresses in them.
use vstd::prelude::*;
use crate::api::payment_link::{build_payment_link_html, build_payment_link_template, build_secure_payment_link_html, get_hyper_loader_sdk, get_payment_link_status, get_preload_link_html_template, get_sdk_origin, PageDraft, PaymentLinkAssets, PaymentLinkFormData, PaymentLinkStatusData};
use crate::errors::ApiErrorResponse;
use crate::web_url::WebUrl;

verus! {

/// The script of a page comes from the scheme and host of its address; at the local host the port
/// belongs to it, and an address without a host, or without that port, is an error.
pub proof fn law_origin_is_the_addresss(sdk_url: &WebUrl, res: Result<String, ApiErrorResponse>)
    requires
        call_ensures(get_sdk_origin, (sdk_url,), res),
    ensures
        res is Ok <==> sdk_url.host is Some && (sdk_url.host->0@ == "localhost"@ ==> sdk_url.port
            is Some),
        res is Err ==> res->Err_0 is InternalServerError,
        res is Ok && sdk_url.host->0@ != "localhost"@ ==> res->Ok_0@ == sdk_url.scheme@ + "://"@
            + sdk_url.host->0@,
        res is Ok && sdk_url.host->0@ == "localhost"@ ==> res->Ok_0@ == sdk_url.scheme@ + "://"@
            + "localhost"@ + ":"@ + crate::text::number_text(sdk_url.port->0 as nat),
{
}

/// The elements that load the script, and announce it, name its address.
pub proof fn law_script_is_loaded_from_its_address(
    sdk_url: &WebUrl,
    loader: String,
    preload: String,
)
    requires
        call_ensures(get_hyper_loader_sdk, (sdk_url,), loader),
        call_ensures(get_preload_link_html_template, (sdk_url,), preload),
    ensures
        loader@ == "<script src=\""@ + sdk_url.text@
            + "\" onload=\"initializeSDK()\"></script>"@,
        preload@
            == r#"<link rel="preload" href="https://fonts.googleapis.com/css2?family=Montserrat:wght@400;500;600;700;800" as="style">
            <link rel="preload" href=""#@ + sdk_url.text@ + r#"" as="script">"#@,
{
}

/// Sites that may talk to a page: the scheme and host of an address that has a host.
pub proof fn law_allowed_host_is_the_addresss(url: &WebUrl, res: String)
    requires
        call_ensures(WebUrl::allowed_host, (url,), res),
    ensures
        url.host matches Some(host) ==> res@ == url.scheme@ + "://"@ + host@,
        url.host is None && crate::text::split(url.text@, '/').len() <= 3 ==> res@ == url.text@,
{
    let parts = crate::text::split(url.text@, '/');
    crate::text::law_split_join(url.text@, '/');
    if parts.len() <= 3 {
        assert(parts.take(parts.len() as int) == parts);
    }
}

/// The value that a context holds for a name: what was set under it last.
pub open spec fn value_of(context: Seq<(Seq<char>, Seq<char>)>, name: Seq<char>) -> Option<
    Seq<char>,
>
    decreases context.len(),
{
    if context.len() == 0 {
        None
    } else if context.last().0 == name {
        Some(context.last().1)
    } else {
        value_of(context.drop_last(), name)
    }
}

/// Whether the names that a page's context is filled under are told apart.
pub proof fn lemma_link_names()
    ensures
        "css_color_scheme"@.len() == 16,
        "payment_details_js_script"@.len() == 25,
        "sdk_origin"@.len() == 10,
        "rendered_meta_tag_html"@.len() == 22,
        "preload_link_tags"@.len() == 17,
        "hyperloader_sdk_link"@.len() == 20,
        "locale_template"@.len() == 15,
        "rendered_css"@.len() == 12,
        "rendered_js"@.len() == 11,
        "logging_template"@.len() == 16,
        "logging_template"@ != "css_color_scheme"@,
        "payment_link_css"@.len() == 16,
        "payment_link_js"@.len() == 15,
        "payment_link"@.len() == 12,
        "payment_link_initiator"@.len() == 22,
        "payment_link_initiator"@ != "rendered_meta_tag_html"@,
{
    reveal_strlit("css_color_scheme");
    reveal_strlit("payment_details_js_script");
    reveal_strlit("sdk_origin");
    reveal_strlit("rendered_meta_tag_html");
    reveal_strlit("preload_link_tags");
    reveal_strlit("hyperloader_sdk_link");
    reveal_strlit("locale_template");
    reveal_strlit("rendered_css");
    reveal_strlit("rendered_js");
    reveal_strlit("logging_template");
    reveal_strlit("payment_link_css");
    reveal_strlit("payment_link_js");
    reveal_strlit("payment_link");
    reveal_strlit("payment_link_initiator");
    assert("logging_template"@[0] != "css_color_scheme"@[0]);
    assert("payment_link_initiator"@[0] != "rendered_meta_tag_html"@[0]);
}

/// The templates of a payment link page stand under their names, and each name in its context is
/// filled with what it says: the merchant's colours and details, the origin of the script, the
/// tags, the scripts of the configuration, and the style sheet and script as rendered from their
/// own templates.
#[verifier::rlimit(60)]
pub proof fn law_link_page_is_filled(
    data: &PaymentLinkFormData,
    assets: &PaymentLinkAssets,
    origin: Result<String, ApiErrorResponse>,
    loader: String,
    preload: String,
    res: Result<PageDraft, ApiErrorResponse>,
)
    requires
        call_ensures(get_sdk_origin, (&data.sdk_url,), origin),
        call_ensures(get_hyper_loader_sdk, (&data.sdk_url,), loader),
        call_ensures(get_preload_link_html_template, (&data.sdk_url,), preload),
        call_ensures(build_payment_link_template, (data, assets), res),
        res is Ok,
    ensures
        origin is Ok,
        ({
            let templates = crate::api::payment_link::pair_texts(res->Ok_0.templates@);
            let context = crate::api::payment_link::pair_texts(res->Ok_0.context@);
            let css = crate::api::payment_link::rendered(
                seq![("payment_link_css"@, assets.css_template@)],
                "payment_link_css"@,
                seq![("css_color_scheme"@, data.css_script@)],
            );
            let js = crate::api::payment_link::rendered(
                seq![
                    ("payment_link_css"@, assets.css_template@),
                    ("payment_link_js"@, assets.js_template@),
                ],
                "payment_link_js"@,
                seq![
                    ("css_color_scheme"@, data.css_script@),
                    ("payment_details_js_script"@, data.js_script@),
                    ("sdk_origin"@, origin->Ok_0@),
                ],
            );
            &&& value_of(templates, "payment_link_css"@) == Some(assets.css_template@)
            &&& value_of(templates, "payment_link_js"@) == Some(assets.js_template@)
            &&& value_of(templates, "payment_link"@) == Some(assets.html_template@)
            &&& value_of(context, "css_color_scheme"@) == Some(data.css_script@)
            &&& value_of(context, "payment_details_js_script"@) == Some(data.js_script@)
            &&& value_of(context, "sdk_origin"@) == Some(origin->Ok_0@)
            &&& value_of(context, "rendered_meta_tag_html"@) == Some(data.html_meta_tags@)
            &&& value_of(context, "preload_link_tags"@) == Some(preload@)
            &&& value_of(context, "hyperloader_sdk_link"@) == Some(loader@)
            &&& value_of(context, "locale_template"@) == Some(assets.locale_template@)
            &&& value_of(context, "logging_template"@) == Some(assets.logging_template@)
            &&& css is Some
            &&& js is Some
            &&& value_of(context, "rendered_css"@) == css
            &&& value_of(context, "rendered_js"@) == js
        }),
{
    lemma_link_names();
    let templates = crate::api::payment_link::pair_texts(res->Ok_0.templates@);
    let context = crate::api::payment_link::pair_texts(res->Ok_0.context@);
    let css_only = seq![("payment_link_css"@, assets.css_template@)];
    let scripts = css_only.push(("payment_link_js"@, assets.js_template@));
    assert(scripts == seq![
        ("payment_link_css"@, assets.css_template@),
        ("payment_link_js"@, assets.js_template@),
    ]);
    let css_context = seq![("css_color_scheme"@, data.css_script@)];
    let js_context = css_context.push(("payment_details_js_script"@, data.js_script@)).push(
        ("sdk_origin"@, origin->Ok_0@),
    );
    assert(js_context == seq![
        ("css_color_scheme"@, data.css_script@),
        ("payment_details_js_script"@, data.js_script@),
        ("sdk_origin"@, origin->Ok_0@),
    ]);
    let css = crate::api::payment_link::rendered(
        css_only,
        "payment_link_css"@,
        css_context,
    );
    let js = crate::api::payment_link::rendered(scripts, "payment_link_js"@, js_context);
    assert(origin is Ok);
    assert(templates == scripts.push(("payment_link"@, assets.html_template@)));
    assert(context == js_context.push(("rendered_meta_tag_html"@, data.html_meta_tags@)).push(
        ("preload_link_tags"@, preload@),
    ).push(("hyperloader_sdk_link"@, loader@)).push(
        ("locale_template"@, assets.locale_template@),
    ).push(("rendered_css"@, css->0)).push(("rendered_js"@, js->0)).push(
        ("logging_template"@, assets.logging_template@),
    ));
    lemma_last_value(scripts, "payment_link"@, assets.html_template@);
    lemma_last_value(css_only, "payment_link_js"@, assets.js_template@);
    lemma_last_value(seq![], "payment_link_css"@, assets.css_template@);
    assert(css_only == Seq::<(Seq<char>, Seq<char>)>::empty().push(
        ("payment_link_css"@, assets.css_template@),
    ));
    let c1 = css_context;
    assert(c1 == Seq::<(Seq<char>, Seq<char>)>::empty().push(
        ("css_color_scheme"@, data.css_script@),
    ));
    let c2 = c1.push(("payment_details_js_script"@, data.js_script@));
    let c3 = c2.push(("sdk_origin"@, origin->Ok_0@));
    let c4 = c3.push(("rendered_meta_tag_html"@, data.html_meta_tags@));
    let c5 = c4.push(("preload_link_tags"@, preload@));
    let c6 = c5.push(("hyperloader_sdk_link"@, loader@));
    let c7 = c6.push(("locale_template"@, assets.locale_template@));
    let c8 = c7.push(("rendered_css"@, css->0));
    let c9 = c8.push(("rendered_js"@, js->0));
    lemma_last_value(seq![], "css_color_scheme"@, data.css_script@);
    lemma_last_value(c1, "payment_details_js_script"@, data.js_script@);
    lemma_last_value(c2, "sdk_origin"@, origin->Ok_0@);
    lemma_last_value(c3, "rendered_meta_tag_html"@, data.html_meta_tags@);
    lemma_last_value(c4, "preload_link_tags"@, preload@);
    lemma_last_value(c5, "hyperloader_sdk_link"@, loader@);
    lemma_last_value(c6, "locale_template"@, assets.locale_template@);
    lemma_last_value(c7, "rendered_css"@, css->0);
    lemma_last_value(c8, "rendered_js"@, js->0);
    lemma_last_value(c9, "logging_template"@, assets.logging_template@);
}

proof fn lemma_last_value(
    context: Seq<(Seq<char>, Seq<char>)>,
    name: Seq<char>,
    value: Seq<char>,
)
    ensures
        value_of(context.push((name, value)), name) == Some(value),
        forall|other: Seq<char>|
            other != name ==> #[trigger] value_of(context.push((name, value)), other) == value_of(
                context,
                other,
            ),
{
    assert(context.push((name, value)).drop_last() == context);
}

/// The page of a link is its template rendered in the filled context, with the script that starts
/// it: that of open links for open ones, and that of secure links for secure ones. Where something
/// could not be rendered there is no page.
pub proof fn law_link_page_is_rendered(
    data: &PaymentLinkFormData,
    assets: &PaymentLinkAssets,
    draft: Result<PageDraft, ApiErrorResponse>,
    open_page: Result<String, ApiErrorResponse>,
    secure_page: Result<String, ApiErrorResponse>,
)
    requires
        call_ensures(build_payment_link_template, (data, assets), draft),
        call_ensures(build_payment_link_html, (data, assets), open_page),
        call_ensures(build_secure_payment_link_html, (data, assets), secure_page),
    ensures
        draft is Err ==> open_page is Err && secure_page is Err && draft->Err_0
            is InternalServerError,
        open_page is Err ==> open_page->Err_0 is InternalServerError,
        secure_page is Err ==> secure_page->Err_0 is InternalServerError,
        draft matches Ok(filled) ==> ({
            let templates = crate::api::payment_link::pair_texts(filled.templates@);
            let context = crate::api::payment_link::pair_texts(filled.context@);
            let open_text = crate::api::payment_link::rendered(
                templates,
                "payment_link"@,
                context.push(("payment_link_initiator"@, assets.payment_link_initiator@)),
            );
            let secure_text = crate::api::payment_link::rendered(
                templates,
                "payment_link"@,
                context.push(("payment_link_initiator"@, assets.secure_payment_link_initiator@)),
            );
            &&& open_page is Ok <==> open_text is Some
            &&& open_page is Ok ==> open_page->Ok_0@ == open_text->0
            &&& secure_page is Ok <==> secure_text is Some
            &&& secure_page is Ok ==> secure_page->Ok_0@ == secure_text->0
        }),
{
}

/// The status page is its template rendered with the merchant's colours and details, the style
/// sheet and script as rendered from their own templates, and the scripts of the configuration.
pub proof fn law_status_page_is_rendered(
    data: &PaymentLinkStatusData,
    assets: &PaymentLinkAssets,
    res: Result<String, ApiErrorResponse>,
)
    requires
        call_ensures(get_payment_link_status, (data, assets), res),
    ensures
        res is Err ==> res->Err_0 is InternalServerError,
        ({
            let css = crate::api::payment_link::rendered(
                seq![("payment_link_css"@, assets.status_css_template@)],
                "payment_link_css"@,
                seq![("css_color_scheme"@, data.css_script@)],
            );
            let scripts = seq![
                ("payment_link_css"@, assets.status_css_template@),
                ("payment_link_js"@, assets.status_js_template@),
            ];
            let details = seq![
                ("css_color_scheme"@, data.css_script@),
                ("payment_details_js_script"@, data.js_script@),
            ];
            let js = crate::api::payment_link::rendered(scripts, "payment_link_js"@, details);
            let page = crate::api::payment_link::rendered(
                seq![
                    ("payment_link_css"@, assets.status_css_template@),
                    ("payment_link_js"@, assets.status_js_template@),
                    ("payment_link_status"@, assets.status_html_template@),
                ],
                "payment_link_status"@,
                seq![
                    ("css_color_scheme"@, data.css_script@),
                    ("payment_details_js_script"@, data.js_script@),
                    ("rendered_css"@, css->0),
                    ("locale_template"@, assets.locale_template@),
                    ("rendered_js"@, js->0),
                    ("logging_template"@, assets.logging_template@),
                ],
            );
            &&& res is Ok <==> css is Some && js is Some && page is Some
            &&& res is Ok ==> res->Ok_0@ == page->0
        }),
{
    let css_only = seq![("payment_link_css"@, assets.status_css_template@)];
    let scripts = seq![
        ("payment_link_css"@, assets.status_css_template@),
        ("payment_link_js"@, assets.status_js_template@),
    ];
    let details = seq![
        ("css_color_scheme"@, data.css_script@),
        ("payment_details_js_script"@, data.js_script@),
    ];
    assert(css_only.push(("payment_link_js"@, assets.status_js_template@)) == scripts);
    assert(seq![("css_color_scheme"@, data.css_script@)].push(
        ("payment_details_js_script"@, data.js_script@),
    ) == details);
    let css = crate::api::payment_link::rendered(
        css_only,
        "payment_link_css"@,
        seq![("css_color_scheme"@, data.css_script@)],
    );
    let js = crate::api::payment_link::rendered(scripts, "payment_link_js"@, details);
    assert(scripts.push(("payment_link_status"@, assets.status_html_template@)) == seq![
        ("payment_link_css"@, assets.status_css_template@),
        ("payment_link_js"@, assets.status_js_template@),
        ("payment_link_status"@, assets.status_html_template@),
    ]);
    assert(details.push(("rendered_css"@, css->0)).push(
        ("locale_template"@, assets.locale_template@),
    ).push(("rendered_js"@, js->0)).push(("logging_template"@, assets.logging_template@)) == seq![
        ("css_color_scheme"@, data.css_script@),
        ("payment_details_js_script"@, data.js_script@),
        ("rendered_css"@, css->0),
        ("locale_template"@, assets.locale_template@),
        ("rendered_js"@, js->0),
        ("logging_template"@, assets.logging_template@),
    ]);
}

} // verus!
