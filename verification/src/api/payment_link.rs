//! Payment link pages.
use vstd::prelude::*;
use crate::errors::ApiErrorResponse;
use crate::text::{concat3, render_u128, same_text};
use crate::web_url::WebUrl;

verus! {

/// What a payment link page shows.
pub struct PaymentLinkFormData {
    pub js_script: String,
    pub css_script: String,
    pub sdk_url: WebUrl,
    pub html_meta_tags: String,
}

/// What the status page of a payment link shows.
pub struct PaymentLinkStatusData {
    pub js_script: String,
    pub css_script: String,
}

/// The templates and scripts that the pages are made of.
pub struct PaymentLinkAssets {
    pub css_template: String,
    pub js_template: String,
    pub html_template: String,
    pub status_css_template: String,
    pub status_js_template: String,
    pub status_html_template: String,
    pub locale_template: String,
    pub logging_template: String,
    pub payment_link_initiator: String,
    pub secure_payment_link_initiator: String,
}

/// Whether two characters stand at a place of a text.
pub open spec fn pair_at(s: Seq<char>, i: int, first: char, second: char) -> bool {
    0 <= i && i + 1 < s.len() && s[i] == first && s[i + 1] == second
}

/// Whether the name of a value can start with a character.
pub open spec fn is_name_start(c: char) -> bool {
    97 <= c as int <= 122 || 65 <= c as int <= 90 || c == '_'
}

/// Whether a character can stand in the name of a value.
pub open spec fn is_name_char(c: char) -> bool {
    is_name_start(c) || 48 <= c as int <= 57
}

/// Whether a part of a text is a name from one place to another, with nothing but blanks around
/// it.
pub open spec fn is_name_between(s: Seq<char>, start: int, from: int, to: int, end: int) -> bool {
    &&& start <= from < to <= end
    &&& forall|k: int| start <= k < from ==> #[trigger] s[k] == ' '
    &&& is_name_start(s[from])
    &&& forall|k: int| from <= k < to ==> is_name_char(#[trigger] s[k])
    &&& forall|k: int| to <= k < end ==> #[trigger] s[k] == ' '
}

/// Whether a part of a text is one name, with nothing but blanks around it.
pub open spec fn is_name_with_blanks(s: Seq<char>, start: int, end: int) -> bool {
    exists|from: int, to: int| is_name_between(s, start, from, to, end)
}

/// Whether what opens at a place of a template inserts a value by its name.
pub open spec fn inserts_name(s: Seq<char>, i: int) -> bool {
    exists|j: int|
        #![trigger pair_at(s, j, '}', '}')]
        i + 2 <= j && pair_at(s, j, '}', '}') && is_name_with_blanks(s, i + 2, j)
}

/// Whether a template only inserts values by their names: it has no statements, and asks for
/// nothing to be computed.
pub open spec fn is_plain_template(text: Seq<char>) -> bool {
    &&& forall|i: int| !#[trigger] pair_at(text, i, '{', '%')
    &&& forall|i: int| #[trigger] pair_at(text, i, '{', '{') ==> inserts_name(text, i)
}

impl PaymentLinkAssets {
    /// Whether all templates only insert values by their names.
    pub open spec fn plain(self) -> bool {
        &&& is_plain_template(self.css_template@)
        &&& is_plain_template(self.js_template@)
        &&& is_plain_template(self.html_template@)
        &&& is_plain_template(self.status_css_template@)
        &&& is_plain_template(self.status_js_template@)
        &&& is_plain_template(self.status_html_template@)
    }

    /// Tests whether all templates only insert values by their names.
    pub fn check_plain(&self) -> (res: bool)
        ensures
            res == self.plain(),
    {
        check_plain_template(self.css_template.as_str()) && check_plain_template(
            self.js_template.as_str(),
        ) && check_plain_template(self.html_template.as_str()) && check_plain_template(
            self.status_css_template.as_str(),
        ) && check_plain_template(self.status_js_template.as_str()) && check_plain_template(
            self.status_html_template.as_str(),
        )
    }
}

fn check_name_start(c: char) -> (res: bool)
    ensures
        res == is_name_start(c),
{
    ('a' <= c && c <= 'z') || ('A' <= c && c <= 'Z') || c == '_'
}

fn check_name_char(c: char) -> (res: bool)
    ensures
        res == is_name_char(c),
{
    check_name_start(c) || ('0' <= c && c <= '9')
}

fn skip_blanks(text: &str, i: usize, len: usize) -> (res: usize)
    requires
        len == text@.len(),
        i <= len,
    ensures
        i <= res <= len,
        forall|k: int| i <= k < res ==> #[trigger] text@[k] == ' ',
        res < len ==> text@[res as int] != ' ',
{
    let mut j: usize = i;
    while j < len && text.get_char(j) == ' '
        invariant
            i <= j <= len,
            len == text@.len(),
            forall|k: int| i <= k < j ==> #[trigger] text@[k] == ' ',
        decreases len - j,
    {
        j = j + 1;
    }
    j
}

fn check_inserts_name(text: &str, i: usize, len: usize) -> (res: bool)
    requires
        len == text@.len(),
        i + 2 <= len,
    ensures
        res == inserts_name(text@, i as int),
{
    let from: usize = skip_blanks(text, i + 2, len);
    let mut to: usize = from;
    while to < len && check_name_char(text.get_char(to))
        invariant
            from <= to <= len,
            len == text@.len(),
            forall|k: int| from <= k < to ==> is_name_char(#[trigger] text@[k]),
        decreases len - to,
    {
        to = to + 1;
    }
    let end: usize = skip_blanks(text, to, len);
    let named = from < to && check_name_start(text.get_char(from));
    let closed = len >= 2 && end < len - 1 && text.get_char(end) == '}' && text.get_char(end + 1)
        == '}';
    assert(closed == pair_at(text@, end as int, '}', '}'));
    proof {
        if named && closed {
            assert(is_name_between(text@, i + 2, from as int, to as int, end as int));
            assert(is_name_with_blanks(text@, i + 2, end as int));
        }
        if inserts_name(text@, i as int) {
            let last = choose|j: int|
                #![trigger pair_at(text@, j, '}', '}')]
                i + 2 <= j && pair_at(text@, j, '}', '}') && is_name_with_blanks(text@, i + 2, j);
            let start = i + 2;
            let (a, b) = choose|a: int, b: int| is_name_between(text@, start, a, b, last);
            assert(text@[last] == '}');
            assert(from == a) by {
                if from < a {
                    assert(text@[from as int] == ' ');
                }
                if a < from {
                    assert(text@[a] == ' ');
                }
            }
            assert(to == b) by {
                if to < b {
                    assert(is_name_char(text@[to as int]));
                }
                if b < to {
                    assert(is_name_char(text@[b]));
                    assert(b < last ==> text@[b] == ' ');
                }
            }
            assert(end == last) by {
                if end < last {
                    assert(text@[end as int] == ' ');
                }
                if last < end {
                    assert(text@[last] == ' ');
                }
            }
        }
    }
    named && closed
}

fn check_plain_template(text: &str) -> (res: bool)
    ensures
        res == is_plain_template(text@),
{
    let len: usize = text.unicode_len();
    if len < 2 {
        return true;
    }
    let mut i: usize = 0;
    while i < len - 1
        invariant
            2 <= len == text@.len(),
            i <= len - 1,
            forall|j: int| j < i ==> !#[trigger] pair_at(text@, j, '{', '%'),
            forall|j: int|
                j < i && #[trigger] pair_at(text@, j, '{', '{') ==> inserts_name(text@, j),
        decreases len - i,
    {
        if text.get_char(i) == '{' {
            let next = text.get_char(i + 1);
            if next == '%' {
                assert(pair_at(text@, i as int, '{', '%'));
                return false;
            }
            if next == '{' && !check_inserts_name(text, i, len) {
                assert(pair_at(text@, i as int, '{', '{'));
                return false;
            }
        }
        i = i + 1;
    }
    true
}

/// Names and texts, as plain characters.
pub open spec fn pair_texts(pairs: Seq<(&'static str, String)>) -> Seq<(Seq<char>, Seq<char>)> {
    pairs.map_values(|pair: (&'static str, String)| (pair.0@, pair.1@))
}

/// What `tera` makes of a template: the page, or nothing where it reports an error. The
/// templates are given by name and text in the order in which they are added, and the
/// context by key and value in the order in which it is filled.
pub uninterp spec fn rendered(
    templates: Seq<(Seq<char>, Seq<char>)>,
    name: Seq<char>,
    context: Seq<(Seq<char>, Seq<char>)>,
) -> Option<Seq<char>>;

/// `tera::Tera::render`, on an instance to which the templates were added by
/// `add_raw_template` and with a context filled by `insert`. A template that only inserts
/// values by their names is rendered from the templates and the context alone; what the page
/// is on given values is left to that crate.
#[verifier::external_body]
fn render_template(
    templates: &Vec<(&'static str, String)>,
    name: &str,
    context: &Vec<(&'static str, String)>,
) -> (res: Option<String>)
    requires
        forall|i: int|
            0 <= i < templates@.len() ==> is_plain_template((#[trigger] templates@[i]).1@),
    ensures
        match res {
            Some(page) => rendered(pair_texts(templates@), name@, pair_texts(context@)) == Some(page@),
            None => rendered(pair_texts(templates@), name@, pair_texts(context@)) is None,
        },
{
    let mut tera = tera::Tera::default();
    for (template_name, template) in templates {
        let _ = tera.add_raw_template(template_name, template);
    }
    let mut values = tera::Context::new();
    for (key, value) in context {
        values.insert(*key, value);
    }
    tera.render(name, &values).ok()
}

/// The origin that the script of the page is loaded from: nothing where its URL has no
/// host, or is at the local host without a port.
pub open spec fn sdk_origin(sdk_url: crate::web_url::UrlParts) -> Option<Seq<char>> {
    match sdk_url.host {
        None => None,
        Some(host) => if host == "localhost"@ {
            match sdk_url.port {
                None => None,
                Some(port) => Some(
                    sdk_url.scheme + "://"@ + host + ":"@ + crate::text::number_text(port as nat),
                ),
            }
        } else {
            Some(sdk_url.scheme + "://"@ + host)
        },
    }
}

/// Finds the origin that the script of the page is loaded from.
pub fn get_sdk_origin(sdk_url: &WebUrl) -> (res: Result<String, ApiErrorResponse>)
    ensures
        match sdk_origin(sdk_url@) {
            Some(origin) => res matches Ok(text) && text@ == origin,
            None => res == Err::<String, ApiErrorResponse>(ApiErrorResponse::InternalServerError),
        },
{
    match &sdk_url.host {
        None => Err(ApiErrorResponse::InternalServerError),
        Some(host) => {
            let mut origin = sdk_url.scheme.clone();
            origin.append("://");
            origin.append(host.as_str());
            if same_text(host.as_str(), "localhost") {
                match sdk_url.port {
                    None => Err(ApiErrorResponse::InternalServerError),
                    Some(port) => {
                        origin.append(":");
                        origin.append(render_u128(port as u128).as_str());
                        Ok(origin)
                    },
                }
            } else {
                Ok(origin)
            }
        },
    }
}

/// The element that loads the script of the page.
pub open spec fn hyper_loader_sdk(sdk_url: Seq<char>) -> Seq<char> {
    "<script src=\""@ + sdk_url + "\" onload=\"initializeSDK()\"></script>"@
}

/// Writes the element that loads the script of the page.
pub fn get_hyper_loader_sdk(sdk_url: &WebUrl) -> (res: String)
    ensures
        res@ == hyper_loader_sdk(sdk_url.text@),
{
    concat3(
        "<script src=\"",
        sdk_url.text.as_str(),
        "\" onload=\"initializeSDK()\"></script>",
    )
}

/// The elements that announce what the page will load.
pub open spec fn preload_links(sdk_url: Seq<char>) -> Seq<char> {
    r#"<link rel="preload" href="https://fonts.googleapis.com/css2?family=Montserrat:wght@400;500;600;700;800" as="style">
            <link rel="preload" href=""#@ + sdk_url + r#"" as="script">"#@
}

/// Writes the elements that announce what the page will load.
pub fn get_preload_link_html_template(sdk_url: &WebUrl) -> (res: String)
    ensures
        res@ == preload_links(sdk_url.text@),
{
    concat3(
        r#"<link rel="preload" href="https://fonts.googleapis.com/css2?family=Montserrat:wght@400;500;600;700;800" as="style">
            <link rel="preload" href=""#,
        sdk_url.text.as_str(),
        r#"" as="script">"#,
    )
}

/// A page in the making: its templates and the context to render them with.
pub struct PageDraft {
    pub templates: Vec<(&'static str, String)>,
    pub context: Vec<(&'static str, String)>,
}

/// The templates of a page after its style sheet was added.
pub open spec fn css_templates(css: Seq<char>) -> Seq<(Seq<char>, Seq<char>)> {
    seq![("payment_link_css"@, css)]
}

/// The context in which the style sheet of a page is rendered.
pub open spec fn css_context(css_script: Seq<char>) -> Seq<(Seq<char>, Seq<char>)> {
    seq![("css_color_scheme"@, css_script)]
}

/// The style sheet of a payment link page.
pub open spec fn link_css(data: PaymentLinkFormData, assets: PaymentLinkAssets) -> Option<Seq<char>> {
    rendered(
        css_templates(assets.css_template@),
        "payment_link_css"@,
        css_context(data.css_script@),
    )
}

/// The context in which the script of a payment link page is rendered.
pub open spec fn link_js_context(
    data: PaymentLinkFormData,
    origin: Seq<char>,
) -> Seq<(Seq<char>, Seq<char>)> {
    css_context(data.css_script@).push(("payment_details_js_script"@, data.js_script@)).push(
        ("sdk_origin"@, origin),
    )
}

/// The script of a payment link page.
pub open spec fn link_js(
    data: PaymentLinkFormData,
    assets: PaymentLinkAssets,
    origin: Seq<char>,
) -> Option<Seq<char>> {
    rendered(
        css_templates(assets.css_template@).push(("payment_link_js"@, assets.js_template@)),
        "payment_link_js"@,
        link_js_context(data, origin),
    )
}

/// The templates of a payment link page.
pub open spec fn link_templates(assets: PaymentLinkAssets) -> Seq<(Seq<char>, Seq<char>)> {
    css_templates(assets.css_template@).push(("payment_link_js"@, assets.js_template@)).push(
        ("payment_link"@, assets.html_template@),
    )
}

/// The context in which a payment link page is rendered, but for the script that starts it.
pub open spec fn link_context(
    data: PaymentLinkFormData,
    assets: PaymentLinkAssets,
    origin: Seq<char>,
    css: Seq<char>,
    js: Seq<char>,
) -> Seq<(Seq<char>, Seq<char>)> {
    link_js_context(data, origin).push(("rendered_meta_tag_html"@, data.html_meta_tags@)).push(
        ("preload_link_tags"@, preload_links(data.sdk_url.text@)),
    ).push(("hyperloader_sdk_link"@, hyper_loader_sdk(data.sdk_url.text@))).push(
        ("locale_template"@, assets.locale_template@),
    ).push(("rendered_css"@, css)).push(("rendered_js"@, js)).push(
        ("logging_template"@, assets.logging_template@),
    )
}

fn push_pair(pairs: &mut Vec<(&'static str, String)>, name: &'static str, text: &str)
    ensures
        pair_texts(final(pairs)@) == pair_texts(old(pairs)@).push((name@, text@)),
{
    pairs.push((name, text.to_string()));
    assert(pair_texts(pairs@) == pair_texts(old(pairs)@).push((name@, text@)));
}

fn no_pairs() -> (res: Vec<(&'static str, String)>)
    ensures
        pair_texts(res@) == Seq::<(Seq<char>, Seq<char>)>::empty(),
{
    let res: Vec<(&'static str, String)> = Vec::new();
    assert(pair_texts(res@) == Seq::<(Seq<char>, Seq<char>)>::empty());
    res
}

/// Whether all templates in a list of plain characters only insert values.
pub open spec fn all_plain(templates: Seq<(Seq<char>, Seq<char>)>) -> bool {
    forall|i: int| 0 <= i < templates.len() ==> is_plain_template((#[trigger] templates[i]).1)
}

impl PageDraft {
    /// The templates as plain characters.
    pub open spec fn template_texts(self) -> Seq<(Seq<char>, Seq<char>)> {
        pair_texts(self.templates@)
    }

    /// The context as plain characters.
    pub open spec fn context_texts(self) -> Seq<(Seq<char>, Seq<char>)> {
        pair_texts(self.context@)
    }

    fn new() -> (res: Self)
        ensures
            res.template_texts() == Seq::<(Seq<char>, Seq<char>)>::empty(),
            res.context_texts() == Seq::<(Seq<char>, Seq<char>)>::empty(),
    {
        PageDraft { templates: no_pairs(), context: no_pairs() }
    }

    fn add_template(&mut self, name: &'static str, text: &str)
        ensures
            final(self).template_texts() == old(self).template_texts().push((name@, text@)),
            final(self).context == old(self).context,
    {
        push_pair(&mut self.templates, name, text);
    }

    fn set(&mut self, key: &'static str, value: &str)
        ensures
            final(self).context_texts() == old(self).context_texts().push((key@, value@)),
            final(self).templates == old(self).templates,
    {
        push_pair(&mut self.context, key, value);
    }

    fn render(&self, name: &str) -> (res: Result<String, ApiErrorResponse>)
        requires
            all_plain(self.template_texts()),
        ensures
            match rendered(self.template_texts(), name@, self.context_texts()) {
                Some(page) => res matches Ok(text) && text@ == page,
                None => res == Err::<String, ApiErrorResponse>(
                    ApiErrorResponse::InternalServerError,
                ),
            },
    {
        assert forall|i: int| 0 <= i < self.templates@.len() implies is_plain_template(
            (#[trigger] self.templates@[i]).1@,
        ) by {
            assert(self.template_texts()[i].1 == self.templates@[i].1@);
        }
        match render_template(&self.templates, name, &self.context) {
            Some(page) => Ok(page),
            None => Err(ApiErrorResponse::InternalServerError),
        }
    }
}

/// Makes a payment link page up to the script that starts it.
pub fn build_payment_link_template(
    payment_link_data: &PaymentLinkFormData,
    assets: &PaymentLinkAssets,
) -> (res: Result<PageDraft, ApiErrorResponse>)
    requires
        assets.plain(),
    ensures
        match (
            link_css(*payment_link_data, *assets),
            sdk_origin(payment_link_data.sdk_url@),
        ) {
            (Some(css), Some(origin)) => match link_js(*payment_link_data, *assets, origin) {
                Some(js) => {
                    &&& res matches Ok(draft)
                    &&& draft.template_texts() == link_templates(*assets)
                    &&& draft.context_texts() == link_context(
                        *payment_link_data,
                        *assets,
                        origin,
                        css,
                        js,
                    )
                },
                None => res == Err::<PageDraft, ApiErrorResponse>(
                    ApiErrorResponse::InternalServerError,
                ),
            },
            _ => res == Err::<PageDraft, ApiErrorResponse>(ApiErrorResponse::InternalServerError),
        },
{
    let mut draft = PageDraft::new();
    draft.add_template("payment_link_css", assets.css_template.as_str());
    draft.set("css_color_scheme", payment_link_data.css_script.as_str());
    assert(draft.template_texts() == css_templates(assets.css_template@));
    assert(draft.context_texts() == css_context(payment_link_data.css_script@));
    let rendered_css = match draft.render("payment_link_css") {
        Ok(css) => css,
        Err(error) => {
            return Err(error);
        },
    };
    draft.add_template("payment_link_js", assets.js_template.as_str());
    draft.set("payment_details_js_script", payment_link_data.js_script.as_str());
    let origin = match get_sdk_origin(&payment_link_data.sdk_url) {
        Ok(origin) => origin,
        Err(error) => {
            return Err(error);
        },
    };
    draft.set("sdk_origin", origin.as_str());
    let rendered_js = match draft.render("payment_link_js") {
        Ok(js) => js,
        Err(error) => {
            return Err(error);
        },
    };
    draft.add_template("payment_link", assets.html_template.as_str());
    draft.set("rendered_meta_tag_html", payment_link_data.html_meta_tags.as_str());
    draft.set(
        "preload_link_tags",
        get_preload_link_html_template(&payment_link_data.sdk_url).as_str(),
    );
    draft.set("hyperloader_sdk_link", get_hyper_loader_sdk(&payment_link_data.sdk_url).as_str());
    draft.set("locale_template", assets.locale_template.as_str());
    draft.set("rendered_css", rendered_css.as_str());
    draft.set("rendered_js", rendered_js.as_str());
    draft.set("logging_template", assets.logging_template.as_str());
    Ok(draft)
}

/// A payment link page that a given script starts.
pub open spec fn link_page(
    data: PaymentLinkFormData,
    assets: PaymentLinkAssets,
    initiator: Seq<char>,
) -> Option<Seq<char>> {
    match (link_css(data, assets), sdk_origin(data.sdk_url@)) {
        (Some(css), Some(origin)) => match link_js(data, assets, origin) {
            Some(js) => rendered(
                link_templates(assets),
                "payment_link"@,
                link_context(data, assets, origin, css, js).push(
                    ("payment_link_initiator"@, initiator),
                ),
            ),
            None => None,
        },
        _ => None,
    }
}

fn render_link_page(
    payment_link_data: &PaymentLinkFormData,
    assets: &PaymentLinkAssets,
    initiator: &str,
) -> (res: Result<String, ApiErrorResponse>)
    requires
        assets.plain(),
    ensures
        match link_page(*payment_link_data, *assets, initiator@) {
            Some(page) => res matches Ok(text) && text@ == page,
            None => res == Err::<String, ApiErrorResponse>(ApiErrorResponse::InternalServerError),
        },
{
    let mut draft = match build_payment_link_template(payment_link_data, assets) {
        Ok(draft) => draft,
        Err(error) => {
            return Err(error);
        },
    };
    draft.set("payment_link_initiator", initiator);
    draft.render("payment_link")
}

/// Makes the page of an open payment link.
pub fn build_payment_link_html(
    payment_link_data: &PaymentLinkFormData,
    assets: &PaymentLinkAssets,
) -> (res: Result<String, ApiErrorResponse>)
    requires
        assets.plain(),
    ensures
        match link_page(*payment_link_data, *assets, assets.payment_link_initiator@) {
            Some(page) => res matches Ok(text) && text@ == page,
            None => res == Err::<String, ApiErrorResponse>(ApiErrorResponse::InternalServerError),
        },
{
    render_link_page(payment_link_data, assets, assets.payment_link_initiator.as_str())
}

/// Makes the page of a secure payment link.
pub fn build_secure_payment_link_html(
    payment_link_data: &PaymentLinkFormData,
    assets: &PaymentLinkAssets,
) -> (res: Result<String, ApiErrorResponse>)
    requires
        assets.plain(),
    ensures
        match link_page(*payment_link_data, *assets, assets.secure_payment_link_initiator@) {
            Some(page) => res matches Ok(text) && text@ == page,
            None => res == Err::<String, ApiErrorResponse>(ApiErrorResponse::InternalServerError),
        },
{
    render_link_page(payment_link_data, assets, assets.secure_payment_link_initiator.as_str())
}

/// The status page of a payment link.
pub open spec fn status_page(data: PaymentLinkStatusData, assets: PaymentLinkAssets) -> Option<Seq<char>> {
    let css_only = css_templates(assets.status_css_template@);
    let scripts = css_only.push(("payment_link_js"@, assets.status_js_template@));
    let js_context = css_context(data.css_script@).push(
        ("payment_details_js_script"@, data.js_script@),
    );
    match (
        rendered(css_only, "payment_link_css"@, css_context(data.css_script@)),
        rendered(scripts, "payment_link_js"@, js_context),
    ) {
        (Some(css), Some(js)) => rendered(
            scripts.push(("payment_link_status"@, assets.status_html_template@)),
            "payment_link_status"@,
            js_context.push(("rendered_css"@, css)).push(
                ("locale_template"@, assets.locale_template@),
            ).push(("rendered_js"@, js)).push(("logging_template"@, assets.logging_template@)),
        ),
        _ => None,
    }
}

/// Makes the status page of a payment link.
pub fn get_payment_link_status(
    payment_link_data: &PaymentLinkStatusData,
    assets: &PaymentLinkAssets,
) -> (res: Result<String, ApiErrorResponse>)
    requires
        assets.plain(),
    ensures
        match status_page(*payment_link_data, *assets) {
            Some(page) => res matches Ok(text) && text@ == page,
            None => res == Err::<String, ApiErrorResponse>(ApiErrorResponse::InternalServerError),
        },
{
    let mut draft = PageDraft::new();
    draft.add_template("payment_link_css", assets.status_css_template.as_str());
    draft.set("css_color_scheme", payment_link_data.css_script.as_str());
    assert(draft.template_texts() == css_templates(assets.status_css_template@));
    assert(draft.context_texts() == css_context(payment_link_data.css_script@));
    let rendered_css = match draft.render("payment_link_css") {
        Ok(css) => css,
        Err(error) => {
            return Err(error);
        },
    };
    draft.add_template("payment_link_js", assets.status_js_template.as_str());
    draft.set("payment_details_js_script", payment_link_data.js_script.as_str());
    let rendered_js = match draft.render("payment_link_js") {
        Ok(js) => js,
        Err(error) => {
            return Err(error);
        },
    };
    draft.add_template("payment_link_status", assets.status_html_template.as_str());
    draft.set("rendered_css", rendered_css.as_str());
    draft.set("locale_template", assets.locale_template.as_str());
    draft.set("rendered_js", rendered_js.as_str());
    draft.set("logging_template", assets.logging_template.as_str());
    draft.render("payment_link_status")
}

} // verus!
