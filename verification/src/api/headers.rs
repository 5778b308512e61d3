//! Header fields of HTTP answers.
use vstd::prelude::*;

verus! {

/// A header field of an answer.
#[derive(Debug, PartialEq, Eq)]
pub struct HeaderEntry {
    /// The name, lower case.
    pub name: String,
    pub value: String,
    /// Whether the value is kept out of logs.
    pub sensitive: bool,
}

/// A header field as plain characters.
pub struct HeaderText {
    pub name: Seq<char>,
    pub value: Seq<char>,
    pub sensitive: bool,
}

impl View for HeaderEntry {
    type V = HeaderText;

    open spec fn view(&self) -> HeaderText {
        HeaderText { name: self.name@, value: self.value@, sensitive: self.sensitive }
    }
}

/// A list of header fields as plain characters.
pub open spec fn header_texts(list: Seq<HeaderEntry>) -> Seq<HeaderText> {
    list.map_values(|entry: HeaderEntry| entry@)
}

/// The fields of a list that have another name.
pub open spec fn without_name(list: Seq<HeaderText>, name: Seq<char>) -> Seq<HeaderText>
    decreases list.len(),
{
    if list.len() == 0 {
        Seq::<HeaderText>::empty()
    } else {
        let rest = without_name(list.drop_last(), name);
        if list.last().name == name {
            rest
        } else {
            rest.push(list.last())
        }
    }
}

/// A list in which the given field is the only one of its name.
pub open spec fn with_header(list: Seq<HeaderText>, entry: HeaderText) -> Seq<HeaderText> {
    without_name(list, entry.name).push(entry)
}

/// A header field that is not kept out of logs.
pub open spec fn plain_header(name: Seq<char>, value: Seq<char>) -> HeaderText {
    HeaderText { name, value, sensitive: false }
}

/// Adds a field, keeping the others.
pub fn append_header(list: &mut Vec<HeaderEntry>, entry: HeaderEntry)
    ensures
        header_texts(final(list)@) == header_texts(old(list)@).push(entry@),
{
    list.push(entry);
    assert(header_texts(list@) == header_texts(old(list)@).push(entry@));
}

/// Sets a field, dropping the others of its name.
pub fn insert_header(list: &mut Vec<HeaderEntry>, entry: HeaderEntry)
    ensures
        header_texts(final(list)@) == with_header(header_texts(old(list)@), entry@),
{
    let mut kept: Vec<HeaderEntry> = Vec::new();
    let mut i: usize = 0;
    let ghost texts = header_texts(list@);
    assert(texts.take(0) == Seq::<HeaderText>::empty());
    assert(header_texts(kept@) == Seq::<HeaderText>::empty());
    while i < list.len()
        invariant
            i <= list.len(),
            texts == header_texts(list@),
            header_texts(kept@) == without_name(texts.take(i as int), entry.name@),
        decreases list.len() - i,
    {
        let ghost longer = texts.take(i + 1);
        assert(longer.drop_last() == texts.take(i as int));
        assert(longer.last() == list@[i as int]@);
        if list[i].name != entry.name {
            let copy = HeaderEntry {
                name: list[i].name.clone(),
                value: list[i].value.clone(),
                sensitive: list[i].sensitive,
            };
            assert(copy@ == list@[i as int]@);
            append_header(&mut kept, copy);
        }
        i = i + 1;
    }
    assert(texts.take(list.len() as int) == texts);
    append_header(&mut kept, entry);
    *list = kept;
}

/// Whether a character may stand in the value of a header field.
pub open spec fn is_value_char(c: char) -> bool {
    c as int == 9 || (c as int >= 32 && c as int != 127)
}

/// Whether a text can be the value of a header field.
pub open spec fn is_header_value(s: Seq<char>) -> bool {
    forall|i: int| 0 <= i < s.len() ==> is_value_char(#[trigger] s[i])
}

/// `http::HeaderValue::from_str`: it accepts a text exactly where every byte is a tab,
/// or at least 32 and not 127. A character beyond ASCII is made of bytes of 128 and more.
#[verifier::external_body]
pub(crate) fn accepts_value(value: &str) -> (res: bool)
    ensures
        res == is_header_value(value@),
{
    http::header::HeaderValue::from_str(value).is_ok()
}

/// Whether a character may stand in the name of a header field in lower case.
pub open spec fn is_name_char(c: char) -> bool {
    ||| 97 <= c as int <= 122
    ||| 48 <= c as int <= 57
    ||| 33 <= c as int <= 39
    ||| 94 <= c as int <= 96
    ||| c == '*'
    ||| c == '+'
    ||| c == '-'
    ||| c == '.'
    ||| c == '|'
    ||| c == '~'
}

/// Whether a text can be the name of a header field in lower case.
pub open spec fn is_lower_name(s: Seq<char>) -> bool {
    &&& 0 < s.len() <= 65535
    &&& forall|i: int| 0 <= i < s.len() ==> is_name_char(#[trigger] s[i])
}

/// A letter in lower case, and any other character as it is.
pub open spec fn lower_char(c: char) -> char {
    if 65 <= c as int <= 90 {
        (c as int + 32) as char
    } else {
        c
    }
}

/// A text in lower case, as far as it is made of ASCII letters.
pub open spec fn lower_text(s: Seq<char>) -> Seq<char> {
    s.map_values(|c: char| lower_char(c))
}

/// The name of a header field that a text stands for: the text in lower case, where it can be
/// a name.
pub open spec fn header_name(text: Seq<char>) -> Option<Seq<char>> {
    if is_lower_name(lower_text(text)) {
        Some(lower_text(text))
    } else {
        None
    }
}

/// `http::HeaderName::try_from` on a text: it gives the text in lower case where that is made
/// of the characters of a name, is not empty and has at most 65535 of them, and refuses any
/// other text.
#[verifier::external_body]
pub(crate) fn parse_header_name(text: &str) -> (res: Option<String>)
    ensures
        match res {
            Some(name) => header_name(text@) == Some(name@),
            None => header_name(text@) is None,
        },
{
    http::header::HeaderName::try_from(text).ok().map(|name| name.as_str().to_string())
}

/// `http::HeaderName::from_static`: on a lower case name it gives that name. On any
/// other text it panics, so such a text is left out.
#[verifier::external_body]
pub(crate) fn static_header_name(name: &'static str) -> (res: String)
    requires
        is_lower_name(name@),
    ensures
        res@ == name@,
{
    http::header::HeaderName::from_static(name).as_str().to_string()
}

/// `mime::APPLICATION_JSON` as text.
#[verifier::external_body]
pub(crate) fn application_json() -> (res: String)
    ensures
        res@ == "application/json"@,
{
    mime::APPLICATION_JSON.as_ref().to_string()
}

/// `mime::TEXT_PLAIN` as text.
#[verifier::external_body]
pub(crate) fn text_plain() -> (res: String)
    ensures
        res@ == "text/plain"@,
{
    mime::TEXT_PLAIN.as_ref().to_string()
}

/// `mime::TEXT_HTML` as text.
#[verifier::external_body]
pub(crate) fn text_html() -> (res: String)
    ensures
        res@ == "text/html"@,
{
    mime::TEXT_HTML.as_ref().to_string()
}

} // verus!
