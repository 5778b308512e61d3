//! Text helpers: optional copies, decimal numbers, splitting, joining, letter case.
use vstd::prelude::*;

verus! {

/// The characters of an optional text.
pub open spec fn opt_view(value: Option<String>) -> Option<Seq<char>> {
    match value {
        Some(text) => Some(text@),
        None => None,
    }
}

/// The characters of an optional text, or `default` where there is none.
pub open spec fn view_or(value: Option<String>, default: Seq<char>) -> Seq<char> {
    match value {
        Some(text) => text@,
        None => default,
    }
}

/// The characters of each text in a list.
pub open spec fn views(list: Seq<String>) -> Seq<Seq<char>> {
    list.map_values(|text: String| text@)
}

/// Copies an optional text.
pub fn clone_optional(value: &Option<String>) -> (res: Option<String>)
    ensures
        res == *value,
{
    match value {
        Some(text) => Some(text.clone()),
        None => None,
    }
}

/// Copies an optional text, or writes `default` where there is none.
pub fn clone_or(value: &Option<String>, default: &str) -> (res: String)
    ensures
        res@ == view_or(*value, default@),
{
    match value {
        Some(text) => text.clone(),
        None => default.to_string(),
    }
}

/// Whether two texts hold the same characters.
pub fn same_text(left: &str, right: &str) -> (res: bool)
    ensures
        res == (left@ == right@),
{
    left.to_string() == right.to_string()
}

/// Writes two texts one after the other.
pub fn concat2(first: &str, second: &str) -> (res: String)
    ensures
        res@ == first@ + second@,
{
    let mut res = first.to_string();
    res.append(second);
    res
}

/// Writes three texts one after the other.
pub fn concat3(first: &str, second: &str, third: &str) -> (res: String)
    ensures
        res@ == first@ + second@ + third@,
{
    let mut res = first.to_string();
    res.append(second);
    res.append(third);
    res
}

// ---------------------------------------------------------------------------
// Decimal numbers
// ---------------------------------------------------------------------------

/// Whether a character is one of `0` to `9`.
pub open spec fn is_digit(c: char) -> bool {
    48 <= c as int <= 57
}

/// The number that a digit stands for.
pub open spec fn digit_value(c: char) -> nat {
    (c as int - 48) as nat
}

/// Whether a text is made of digits only.
pub open spec fn all_digits(s: Seq<char>) -> bool {
    forall|i: int| 0 <= i < s.len() ==> is_digit(#[trigger] s[i])
}

/// The number that a run of digits stands for.
pub open spec fn digits_value(s: Seq<char>) -> nat
    decreases s.len(),
{
    if s.len() == 0 {
        0
    } else {
        digits_value(s.drop_last()) * 10 + digit_value(s.last())
    }
}

/// A number's text without its optional leading plus sign.
pub open spec fn without_plus(s: Seq<char>) -> Seq<char> {
    if s.len() > 0 && s[0] == '+' {
        s.skip(1)
    } else {
        s
    }
}

/// The number that a text stands for: an optional plus sign, then one or more
/// digits, and a value of at most `max`.
pub open spec fn parsed_number(s: Seq<char>, max: nat) -> Option<nat> {
    let digits = without_plus(s);
    if digits.len() > 0 && all_digits(digits) && digits_value(digits) <= max {
        Some(digits_value(digits))
    } else {
        None
    }
}

/// The digit that stands for a number below ten.
pub open spec fn digit_char(value: nat) -> char {
    (value + 48) as char
}

/// A number's decimal text, without leading zeros.
pub open spec fn number_text(value: nat) -> Seq<char>
    decreases value,
{
    if value < 10 {
        seq![digit_char(value)]
    } else {
        number_text(value / 10).push(digit_char(value % 10))
    }
}

proof fn lemma_prefix_value(s: Seq<char>, len: int)
    requires
        0 <= len <= s.len(),
    ensures
        digits_value(s.take(len)) <= digits_value(s),
    decreases s.len(),
{
    if len == s.len() {
        assert(s.take(len) == s);
    } else {
        lemma_prefix_value(s.drop_last(), len);
        assert(s.drop_last().take(len) == s.take(len));
    }
}

/// Reads a number of at most 128 bits.
pub fn parse_u128(text: &str) -> (res: Option<u128>)
    ensures
        match res {
            Some(number) => parsed_number(text@, u128::MAX as nat) == Some(number as nat),
            None => parsed_number(text@, u128::MAX as nat) is None,
        },
{
    let len: usize = text.unicode_len();
    let start: usize = if len > 0 && text.get_char(0) == '+' {
        1
    } else {
        0
    };
    let ghost digits = without_plus(text@);
    assert(digits == text@.skip(start as int));
    if start == len {
        return None;
    }
    let mut value: u128 = 0;
    let mut i: usize = start;
    while i < len
        invariant
            start <= i <= len,
            len == text@.len(),
            digits == text@.skip(start as int),
            digits == without_plus(text@),
            all_digits(digits.take(i - start)),
            value == digits_value(digits.take(i - start)),
        decreases len - i,
    {
        let c = text.get_char(i);
        let code: u32 = c as u32;
        assert(c == digits[i - start]);
        if code < 48 || code > 57 {
            assert(!is_digit(digits[i - start]));
            return None;
        }
        let ghost longer = digits.take(i - start + 1);
        assert(longer.drop_last() == digits.take(i - start));
        assert(longer.last() == c);
        proof {
            lemma_prefix_value(digits, i - start + 1);
        }
        let scaled = match value.checked_mul(10) {
            Some(scaled) => scaled,
            None => {
                return None;
            },
        };
        value = match scaled.checked_add((code - 48) as u128) {
            Some(sum) => sum,
            None => {
                return None;
            },
        };
        i = i + 1;
    }
    assert(digits.take(len - start) == digits);
    Some(value)
}

/// Reads a number that fits in a `usize`.
pub fn parse_usize(text: &str) -> (res: Option<usize>)
    ensures
        match res {
            Some(number) => parsed_number(text@, usize::MAX as nat) == Some(number as nat),
            None => parsed_number(text@, usize::MAX as nat) is None,
        },
{
    match parse_u128(text) {
        Some(number) => {
            if number <= usize::MAX as u128 {
                Some(number as usize)
            } else {
                None
            }
        },
        None => None,
    }
}

/// Writes a digit.
fn digit_text(value: u128) -> (res: &'static str)
    requires
        value < 10,
    ensures
        res@ == seq![digit_char(value as nat)],
{
    proof {
        reveal_strlit("0");
        reveal_strlit("1");
        reveal_strlit("2");
        reveal_strlit("3");
        reveal_strlit("4");
        reveal_strlit("5");
        reveal_strlit("6");
        reveal_strlit("7");
        reveal_strlit("8");
        reveal_strlit("9");
    }
    if value == 0 {
        "0"
    } else if value == 1 {
        "1"
    } else if value == 2 {
        "2"
    } else if value == 3 {
        "3"
    } else if value == 4 {
        "4"
    } else if value == 5 {
        "5"
    } else if value == 6 {
        "6"
    } else if value == 7 {
        "7"
    } else if value == 8 {
        "8"
    } else {
        "9"
    }
}

/// Writes a number in decimal.
pub fn render_u128(value: u128) -> (res: String)
    ensures
        res@ == number_text(value as nat),
    decreases value,
{
    if value < 10 {
        digit_text(value).to_string()
    } else {
        let mut res = render_u128(value / 10);
        let last = digit_text(value % 10);
        res.append(last);
        assert(res@ == number_text(value as nat / 10).push(digit_char(value as nat % 10)));
        res
    }
}

proof fn lemma_number_text(value: nat)
    ensures
        number_text(value).len() > 0,
        all_digits(number_text(value)),
        digits_value(number_text(value)) == value,
    decreases value,
{
    if value < 10 {
        let s = number_text(value);
        assert(s.drop_last() == Seq::<char>::empty());
        assert(s.last() == digit_char(value));
        assert(digits_value(s.drop_last()) == 0);
    } else {
        lemma_number_text(value / 10);
        let s = number_text(value);
        assert(s.drop_last() == number_text(value / 10));
        assert(s.last() == digit_char(value % 10));
        assert forall|i: int| 0 <= i < s.len() implies is_digit(#[trigger] s[i]) by {
            if i < s.len() - 1 {
                assert(s[i] == number_text(value / 10)[i]);
            }
        }
    }
}

/// Reading a written number gives it back.
pub proof fn law_number_round_trip(value: nat, max: nat)
    requires
        value <= max,
    ensures
        parsed_number(number_text(value), max) == Some(value),
{
    lemma_number_text(value);
    let s = number_text(value);
    assert(is_digit(s[0]));
    assert(without_plus(s) == s);
}

// ---------------------------------------------------------------------------
// Splitting and joining
// ---------------------------------------------------------------------------

/// The parts of a text between the occurrences of a separator.
pub open spec fn split(s: Seq<char>, separator: char) -> Seq<Seq<char>>
    decreases s.len(),
{
    if s.len() == 0 {
        seq![Seq::<char>::empty()]
    } else {
        let before = split(s.drop_last(), separator);
        if s.last() == separator {
            before.push(Seq::<char>::empty())
        } else {
            before.drop_last().push(before.last().push(s.last()))
        }
    }
}

/// Texts written one after the other, with a separator between them.
pub open spec fn join(parts: Seq<Seq<char>>, separator: Seq<char>) -> Seq<char>
    decreases parts.len(),
{
    if parts.len() == 0 {
        Seq::<char>::empty()
    } else if parts.len() == 1 {
        parts[0]
    } else {
        join(parts.drop_last(), separator) + separator + parts.last()
    }
}

proof fn lemma_split(s: Seq<char>, separator: char)
    ensures
        split(s, separator).len() > 0,
        forall|i: int, j: int|
            0 <= i < split(s, separator).len() && 0 <= j < split(s, separator)[i].len()
                ==> #[trigger] split(s, separator)[i][j] != separator,
        join(split(s, separator), seq![separator]) == s,
    decreases s.len(),
{
    let parts = split(s, separator);
    if s.len() == 0 {
    } else {
        lemma_split(s.drop_last(), separator);
        let before = split(s.drop_last(), separator);
        if s.last() == separator {
            assert(parts.drop_last() == before);
            assert(join(parts, seq![separator]) == s.drop_last() + seq![separator]
                + Seq::<char>::empty());
            assert(s == s.drop_last().push(s.last()));
        } else {
            assert(parts.drop_last() == before.drop_last());
            assert forall|i: int, j: int|
                0 <= i < parts.len() && 0 <= j < parts[i].len() implies #[trigger] parts[i][j]
                != separator by {
                if i < parts.len() - 1 {
                    assert(parts[i] == before[i]);
                } else if j < before.last().len() {
                    assert(parts[i][j] == before[i][j]);
                }
            }
            if parts.len() > 1 {
                assert(join(parts, seq![separator]) == join(before.drop_last(), seq![separator])
                    + seq![separator] + before.last().push(s.last()));
                assert(join(before, seq![separator]) == join(before.drop_last(), seq![separator])
                    + seq![separator] + before.last());
            }
            assert(join(parts, seq![separator]) == s.drop_last().push(s.last()));
        }
    }
}

/// Splitting loses nothing: the parts hold no separator, and joined by it they
/// give the text back.
pub proof fn law_split_join(s: Seq<char>, separator: char)
    ensures
        split(s, separator).len() > 0,
        forall|i: int, j: int|
            0 <= i < split(s, separator).len() && 0 <= j < split(s, separator)[i].len()
                ==> #[trigger] split(s, separator)[i][j] != separator,
        join(split(s, separator), seq![separator]) == s,
{
    lemma_split(s, separator);
}

/// The parts of two texts with a separator between them are the parts of the first, then those
/// of the second.
pub proof fn law_split_of_joined(first: Seq<char>, second: Seq<char>, separator: char)
    ensures
        split(first + seq![separator] + second, separator) == split(first, separator) + split(
            second,
            separator,
        ),
    decreases second.len(),
{
    let whole = first + seq![separator] + second;
    if second.len() == 0 {
        assert(whole.drop_last() == first);
        assert(split(second, separator) == seq![Seq::<char>::empty()]);
        assert(split(whole, separator) == split(first, separator).push(Seq::<char>::empty()));
    } else {
        law_split_of_joined(first, second.drop_last(), separator);
        lemma_split(second.drop_last(), separator);
        assert(whole.drop_last() == first + seq![separator] + second.drop_last());
        assert(whole.last() == second.last());
        let head = split(first, separator);
        let before = split(second.drop_last(), separator);
        assert((head + before).last() == before.last());
        assert((head + before).drop_last() == head + before.drop_last());
        assert(split(whole, separator) == head + split(second, separator));
    }
}

/// Splits a text at each occurrence of a separator.
pub fn split_text(text: &str, separator: char) -> (res: Vec<String>)
    ensures
        views(res@) == split(text@, separator),
        res@.len() > 0,
{
    let len: usize = text.unicode_len();
    let mut parts: Vec<String> = Vec::new();
    let mut start: usize = 0;
    let mut i: usize = 0;
    assert(text@.take(0) == Seq::<char>::empty());
    assert(views(parts@).push(text@.subrange(0, 0)) == seq![Seq::<char>::empty()]);
    while i < len
        invariant
            start <= i <= len,
            len == text@.len(),
            views(parts@).push(text@.subrange(start as int, i as int)) == split(
                text@.take(i as int),
                separator,
            ),
        decreases len - i,
    {
        let c = text.get_char(i);
        let ghost before = views(parts@);
        let ghost grown = text@.take(i + 1);
        assert(grown.drop_last() == text@.take(i as int));
        assert(grown.last() == c);
        if c == separator {
            let part = text.substring_char(start, i).to_string();
            parts.push(part);
            assert(views(parts@) == before.push(text@.subrange(start as int, i as int)));
            start = i + 1;
            assert(text@.subrange(start as int, i + 1) == Seq::<char>::empty());
        } else {
            let ghost open_part = before.push(text@.subrange(start as int, i as int));
            assert(open_part.drop_last() == before);
            assert(text@.subrange(start as int, i + 1) == text@.subrange(
                start as int,
                i as int,
            ).push(c));
        }
        i = i + 1;
    }
    let part = text.substring_char(start, len).to_string();
    let ghost before = views(parts@);
    parts.push(part);
    assert(views(parts@) == before.push(part@));
    assert(text@.take(len as int) == text@);
    parts
}

/// Writes texts one after the other, with a separator between them.
pub fn join_texts(parts: &Vec<String>, separator: &str) -> (res: String)
    ensures
        res@ == join(views(parts@), separator@),
{
    if parts.len() == 0 {
        let res = String::new();
        assert(res@ == join(views(parts@), separator@));
        return res;
    }
    let mut res = parts[0].clone();
    let mut i: usize = 1;
    assert(views(parts@).take(1) == seq![parts@[0]@]);
    assert(join(views(parts@).take(1), separator@) == parts@[0]@);
    while i < parts.len()
        invariant
            1 <= i <= parts.len(),
            res@ == join(views(parts@).take(i as int), separator@),
        decreases parts.len() - i,
    {
        res.append(separator);
        res.append(parts[i].as_str());
        let ghost longer = views(parts@).take(i + 1);
        assert(longer.drop_last() == views(parts@).take(i as int));
        assert(longer.last() == parts@[i as int]@);
        i = i + 1;
    }
    assert(views(parts@).take(parts.len() as int) == views(parts@));
    res
}

// ---------------------------------------------------------------------------
// Byte order marks
// ---------------------------------------------------------------------------

/// The byte order mark character.
pub open spec fn is_byte_order_mark(c: char) -> bool {
    c as int == 0xfeff
}

/// A text without the byte order marks it starts with.
pub open spec fn without_leading_marks(s: Seq<char>) -> Seq<char>
    decreases s.len(),
{
    if s.len() > 0 && is_byte_order_mark(s[0]) {
        without_leading_marks(s.skip(1))
    } else {
        s
    }
}

/// Drops the byte order marks that a text starts with.
pub fn strip_leading_marks(text: String) -> (res: String)
    ensures
        res@ == without_leading_marks(text@),
{
    let len: usize = text.as_str().unicode_len();
    let mut start: usize = 0;
    assert(text@.skip(0) == text@);
    while start < len && text.as_str().get_char(start) as u32 == 0xfeff
        invariant
            start <= len,
            len == text@.len(),
            without_leading_marks(text@) == without_leading_marks(text@.skip(start as int)),
        decreases len - start,
    {
        assert(text@.skip(start as int).skip(1) == text@.skip(start + 1));
        assert(text@.skip(start as int)[0] == text@[start as int]);
        start = start + 1;
    }
    assert(start < len ==> text@.skip(start as int)[0] == text@[start as int]);
    assert(text@.subrange(start as int, len as int) == text@.skip(start as int));
    text.as_str().substring_char(start, len).to_string()
}

} // verus!
