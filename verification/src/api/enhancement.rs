//! Fields picked out of a request for the log.
use vstd::prelude::*;
use crate::json::{clone_json, element, empty_object, has_members, insert_member, is_array, is_object, member};
use crate::text::{parse_usize, split_text};

verus! {

/// One step down from a JSON value: to a member of an object by its key, or to an element
/// of an array by its index.
pub open spec fn descend(value: serde_json::Value, part: Seq<char>) -> Option<serde_json::Value> {
    match crate::json::json_members(value) {
        Some(members) => if members.contains_key(part) {
            Some(members[part])
        } else {
            None
        },
        None => match (
            crate::json::json_elements(value),
            crate::text::parsed_number(part, usize::MAX as nat),
        ) {
            (Some(elements), Some(index)) => if index < elements.len() {
                Some(elements[index as int])
            } else {
                None
            },
            _ => None,
        },
    }
}

/// Several steps down from a JSON value.
pub open spec fn descend_all(value: serde_json::Value, parts: Seq<Seq<char>>) -> Option<serde_json::Value>
    decreases parts.len(),
{
    if parts.len() == 0 {
        Some(value)
    } else {
        match descend_all(value, parts.drop_last()) {
            Some(inner) => descend(inner, parts.last()),
            None => None,
        }
    }
}

/// What stands in a JSON value at a path whose parts are separated by dots.
pub open spec fn field_at(value: serde_json::Value, path: Seq<char>) -> Option<serde_json::Value> {
    descend_all(value, crate::text::split(path, '.'))
}

proof fn lemma_lost_path(value: serde_json::Value, parts: Seq<Seq<char>>, len: int)
    requires
        0 <= len <= parts.len(),
        descend_all(value, parts.take(len)) is None,
    ensures
        descend_all(value, parts) is None,
    decreases parts.len() - len,
{
    if len < parts.len() {
        assert(parts.take(len + 1).drop_last() == parts.take(len));
        lemma_lost_path(value, parts, len + 1);
    } else {
        assert(parts.take(len) == parts);
    }
}

/// Finds what stands in a JSON value at a path whose parts are separated by dots.
pub fn extract_field_by_dot_path(value: &serde_json::Value, path: &str) -> (res: Option<serde_json::Value>)
    ensures
        res == field_at(*value, path@),
{
    let parts = split_text(path, '.');
    let ghost texts = crate::text::views(parts@);
    let mut current: &serde_json::Value = value;
    let mut i: usize = 0;
    assert(texts.take(0) == Seq::<Seq<char>>::empty());
    while i < parts.len()
        invariant
            i <= parts.len(),
            texts == crate::text::views(parts@),
            texts == crate::text::split(path@, '.'),
            descend_all(*value, texts.take(i as int)) == Some(*current),
        decreases parts.len() - i,
    {
        let ghost longer = texts.take(i + 1);
        assert(longer.drop_last() == texts.take(i as int));
        assert(longer.last() == parts@[i as int]@);
        let next = if is_object(current) {
            member(current, parts[i].as_str())
        } else if is_array(current) {
            match parse_usize(parts[i].as_str()) {
                Some(index) => element(current, index),
                None => None,
            }
        } else {
            None
        };
        match next {
            Some(inner) => {
                current = inner;
            },
            None => {
                proof {
                    lemma_lost_path(*value, texts, i + 1);
                }
                return None;
            },
        }
        i = i + 1;
    }
    assert(texts.take(parts.len() as int) == texts);
    Some(clone_json(current))
}

/// The members of an object after the fields of `value` that a mapping asks for were set
/// in it, in the order of the mapping. An entry of the mapping holds a path and the key
/// that the field is set under.
pub open spec fn enhanced(
    value: serde_json::Value,
    mapping: Seq<(Seq<char>, Seq<char>)>,
    start: Map<Seq<char>, serde_json::Value>,
) -> Map<Seq<char>, serde_json::Value>
    decreases mapping.len(),
{
    if mapping.len() == 0 {
        start
    } else {
        let before = enhanced(value, mapping.drop_last(), start);
        match field_at(value, mapping.last().0) {
            Some(field) => before.insert(mapping.last().1, field),
            None => before,
        }
    }
}

/// The paths and keys of a mapping as plain characters.
pub open spec fn mapping_texts(mapping: Seq<(String, String)>) -> Seq<(Seq<char>, Seq<char>)> {
    mapping.map_values(|entry: (String, String)| (entry.0@, entry.1@))
}

/// The members that the fields are added to: those of the existing object, if it is one.
pub open spec fn starting_members(
    existing: Option<serde_json::Value>,
) -> Map<Seq<char>, serde_json::Value> {
    match existing {
        Some(value) => match crate::json::json_members(value) {
            Some(members) => members,
            None => Map::empty(),
        },
        None => Map::empty(),
    }
}

/// Picks the fields that a mapping asks for out of a JSON value, and sets them in a copy
/// of the existing object. The mapping is given in the order in which it is walked.
pub fn extract_mapped_fields(
    value: &serde_json::Value,
    mapping: Option<&Vec<(String, String)>>,
    existing_enhancement: &Option<serde_json::Value>,
) -> (res: Option<serde_json::Value>)
    ensures
        match mapping {
            None => res is None,
            Some(entries) => if entries@.len() == 0 {
                res == *existing_enhancement
            } else {
                let members = enhanced(
                    *value,
                    mapping_texts(entries@),
                    starting_members(*existing_enhancement),
                );
                if crate::json::any_member(members) {
                    res matches Some(enhancement) && crate::json::json_members(enhancement) == Some(
                        members,
                    )
                } else {
                    res is None
                }
            },
        },
{
    let entries = match mapping {
        Some(entries) => entries,
        None => {
            return None;
        },
    };
    if entries.len() == 0 {
        return crate::json::clone_optional_json(existing_enhancement);
    }
    let mut enhancement = match existing_enhancement {
        Some(existing) => {
            if is_object(existing) {
                clone_json(existing)
            } else {
                empty_object()
            }
        },
        None => empty_object(),
    };
    let ghost texts = mapping_texts(entries@);
    let ghost start = starting_members(*existing_enhancement);
    let mut i: usize = 0;
    assert(texts.take(0) == Seq::<(Seq<char>, Seq<char>)>::empty());
    while i < entries.len()
        invariant
            i <= entries.len(),
            texts == mapping_texts(entries@),
            crate::json::json_members(enhancement) == Some(
                enhanced(*value, texts.take(i as int), start),
            ),
        decreases entries.len() - i,
    {
        let ghost longer = texts.take(i + 1);
        assert(longer.drop_last() == texts.take(i as int));
        assert(longer.last() == (entries@[i as int].0@, entries@[i as int].1@));
        if let Some(field) = extract_field_by_dot_path(value, entries[i].0.as_str()) {
            insert_member(&mut enhancement, entries[i].1.as_str(), field);
        }
        i = i + 1;
    }
    assert(texts.take(entries.len() as int) == texts);
    if has_members(&enhancement) {
        Some(enhancement)
    } else {
        None
    }
}

/// Whether a mapping sets no key twice.
pub open spec fn distinct_keys(mapping: Seq<(Seq<char>, Seq<char>)>) -> bool {
    forall|i: int, j: int|
        0 <= i < j < mapping.len() ==> (#[trigger] mapping[i]).1 != (#[trigger] mapping[j]).1
}

/// Where a mapping sets no key twice, each of its fields that is found stands under its
/// key, and every other key is as it was.
pub proof fn law_each_field_under_its_key(
    value: serde_json::Value,
    mapping: Seq<(Seq<char>, Seq<char>)>,
    start: Map<Seq<char>, serde_json::Value>,
)
    requires
        distinct_keys(mapping),
    ensures
        forall|i: int|
            0 <= i < mapping.len() && field_at(value, (#[trigger] mapping[i]).0) is Some ==> {
                &&& enhanced(value, mapping, start).contains_key(mapping[i].1)
                &&& Some(enhanced(value, mapping, start)[mapping[i].1]) == field_at(
                    value,
                    mapping[i].0,
                )
            },
        forall|key: Seq<char>|
            (forall|i: int|
                0 <= i < mapping.len() && field_at(value, (#[trigger] mapping[i]).0) is Some
                    ==> mapping[i].1 != key) ==> {
                &&& #[trigger] enhanced(value, mapping, start).contains_key(key)
                    == start.contains_key(key)
                &&& enhanced(value, mapping, start)[key] == start[key]
            },
    decreases mapping.len(),
{
    if mapping.len() > 0 {
        let shorter = mapping.drop_last();
        assert forall|i: int, j: int| 0 <= i < j < shorter.len() implies (#[trigger] shorter[i]).1
            != (#[trigger] shorter[j]).1 by {
            assert(shorter[i] == mapping[i]);
            assert(shorter[j] == mapping[j]);
        }
        law_each_field_under_its_key(value, shorter, start);
        let last = mapping[mapping.len() - 1];
        assert(mapping.last() == last);
        assert forall|i: int|
            0 <= i < mapping.len() && field_at(value, (#[trigger] mapping[i]).0) is Some implies {
            &&& enhanced(value, mapping, start).contains_key(mapping[i].1)
            &&& Some(enhanced(value, mapping, start)[mapping[i].1]) == field_at(value, mapping[i].0)
        } by {
            if i < mapping.len() - 1 {
                assert(shorter[i] == mapping[i]);
                assert(mapping[i].1 != last.1);
            }
        }
        assert forall|key: Seq<char>|
            (forall|i: int|
                0 <= i < mapping.len() && field_at(value, (#[trigger] mapping[i]).0) is Some
                    ==> mapping[i].1 != key) implies {
            &&& #[trigger] enhanced(value, mapping, start).contains_key(key) == start.contains_key(
                key,
            )
            &&& enhanced(value, mapping, start)[key] == start[key]
        } by {
            assert forall|i: int|
                0 <= i < shorter.len() && field_at(value, (#[trigger] shorter[i]).0) is Some implies
                shorter[i].1 != key by {
                assert(shorter[i] == mapping[i]);
            }
            assert(enhanced(value, shorter, start).contains_key(key) == start.contains_key(key));
            if field_at(value, last.0) is Some {
                assert(mapping[mapping.len() - 1].1 != key);
            }
        }
    }
}

/// Where no key is set twice, the order of the mapping does not matter.
pub proof fn law_order_does_not_matter(
    value: serde_json::Value,
    first: Seq<(Seq<char>, Seq<char>)>,
    second: Seq<(Seq<char>, Seq<char>)>,
    start: Map<Seq<char>, serde_json::Value>,
)
    requires
        distinct_keys(first),
        distinct_keys(second),
        forall|entry: (Seq<char>, Seq<char>)| first.contains(entry) <==> second.contains(entry),
    ensures
        enhanced(value, first, start) == enhanced(value, second, start),
{
    law_each_field_under_its_key(value, first, start);
    law_each_field_under_its_key(value, second, start);
    let left = enhanced(value, first, start);
    let right = enhanced(value, second, start);
    assert forall|key: Seq<char>| left.contains_key(key) == right.contains_key(key) && (
    left.contains_key(key) ==> left[key] == right[key]) by {
        if exists|i: int|
            0 <= i < first.len() && field_at(value, (#[trigger] first[i]).0) is Some && first[i].1
                == key {
            let i = choose|i: int|
                0 <= i < first.len() && field_at(value, (#[trigger] first[i]).0) is Some
                    && first[i].1 == key;
            assert(second.contains(first[i]));
            let j = choose|j: int| 0 <= j < second.len() && second[j] == first[i];
            assert(field_at(value, second[j].0) is Some);
        } else {
            assert forall|j: int|
                0 <= j < second.len() && field_at(value, (#[trigger] second[j]).0) is Some implies
                second[j].1 != key by {
                assert(first.contains(second[j]));
                let i = choose|i: int| 0 <= i < first.len() && first[i] == second[j];
                assert(first[i].1 == second[j].1);
            }
            assert(left.contains_key(key) == start.contains_key(key));
            assert(right.contains_key(key) == start.contains_key(key));
        }
    }
    assert(left =~= right);
}

proof fn lemma_descents_compose(
    value: serde_json::Value,
    first: Seq<Seq<char>>,
    second: Seq<Seq<char>>,
)
    ensures
        descend_all(value, first + second) == (match descend_all(value, first) {
            Some(inner) => descend_all(inner, second),
            None => None,
        }),
    decreases second.len(),
{
    if second.len() == 0 {
        assert(first + second == first);
    } else {
        lemma_descents_compose(value, first, second.drop_last());
        assert((first + second).drop_last() == first + second.drop_last());
        assert((first + second).last() == second.last());
    }
}

/// A path that is two paths with a dot between them leads to what stands at the second path in
/// what stands at the first.
pub proof fn law_paths_compose(value: serde_json::Value, first: Seq<char>, second: Seq<char>)
    ensures
        field_at(value, first + seq!['.'] + second) == (match field_at(value, first) {
            Some(inner) => field_at(inner, second),
            None => None,
        }),
{
    crate::text::law_split_of_joined(first, second, '.');
    lemma_descents_compose(
        value,
        crate::text::split(first, '.'),
        crate::text::split(second, '.'),
    );
}

} // verus!
