//! YAML documents as the plugins receive them.

use vstd::prelude::*;
use serde_yaml::Mapping;
use vstd::string::StrSliceExecFns;
use crate::text::str_eq;

verus! {

/// `serde_yaml::Mapping`, carried as an opaque value: the parameters of a
/// plugin travel through the core unread.
#[verifier::external_type_specification]
#[verifier::external_body]
pub struct ExMapping(Mapping);

/// A key and its value, each as its text where it is a YAML string and as
/// nothing where it is anything else.
pub type TextEntry = (Option<Seq<char>>, Option<Seq<char>>);

/// The entries of a mapping in insertion order.
pub uninterp spec fn text_entries(mapping: Mapping) -> Seq<TextEntry>;

/// `Mapping::new`: trusted to return a mapping without entries.
#[verifier::external_body]
pub(crate) fn empty_mapping() -> (mapping: Mapping)
    ensures
        text_entries(mapping).len() == 0,
{
    Mapping::new()
}

/// `Mapping::iter` with `Value::as_str` on each key and value: trusted to
/// walk the entries in insertion order and to give a text exactly for the
/// YAML strings.
#[verifier::external_body]
pub(crate) fn string_entries(mapping: &Mapping) -> (entries: Vec<(Option<String>, Option<String>)>)
    ensures
        entries.deep_view() == text_entries(*mapping),
{
    mapping.iter().map(|(k, v)| (k.as_str().map(str::to_owned), v.as_str().map(str::to_owned))).collect()
}

/// A YAML number: an integer, or a float by its bits.
#[derive(Debug, Clone, Copy, PartialEq, Eq, Structural)]
pub enum Number {
    Integer(i128),
    Float(u64),
}

/// A YAML document held as plain values, for the code that reads into one.
#[derive(Debug)]
pub enum Document {
    Null,
    Bool(bool),
    Number(Number),
    String(String),
    Sequence(Vec<Document>),
    /// The entries in insertion order. Where a key occurs twice, the first
    /// entry is the one that a lookup finds.
    Mapping(Vec<(Document, Document)>),
}

/// The name of the kind of a document.
pub open spec fn kind_name(document: Document) -> Seq<char> {
    match document {
        Document::Number(_) => "number"@,
        Document::Bool(_) => "bool"@,
        Document::String(_) => "string"@,
        Document::Sequence(_) => "sequence"@,
        Document::Mapping(_) => "mapping"@,
        Document::Null => "null"@,
    }
}

/// Names the kind of a document.
pub fn yaml_get_value_type(value: &Document) -> (name: String)
    ensures
        name@ == kind_name(*value),
{
    match value {
        Document::Number(_) => "number".to_owned(),
        Document::Bool(_) => "bool".to_owned(),
        Document::String(_) => "string".to_owned(),
        Document::Sequence(_) => "sequence".to_owned(),
        Document::Mapping(_) => "mapping".to_owned(),
        Document::Null => "null".to_owned(),
    }
}

/// The segments of a dotted path: there is always a first one, every dot
/// starts another, and every other character extends the last.
pub open spec fn segments(path: Seq<char>) -> Seq<Seq<char>>
    decreases path.len(),
{
    if path.len() == 0 {
        seq![Seq::empty()]
    } else {
        let before = segments(path.drop_last());
        if path.last() == '.' {
            before.push(Seq::empty())
        } else {
            before.drop_last().push(before.last().push(path.last()))
        }
    }
}

/// The segments with a dot between each two of them.
pub open spec fn dotted(parts: Seq<Seq<char>>) -> Seq<char>
    decreases parts.len(),
{
    if parts.len() == 0 {
        Seq::empty()
    } else if parts.len() == 1 {
        parts[0]
    } else {
        dotted(parts.drop_last()) + seq!['.'] + parts.last()
    }
}

/// Splitting loses nothing and cuts at every dot: the segments of a path,
/// put together again with dots, are the path, and no segment holds a dot.
pub proof fn segments_are_the_path(path: Seq<char>)
    ensures
        segments(path).len() >= 1,
        dotted(segments(path)) == path,
        forall|i: int, j: int|
            0 <= i < segments(path).len() && 0 <= j < segments(path)[i].len() ==> segments(
                path,
            )[i][j] != '.',
    decreases path.len(),
{
    if path.len() > 0 {
        let before = segments(path.drop_last());
        let parts = segments(path);
        segments_are_the_path(path.drop_last());
        assert(path =~= path.drop_last().push(path.last()));
        if path.last() == '.' {
            assert(parts.drop_last() =~= before);
            assert(dotted(parts) =~= path);
        } else {
            let grown = before.last().push(path.last());
            if before.len() == 1 {
                assert(dotted(parts) =~= path);
            } else {
                assert(parts.drop_last() =~= before.drop_last());
                assert(dotted(parts) =~= dotted(before).push(path.last()));
            }
            assert forall|i: int, j: int|
                0 <= i < parts.len() && 0 <= j < parts[i].len() implies parts[i][j] != '.' by {
                if i < parts.len() - 1 {
                    assert(parts[i] == before[i]);
                } else if j < before.last().len() {
                    assert(parts[i][j] == before.last()[j]);
                }
            }
        }
    }
}

/// Whether a character is one of the ten ASCII digits.
pub open spec fn is_digit(c: char) -> bool {
    '0' <= c <= '9'
}

/// The number that a run of decimal digits writes.
pub open spec fn decimal(digits: Seq<char>) -> nat
    decreases digits.len(),
{
    if digits.len() == 0 {
        0
    } else {
        decimal(digits.drop_last()) * 10 + (digits.last() as nat - '0' as nat) as nat
    }
}

/// The position that a segment names: decimal digits, at least one, after an
/// optional `+`, that write a number no larger than `usize::MAX`.
pub open spec fn position(segment: Seq<char>) -> Option<usize> {
    let digits = unsigned(segment);
    if digits.len() > 0 && all_digits(digits) && decimal(digits) <= usize::MAX {
        Some(decimal(digits) as usize)
    } else {
        None
    }
}

/// A segment without its leading `+`, if it has one.
pub open spec fn unsigned(segment: Seq<char>) -> Seq<char> {
    if segment.len() > 0 && segment[0] == '+' {
        segment.skip(1)
    } else {
        segment
    }
}

/// Whether every character is an ASCII digit.
pub open spec fn all_digits(digits: Seq<char>) -> bool {
    forall|i: int| 0 <= i < digits.len() ==> is_digit(#[trigger] digits[i])
}

/// A longer run of digits writes no smaller a number.
proof fn decimal_grows(digits: Seq<char>, upto: int)
    requires
        0 <= upto <= digits.len(),
        forall|i: int| 0 <= i < digits.len() ==> is_digit(#[trigger] digits[i]),
    ensures
        decimal(digits.take(upto)) <= decimal(digits),
    decreases digits.len() - upto,
{
    if upto < digits.len() {
        decimal_grows(digits, upto + 1);
        assert(digits.take(upto + 1).drop_last() =~= digits.take(upto));
        assert(is_digit(digits[upto]));
    } else {
        assert(digits.take(upto) =~= digits);
    }
}

/// Reads a segment as a position in a sequence.
pub fn parse_position(segment: &str) -> (at: Option<usize>)
    ensures
        at == position(segment@),
{
    let n = segment.unicode_len();
    let start: usize = if n > 0 && segment.get_char(0) == '+' {
        1
    } else {
        0
    };
    if start == n {
        return None;
    }
    let ghost digits = segment@.skip(start as int);
    proof {
        assert(segment@.skip(0) =~= segment@);
    }
    let mut value: usize = 0;
    let mut i: usize = start;
    while i < n
        invariant
            start <= i <= n,
            start < n,
            n == segment@.len(),
            digits == segment@.skip(start as int),
            digits == unsigned(segment@),
            digits.len() == n - start,
            forall|k: int| 0 <= k < i - start ==> is_digit(#[trigger] digits[k]),
            value == decimal(digits.take(i - start)),
        decreases n - i,
    {
        let c = segment.get_char(i);
        assert(c == digits[i - start]);
        if !('0' <= c && c <= '9') {
            proof {
                assert(!is_digit(digits[i - start]));
            }
            return None;
        }
        proof {
            assert(digits.take(i - start + 1).drop_last() =~= digits.take(i - start));
        }
        let digit = (c as u32 - '0' as u32) as usize;
        assert(decimal(digits.take(i - start + 1)) == value * 10 + digit);
        let next = match value.checked_mul(10) {
            Some(tens) => tens.checked_add(digit),
            None => None,
        };
        match next {
            Some(next) => {
                value = next;
            },
            None => {
                proof {
                    if all_digits(digits) {
                        decimal_grows(digits, i - start + 1);
                    }
                }
                return None;
            },
        }
        i = i + 1;
    }
    proof {
        assert(digits.take(n - start) =~= digits);
    }
    Some(value)
}

/// The views of some string slices.
pub open spec fn views(parts: Seq<&str>) -> Seq<Seq<char>> {
    Seq::new(parts.len(), |i: int| parts[i]@)
}

/// Splits a dotted path into its segments.
pub fn split_path(path: &str) -> (parts: Vec<&str>)
    ensures
        views(parts@) == segments(path@),
{
    let n = path.unicode_len();
    let mut parts: Vec<&str> = Vec::new();
    let mut start: usize = 0;
    let mut i: usize = 0;
    proof {
        assert(path@.take(0) =~= Seq::<char>::empty());
        assert(views(parts@).push(path@.subrange(0, 0)) =~= seq![Seq::<char>::empty()]);
    }
    while i < n
        invariant
            start <= i <= n,
            n == path@.len(),
            segments(path@.take(i as int)) == views(parts@).push(
                path@.subrange(start as int, i as int),
            ),
        decreases n - i,
    {
        proof {
            assert(path@.take(i + 1).drop_last() =~= path@.take(i as int));
            assert(path@.take(i + 1).last() == path@[i as int]);
        }
        let ghost before = views(parts@);
        let ghost began = start as int;
        if path.get_char(i) == '.' {
            parts.push(path.substring_char(start, i));
            start = i + 1;
            proof {
                assert(views(parts@) =~= before.push(path@.subrange(began, i as int)));
                assert(path@.subrange(start as int, i + 1) =~= Seq::<char>::empty());
            }
        } else {
            proof {
                let last = path@.subrange(start as int, i as int);
                assert(before.push(last).drop_last() =~= before);
                assert(last.push(path@[i as int]) =~= path@.subrange(start as int, i + 1));
            }
        }
        i = i + 1;
    }
    proof {
        assert(path@.take(n as int) =~= path@);
    }
    let ghost before = views(parts@);
    parts.push(path.substring_char(start, n));
    proof {
        assert(views(parts@) =~= before.push(path@.subrange(start as int, n as int)));
    }
    parts
}

/// The value of the first entry, at or after position `from`, whose key is
/// the string `key`.
pub open spec fn keyed(entries: Seq<(Document, Document)>, key: Seq<char>, from: int) -> Option<
    Document,
>
    decreases entries.len() - from,
{
    if from < 0 || from >= entries.len() {
        None
    } else if entries[from].0 matches Document::String(name) && name@ == key {
        Some(entries[from].1)
    } else {
        keyed(entries, key, from + 1)
    }
}

/// What a segment selects in a document: in a sequence, the item at the
/// position that the segment names; in a mapping, the value under the
/// segment as a string key; nothing anywhere else.
pub open spec fn child(document: Document, segment: Seq<char>) -> Option<Document> {
    match document {
        Document::Sequence(items) => match position(segment) {
            Some(at) => if at < items@.len() {
                Some(items@[at as int])
            } else {
                None
            },
            None => None,
        },
        Document::Mapping(entries) => keyed(entries@, segment, 0),
        _ => None,
    }
}

/// Where the segments lead, one after the other. Nothing where a segment
/// selects nothing, or where the way leads to or through a null.
pub open spec fn follow(document: Document, path: Seq<Seq<char>>) -> Option<Document>
    decreases path.len(),
{
    if document is Null {
        None
    } else if path.len() == 0 {
        Some(document)
    } else {
        match child(document, path.first()) {
            Some(next) => follow(next, path.drop_first()),
            None => None,
        }
    }
}

/// What a dotted path selects in a document. The empty path selects the
/// document itself.
pub open spec fn selected(document: Document, path: Seq<char>) -> Option<Document> {
    if path.len() == 0 {
        follow(document, Seq::empty())
    } else {
        follow(document, segments(path))
    }
}

/// The value under a string key of a mapping.
fn value_of<'a>(entries: &'a Vec<(Document, Document)>, key: &str) -> (found: Option<&'a Document>)
    ensures
        match keyed(entries@, key@, 0) {
            Some(value) => found == Some(&value),
            None => found is None,
        },
{
    let mut i: usize = 0;
    while i < entries.len()
        invariant
            i <= entries.len(),
            keyed(entries@, key@, 0) == keyed(entries@, key@, i as int),
        decreases entries.len() - i,
    {
        match &entries[i].0 {
            Document::String(name) => {
                if str_eq(name.as_str(), key) {
                    return Some(&entries[i].1);
                }
            },
            _ => {},
        }
        i = i + 1;
    }
    None
}

/// What one segment selects in a document.
fn descend<'a>(document: &'a Document, segment: &str) -> (found: Option<&'a Document>)
    ensures
        match child(*document, segment@) {
            Some(next) => found == Some(&next),
            None => found is None,
        },
{
    match document {
        Document::Sequence(items) => match parse_position(segment) {
            Some(at) => if at < items.len() {
                Some(&items[at])
            } else {
                None
            },
            None => None,
        },
        Document::Mapping(entries) => value_of(entries, segment),
        _ => None,
    }
}

/// Returns what a dotted path selects in a document: `a.0.b` is the value
/// under `b` of the first item of the sequence under `a`. Nothing stands for
/// null, which is also what a path that leads nowhere selects.
pub fn yaml_get_value_by_path<'a>(value: &'a Document, path: &str) -> (found: Option<
    &'a Document,
>)
    ensures
        match selected(*value, path@) {
            Some(document) => found == Some(&document),
            None => found is None,
        },
{
    let parts: Vec<&str> = if path.is_empty() {
        Vec::new()
    } else {
        split_path(path)
    };
    let ghost way: Seq<Seq<char>> = views(parts@);
    proof {
        if path@.len() == 0 {
            assert(way =~= Seq::<Seq<char>>::empty());
        }
        assert(way.skip(0) =~= way);
    }
    let mut current: &Document = value;
    let mut i: usize = 0;
    while i < parts.len()
        invariant
            i <= parts.len(),
            way == views(parts@),
            !(*current is Null) || i == 0,
            selected(*value, path@) == follow(*current, way.skip(i as int)),
        decreases parts.len() - i,
    {
        proof {
            assert(way.len() == parts.len());
            assert(way.skip(i as int).len() > 0);
            assert(way.skip(i as int).first() == parts@[i as int]@);
            assert(way.skip(i as int).drop_first() =~= way.skip(i + 1));
        }
        match current {
            Document::Null => {
                return None;
            },
            _ => {},
        }
        match descend(current, parts[i]) {
            Some(next) => {
                current = next;
            },
            None => {
                return None;
            },
        }
        proof {
            assert(selected(*value, path@) == follow(*current, way.skip(i + 1)));
        }
        match current {
            Document::Null => {
                return None;
            },
            _ => {},
        }
        i = i + 1;
    }
    proof {
        assert(way.skip(parts.len() as int) =~= Seq::<Seq<char>>::empty());
    }
    match current {
        Document::Null => None,
        _ => Some(current),
    }
}

} // verus!
