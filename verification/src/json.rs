//! JSON documents read one level at a time: `serde_json` parses a text and hands
//! back its top level, with every nested value kept as its JSON text; typed
//! decoders then read optional fields the way a derived deserializer does.

use vstd::prelude::*;

use crate::floatbits::{
    f32_bits_from_f64_bits, f32_bits_from_i64, f32_bits_from_u64, f64_bits_from_i64,
    f64_bits_from_u64, int_magnitude, rounded_magnitude_bits, spec_f32_bits_from_f64_bits,
};
use crate::text::str_equal;
use serde_json::Value;

verus! {

/// A JSON number as `serde_json` holds it.
#[derive(Clone, Copy, Debug, PartialEq, Eq, Structural)]
pub enum JsonNumber {
    /// A non-negative integer.
    PosInt(u64),
    /// A negative integer.
    NegInt(i64),
    /// A floating-point number, as its IEEE-754 binary64 bit pattern.
    Float(u64),
}

/// The top level of a JSON value; nested values are kept as their JSON text.
#[derive(Clone, Debug, PartialEq, Eq)]
pub enum JsonShallow {
    /// `null`.
    Null,
    /// `true` or `false`.
    Bool(bool),
    /// A number, as its JSON text.
    Number(String),
    /// A string.
    Text(String),
    /// An array, as the JSON text of each item.
    Array(Vec<String>),
    /// An object, as each key with the JSON text of its value.
    Object(Vec<(String, String)>),
}

/// The mathematical view of [`JsonShallow`].
pub ghost enum JsonShallowView {
    /// `null`.
    Null,
    /// `true` or `false`.
    Bool(bool),
    /// A number, as its JSON text.
    Number(Seq<char>),
    /// A string.
    Text(Seq<char>),
    /// An array, as the JSON text of each item.
    Array(Seq<Seq<char>>),
    /// An object, as each key with the JSON text of its value.
    Object(Seq<(Seq<char>, Seq<char>)>),
}

impl JsonShallow {
    /// The view of this value.
    pub open spec fn shallow_view(&self) -> JsonShallowView {
        match self {
            JsonShallow::Null => JsonShallowView::Null,
            JsonShallow::Bool(b) => JsonShallowView::Bool(*b),
            JsonShallow::Number(t) => JsonShallowView::Number(t@),
            JsonShallow::Text(s) => JsonShallowView::Text(s@),
            JsonShallow::Array(items) => JsonShallowView::Array(items@.map_values(|item: String| item@)),
            JsonShallow::Object(entries) => JsonShallowView::Object(
                entries@.map_values(|entry: (String, String)| (entry.0@, entry.1@)),
            ),
        }
    }
}

/// The top level of the JSON document `text` as `serde_json` parses it, or `None`
/// when `text` is not one JSON value.
pub uninterp spec fn json_top_level(text: Seq<char>) -> Option<JsonShallowView>;

/// Parses `text` with `serde_json::from_str::<serde_json::Value>` and returns its top
/// level: a number as `serde_json` writes it back, a string as it is, and the items
/// of an array or the entries of an object (in `serde_json`'s key order) with each
/// nested value written back as JSON text by `serde_json`'s `Display`. Nothing is
/// claimed of the result beyond that it is this parse of `text`.
#[verifier::external_body]
fn parse_json_top_level(text: &str) -> (r: Option<JsonShallow>)
    ensures
        match r {
            Some(v) => json_top_level(text@) == Some(v.shallow_view()),
            None => json_top_level(text@) is None,
        },
{
    let value: Value = serde_json::from_str(text).ok()?;
    Some(match value {
        Value::Null => JsonShallow::Null,
        Value::Bool(b) => JsonShallow::Bool(b),
        Value::Number(n) => JsonShallow::Number(n.to_string()),
        Value::String(s) => JsonShallow::Text(s),
        Value::Array(items) => JsonShallow::Array(items.iter().map(|item| item.to_string()).collect()),
        Value::Object(map) => JsonShallow::Object(map.into_iter().map(|(k, v)| (k, v.to_string())).collect()),
    })
}

/// The number that the JSON text `text` holds, by its `serde_json` kind, or `None`
/// when `text` is not one JSON number.
pub uninterp spec fn json_number_of(text: Seq<char>) -> Option<JsonNumber>;

/// Parses `text` with `serde_json::from_str::<serde_json::Number>` and tells its kind
/// apart: a non-negative integer (`as_u64`), a negative integer (`as_i64`), or a
/// floating-point number with its binary64 bit pattern (`as_f64`).
#[verifier::external_body]
fn parse_json_number(text: &str) -> (r: Option<JsonNumber>)
    ensures
        r == json_number_of(text@),
{
    let n: serde_json::Number = serde_json::from_str(text).ok()?;
    Some(match (n.as_u64(), n.as_i64(), n.as_f64()) {
        (Some(u), _, _) => JsonNumber::PosInt(u),
        (None, Some(i), _) => JsonNumber::NegInt(i),
        (None, None, x) => JsonNumber::Float(x.unwrap_or_default().to_bits()),
    })
}

/// Reads the number a JSON number text holds.
pub fn json_number(text: &str) -> (r: Option<JsonNumber>)
    ensures
        r == json_number_of(text@),
{
    parse_json_number(text)
}

/// The view of an object's entries.
pub open spec fn entries_view(entries: Seq<(String, String)>) -> Seq<(Seq<char>, Seq<char>)> {
    entries.map_values(|entry: (String, String)| (entry.0@, entry.1@))
}

/// The value text of the last entry with key `key`, among the first `end` entries.
pub open spec fn last_entry_text(entries: Seq<(Seq<char>, Seq<char>)>, key: Seq<char>, end: int) -> Option<Seq<char>>
    decreases end,
{
    if end <= 0 {
        None
    } else if entries[end - 1].0 == key {
        Some(entries[end - 1].1)
    } else {
        last_entry_text(entries, key, end - 1)
    }
}

/// The value text of the last entry with key `key`.
pub open spec fn entry_text(entries: Seq<(Seq<char>, Seq<char>)>, key: Seq<char>) -> Option<Seq<char>> {
    last_entry_text(entries, key, entries.len() as int)
}

/// Returns the value text of the last entry with key `key`.
pub fn find_entry<'a>(entries: &'a [(String, String)], key: &str) -> (r: Option<&'a String>)
    ensures
        match r {
            Some(t) => entry_text(entries_view(entries@), key@) == Some(t@),
            None => entry_text(entries_view(entries@), key@) is None,
        },
{
    let ghost view = entries_view(entries@);
    let mut i: usize = entries.len();
    while i > 0
        invariant
            i <= entries@.len(),
            view == entries_view(entries@),
            entry_text(view, key@) == last_entry_text(view, key@, i as int),
        decreases i,
    {
        let entry = &entries[i - 1];
        assert(view[i - 1] == (entry.0@, entry.1@));
        if str_equal(entry.0.as_str(), key) {
            return Some(&entry.1);
        }
        i = i - 1;
    }
    None
}

/// The JSON number at the top level of `text`, if there is one.
pub open spec fn top_level_number(text: Seq<char>) -> Option<JsonNumber> {
    match json_top_level(text) {
        Some(JsonShallowView::Number(t)) => json_number_of(t),
        _ => None,
    }
}

/// A number read as a non-negative integer that fits `usize`.
pub open spec fn number_as_usize(n: JsonNumber) -> Option<usize> {
    match n {
        JsonNumber::PosInt(u) => if u <= usize::MAX { Some(u as usize) } else { None },
        _ => None,
    }
}

/// The binary32 pattern a number deserializes to.
pub open spec fn number_f32_bits(n: JsonNumber) -> u32 {
    match n {
        JsonNumber::PosInt(u) => rounded_magnitude_bits(u as nat, 0, 24, 127) as u32,
        JsonNumber::NegInt(i) => ((if i < 0 { 0x8000_0000nat } else { 0nat }) + rounded_magnitude_bits(int_magnitude(i), 0, 24, 127)) as u32,
        JsonNumber::Float(bits) => spec_f32_bits_from_f64_bits(bits) as u32,
    }
}

/// The binary64 pattern a number deserializes to.
pub open spec fn number_f64_bits(n: JsonNumber) -> u64 {
    match n {
        JsonNumber::PosInt(u) => rounded_magnitude_bits(u as nat, 0, 53, 1023) as u64,
        JsonNumber::NegInt(i) => ((if i < 0 { 0x8000_0000_0000_0000nat } else { 0nat }) + rounded_magnitude_bits(int_magnitude(i), 0, 53, 1023)) as u64,
        JsonNumber::Float(bits) => bits,
    }
}

/// Returns the binary32 pattern a number deserializes to.
pub fn json_number_f32_bits(n: JsonNumber) -> (r: u32)
    ensures
        r == number_f32_bits(n),
{
    match n {
        JsonNumber::PosInt(u) => f32_bits_from_u64(u),
        JsonNumber::NegInt(i) => f32_bits_from_i64(i),
        JsonNumber::Float(bits) => f32_bits_from_f64_bits(bits),
    }
}

/// Returns the binary64 pattern a number deserializes to.
pub fn json_number_f64_bits(n: JsonNumber) -> (r: u64)
    ensures
        r == number_f64_bits(n),
{
    match n {
        JsonNumber::PosInt(u) => f64_bits_from_u64(u),
        JsonNumber::NegInt(i) => f64_bits_from_i64(i),
        JsonNumber::Float(bits) => bits,
    }
}

/// An optional boolean field: `null` is absent, a boolean is present, anything
/// else is a type error.
pub open spec fn decoded_bool(text: Seq<char>) -> Result<Option<bool>, ()> {
    match json_top_level(text) {
        Some(JsonShallowView::Null) => Ok(None),
        Some(JsonShallowView::Bool(b)) => Ok(Some(b)),
        _ => Err(()),
    }
}

/// An optional non-negative integer field that must fit `usize`.
pub open spec fn decoded_usize(text: Seq<char>) -> Result<Option<usize>, ()> {
    match json_top_level(text) {
        Some(JsonShallowView::Null) => Ok(None),
        Some(JsonShallowView::Number(t)) => match json_number_of(t) {
            Some(n) => match number_as_usize(n) {
                Some(u) => Ok(Some(u)),
                None => Err(()),
            },
            None => Err(()),
        },
        _ => Err(()),
    }
}

/// An optional string field.
pub open spec fn decoded_string(text: Seq<char>) -> Result<Option<Seq<char>>, ()> {
    match json_top_level(text) {
        Some(JsonShallowView::Null) => Ok(None),
        Some(JsonShallowView::Text(s)) => Ok(Some(s)),
        _ => Err(()),
    }
}

/// An optional single-precision field, as its bit pattern.
pub open spec fn decoded_f32(text: Seq<char>) -> Result<Option<u32>, ()> {
    match json_top_level(text) {
        Some(JsonShallowView::Null) => Ok(None),
        Some(JsonShallowView::Number(t)) => match json_number_of(t) {
            Some(n) => Ok(Some(number_f32_bits(n))),
            None => Err(()),
        },
        _ => Err(()),
    }
}

/// An optional double-precision field, as its bit pattern.
pub open spec fn decoded_f64(text: Seq<char>) -> Result<Option<u64>, ()> {
    match json_top_level(text) {
        Some(JsonShallowView::Null) => Ok(None),
        Some(JsonShallowView::Number(t)) => match json_number_of(t) {
            Some(n) => Ok(Some(number_f64_bits(n))),
            None => Err(()),
        },
        _ => Err(()),
    }
}

/// Whether every item of an array is a number.
pub open spec fn all_numbers(items: Seq<Seq<char>>) -> bool {
    forall|i: int| 0 <= i < items.len() ==> (#[trigger] top_level_number(items[i])) is Some
}

/// An optional list of single-precision values, as bit patterns.
pub open spec fn decoded_f32_list(text: Seq<char>) -> Result<Option<Seq<u32>>, ()> {
    match json_top_level(text) {
        Some(JsonShallowView::Null) => Ok(None),
        Some(JsonShallowView::Array(items)) => if all_numbers(items) {
            Ok(Some(Seq::new(items.len(), |i: int| number_f32_bits(top_level_number(items[i])->0))))
        } else {
            Err(())
        },
        _ => Err(()),
    }
}

/// The `usize` pair that one `[height, width]` item holds, if it is one.
pub open spec fn usize_pair(text: Seq<char>) -> Option<(usize, usize)> {
    match json_top_level(text) {
        Some(JsonShallowView::Array(pair)) => if pair.len() == 2 {
            match (top_level_number(pair[0]), top_level_number(pair[1])) {
                (Some(a), Some(b)) => match (number_as_usize(a), number_as_usize(b)) {
                    (Some(x), Some(y)) => Some((x, y)),
                    _ => None,
                },
                _ => None,
            }
        } else {
            None
        },
        _ => None,
    }
}

/// An optional list of `[height, width]` pairs.
pub open spec fn decoded_pairs(text: Seq<char>) -> Result<Option<Seq<(usize, usize)>>, ()> {
    match json_top_level(text) {
        Some(JsonShallowView::Null) => Ok(None),
        Some(JsonShallowView::Array(items)) => if forall|i: int| 0 <= i < items.len() ==> (#[trigger] usize_pair(items[i])) is Some {
            Ok(Some(Seq::new(items.len(), |i: int| usize_pair(items[i])->0)))
        } else {
            Err(())
        },
        _ => Err(()),
    }
}

/// Reads `text` as an optional boolean field.
pub fn decode_bool(text: &str) -> (r: Result<Option<bool>, ()>)
    ensures
        r == decoded_bool(text@),
{
    match parse_json_top_level(text) {
        Some(JsonShallow::Null) => Ok(None),
        Some(JsonShallow::Bool(b)) => Ok(Some(b)),
        _ => Err(()),
    }
}

/// Reads a number as a `usize`.
pub fn number_to_usize(n: JsonNumber) -> (r: Option<usize>)
    ensures
        r == number_as_usize(n),
{
    match n {
        JsonNumber::PosInt(u) => if u <= usize::MAX as u64 { Some(u as usize) } else { None },
        _ => None,
    }
}

/// Reads `text` as an optional `usize` field.
pub fn decode_usize(text: &str) -> (r: Result<Option<usize>, ()>)
    ensures
        r == decoded_usize(text@),
{
    match parse_json_top_level(text) {
        Some(JsonShallow::Null) => Ok(None),
        Some(JsonShallow::Number(t)) => match parse_json_number(t.as_str()) {
            Some(n) => match number_to_usize(n) {
                Some(u) => Ok(Some(u)),
                None => Err(()),
            },
            None => Err(()),
        },
        _ => Err(()),
    }
}

/// Reads `text` as an optional string field.
pub fn decode_string(text: &str) -> (r: Result<Option<String>, ()>)
    ensures
        match decoded_string(text@) {
            Ok(Some(s)) => r matches Ok(Some(t)) && t@ == s,
            Ok(None) => r == Ok::<Option<String>, ()>(None),
            Err(()) => r is Err,
        },
{
    match parse_json_top_level(text) {
        Some(JsonShallow::Null) => Ok(None),
        Some(JsonShallow::Text(s)) => Ok(Some(s)),
        _ => Err(()),
    }
}

/// Reads `text` as an optional single-precision field.
pub fn decode_f32(text: &str) -> (r: Result<Option<u32>, ()>)
    ensures
        r == decoded_f32(text@),
{
    match parse_json_top_level(text) {
        Some(JsonShallow::Null) => Ok(None),
        Some(JsonShallow::Number(t)) => match parse_json_number(t.as_str()) {
            Some(n) => Ok(Some(json_number_f32_bits(n))),
            None => Err(()),
        },
        _ => Err(()),
    }
}

/// Reads `text` as an optional double-precision field.
pub fn decode_f64(text: &str) -> (r: Result<Option<u64>, ()>)
    ensures
        r == decoded_f64(text@),
{
    match parse_json_top_level(text) {
        Some(JsonShallow::Null) => Ok(None),
        Some(JsonShallow::Number(t)) => match parse_json_number(t.as_str()) {
            Some(n) => Ok(Some(json_number_f64_bits(n))),
            None => Err(()),
        },
        _ => Err(()),
    }
}

/// Reads the number at the top level of `text`.
fn parse_number(text: &str) -> (r: Option<JsonNumber>)
    ensures
        r == top_level_number(text@),
{
    match parse_json_top_level(text) {
        Some(JsonShallow::Number(t)) => parse_json_number(t.as_str()),
        _ => None,
    }
}

/// Reads `text` as an optional list of single-precision values.
pub fn decode_f32_list(text: &str) -> (r: Result<Option<Vec<u32>>, ()>)
    ensures
        match decoded_f32_list(text@) {
            Ok(Some(values)) => r matches Ok(Some(v)) && v@ == values,
            Ok(None) => r matches Ok(None),
            Err(()) => r is Err,
        },
{
    match parse_json_top_level(text) {
        Some(JsonShallow::Null) => Ok(None),
        Some(JsonShallow::Array(items)) => {
            let ghost view = items@.map_values(|item: String| item@);
            let mut values: Vec<u32> = Vec::new();
            let mut i: usize = 0;
            while i < items.len()
                invariant
                    i <= items@.len(),
                    view == items@.map_values(|item: String| item@),
                    json_top_level(text@) == Some(JsonShallowView::Array(view)),
                    values@.len() == i,
                    forall|j: int| 0 <= j < i ==> (#[trigger] top_level_number(view[j])) is Some,
                    forall|j: int| 0 <= j < i ==> values@[j] == number_f32_bits(top_level_number(view[j])->0),
                decreases items@.len() - i,
            {
                assert(view[i as int] == items@[i as int]@);
                match parse_number(items[i].as_str()) {
                    Some(n) => values.push(json_number_f32_bits(n)),
                    None => {
                        assert(!all_numbers(view));
                        return Err(());
                    },
                }
                i = i + 1;
            }
            assert(values@ =~= Seq::new(view.len(), |j: int| number_f32_bits(top_level_number(view[j])->0)));
            Ok(Some(values))
        },
        _ => Err(()),
    }
}

/// Reads one `[height, width]` item.
fn parse_usize_pair(text: &str) -> (r: Option<(usize, usize)>)
    ensures
        r == usize_pair(text@),
{
    match parse_json_top_level(text) {
        Some(JsonShallow::Array(pair)) => {
            if pair.len() != 2 {
                return None;
            }
            assert(pair@.map_values(|item: String| item@)[0] == pair@[0]@);
            assert(pair@.map_values(|item: String| item@)[1] == pair@[1]@);
            let first = match parse_number(pair[0].as_str()) {
                Some(n) => number_to_usize(n),
                None => return None,
            };
            let second = match parse_number(pair[1].as_str()) {
                Some(n) => number_to_usize(n),
                None => return None,
            };
            match (first, second) {
                (Some(x), Some(y)) => Some((x, y)),
                _ => None,
            }
        },
        _ => None,
    }
}

/// Reads `text` as an optional list of `[height, width]` pairs.
pub fn decode_pairs(text: &str) -> (r: Result<Option<Vec<(usize, usize)>>, ()>)
    ensures
        match decoded_pairs(text@) {
            Ok(Some(pairs)) => r matches Ok(Some(v)) && v@ == pairs,
            Ok(None) => r matches Ok(None),
            Err(()) => r is Err,
        },
{
    match parse_json_top_level(text) {
        Some(JsonShallow::Null) => Ok(None),
        Some(JsonShallow::Array(items)) => {
            let ghost view = items@.map_values(|item: String| item@);
            let mut pairs: Vec<(usize, usize)> = Vec::new();
            let mut i: usize = 0;
            while i < items.len()
                invariant
                    i <= items@.len(),
                    view == items@.map_values(|item: String| item@),
                    json_top_level(text@) == Some(JsonShallowView::Array(view)),
                    pairs@.len() == i,
                    forall|j: int| 0 <= j < i ==> (#[trigger] usize_pair(view[j])) is Some,
                    forall|j: int| 0 <= j < i ==> pairs@[j] == usize_pair(view[j])->0,
                decreases items@.len() - i,
            {
                assert(view[i as int] == items@[i as int]@);
                match parse_usize_pair(items[i].as_str()) {
                    Some(pair) => pairs.push(pair),
                    None => return Err(()),
                }
                i = i + 1;
            }
            assert(pairs@ =~= Seq::new(view.len(), |j: int| usize_pair(view[j])->0));
            Ok(Some(pairs))
        },
        _ => Err(()),
    }
}

/// Reads `text` as an optional value of any JSON kind.
pub fn decode_any(text: &str) -> (r: Result<Option<JsonShallow>, ()>)
    ensures
        match json_top_level(text@) {
            None => r is Err,
            Some(JsonShallowView::Null) => r matches Ok(None),
            Some(v) => r matches Ok(Some(value)) && value.shallow_view() == v,
        },
{
    match parse_json_top_level(text) {
        None => Err(()),
        Some(JsonShallow::Null) => Ok(None),
        Some(value) => Ok(Some(value)),
    }
}

/// Parses `text` as a JSON object and returns its entries.
pub fn parse_json_object(text: &str) -> (r: Option<Vec<(String, String)>>)
    ensures
        match json_top_level(text@) {
            Some(JsonShallowView::Object(entries)) => r matches Some(v) && entries_view(v@) == entries,
            _ => r is None,
        },
{
    match parse_json_top_level(text) {
        Some(JsonShallow::Object(entries)) => Some(entries),
        _ => None,
    }
}

} // verus!
