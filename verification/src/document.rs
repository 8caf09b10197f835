//! JSON documents as the task store sends and receives them.
//!
//! The documents are handled by the `json` crate. Each function here stands for one of its
//! operations; what an operation yields is given a name, and the contracts of the functions
//! that read or build documents are stated over those names.

use json::JsonValue;
use vstd::prelude::*;
use vstd::string::StringSliceAdditionalSpecFns;
use vstd::utf8::encode_utf8;

verus! {

#[verifier::external_type_specification]
#[verifier::external_body]
pub struct ExJsonValue(json::JsonValue);

/// The most members for which an object is made ready at once.
pub const MAX_MEMBERS: usize = 64;

/// The most decimal digits in a row that a text may hold to be read as JSON. The `json`
/// crate keeps the exponent of a number in an `i16` and lowers it once for each digit of a
/// fraction, so that a longer row of digits can take it past what an `i16` holds.
pub const MAX_DIGIT_RUN: usize = 32_767;

/// Whether a byte is a decimal digit.
pub open spec fn digit_byte(byte: u8) -> bool {
    0x30 <= byte <= 0x39
}

/// The number of decimal digits in a row that end just before `end`.
pub open spec fn digit_run(bytes: Seq<u8>, end: int) -> nat
    decreases end,
{
    if 0 < end <= bytes.len() && digit_byte(bytes[end - 1]) {
        1 + digit_run(bytes, end - 1)
    } else {
        0
    }
}

/// Whether no more than `bound` decimal digits stand in a row anywhere in `bytes`.
pub open spec fn digit_runs_within(bytes: Seq<u8>, bound: nat) -> bool {
    forall|end: int| 0 <= end <= bytes.len() ==> #[trigger] digit_run(bytes, end) <= bound
}

/// Whether a text can be handed to the JSON reader: it holds no row of digits longer than
/// `MAX_DIGIT_RUN`.
pub open spec fn json_readable(text: Seq<char>) -> bool {
    digit_runs_within(encode_utf8(text), MAX_DIGIT_RUN as nat)
}

/// The document that a text is read as: what `json::parse` reads from it, where the text
/// can be handed to the reader and is well-formed JSON.
pub open spec fn json_read(text: Seq<char>) -> Option<JsonValue> {
    if json_readable(text) {
        json_parsed(text)
    } else {
        None
    }
}

/// The document that `json::parse` reads from a text, if the text is well-formed JSON.
pub uninterp spec fn json_parsed(text: Seq<char>) -> Option<JsonValue>;

/// The member that indexing a document by a key (`value[key]`) yields.
pub uninterp spec fn json_member(value: JsonValue, key: Seq<char>) -> JsonValue;

/// The element that indexing a document by a position (`value[index]`) yields.
pub uninterp spec fn json_element(value: JsonValue, index: usize) -> JsonValue;

/// The number of elements or members that `JsonValue::len` counts in a document.
pub uninterp spec fn json_length(value: JsonValue) -> usize;

/// The text that a document's `Display` implementation (`to_string`) writes.
pub uninterp spec fn json_text(value: JsonValue) -> Seq<char>;

/// The JSON text that `json::stringify` writes for a document.
pub uninterp spec fn json_dumped(value: JsonValue) -> Seq<char>;

/// The empty object that `json::object::Object::with_capacity` makes, as a document.
pub uninterp spec fn json_object(capacity: usize) -> JsonValue;

/// The document that `JsonValue::insert` leaves when it is given a key and a value.
pub uninterp spec fn json_with_member(object: JsonValue, key: Seq<char>, value: JsonValue) -> JsonValue;

/// The document that `JsonValue::from` makes of a string.
pub uninterp spec fn json_string(text: Seq<char>) -> JsonValue;

/// The document that `JsonValue::from` makes of a `u64`.
pub uninterp spec fn json_number(amount: u64) -> JsonValue;

/// Calls `json::parse`. The result is the crate's parse of the text, and `None` stands for
/// every parse error. The crate's arithmetic on the exponent of a number overflows only
/// past `MAX_DIGIT_RUN` digits in a row, which the bound rules out.
#[verifier::external_body]
fn parse_json(text: &str) -> (document: Option<JsonValue>)
    requires
        json_readable(text@),
    ensures
        document == json_parsed(text@),
{
    json::parse(text).ok()
}

/// Indexes a document by a key (`Index<&str>` of `JsonValue`), which never fails: the crate
/// answers with its null value where there is no such member.
#[verifier::external_body]
pub(crate) fn member<'a>(value: &'a JsonValue, key: &str) -> (found: &'a JsonValue)
    ensures
        *found == json_member(*value, key@),
{
    &value[key]
}

/// Indexes a document by a position (`Index<usize>` of `JsonValue`), which never fails: the
/// crate answers with its null value where there is no such element.
#[verifier::external_body]
pub(crate) fn element<'a>(value: &'a JsonValue, index: usize) -> (found: &'a JsonValue)
    ensures
        *found == json_element(*value, index),
{
    &value[index]
}

/// Calls `JsonValue::len`.
#[verifier::external_body]
pub(crate) fn length(value: &JsonValue) -> (count: usize)
    ensures
        count == json_length(*value),
{
    value.len()
}

/// Calls `to_string` on a document (`Display` of `JsonValue`).
#[verifier::external_body]
pub(crate) fn text_of(value: &JsonValue) -> (text: String)
    ensures
        text@ == json_text(*value),
{
    value.to_string()
}

/// Calls `json::stringify`.
#[verifier::external_body]
pub(crate) fn dump(value: JsonValue) -> (text: String)
    ensures
        text@ == json_dumped(value),
{
    json::stringify(value)
}

/// Makes an empty object with `json::object::Object::with_capacity`, which sets memory aside
/// for `capacity` members and fails where that is more than can be had; a capacity within
/// `MAX_MEMBERS` is not.
#[verifier::external_body]
pub(crate) fn object(capacity: usize) -> (empty: JsonValue)
    requires
        capacity <= MAX_MEMBERS,
    ensures
        empty == json_object(capacity),
{
    JsonValue::Object(json::object::Object::with_capacity(capacity))
}

/// Calls `JsonValue::insert`, which adds or replaces a member of an object and leaves any
/// other document as it is.
#[verifier::external_body]
pub(crate) fn with_member(object: JsonValue, key: &str, value: JsonValue) -> (extended: JsonValue)
    ensures
        extended == json_with_member(object, key@, value),
{
    let mut extended = object;
    let _ = extended.insert(key, value);
    extended
}

/// Calls `JsonValue::from` on a string.
#[verifier::external_body]
pub(crate) fn string(text: String) -> (value: JsonValue)
    ensures
        value == json_string(text@),
{
    JsonValue::from(text)
}

/// Calls `JsonValue::from` on a `u64`.
#[verifier::external_body]
pub(crate) fn number(amount: u64) -> (value: JsonValue)
    ensures
        value == json_number(amount),
{
    JsonValue::from(amount)
}

/// Whether a text holds no row of decimal digits longer than `MAX_DIGIT_RUN`.
pub fn digits_are_short(text: &str) -> (short: bool)
    ensures
        short == json_readable(text@),
{
    let bytes = text.as_bytes();
    let mut run: usize = 0;
    let mut at: usize = 0;
    while at < bytes.len()
        invariant
            at <= bytes.len(),
            bytes@ == encode_utf8(text@),
            run == digit_run(bytes@, at as int),
            run <= MAX_DIGIT_RUN,
            forall|end: int| 0 <= end <= at ==> #[trigger] digit_run(bytes@, end) <= MAX_DIGIT_RUN,
        decreases bytes.len() - at,
    {
        if bytes[at] >= 0x30 && bytes[at] <= 0x39 {
            run += 1;
            if run > MAX_DIGIT_RUN {
                assert(digit_run(bytes@, at + 1) > MAX_DIGIT_RUN);
                return false;
            }
        } else {
            run = 0;
        }
        at += 1;
    }
    true
}

/// Reads a text as JSON. A text with too long a row of digits, or one that is not
/// well-formed JSON, gives none.
pub fn read_json(text: &str) -> (document: Option<JsonValue>)
    ensures
        document == json_read(text@),
{
    if digits_are_short(text) {
        parse_json(text)
    } else {
        None
    }
}

/// The text found under `key` in a document.
pub open spec fn member_text(value: JsonValue, key: Seq<char>) -> Seq<char> {
    json_text(json_member(value, key))
}

/// Reads the text found under `key` in a document.
pub fn read_text(value: &JsonValue, key: &str) -> (text: String)
    ensures
        text@ == member_text(*value, key@),
{
    text_of(member(value, key))
}

} // verus!
