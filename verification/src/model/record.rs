//! The fields of a record of text, before they are decoded.

use vstd::prelude::*;

verus! {

broadcast use vstd::string::group_string_axioms;

/// Whether `c` is white space, as `char::is_whitespace` tells it.
pub uninterp spec fn is_whitespace(c: char) -> bool;

/// `char::is_whitespace`: whether the character has the Unicode property
/// `White_Space`. The answer depends on the character alone.
pub assume_specification[ char::is_whitespace ](c: char) -> (white: bool)
    ensures
        white == is_whitespace(c),
;

/// `String::push`: the character is appended to the end of the string.
pub assume_specification[ String::push ](text: &mut String, c: char)
    ensures
        final(text)@ == old(text)@.push(c),
;

/// The characters of `text` that are not white space, in their order.
pub open spec fn without_whitespace(text: Seq<char>) -> Seq<char>
    decreases text.len(),
{
    if text.len() == 0 {
        text
    } else if is_whitespace(text.last()) {
        without_whitespace(text.drop_last())
    } else {
        without_whitespace(text.drop_last()).push(text.last())
    }
}

/// The field without its white space, wherever in the field it stands.
pub fn trim_field(field: &str) -> (trimmed: String)
    ensures
        trimmed@ == without_whitespace(field@),
{
    let mut trimmed = String::new();
    for c in it: field.chars()
        invariant
            it.seq() == field@,
            trimmed@ == without_whitespace(field@.take(it.index() as int)),
    {
        assert(field@.take(it.index() + 1).drop_last() == field@.take(it.index() as int));
        if !c.is_whitespace() {
            trimmed.push(c);
        }
    }
    assert(field@.take(field@.len() as int) == field@);
    trimmed
}

/// The lower-case letter of an ASCII capital; any other character as it is.
pub open spec fn lowered(c: char) -> char {
    if 'A' <= c <= 'Z' {
        ((c as u8) + 32) as char
    } else {
        c
    }
}

/// The lower-case letter of an ASCII capital; any other character as it is.
pub fn lower(c: char) -> (low: char)
    ensures
        low == lowered(c),
{
    if 'A' <= c && c <= 'Z' {
        ((c as u8) + 32) as char
    } else {
        c
    }
}

/// The field with its ASCII capitals turned into lower-case letters, so
/// that a name is known however it is written.
pub fn lower_field(field: &str) -> (low: String)
    ensures
        low@ == field@.map_values(|c: char| lowered(c)),
{
    let mut low = String::new();
    for c in it: field.chars()
        invariant
            it.seq() == field@,
            low@ == field@.take(it.index() as int).map_values(|c: char| lowered(c)),
    {
        low.push(lower(c));
    }
    low
}

/// The record with all white space removed from each of its fields.
pub fn trim_string_record(record: &Vec<String>) -> (trimmed: Vec<String>)
    ensures
        trimmed@.len() == record@.len(),
        forall|i: int|
            0 <= i < record@.len() ==> (#[trigger] trimmed@[i])@ == without_whitespace(record@[i]@),
{
    let mut trimmed: Vec<String> = Vec::new();
    for field in it: record.iter()
        invariant
            it.seq().len() == record@.len(),
            forall|i: int| 0 <= i < record@.len() ==> *(#[trigger] it.seq()[i]) == record@[i],
            trimmed@.len() == it.index(),
            forall|i: int|
                0 <= i < it.index() ==> (#[trigger] trimmed@[i])@ == without_whitespace(
                    record@[i]@,
                ),
    {
        trimmed.push(trim_field(field.as_str()));
    }
    trimmed
}

} // verus!
