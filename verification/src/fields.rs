//! Field validation: which strings may serve as storage keys and which as
//! opaque values.

use vstd::prelude::*;
use vstd::string::StringSliceAdditionalSpecFns;
use vstd::utf8::encode_utf8;

verus! {

/// The largest number of bytes a field may occupy.
pub const FIELD_LEN_LIMIT: usize = 4096;

/// Control characters: U+0000..=U+001F and U+007F..=U+009F.
pub open spec fn is_control_char(c: char) -> bool {
    let v = c as u32;
    v <= 0x1f || (0x7f <= v && v <= 0x9f)
}

/// Characters allowed in a storage key: ASCII letters and digits, and the
/// punctuation `-`, `_`, `.` and `@`.
pub open spec fn is_key_char(c: char) -> bool {
    let v = c as u32;
    ||| (0x30 <= v && v <= 0x39)
    ||| (0x41 <= v && v <= 0x5a)
    ||| (0x61 <= v && v <= 0x7a)
    ||| v == 0x2d
    ||| v == 0x5f
    ||| v == 0x2e
    ||| v == 0x40
}

/// An acceptable opaque value: not empty, at most `FIELD_LEN_LIMIT` bytes
/// long, and free of control characters.
pub open spec fn valid_field(text: Seq<char>) -> bool {
    &&& text.len() > 0
    &&& encode_utf8(text).len() <= FIELD_LEN_LIMIT
    &&& forall|i: int| 0 <= i < text.len() ==> !is_control_char(#[trigger] text[i])
}

/// An acceptable storage key: not empty, at most `FIELD_LEN_LIMIT` bytes
/// long, and made of key characters only.
pub open spec fn valid_key_field(text: Seq<char>) -> bool {
    &&& text.len() > 0
    &&& encode_utf8(text).len() <= FIELD_LEN_LIMIT
    &&& forall|i: int| 0 <= i < text.len() ==> is_key_char(#[trigger] text[i])
}

fn control_char(c: char) -> (r: bool)
    ensures
        r == is_control_char(c),
{
    let v: u32 = c as u32;
    v <= 0x1f || (0x7f <= v && v <= 0x9f)
}

fn key_char(c: char) -> (r: bool)
    ensures
        r == is_key_char(c),
{
    let v: u32 = c as u32;
    (0x30 <= v && v <= 0x39) || (0x41 <= v && v <= 0x5a) || (0x61 <= v && v <= 0x7a) || v == 0x2d
        || v == 0x5f || v == 0x2e || v == 0x40
}

/// Decides whether `s` is an acceptable opaque value.
pub fn is_valid_field(s: &str) -> (r: bool)
    ensures
        r == valid_field(s@),
{
    if s.is_empty() || s.as_bytes().len() > FIELD_LEN_LIMIT {
        return false;
    }
    broadcast use vstd::string::axiom_spec_iter;

    let mut ok = true;
    for c in it: s.chars()
        invariant
            it.seq() == s@,
            ok == (forall|i: int| 0 <= i < it.index() ==> !is_control_char(#[trigger] s@[i])),
    {
        if control_char(c) {
            ok = false;
        }
    }
    ok
}

/// Decides whether `s` is an acceptable storage key.
pub fn is_valid_key_field(s: &str) -> (r: bool)
    ensures
        r == valid_key_field(s@),
{
    if s.is_empty() || s.as_bytes().len() > FIELD_LEN_LIMIT {
        return false;
    }
    broadcast use vstd::string::axiom_spec_iter;

    let mut ok = true;
    for c in it: s.chars()
        invariant
            it.seq() == s@,
            ok == (forall|i: int| 0 <= i < it.index() ==> is_key_char(#[trigger] s@[i])),
    {
        if !key_char(c) {
            ok = false;
        }
    }
    ok
}

/// No key character is a control character.
pub proof fn lemma_key_char_not_control(c: char)
    requires
        is_key_char(c),
    ensures
        !is_control_char(c),
{
}

/// Every acceptable storage key is also an acceptable opaque value.
pub proof fn lemma_key_field_is_field(text: Seq<char>)
    requires
        valid_key_field(text),
    ensures
        valid_field(text),
{
    assert forall|i: int| 0 <= i < text.len() implies !is_control_char(#[trigger] text[i]) by {
        lemma_key_char_not_control(text[i]);
    }
}

/// A string that is longer than `FIELD_LEN_LIMIT` bytes, or that holds a
/// control character, is neither an acceptable value nor an acceptable key.
pub proof fn lemma_long_or_control_rejected(text: Seq<char>)
    requires
        encode_utf8(text).len() > FIELD_LEN_LIMIT || exists|i: int|
            0 <= i < text.len() && is_control_char(#[trigger] text[i]),
    ensures
        !valid_field(text),
        !valid_key_field(text),
{
    if valid_key_field(text) {
        lemma_key_field_is_field(text);
    }
}

} // verus!
