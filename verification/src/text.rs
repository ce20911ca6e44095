//! Text on its way to the runtime and back: the runtime takes text as bytes
//! that end at the first zero byte, and gives characters back as bytes that
//! are to be read as UTF-8.

use vstd::prelude::*;
use vstd::utf8::{decode_utf8, encode_utf8, valid_utf8};

verus! {

/// No byte of the sequence is zero.
pub open spec fn nul_free(bytes: Seq<u8>) -> bool {
    forall|i: int| 0 <= i < bytes.len() ==> bytes[i] != 0
}

/// What a reader that stops at the first zero byte takes from a buffer: the
/// bytes before that zero, or all of them where there is none.
pub open spec fn until_nul(buffer: Seq<u8>) -> Seq<u8>
    decreases buffer.len(),
{
    if buffer.len() == 0 || buffer[0] == 0 {
        Seq::empty()
    } else {
        seq![buffer[0]] + until_nul(buffer.drop_first())
    }
}

/// A reader that stops at the first zero byte takes from a terminated buffer
/// exactly the bytes that were terminated, provided that none of them is zero.
pub proof fn lemma_until_nul_of_terminated(bytes: Seq<u8>)
    requires
        nul_free(bytes),
    ensures
        until_nul(bytes.push(0u8)) == bytes,
    decreases bytes.len(),
{
    let buffer = bytes.push(0u8);
    if bytes.len() == 0 {
        assert(buffer[0] == 0);
        assert(until_nul(buffer) =~= bytes);
    } else {
        let rest = bytes.drop_first();
        assert(buffer[0] == bytes[0]);
        assert(buffer.drop_first() =~= rest.push(0u8));
        assert forall|i: int| 0 <= i < rest.len() implies rest[i] != 0 by {
            assert(rest[i] == bytes[i + 1]);
        }
        lemma_until_nul_of_terminated(rest);
        assert(until_nul(buffer) =~= bytes);
    }
}

/// With a zero byte among them, the bytes do not reach such a reader whole:
/// it takes fewer than were terminated.
pub proof fn lemma_until_nul_truncates(bytes: Seq<u8>)
    requires
        !nul_free(bytes),
    ensures
        until_nul(bytes.push(0u8)).len() < bytes.len(),
    decreases bytes.len(),
{
    let buffer = bytes.push(0u8);
    let at = choose|i: int| 0 <= i < bytes.len() && bytes[i] == 0;
    assert(buffer[0] == bytes[0]);
    if bytes[0] != 0 {
        let rest = bytes.drop_first();
        assert(buffer.drop_first() =~= rest.push(0u8));
        assert(rest[at - 1] == bytes[at]);
        lemma_until_nul_truncates(rest);
    }
}

/// True exactly where no byte of the UTF-8 form of the text is zero.
pub fn is_nul_free(text: &str) -> (yes: bool)
    ensures
        yes == nul_free(encode_utf8(text@)),
{
    let bytes = text.as_bytes();
    let mut at: usize = 0;
    while at < bytes.len()
        invariant
            at <= bytes.len(),
            bytes@ == encode_utf8(text@),
            forall|i: int| 0 <= i < at ==> bytes@[i] != 0,
        decreases bytes.len() - at,
    {
        if bytes[at] == 0 {
            return false;
        }
        at += 1;
    }
    true
}

/// The UTF-8 bytes of the text with one zero byte after them, as the
/// evaluator of the runtime takes its source.  Where the text itself holds a
/// zero byte, the runtime reads up to that byte only.
pub fn terminated(text: &str) -> (buffer: Vec<u8>)
    ensures
        buffer@ == encode_utf8(text@).push(0u8),
{
    let bytes = text.as_bytes();
    let mut buffer: Vec<u8> = Vec::with_capacity(bytes.len());
    let mut at: usize = 0;
    while at < bytes.len()
        invariant
            at <= bytes.len(),
            buffer@ == bytes@.subrange(0, at as int),
        decreases bytes.len() - at,
    {
        buffer.push(bytes[at]);
        at += 1;
        assert(buffer@ =~= bytes@.subrange(0, at as int));
    }
    assert(bytes@.subrange(0, at as int) =~= bytes@);
    buffer.push(0);
    buffer
}

/// The buffer from which the runtime makes a character array: the UTF-8
/// bytes of the text and a closing zero byte.  The array is to be made of all
/// bytes but the last.  There is no such buffer for a text that holds a zero
/// byte, as the runtime would take only a part of it.
pub fn c_text(text: &str) -> (buffer: Option<Vec<u8>>)
    ensures
        buffer is Some <==> nul_free(encode_utf8(text@)),
        buffer matches Some(bytes) ==> bytes@ == encode_utf8(text@).push(0u8),
{
    if is_nul_free(text) {
        Some(terminated(text))
    } else {
        None
    }
}

/// `String::from_utf8` of the standard library.  Taken on trust: that it
/// accepts exactly the byte sequences that `valid_utf8` describes, and that
/// the text it then gives has the characters that `decode_utf8` reads from
/// them.
#[verifier::external_body]
fn string_from_utf8(bytes: Vec<u8>) -> (text: Option<String>)
    ensures
        text is Some <==> valid_utf8(bytes@),
        text matches Some(s) ==> s@ == decode_utf8(bytes@),
{
    match String::from_utf8(bytes) {
        Ok(text) => Some(text),
        Err(_) => None,
    }
}

/// Reads bytes that the runtime gave for a character array as UTF-8 text.
/// There is none where the bytes are not well-formed UTF-8.
pub fn decode(bytes: Vec<u8>) -> (text: Option<String>)
    ensures
        text is Some <==> valid_utf8(bytes@),
        text matches Some(s) ==> s@ == decode_utf8(bytes@) && encode_utf8(s@) == bytes@,
{
    proof {
        if valid_utf8(bytes@) {
            vstd::utf8::decode_utf8_encode_utf8(bytes@);
        }
    }
    string_from_utf8(bytes)
}

/// Text that holds no zero byte comes back from the runtime as it went: the
/// bytes that reach the runtime through a terminated buffer decode to the
/// text itself.
pub proof fn lemma_text_survives(text: Seq<char>)
    requires
        nul_free(encode_utf8(text)),
    ensures
        valid_utf8(until_nul(encode_utf8(text).push(0u8))),
        decode_utf8(until_nul(encode_utf8(text).push(0u8))) == text,
{
    lemma_until_nul_of_terminated(encode_utf8(text));
    vstd::utf8::encode_utf8_valid_utf8(text);
    vstd::utf8::encode_utf8_decode_utf8(text);
}

} // verus!
