//! Text on its way back from the engine: a C string on the engine's side, a
//! `String` on the caller's.

use crate::call::{Command, TextSource};
use crate::definition::{c_string, has_nul};
use vstd::prelude::*;
use vstd::utf8::{
    decode_utf8, decode_utf8_encode_utf8, encode_utf8, encode_utf8_decode_utf8,
    encode_utf8_valid_utf8, valid_utf8,
};

verus! {

/// The text that the engine handed out in a C string at `addr`, where `bytes`
/// are the string's bytes before its NUL. There is none at the null address,
/// and none where the bytes are no UTF-8.
pub open spec fn text_at(addr: usize, bytes: Seq<u8>) -> Option<Seq<char>> {
    if addr != 0 && valid_utf8(bytes) {
        Some(decode_utf8(bytes))
    } else {
        None
    }
}

/// What the engine is owed once the C string at `addr` has been copied: a
/// definition's buffer goes back to it, the version text was never the caller's.
pub open spec fn owed_for_text(source: TextSource, addr: usize) -> Option<Command> {
    if source is Definition && addr != 0 {
        Some(Command::Dalloc { allocated: addr })
    } else {
        None
    }
}

/// `String::from_utf8` of std: the bytes as a `String` where they are UTF-8,
/// and nothing where they are not.
#[verifier::external_body]
fn string_from_utf8(bytes: Vec<u8>) -> (text: Option<String>)
    ensures
        text is Some <==> valid_utf8(bytes@),
        text matches Some(s) ==> s@ == decode_utf8(bytes@),
{
    String::from_utf8(bytes).ok()
}

/// Plans the reading of the engine's version text. It takes no handle and can
/// be asked for at any time.
pub fn get_release() -> (source: TextSource)
    ensures
        source == TextSource::Release,
{
    TextSource::Release
}

/// Takes over the text that the engine handed out in a C string at `addr`.
/// `bytes` is the copy of the string's bytes before its NUL, and is empty for
/// the null address. The second part of the result is the call that gives the
/// engine's buffer back; it is owed whether or not the bytes made a text.
pub fn take_text(source: &TextSource, addr: usize, bytes: Vec<u8>) -> (taken: (
    Option<String>,
    Option<Command>,
))
    ensures
        match taken.0 {
            Some(text) => text_at(addr, bytes@) == Some(text@),
            None => text_at(addr, bytes@) is None,
        },
        taken.1 == owed_for_text(*source, addr),
{
    let owed = match source {
        TextSource::Definition { .. } => if addr != 0 {
            Some(Command::Dalloc { allocated: addr })
        } else {
            None
        },
        TextSource::Release => None,
    };
    let text = if addr != 0 {
        string_from_utf8(bytes)
    } else {
        None
    };
    (text, owed)
}

/// A text that the engine handed out goes back to it byte for byte when a
/// projection is made from it.
pub proof fn lemma_text_from_engine_goes_back_unchanged(addr: usize, bytes: Seq<u8>)
    requires
        text_at(addr, bytes) is Some,
        !bytes.contains(0u8),
    ensures
        !has_nul(text_at(addr, bytes)->Some_0),
        c_string(text_at(addr, bytes)->Some_0) == bytes.push(0u8),
{
    decode_utf8_encode_utf8(bytes);
}

/// A text that went to the engine as a C string, and comes back from it with
/// the same bytes, is the same text.
pub proof fn lemma_text_to_engine_comes_back_unchanged(addr: usize, text: Seq<char>)
    requires
        addr != 0,
    ensures
        text_at(addr, c_string(text).drop_last()) == Some(text),
{
    encode_utf8_valid_utf8(text);
    encode_utf8_decode_utf8(text);
    assert(c_string(text).drop_last() == encode_utf8(text));
}

} // verus!
