//! Text crossing the native boundary: NUL-terminated byte strings handed to
//! the runtime, and the UTF-8 it hands back.

use vstd::prelude::*;
use vstd::utf8::{decode_utf8, encode_utf8, encode_utf8_decode_utf8, encode_utf8_valid_utf8, valid_utf8};

verus! {

/// The NUL-terminated form of `bytes`, or `None` when `bytes` already holds a
/// NUL and so cannot be passed as a C string.
pub open spec fn c_string_of(bytes: Seq<u8>) -> Option<Seq<u8>> {
    if bytes.contains(0u8) {
        None
    } else {
        Some(bytes.push(0u8))
    }
}

/// Builds the NUL-terminated copy of `bytes` that the runtime reads as a C
/// string; `None` when `bytes` holds an interior NUL.
pub fn c_string(bytes: &[u8]) -> (c: Option<Vec<u8>>)
    ensures
        c matches Some(v) ==> c_string_of(bytes@) == Some(v@),
        c is None ==> c_string_of(bytes@) is None,
{
    let mut out: Vec<u8> = Vec::new();
    let mut i: usize = 0;
    while i < bytes.len()
        invariant
            i <= bytes.len(),
            out@ == bytes@.subrange(0, i as int),
            forall|j: int| 0 <= j < i ==> bytes@[j] != 0u8,
        decreases bytes.len() - i,
    {
        if bytes[i] == 0u8 {
            assert(bytes@.contains(0u8)) by {
                assert(bytes@[i as int] == 0u8);
            }
            return None;
        }
        out.push(bytes[i]);
        i = i + 1;
    }
    assert(out@ == bytes@);
    assert(!bytes@.contains(0u8));
    out.push(0u8);
    Some(out)
}

/// `std::str::from_utf8`: the bytes as a string slice when they are valid
/// UTF-8, as its documentation states; `None` otherwise.
#[verifier::external_body]
fn str_from_utf8(bytes: &[u8]) -> (s: Option<&str>)
    ensures
        s is Some <==> valid_utf8(bytes@),
        s matches Some(t) ==> t@ == decode_utf8(bytes@),
{
    std::str::from_utf8(bytes).ok()
}

/// What `String::from_utf8_lossy` makes of `bytes`: every invalid sequence
/// replaced by U+FFFD.
pub uninterp spec fn utf8_lossy(bytes: Seq<u8>) -> Seq<char>;

/// `String::from_utf8_lossy`, made owned. Its result is named by
/// [`utf8_lossy`]; on valid UTF-8 it is the decoded text unchanged, as the
/// documentation states. Nothing more is stated of the replacement of
/// invalid sequences.
#[verifier::external_body]
fn string_from_utf8_lossy(bytes: &[u8]) -> (s: String)
    ensures
        s@ == utf8_lossy(bytes@),
        valid_utf8(bytes@) ==> s@ == decode_utf8(bytes@),
{
    String::from_utf8_lossy(bytes).into_owned()
}

/// The markup-extension key the native parser passes: empty when there is no
/// key or when its bytes are not UTF-8, its text otherwise.
pub open spec fn key_text_of(raw: Option<Seq<u8>>) -> Seq<char> {
    match raw {
        Some(b) => if valid_utf8(b) {
            decode_utf8(b)
        } else {
            Seq::empty()
        },
        None => Seq::empty(),
    }
}

/// Reads the key of a markup extension from the bytes of its C string
/// (`None` for a null pointer).
pub fn key_text<'a>(raw: Option<&'a [u8]>) -> (key: &'a str)
    ensures
        key@ == key_text_of(
            match raw {
                Some(b) => Some(b@),
                None => None,
            },
        ),
{
    proof {
        reveal_strlit("");
    }
    match raw {
        Some(b) => match str_from_utf8(b) {
            Some(s) => s,
            None => "",
        },
        None => "",
    }
}

/// An element's `x:Name` from the bytes of its C string (`None` for a null
/// pointer, meaning the element has no name), decoded leniently.
pub fn element_name(raw: Option<&[u8]>) -> (name: Option<String>)
    ensures
        raw is None <==> name is None,
        raw matches Some(b) ==> name matches Some(n) && n@ == utf8_lossy(b@),
        raw matches Some(b) ==> (valid_utf8(b@) ==> (name matches Some(n) && n@ == decode_utf8(b@))),
{
    match raw {
        Some(b) => Some(string_from_utf8_lossy(b)),
        None => None,
    }
}

/// A byte string is accepted as a C string exactly when it holds no NUL, and
/// its C string is the bytes followed by the one NUL terminator.
pub proof fn lemma_c_string_terminated(bytes: Seq<u8>)
    ensures
        c_string_of(bytes) is Some <==> !bytes.contains(0u8),
        c_string_of(bytes) matches Some(c) ==> c.len() == bytes.len() + 1 && c.last() == 0u8
            && c.drop_last() == bytes && !c.drop_last().contains(0u8),
{
    if !bytes.contains(0u8) {
        assert(bytes.push(0u8).drop_last() =~= bytes);
    }
}

/// Any text the runtime receives as UTF-8 comes back unchanged as a
/// markup-extension key.
pub proof fn lemma_key_text_round_trip(text: Seq<char>)
    ensures
        key_text_of(Some(encode_utf8(text))) == text,
{
    encode_utf8_valid_utf8(text);
    encode_utf8_decode_utf8(text);
}

/// A null key reads as the empty key, and so does one whose bytes are not
/// UTF-8.
pub proof fn lemma_key_text_fallback(raw: Option<Seq<u8>>)
    ensures
        raw is None ==> key_text_of(raw) == Seq::<char>::empty(),
        raw matches Some(b) ==> (!valid_utf8(b) ==> key_text_of(raw) == Seq::<char>::empty()),
{
}

} // verus!
