//! Base64, and the fixed-size byte strings that travel in it.

use base64::engine::general_purpose::STANDARD;
use base64::Engine;
use vstd::prelude::*;
use vstd::string::*;

use crate::crypto::primitives::{array_32, array_64};
use crate::text;
use crate::text::trim;

verus! {

/// The base64 text of `bytes`, in the standard alphabet with padding.
pub uninterp spec fn base64_text(bytes: Seq<u8>) -> Seq<char>;

/// The bytes that a base64 text stands for, or the description of its fault.
pub uninterp spec fn base64_decoded(text: Seq<char>) -> Result<Seq<u8>, Seq<char>>;

/// Whether `c` belongs to the standard alphabet or is the padding character.
pub open spec fn is_base64_char(c: char) -> bool {
    ||| 'A' <= c <= 'Z'
    ||| 'a' <= c <= 'z'
    ||| '0' <= c <= '9'
    ||| c == '+'
    ||| c == '/'
    ||| c == '='
}

/// Characters in the base64 text of `len` bytes.
pub open spec fn base64_len(len: nat) -> nat {
    (len + 2) / 3 * 4
}

/// `Engine::encode` of `STANDARD`: four characters of the alphabet for every
/// three bytes begun, and decoding the text gives the bytes back.
#[verifier::external_body]
pub(crate) fn base64_encode(bytes: &[u8]) -> (text: String)
    requires
        base64_len(bytes@.len()) <= isize::MAX,
    ensures
        text@ == base64_text(bytes@),
        text@.len() == base64_len(bytes@.len()),
        forall|i: int| 0 <= i < text@.len() ==> is_base64_char(#[trigger] text@[i]),
        base64_decoded(text@) is Ok && base64_decoded(text@)->Ok_0 == bytes@,
{
    STANDARD.encode(bytes)
}

/// `Engine::decode` of `STANDARD`: a function of the text. The error is handed
/// on as its `Display` text.
#[verifier::external_body]
pub(crate) fn base64_decode(text: &str) -> (r: Result<Vec<u8>, String>)
    ensures
        r is Ok == base64_decoded(text@) is Ok,
        r is Ok ==> r->Ok_0@ == base64_decoded(text@)->Ok_0,
        r is Err ==> r->Err_0@ == base64_decoded(text@)->Err_0,
{
    STANDARD.decode(text).map_err(|error| error.to_string())
}

/// Why a text is no base64 of so many bytes.
#[derive(Debug)]
pub enum FixedBytesError {
    /// The text is no base64; what is wrong with it.
    Base64(String),
    /// It stands for so many bytes instead.
    Length(usize),
}

/// Whether `text`, trimmed, is base64 of exactly `n` bytes.
pub open spec fn is_fixed(text: Seq<char>, n: nat) -> bool {
    base64_decoded(text::trimmed(text)) matches Ok(bytes) && bytes.len() == n
}

/// The bytes that the trimmed text stands for.
pub open spec fn fixed_bytes(text: Seq<char>) -> Seq<u8> {
    base64_decoded(text::trimmed(text))->Ok_0
}

/// Whether the base64 text of `bytes` has the length and the characters of
/// base64, and decodes to the bytes again.
pub open spec fn decodes_back(bytes: Seq<u8>) -> bool {
    let text = base64_text(bytes);
    &&& text.len() == base64_len(bytes.len())
    &&& forall|i: int| 0 <= i < text.len() ==> is_base64_char(#[trigger] text[i])
    &&& base64_decoded(text) == Ok::<Seq<u8>, Seq<char>>(bytes)
}

/// Whether the base64 text of `bytes` is read back as these `n` bytes.
pub open spec fn reads_back(bytes: Seq<u8>, n: nat) -> bool {
    is_fixed(base64_text(bytes), n) && fixed_bytes(base64_text(bytes)) == bytes
}

/// Whether `e` says why `text` is no base64 of `n` bytes.
pub open spec fn explains(e: FixedBytesError, text: Seq<char>, n: nat) -> bool {
    match base64_decoded(text::trimmed(text)) {
        Err(fault) => e matches FixedBytesError::Base64(m) && m@ == fault,
        Ok(bytes) => bytes.len() != n && e == FixedBytesError::Length(bytes.len() as usize)
            && bytes.len() <= usize::MAX,
    }
}

/// The 32 bytes that a base64 text stands for, white space around it aside.
pub fn decode_fixed_32(text: &str) -> (r: Result<[u8; 32], FixedBytesError>)
    ensures
        r is Ok == is_fixed(text@, 32),
        r matches Ok(bytes) ==> bytes@ == fixed_bytes(text@),
        r matches Err(e) ==> explains(e, text@, 32),
{
    match base64_decode(trim(text).as_str()) {
        Ok(raw) => {
            if raw.len() != 32 {
                return Err(FixedBytesError::Length(raw.len()));
            }
            Ok(array_32(raw.as_slice()))
        },
        Err(fault) => Err(FixedBytesError::Base64(fault)),
    }
}

/// The 64 bytes that a base64 text stands for, white space around it aside.
pub fn decode_fixed_64(text: &str) -> (r: Result<[u8; 64], FixedBytesError>)
    ensures
        r is Ok == is_fixed(text@, 64),
        r matches Ok(bytes) ==> bytes@ == fixed_bytes(text@),
        r matches Err(e) ==> explains(e, text@, 64),
{
    match base64_decode(trim(text).as_str()) {
        Ok(raw) => {
            if raw.len() != 64 {
                return Err(FixedBytesError::Length(raw.len()));
            }
            Ok(array_64(raw.as_slice()))
        },
        Err(fault) => Err(FixedBytesError::Base64(fault)),
    }
}

/// The base64 text of `bytes`. It decodes to the bytes again, also through
/// [`decode_fixed_32`] and [`decode_fixed_64`].
pub fn encode(bytes: &[u8]) -> (text: String)
    requires
        base64_len(bytes@.len()) <= isize::MAX,
    ensures
        text@ == base64_text(bytes@),
        text@.len() == base64_len(bytes@.len()),
        forall|i: int| 0 <= i < text@.len() ==> is_base64_char(#[trigger] text@[i]),
        base64_decoded(text@) == Ok::<Seq<u8>, Seq<char>>(bytes@),
        is_fixed(text@, bytes@.len()),
        fixed_bytes(text@) == bytes@,
{
    let text = base64_encode(bytes);
    proof {
        assert forall|i: int| 0 <= i < text@.len() implies !text::is_space(#[trigger] text@[i]) by {
            assert(is_base64_char(text@[i]));
        }
        text::trim_of_solid(text@);
    }
    text
}

/// Base64 has four characters for every three bytes begun.
pub proof fn three_bytes_make_four_characters(len: nat)
    ensures
        base64_len(len) % 4 == 0,
        3 * base64_len(len) >= 4 * len,
        3 * base64_len(len) < 4 * (len + 3),
        base64_len(0) == 0,
{
}

/// A text is fixed bytes exactly if it is base64 of so many, white space around it aside,
/// and then stands for these. An error says which of the two is wrong.
pub proof fn fixed_bytes_have_their_number(text: Seq<char>, n: nat, e: FixedBytesError)
    ensures
        is_fixed(text, n) <==> (base64_decoded(text::trimmed(text)) matches Ok(bytes) && bytes.len()
            == n),
        is_fixed(text, n) ==> base64_decoded(text::trimmed(text)) == Ok::<Seq<u8>, Seq<char>>(
            fixed_bytes(text),
        ),
        explains(e, text, n) ==> !is_fixed(text, n),
        explains(e, text, n) ==> (e is Base64 <==> base64_decoded(text::trimmed(text)) is Err),
        explains(e, text, n) && e is Length ==> (e matches FixedBytesError::Length(got)
            && is_fixed(text, got as nat)),
{
}

} // verus!
