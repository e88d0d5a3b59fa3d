//! The text policy of a printer session: the code page that text is sent in
//! and what becomes of a character that the code page lacks. Also the
//! handling of keyword arguments, which are matched without regard to case.

use vstd::prelude::*;
use vstd::utf8::{encode_utf8, encode_utf8_decode_utf8};
use encoding::all::{ASCII, IBM866, ISO_8859_1, ISO_8859_15, UTF_8, WINDOWS_1252};
use encoding::types::{EncoderTrap, EncodingRef};

verus! {

/// The code page in which text reaches the printer.
#[derive(Clone, Copy, Debug, PartialEq, Eq, Structural)]
pub enum Codec {
    /// UTF-8.
    Utf8,
    /// Seven-bit ASCII.
    Ascii,
    /// IBM code page 866.
    Ibm866,
    /// ISO 8859-1.
    Latin1,
    /// ISO 8859-15.
    Latin9,
    /// Windows code page 1252.
    Windows1252,
}

/// What happens to a character that the code page cannot represent.
#[derive(Clone, Copy, Debug, PartialEq, Eq, Structural)]
pub enum Trap {
    /// Encoding fails.
    Strict,
    /// The character is sent as `?`.
    Replace,
    /// The character is left out.
    Ignore,
    /// The character is sent as a numeric character reference.
    NcrEscape,
}

/// The bytes of `text` in `codec` under `trap`, or `None` where encoding
/// fails. Computed by the `encoding` crate.
pub uninterp spec fn encoded_text(codec: Codec, trap: Trap, text: Seq<char>) -> Option<Seq<u8>>;

/// An optional byte vector as the optional sequence it holds.
pub open spec fn bytes_of(r: Option<Vec<u8>>) -> Option<Seq<u8>> {
    match r {
        Some(bytes) => Some(bytes@),
        None => None,
    }
}

/// The bytes that text is sent as under a policy. UTF-8 text is sent as its
/// own bytes, whatever the trap; for any other code page the bytes are those
/// named by `encoded_text`.
pub open spec fn policy_text(codec: Codec, trap: Trap, text: Seq<char>) -> Option<Seq<u8>> {
    if codec == Codec::Utf8 {
        Some(encode_utf8(text))
    } else {
        encoded_text(codec, trap, text)
    }
}

/// Calls `encoding::types::Encoding::encode` on the code page that `codec`
/// stands for, with the trap that `trap` stands for. Trusted: the result is
/// the one named by `encoded_text`, and for UTF-8, whose encoder copies the
/// text's own bytes and never fails, it is those bytes.
#[verifier::external_body]
pub(crate) fn encode_text(codec: Codec, trap: Trap, text: &str) -> (r: Option<Vec<u8>>)
    ensures
        bytes_of(r) == encoded_text(codec, trap, text@),
        codec == Codec::Utf8 ==> bytes_of(r) == Some(encode_utf8(text@)),
{
    let page: EncodingRef = match codec {
        Codec::Utf8 => UTF_8,
        Codec::Ascii => ASCII,
        Codec::Ibm866 => IBM866,
        Codec::Latin1 => ISO_8859_1,
        Codec::Latin9 => ISO_8859_15,
        Codec::Windows1252 => WINDOWS_1252,
    };
    let on_error = match trap {
        Trap::Strict => EncoderTrap::Strict,
        Trap::Replace => EncoderTrap::Replace,
        Trap::Ignore => EncoderTrap::Ignore,
        Trap::NcrEscape => EncoderTrap::NcrEscape,
    };
    page.encode(text, on_error).ok()
}

/// The upper-case form of `text`, as `str::to_uppercase` gives it.
pub uninterp spec fn uppercase(text: Seq<char>) -> Seq<char>;

/// Calls `str::to_uppercase`. Trusted: the result is the one named by
/// `uppercase`.
#[verifier::external_body]
pub(crate) fn to_upper(text: &str) -> (r: String)
    ensures
        r@ == uppercase(text@),
{
    text.to_uppercase()
}

/// Whether two strings hold the same characters.
pub fn same_text(a: &str, b: &str) -> (r: bool)
    ensures
        r == (a@ == b@),
{
    let x = a.as_bytes();
    let y = b.as_bytes();
    proof {
        encode_utf8_decode_utf8(a@);
        encode_utf8_decode_utf8(b@);
    }
    if x.len() != y.len() {
        return false;
    }
    let mut i: usize = 0;
    while i < x.len()
        invariant
            i <= x@.len(),
            x@.len() == y@.len(),
            x@ == encode_utf8(a@),
            y@ == encode_utf8(b@),
            forall|j: int| 0 <= j < i ==> x@[j] == y@[j],
        decreases x@.len() - i,
    {
        if x[i] != y[i] {
            return false;
        }
        i += 1;
    }
    assert(x@ =~= y@);
    true
}

} // verus!
