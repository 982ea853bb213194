use vstd::prelude::*;
use vstd::slice::*;
use vstd::string::*;
use vstd::utf8::*;

verus! {

/// Whether a byte may stand in a header value that reads as text: a
/// printable ASCII character or a tab.
pub open spec fn is_visible_ascii(byte: u8) -> bool {
    (32 <= byte && byte < 127) || byte == 9
}

/// Whether a header value reads as text.
pub open spec fn is_text(bytes: Seq<u8>) -> bool {
    forall|i: int| 0 <= i < bytes.len() ==> is_visible_ascii(#[trigger] bytes[i])
}

/// The text that ASCII bytes spell.
pub open spec fn ascii_text(bytes: Seq<u8>) -> Seq<char> {
    Seq::new(bytes.len(), |i: int| bytes[i] as char)
}

/// The scheme that a bearer credential starts with, trailing space included.
pub open spec fn scheme() -> Seq<u8> {
    seq![0x42u8, 0x65u8, 0x61u8, 0x72u8, 0x65u8, 0x72u8, 0x20u8]
}

/// Whether a header value starts with the bearer scheme.
pub open spec fn has_scheme(bytes: Seq<u8>) -> bool {
    bytes.len() >= scheme().len() && bytes.subrange(0, scheme().len() as int) == scheme()
}

/// Whether a text can stand in a header value as it is: every character
/// is printable ASCII or a tab.
pub open spec fn is_header_text(text: Seq<char>) -> bool {
    forall|i: int|
        0 <= i < text.len() ==> (32 <= (#[trigger] text[i]) as u32 && (text[i] as u32) < 127)
            || text[i] as u32 == 9
}

/// The bytes that spell an ASCII text.
pub open spec fn text_bytes(text: Seq<char>) -> Seq<u8> {
    Seq::new(text.len(), |i: int| (text[i] as u32) as u8)
}

/// The credential header that presents a token: the scheme and the token.
pub open spec fn bearer_header(token: Seq<char>) -> Seq<u8> {
    scheme() + text_bytes(token)
}

/// Why no bearer token could be taken from a request.
#[derive(Clone, Copy, Debug, PartialEq, Eq, Structural)]
pub enum BearerFault {
    /// The request has no credential header.
    Missing,
    /// The header value does not read as text.
    NotText,
    /// The header value does not start with the bearer scheme.
    NoScheme,
}

/// What taking the bearer token from a credential header comes to.
pub open spec fn bearer_outcome(header: Option<Seq<u8>>) -> Result<Seq<char>, BearerFault> {
    match header {
        None => Err(BearerFault::Missing),
        Some(bytes) => if !is_text(bytes) {
            Err(BearerFault::NotText)
        } else if !has_scheme(bytes) {
            Err(BearerFault::NoScheme)
        } else {
            Ok(ascii_text(bytes.subrange(scheme().len() as int, bytes.len() as int)))
        },
    }
}

/// The bytes of a header value, where there is one.
pub open spec fn header_bytes(header: Option<&[u8]>) -> Option<Seq<u8>> {
    match header {
        Some(bytes) => Some(bytes@),
        None => None,
    }
}

/// The text of an extraction result.
pub open spec fn bearer_text(taken: Result<String, BearerFault>) -> Result<Seq<char>, BearerFault> {
    match taken {
        Ok(token) => Ok(token@),
        Err(fault) => Err(fault),
    }
}

/// Reads bytes as UTF-8 with `String::from_utf8`: it succeeds exactly on
/// valid UTF-8, and the string it makes consists of the bytes given.
#[verifier::external_body]
fn utf8_text(bytes: Vec<u8>) -> (text: Option<String>)
    ensures
        valid_utf8(bytes@) <==> text is Some,
        text matches Some(s) ==> encode_utf8(s@) == bytes@,
{
    match String::from_utf8(bytes) {
        Ok(text) => Some(text),
        Err(_) => None,
    }
}

/// Bytes that read as header text are the UTF-8 encoding of the text they spell.
proof fn lemma_text_is_utf8(bytes: Seq<u8>)
    requires
        is_text(bytes),
    ensures
        is_ascii_chars(ascii_text(bytes)),
        encode_utf8(ascii_text(bytes)) == bytes,
        valid_utf8(bytes),
        forall|chars: Seq<char>| encode_utf8(chars) == bytes ==> chars == ascii_text(bytes),
{
    let text = ascii_text(bytes);
    assert forall|i: int| 0 <= i < text.len() implies (text[i] as nat) < 128 by {
        assert(is_visible_ascii(bytes[i]));
    }
    assert(is_ascii_chars(text));
    is_ascii_chars_encode_utf8(text);
    assert(encode_utf8(text) =~= bytes) by {
        assert forall|i: int| 0 <= i < bytes.len() implies (text[i] as u8) == bytes[i] by {
            assert(is_visible_ascii(bytes[i]));
        }
    }
    encode_utf8_valid_utf8(text);
    assert forall|chars: Seq<char>| encode_utf8(chars) == bytes implies chars == text by {
        encode_utf8_decode_utf8(chars);
        encode_utf8_decode_utf8(text);
    }
}

/// A token that can stand in a header value is taken back out of the
/// header that presents it.
pub proof fn lemma_bearer_header(token: Seq<char>)
    requires
        is_header_text(token),
    ensures
        bearer_outcome(Some(bearer_header(token))) == Ok::<Seq<char>, BearerFault>(token),
{
    let header = bearer_header(token);
    let bytes = text_bytes(token);
    assert forall|i: int| 0 <= i < token.len() implies is_visible_ascii(#[trigger] bytes[i])
        && bytes[i] as char == token[i] by {
        let c = token[i];
        assert((32 <= c as u32 && (c as u32) < 127) || c as u32 == 9);
        let u = c as u32;
        assert(u as u8 as u32 == u) by (bit_vector)
            requires
                u < 128,
        ;
        char_u32_cast(c, u);
        assert(bytes[i] as u32 == u);
        assert(bytes[i] as char == u as char);
    }
    assert forall|i: int| 0 <= i < header.len() implies is_visible_ascii(#[trigger] header[i]) by {
        if i >= 7 {
            assert(header[i] == bytes[i - 7]);
        } else {
            assert(header[i] == scheme()[i]);
        }
    }
    assert(header.subrange(0, 7) =~= scheme());
    assert(header.subrange(7, header.len() as int) =~= bytes);
    assert(ascii_text(bytes) =~= token);
}

/// Whether every byte is a printable ASCII character or a tab.
pub fn reads_as_text(bytes: &[u8]) -> (answer: bool)
    ensures
        answer == is_text(bytes@),
{
    let mut i: usize = 0;
    while i < bytes.len()
        invariant
            i <= bytes.len(),
            forall|j: int| 0 <= j < i ==> is_visible_ascii(#[trigger] bytes@[j]),
        decreases bytes.len() - i,
    {
        let byte = bytes[i];
        if !((32 <= byte && byte < 127) || byte == 9) {
            return false;
        }
        i += 1;
    }
    true
}

/// Whether the header value starts with the bearer scheme.
pub fn starts_with_scheme(bytes: &[u8]) -> (answer: bool)
    ensures
        answer == has_scheme(bytes@),
{
    if bytes.len() < 7 {
        return false;
    }
    let answer = bytes[0] == 0x42 && bytes[1] == 0x65 && bytes[2] == 0x61 && bytes[3] == 0x72
        && bytes[4] == 0x65 && bytes[5] == 0x72 && bytes[6] == 0x20;
    proof {
        let head = bytes@.subrange(0, 7);
        if answer {
            assert(head =~= scheme());
        } else {
            assert(head[0] == bytes@[0] && head[1] == bytes@[1] && head[2] == bytes@[2]
                && head[3] == bytes@[3] && head[4] == bytes@[4] && head[5] == bytes@[5]
                && head[6] == bytes@[6]);
        }
    }
    answer
}

/// Takes the bearer token from a credential header: the header must be
/// there, read as text, and start with the scheme; the token is what follows.
pub fn bearer_token(header: Option<&[u8]>) -> (taken: Result<String, BearerFault>)
    ensures
        bearer_text(taken) == bearer_outcome(header_bytes(header)),
{
    let bytes = match header {
        None => {
            return Err(BearerFault::Missing);
        },
        Some(bytes) => bytes,
    };
    if !reads_as_text(bytes) {
        return Err(BearerFault::NotText);
    }
    if !starts_with_scheme(bytes) {
        return Err(BearerFault::NoScheme);
    }
    let rest = slice_subrange(bytes, 7, bytes.len());
    proof {
        assert(is_text(rest@)) by {
            assert forall|i: int| 0 <= i < rest@.len() implies is_visible_ascii(
                #[trigger] rest@[i],
            ) by {
                assert(rest@[i] == bytes@[i + 7]);
            }
        }
        lemma_text_is_utf8(rest@);
    }
    match utf8_text(slice_to_vec(rest)) {
        Some(token) => Ok(token),
        // Text of a header is ASCII, and ASCII is valid UTF-8: this arm is never taken.
        None => Err(BearerFault::NotText),
    }
}

} // verus!
