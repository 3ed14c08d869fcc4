//! The terminal's escape-code clipboard protocol on the wire.
//!
//! A sequence opens with `ESC ] 5 2 ;`, names the buffer (nothing for the
//! clipboard, `p` for the primary selection), and after another `;` carries
//! `?`, to ask for the text, or the text itself in base64. `ESC \` closes it.
//! The terminal answers a question with a sequence of the same form.

use super::text::from_utf8;
use super::{text_of, ClipboardError};
use vstd::prelude::*;
use vstd::string::StringExecFns;
use vstd::utf8::{decode_utf8, encode_utf8, valid_utf8};

verus! {

/// The byte `;`, which separates the fields of a sequence.
pub const SEPARATOR: u8 = 0x3b;

/// The byte `\`, the last of a sequence.
pub const BACKSLASH: u8 = 0x5c;

/// The bytes `ESC ] 5 2 ;`, which open a reply.
pub open spec fn reply_prefix() -> Seq<u8> {
    seq![0x1bu8, 0x5du8, 0x35u8, 0x32u8, 0x3bu8]
}

/// The bytes `ESC \`, which close a reply.
pub open spec fn terminator() -> Seq<u8> {
    seq![0x1bu8, 0x5cu8]
}

/// The sequence for a buffer and a payload, as characters.
pub open spec fn sequence_of(selector: Seq<char>, payload: Seq<char>) -> Seq<char> {
    seq!['\x1b', ']', '5', '2', ';'] + selector + seq![';'] + payload + seq!['\x1b', '\\']
}

/// The sequence that asks for the text of a buffer.
pub open spec fn query_of(selector: Seq<char>) -> Seq<char> {
    sequence_of(selector, seq!['?'])
}

/// The sequence for a buffer and a payload.
pub fn sequence(selector: &str, payload: &str) -> (sequence: String)
    ensures
        sequence@ == sequence_of(selector@, payload@),
{
    proof {
        reveal_strlit("\x1b]52;");
        reveal_strlit(";");
        reveal_strlit("\x1b\\");
    }
    let mut sequence = String::from_str("\x1b]52;");
    sequence.append(selector);
    sequence.append(";");
    sequence.append(payload);
    sequence.append("\x1b\\");
    assert(sequence@ =~= sequence_of(selector@, payload@));
    sequence
}

/// The sequence that asks for the text of a buffer.
pub fn query(selector: &str) -> (sequence: String)
    ensures
        sequence@ == query_of(selector@),
{
    proof {
        reveal_strlit("?");
    }
    let sequence = self::sequence(selector, "?");
    assert("?"@ =~= seq!['?']);
    sequence
}

/// Whether a reply opens and closes as a sequence does, the two ends apart.
pub open spec fn framed(reply: Seq<u8>) -> bool {
    &&& reply.len() >= reply_prefix().len() + terminator().len()
    &&& reply_prefix().is_prefix_of(reply)
    &&& terminator().is_suffix_of(reply)
}

/// The payload of a reply: what follows the first `;` between the two ends.
/// A reply that is not framed, or has no `;` there, has none.
pub open spec fn payload_of(reply: Seq<u8>) -> Option<Seq<u8>> {
    if framed(reply) {
        let fields = reply.subrange(5, reply.len() - 2);
        match fields.index_of_first(SEPARATOR) {
            Some(at) => Some(fields.skip(at + 1)),
            None => None,
        }
    } else {
        None
    }
}

/// The payload of a reply.
pub fn payload(reply: &[u8]) -> (found: Option<&[u8]>)
    ensures
        match found {
            Some(bytes) => payload_of(reply@) == Some(bytes@),
            None => payload_of(reply@) is None,
        },
{
    let len = reply.len();
    if len < 7 {
        return None;
    }
    if !(reply[0] == 0x1b && reply[1] == 0x5d && reply[2] == 0x35 && reply[3] == 0x32 && reply[4]
        == 0x3b) {
        assert(!reply_prefix().is_prefix_of(reply@)) by {
            if reply_prefix().is_prefix_of(reply@) {
                let head = reply@.subrange(0, 5);
                assert(head[0] == reply@[0] && head[1] == reply@[1] && head[2] == reply@[2]
                    && head[3] == reply@[3] && head[4] == reply@[4]);
            }
        }
        return None;
    }
    if !(reply[len - 2] == 0x1b && reply[len - 1] == 0x5c) {
        assert(!terminator().is_suffix_of(reply@)) by {
            if terminator().is_suffix_of(reply@) {
                let tail = reply@.subrange(len - 2, len as int);
                assert(tail[0] == reply@[len - 2] && tail[1] == reply@[len - 1]);
            }
        }
        return None;
    }
    assert(framed(reply@)) by {
        assert(reply_prefix() =~= reply@.subrange(0, 5));
        assert(terminator() =~= reply@.subrange(len - 2, len as int));
    }
    let fields = &reply[5..len - 2];
    let mut at: usize = 0;
    while at < fields.len()
        invariant
            framed(reply@),
            fields@ == reply@.subrange(5, reply@.len() - 2),
            at <= fields@.len(),
            forall|j: int| 0 <= j < at ==> fields@[j] != SEPARATOR,
        decreases fields@.len() - at,
    {
        if fields[at] == SEPARATOR {
            proof {
                assert(fields@.contains(SEPARATOR));
                fields@.index_of_first_ensures(SEPARATOR);
            }
            return Some(&fields[at + 1..fields.len()]);
        }
        at += 1;
    }
    proof {
        fields@.index_of_first_ensures(SEPARATOR);
    }
    None
}

/// A payload is shorter than its reply by the two ends and the `;` at least.
pub proof fn lemma_payload_len(reply: Seq<u8>)
    ensures
        payload_of(reply) matches Some(bytes) ==> bytes.len() + 8 <= reply.len(),
{
    if framed(reply) {
        reply.subrange(5, reply.len() - 2).index_of_first_ensures(SEPARATOR);
    }
}

/// The base64 text, in the standard alphabet and padded, of the bytes.
pub uninterp spec fn base64_encoding(bytes: Seq<u8>) -> Seq<char>;

/// The bytes that a base64 text, in the standard alphabet, stands for, if it
/// is well formed.
pub uninterp spec fn base64_decoding(text: Seq<u8>) -> Option<Seq<u8>>;

/// The length of the base64 text of that many bytes.
pub open spec fn encoded_len(len: nat) -> nat {
    len / 3 * 4 + if len % 3 > 0 {
        4nat
    } else {
        0nat
    }
}

/// Encodes bytes in base64.
///
/// Trusted: this is `base64::encode`, which computes the text from the bytes
/// alone; the contract gives that text a name. The function allocates the
/// whole text first and panics where its length, which is `encoded_len` of
/// the number of bytes, is more than an allocation can hold; the precondition
/// rules that out.
#[verifier::external_body]
fn encode(bytes: &[u8]) -> (text: String)
    requires
        encoded_len(bytes@.len()) <= isize::MAX,
    ensures
        text@ == base64_encoding(bytes@),
{
    base64::encode(bytes)
}

/// Decodes base64 text.
///
/// Trusted: this is `base64::decode`, which computes from the text alone
/// either the bytes or an error; the contract gives that result a name. The
/// function panics where rounding the length of the text up to a multiple of
/// eight overflows `usize`, which the precondition rules out. What it
/// allocates is shorter than the text.
#[verifier::external_body]
fn decode(text: &[u8]) -> (bytes: Option<Vec<u8>>)
    requires
        text@.len() + 7 <= usize::MAX,
    ensures
        match bytes {
            Some(decoded) => base64_decoding(text@) == Some(decoded@),
            None => base64_decoding(text@) is None,
        },
{
    base64::decode(text).ok()
}

/// Whether the base64 text of a text's UTF-8 encoding is no longer than an
/// allocation can be, so that the text can be encoded.
pub fn encodable(text: &str) -> (fits: bool)
    ensures
        fits == (encoded_len(encode_utf8(text@).len()) <= isize::MAX),
{
    let len = text.as_bytes().len();
    let limit = isize::MAX as usize;
    let groups = len / 3;
    if groups > limit / 4 {
        false
    } else if len % 3 > 0 {
        groups * 4 <= limit - 4
    } else {
        true
    }
}

/// The base64 text of a text's UTF-8 encoding.
pub fn encode_text(text: &str) -> (encoded: String)
    requires
        encoded_len(encode_utf8(text@).len()) <= isize::MAX,
    ensures
        encoded@ == base64_encoding(encode_utf8(text@)),
{
    encode(text.as_bytes())
}

/// The text of a reply whose payload decodes to `decoded`: the text that the
/// bytes encode in UTF-8. Without bytes the reply is malformed; with bytes
/// that encode no text it fails to decode.
pub open spec fn decoded_text_of(decoded: Option<Seq<u8>>) -> Result<Seq<char>, ClipboardError> {
    match decoded {
        None => Err(ClipboardError::ProtocolFormatFailure),
        Some(bytes) => if valid_utf8(bytes) {
            Ok(decode_utf8(bytes))
        } else {
            Err(ClipboardError::TextDecodingFailure)
        },
    }
}

/// The text of a reply whose payload decodes to `decoded`.
pub fn decoded_text(decoded: Option<Vec<u8>>) -> (result: Result<String, ClipboardError>)
    ensures
        text_of(result) == decoded_text_of(
            match decoded {
                Some(bytes) => Some(bytes@),
                None => None,
            },
        ),
{
    match decoded {
        None => Err(ClipboardError::ProtocolFormatFailure),
        Some(bytes) => match from_utf8(bytes) {
            Some(text) => Ok(text),
            None => Err(ClipboardError::TextDecodingFailure),
        },
    }
}

/// The text that a reply carries: its payload, decoded from base64 and then
/// from UTF-8. A reply without a payload is malformed.
pub open spec fn reply_text(reply: Seq<u8>) -> Result<Seq<char>, ClipboardError> {
    match payload_of(reply) {
        None => Err(ClipboardError::ProtocolFormatFailure),
        Some(payload) => decoded_text_of(base64_decoding(payload)),
    }
}

/// The text that a reply carries.
pub fn parse_reply(reply: &[u8]) -> (result: Result<String, ClipboardError>)
    ensures
        text_of(result) == reply_text(reply@),
{
    match payload(reply) {
        None => Err(ClipboardError::ProtocolFormatFailure),
        Some(bytes) => {
            proof {
                lemma_payload_len(reply@);
                vstd::slice::axiom_spec_len(reply);
            }
            decoded_text(decode(bytes))
        },
    }
}

} // verus!
