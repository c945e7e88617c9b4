//! Bytes as text, in the standard base64 alphabet with padding.
use vstd::prelude::*;
use base64::engine::general_purpose::STANDARD;
use base64::{DecodeError, Engine};

use crate::error::{CdpError, CdpErrorView};

verus! {

/// The character for six bits.
pub open spec fn sextet_char(sextet: int) -> char {
    if 0 <= sextet < 26 {
        ('A' as u32 + sextet) as char
    } else if sextet < 52 {
        ('a' as u32 + (sextet - 26)) as char
    } else if sextet < 62 {
        ('0' as u32 + (sextet - 52)) as char
    } else if sextet == 62 {
        '+'
    } else {
        '/'
    }
}

/// Three bytes as four characters.
pub open spec fn group_chars(a: int, b: int, c: int) -> Seq<char> {
    seq![
        sextet_char(a / 4),
        sextet_char((a % 4) * 16 + b / 16),
        sextet_char((b % 16) * 4 + c / 64),
        sextet_char(c % 64),
    ]
}

/// Bytes in base64: four characters for three bytes, and at the end padding in
/// place of the characters that no byte reaches.
pub open spec fn base64_of(bytes: Seq<u8>) -> Seq<char>
    decreases bytes.len(),
{
    if bytes.len() == 0 {
        Seq::empty()
    } else if bytes.len() == 1 {
        group_chars(bytes[0] as int, 0, 0).take(2) + seq!['=', '=']
    } else if bytes.len() == 2 {
        group_chars(bytes[0] as int, bytes[1] as int, 0).take(3) + seq!['=']
    } else {
        group_chars(bytes[0] as int, bytes[1] as int, bytes[2] as int) + base64_of(bytes.skip(3))
    }
}

/// The text of so many bytes fits in memory.
pub open spec fn base64_fits(length: nat) -> bool {
    (length + 2) / 3 * 4 <= isize::MAX
}

/// Calls `base64::Engine::encode` on `base64::engine::general_purpose::STANDARD`.
///
/// Trusted: the text is the bytes in the standard alphabet, with padding. The
/// bound keeps out what `encode` panics on, a text that no string can hold.
#[verifier::external_body]
pub(crate) fn base64_encode(bytes: &Vec<u8>) -> (text: String)
    requires
        base64_fits(bytes@.len()),
    ensures
        text@ == base64_of(bytes@),
{
    STANDARD.encode(bytes)
}

/// The error of the base64 decoder. Verus carries it as a value and sees nothing
/// inside.
#[verifier::external_type_specification]
#[verifier::external_body]
pub struct ExDecodeError(DecodeError);

/// Calls `base64::Engine::decode` on `base64::engine::general_purpose::STANDARD`.
///
/// Trusted: the bytes are those whose text this is. There is an error if and only if
/// the text is that of no bytes: the decoder takes neither missing padding nor bits
/// that no byte reaches.
#[verifier::external_body]
fn base64_decode(text: &str) -> (bytes: Result<Vec<u8>, DecodeError>)
    ensures
        match bytes {
            Ok(b) => base64_of(b@) == text@,
            Err(e) => forall|b: Seq<u8>| #[trigger] base64_of(b) != text@,
        },
{
    STANDARD.decode(text)
}

/// The bytes of a text in base64.
pub fn decode_data(text: &str) -> (bytes: Result<Vec<u8>, CdpError>)
    ensures
        match bytes {
            Ok(b) => base64_of(b@) == text@,
            Err(e) => e@ == CdpErrorView::Decode && forall|b: Seq<u8>| #[trigger]
                base64_of(b) != text@,
        },
{
    match base64_decode(text) {
        Ok(bytes) => Ok(bytes),
        Err(_) => Err(CdpError::Decode),
    }
}

/// The bytes of a text in base64 are given back by [`decode_data`]: no two rows of
/// bytes have one text.
pub proof fn base64_text_has_one_meaning(a: Seq<u8>, b: Seq<u8>)
    requires
        base64_of(a) == base64_of(b),
    ensures
        a == b,
    decreases a.len(),
{
    lemma_length(a);
    lemma_length(b);
    let text = base64_of(a);
    if a.len() >= 3 && b.len() >= 3 {
        lemma_group(a[0], a[1], a[2], b[0], b[1], b[2]);
        let x = group_chars(a[0] as int, a[1] as int, a[2] as int);
        let y = group_chars(b[0] as int, b[1] as int, b[2] as int);
        assert(text.take(4) =~= x && text.take(4) =~= y);
        assert(text.skip(4) =~= base64_of(a.skip(3)) && text.skip(4) =~= base64_of(b.skip(3)));
        base64_text_has_one_meaning(a.skip(3), b.skip(3));
        assert(a =~= seq![a[0], a[1], a[2]] + a.skip(3));
        assert(b =~= seq![b[0], b[1], b[2]] + b.skip(3));
    } else if a.len() == 0 || b.len() == 0 {
        assert(a =~= b);
    } else if a.len() < 3 && b.len() < 3 {
        assert(text[3] == '=');
        if a.len() == 1 && b.len() == 1 {
            lemma_group(a[0], 0, 0, b[0], 0, 0);
            let x = group_chars(a[0] as int, 0, 0);
            let y = group_chars(b[0] as int, 0, 0);
            assert(text[0] == x[0] && text[1] == x[1] && text[0] == y[0] && text[1] == y[1]);
            assert(x =~= y);
            assert(a =~= b);
        } else if a.len() == 2 && b.len() == 2 {
            lemma_group(a[0], a[1], 0, b[0], b[1], 0);
            let x = group_chars(a[0] as int, a[1] as int, 0);
            let y = group_chars(b[0] as int, b[1] as int, 0);
            assert(text[0] == x[0] && text[1] == x[1] && text[2] == x[2]);
            assert(text[0] == y[0] && text[1] == y[1] && text[2] == y[2]);
            assert(x =~= y);
            assert(a =~= b);
        } else if a.len() == 1 {
            assert(text[2] == '=');
            lemma_sextet((b[1] % 16) * 4);
        } else {
            assert(text[2] == '=');
            lemma_sextet((a[1] % 16) * 4);
        }
    } else if a.len() < 3 {
        assert(text[3] == '=');
        assert(text[3] == group_chars(b[0] as int, b[1] as int, b[2] as int)[3]);
        lemma_sextet(b[2] as int % 64);
    } else {
        assert(text[3] == '=');
        assert(text[3] == group_chars(a[0] as int, a[1] as int, a[2] as int)[3]);
        lemma_sextet(a[2] as int % 64);
    }
}

/// Texts come in groups of four characters.
proof fn lemma_length(bytes: Seq<u8>)
    ensures
        base64_of(bytes).len() == (bytes.len() + 2) / 3 * 4,
    decreases bytes.len(),
{
    if bytes.len() >= 3 {
        lemma_length(bytes.skip(3));
    }
}

/// No six bits have the padding character.
proof fn lemma_sextet(sextet: int)
    requires
        0 <= sextet < 64,
    ensures
        sextet_char(sextet) != '=',
{
}

/// No two rows of six bits have one character.
proof fn lemma_sextet_once(a: int, b: int)
    requires
        0 <= a < 64,
        0 <= b < 64,
        sextet_char(a) == sextet_char(b),
    ensures
        a == b,
{
}

/// No two rows of three bytes have one group.
proof fn lemma_group(a0: u8, a1: u8, a2: u8, b0: u8, b1: u8, b2: u8)
    ensures
        group_chars(a0 as int, a1 as int, a2 as int) == group_chars(
            b0 as int,
            b1 as int,
            b2 as int,
        ) ==> a0 == b0 && a1 == b1 && a2 == b2,
{
    let x = group_chars(a0 as int, a1 as int, a2 as int);
    let y = group_chars(b0 as int, b1 as int, b2 as int);
    if x == y {
        assert(x[0] == y[0] && x[1] == y[1] && x[2] == y[2] && x[3] == y[3]);
        lemma_sextet_once(a0 as int / 4, b0 as int / 4);
        lemma_sextet_once((a0 as int % 4) * 16 + a1 as int / 16, (b0 as int % 4) * 16 + b1 as int / 16);
        lemma_sextet_once((a1 as int % 16) * 4 + a2 as int / 64, (b1 as int % 16) * 4 + b2 as int / 64);
        lemma_sextet_once(a2 as int % 64, b2 as int % 64);
    }
}

} // verus!
