//! The audio that the page hands over, in base64.

use vstd::prelude::*;

verus! {

/// The error of the `base64` crate for text that it cannot decode.
#[verifier::external_type_specification]
#[verifier::external_body]
pub struct ExDecodeError(base64::DecodeError);

/// The character for six bits of value `v`.
pub open spec fn base64_char(v: int) -> char {
    if v < 26 {
        ('A' as int + v) as char
    } else if v < 52 {
        ('a' as int + v - 26) as char
    } else if v < 62 {
        ('0' as int + v - 52) as char
    } else if v == 62 {
        '+'
    } else {
        '/'
    }
}

/// `data` in base64: four characters for every three bytes, the last of them padded with `=`.
pub open spec fn base64_text(data: Seq<u8>) -> Seq<char>
    decreases data.len(),
{
    let (a, b, c) = (data[0] as int, data[1] as int, data[2] as int);
    if data.len() == 0 {
        Seq::empty()
    } else if data.len() == 1 {
        seq![base64_char(a / 4), base64_char(a % 4 * 16), '=', '=']
    } else if data.len() == 2 {
        seq![
            base64_char(a / 4),
            base64_char(a % 4 * 16 + b / 16),
            base64_char(b % 16 * 4),
            '=',
        ]
    } else {
        seq![
            base64_char(a / 4),
            base64_char(a % 4 * 16 + b / 16),
            base64_char(b % 16 * 4 + c / 64),
            base64_char(c % 64),
        ] + base64_text(data.skip(3))
    }
}

/// Calls `Engine::decode` of the `STANDARD` engine, which knows the standard alphabet, demands
/// the padding, and takes no bits beyond the last byte. It returns the bytes that `text` is the
/// base64 of, or an error where `text` is not the base64 of any bytes.
#[verifier::external_body]
fn decode_base64(text: &str) -> (decoded: Result<Vec<u8>, base64::DecodeError>)
    ensures
        match decoded {
            Ok(data) => base64_text(data@) == text@,
            Err(_) => forall|data: Seq<u8>| #[trigger] base64_text(data) != text@,
        },
{
    base64::Engine::decode(&base64::engine::general_purpose::STANDARD, text)
}

proof fn lemma_base64_char(v: int, w: int)
    requires
        0 <= v < 64,
        0 <= w < 64,
    ensures
        base64_char(v) != '=',
        base64_char(v) == base64_char(w) ==> v == w,
{
}

/// Different bytes have different base64 texts.
pub proof fn law_base64_tells_data(x: Seq<u8>, y: Seq<u8>)
    requires
        base64_text(x) == base64_text(y),
    ensures
        x == y,
    decreases x.len(),
{
    let text = base64_text(x);
    if x.len() == 0 || y.len() == 0 {
        assert(text.len() == 0);
        assert(x =~= y);
    } else {
        let (a, b, c) = (x[0] as int, x[1] as int, x[2] as int);
        let (d, e, f) = (y[0] as int, y[1] as int, y[2] as int);
        lemma_base64_char(a / 4, d / 4);
        lemma_base64_char(a % 4 * 16, d % 4 * 16);
        lemma_base64_char(a % 4 * 16 + b / 16, d % 4 * 16 + e / 16);
        lemma_base64_char(b % 16 * 4, e % 16 * 4);
        lemma_base64_char(b % 16 * 4 + c / 64, e % 16 * 4 + f / 64);
        lemma_base64_char(e % 16 * 4 + f / 64, e % 16 * 4);
        lemma_base64_char(c % 64, f % 64);
        lemma_base64_char(f % 64, c % 64);
        assert(text[0] == base64_char(a / 4));
        assert(base64_text(y)[0] == base64_char(d / 4));
        if x.len() == 1 {
            assert(text[2] == '=');
            assert(text[3] == '=');
        } else if x.len() == 2 {
            assert(text[3] == '=');
            assert(text[2] == base64_char(b % 16 * 4));
        } else {
            assert(text[3] == base64_char(c % 64));
            assert(y.len() >= 3);
            assert(base64_text(x.skip(3)) =~= text.skip(4));
            assert(base64_text(y.skip(3)) =~= text.skip(4));
            law_base64_tells_data(x.skip(3), y.skip(3));
            assert(x =~= seq![x[0], x[1], x[2]] + x.skip(3));
            assert(y =~= seq![y[0], y[1], y[2]] + y.skip(3));
            assert(text[1] == base64_char(a % 4 * 16 + b / 16));
            assert(text[2] == base64_char(b % 16 * 4 + c / 64));
        }
        assert(x =~= y);
    }
}

/// The bytes that `text` is the base64 of, if there are any.
pub open spec fn base64_decoded(text: Seq<char>) -> Option<Seq<u8>> {
    if exists|data: Seq<u8>| #[trigger] base64_text(data) == text {
        Some(choose|data: Seq<u8>| #[trigger] base64_text(data) == text)
    } else {
        None
    }
}

/// Decoding gives back what was encoded.
pub proof fn law_base64_round_trip(data: Seq<u8>)
    ensures
        base64_decoded(base64_text(data)) == Some(data),
{
    let found = choose|other: Seq<u8>| #[trigger] base64_text(other) == base64_text(data);
    assert(base64_text(found) == base64_text(data));
    law_base64_tells_data(found, data);
}

/// The bytes that `text` is the base64 of, if there are any.
pub fn decode_audio(text: &str) -> (audio: Option<Vec<u8>>)
    ensures
        match audio {
            Some(data) => base64_decoded(text@) == Some(data@),
            None => base64_decoded(text@) is None,
        },
{
    match decode_base64(text) {
        Ok(data) => {
            proof {
                law_base64_round_trip(data@);
            }
            Some(data)
        },
        Err(_) => None,
    }
}

} // verus!
