//! Byte encodings: Base64 for audio sent to clients, UTF-8 for response bodies.
use vstd::prelude::*;
use base64::Engine;
use vstd::utf8::{decode_utf8, valid_utf8};

verus! {

/// The symbol for a 6-bit value in the standard Base64 alphabet
/// `A-Z`, `a-z`, `0-9`, `+`, `/`.
pub open spec fn base64_symbol(v: int) -> char {
    if v < 26 {
        (65 + v) as char
    } else if v < 52 {
        (97 + (v - 26)) as char
    } else if v < 62 {
        (48 + (v - 52)) as char
    } else if v == 62 {
        '+'
    } else {
        '/'
    }
}

/// Standard Base64 with padding (RFC 4648, section 4): each group of three
/// bytes becomes four symbols; a last group of one or two bytes becomes two or
/// three symbols followed by `=` up to four.
pub open spec fn base64_standard(bytes: Seq<u8>) -> Seq<char>
    decreases bytes.len(),
{
    if bytes.len() == 0 {
        seq![]
    } else {
        let b0 = bytes[0] as int;
        let b1 = if bytes.len() > 1 { bytes[1] as int } else { 0 };
        let b2 = if bytes.len() > 2 { bytes[2] as int } else { 0 };
        if bytes.len() == 1 {
            seq![base64_symbol(b0 / 4), base64_symbol((b0 % 4) * 16), '=', '=']
        } else if bytes.len() == 2 {
            seq![
                base64_symbol(b0 / 4),
                base64_symbol((b0 % 4) * 16 + b1 / 16),
                base64_symbol((b1 % 16) * 4),
                '=',
            ]
        } else {
            seq![
                base64_symbol(b0 / 4),
                base64_symbol((b0 % 4) * 16 + b1 / 16),
                base64_symbol((b1 % 16) * 4 + b2 / 64),
                base64_symbol(b2 % 64),
            ] + base64_standard(bytes.skip(3))
        }
    }
}

/// `c` belongs to the standard Base64 alphabet or is the padding symbol.
pub open spec fn is_base64_char(c: char) -> bool {
    ||| 'A' <= c <= 'Z'
    ||| 'a' <= c <= 'z'
    ||| '0' <= c <= '9'
    ||| c == '+'
    ||| c == '/'
    ||| c == '='
}

/// The length of the Base64 text of `n` bytes.
pub open spec fn base64_len(n: int) -> int {
    (n + 2) / 3 * 4
}

/// `base64::engine::general_purpose::STANDARD.encode`: the standard alphabet
/// with padding, as `base64_standard` states. The crate panics when the output
/// length does not fit in `usize`; that input is excluded.
#[verifier::external_body]
fn base64_encode(bytes: &[u8]) -> (res: String)
    requires
        base64_len(bytes@.len() as int) <= usize::MAX,
    ensures
        res@ == base64_standard(bytes@),
{
    base64::engine::general_purpose::STANDARD.encode(bytes)
}

/// `std::str::from_utf8`: succeeds exactly on valid UTF-8, whose decoded text
/// the result then holds (as an owned `String`).
#[verifier::external_body]
fn utf8_text(bytes: &[u8]) -> (res: Option<String>)
    ensures
        res is Some <==> valid_utf8(bytes@),
        res matches Some(s) ==> s@ == decode_utf8(bytes@),
{
    match std::str::from_utf8(bytes) {
        Ok(s) => Some(s.to_string()),
        Err(_) => None,
    }
}

/// The audio of a spoken text as it is handed to clients: standard Base64.
pub fn speech_base64(audio: &[u8]) -> (res: String)
    requires
        base64_len(audio@.len() as int) <= usize::MAX,
    ensures
        res@ == base64_standard(audio@),
{
    base64_encode(audio)
}

/// Whether the Base64 text of `n` bytes has a length that fits in `usize`.
pub fn base64_fits(n: usize) -> (res: bool)
    ensures
        res == (base64_len(n as int) <= usize::MAX),
{
    let groups = n / 3 + if n % 3 == 0 { 0 } else { 1 };
    assert(groups == (n + 2) / 3);
    groups <= usize::MAX / 4
}

/// The text that `bytes` hold, when they are valid UTF-8.
pub fn decode_text(bytes: &[u8]) -> (res: Option<String>)
    ensures
        res is Some <==> valid_utf8(bytes@),
        res matches Some(s) ==> s@ == decode_utf8(bytes@),
{
    utf8_text(bytes)
}

/// The Base64 text of `n` bytes has `4 * ceil(n / 3)` symbols.
pub proof fn lemma_base64_length(bytes: Seq<u8>)
    ensures
        base64_standard(bytes).len() == base64_len(bytes.len() as int),
    decreases bytes.len(),
{
    if bytes.len() > 2 {
        lemma_base64_length(bytes.skip(3));
    }
}

/// Every symbol of a Base64 text is in the standard alphabet or is `=`.
pub proof fn lemma_base64_alphabet(bytes: Seq<u8>)
    ensures
        forall|i: int|
            0 <= i < base64_standard(bytes).len() ==> is_base64_char(
                #[trigger] base64_standard(bytes)[i],
            ),
    decreases bytes.len(),
{
    assert forall|v: int| 0 <= v < 64 implies is_base64_char(#[trigger] base64_symbol(v)) by {}
    if bytes.len() > 2 {
        lemma_base64_alphabet(bytes.skip(3));
    }
    assert forall|i: int| 0 <= i < base64_standard(bytes).len() implies is_base64_char(
        #[trigger] base64_standard(bytes)[i],
    ) by {
        if bytes.len() > 2 && i >= 4 {
            assert(base64_standard(bytes)[i] == base64_standard(bytes.skip(3))[i - 4]);
        }
    }
}


/// The 6-bit value of a symbol of the standard Base64 alphabet.
pub open spec fn base64_value(c: char) -> int {
    if 'A' <= c <= 'Z' {
        c as int - 65
    } else if 'a' <= c <= 'z' {
        c as int - 97 + 26
    } else if '0' <= c <= '9' {
        c as int - 48 + 52
    } else if c == '+' {
        62
    } else {
        63
    }
}

/// Decoding of standard Base64 with padding: each group of four symbols gives
/// three bytes, or one byte when its third symbol is `=`, or two when only its
/// fourth is; a padded group ends the text.
pub open spec fn base64_decode_standard(text: Seq<char>) -> Seq<u8>
    decreases text.len(),
{
    if text.len() < 4 {
        seq![]
    } else {
        let v0 = base64_value(text[0]);
        let v1 = base64_value(text[1]);
        let v2 = base64_value(text[2]);
        let v3 = base64_value(text[3]);
        let b0 = (v0 * 4 + v1 / 16) as u8;
        let b1 = ((v1 % 16) * 16 + v2 / 4) as u8;
        let b2 = ((v2 % 4) * 64 + v3) as u8;
        if text[2] == '=' {
            seq![b0]
        } else if text[3] == '=' {
            seq![b0, b1]
        } else {
            seq![b0, b1, b2] + base64_decode_standard(text.skip(4))
        }
    }
}

proof fn lemma_symbol_value(v: int)
    requires
        0 <= v < 64,
    ensures
        base64_value(base64_symbol(v)) == v,
        base64_symbol(v) != '=',
{
}

proof fn lemma_group_bits(b0: int, b1: int, b2: int)
    requires
        0 <= b0 < 256,
        0 <= b1 < 256,
        0 <= b2 < 256,
    ensures
        0 <= b0 / 4 < 64,
        0 <= (b0 % 4) * 16 + b1 / 16 < 64,
        0 <= (b1 % 16) * 4 + b2 / 64 < 64,
        0 <= b2 % 64 < 64,
        (b0 / 4) * 4 + ((b0 % 4) * 16 + b1 / 16) / 16 == b0,
        (((b0 % 4) * 16 + b1 / 16) % 16) * 16 + ((b1 % 16) * 4 + b2 / 64) / 4 == b1,
        (((b1 % 16) * 4 + b2 / 64) % 4) * 64 + b2 % 64 == b2,
{
    assert(0 <= (b0 % 4) * 16 + b1 / 16 < 64) by (nonlinear_arith)
        requires
            0 <= b0 < 256,
            0 <= b1 < 256,
    ;
    assert(((b0 % 4) * 16 + b1 / 16) / 16 == b0 % 4) by (nonlinear_arith)
        requires
            0 <= b0 < 256,
            0 <= b1 < 256,
    ;
    assert(((b0 % 4) * 16 + b1 / 16) % 16 == b1 / 16) by (nonlinear_arith)
        requires
            0 <= b0 < 256,
            0 <= b1 < 256,
    ;
    assert(((b1 % 16) * 4 + b2 / 64) / 4 == b1 % 16) by (nonlinear_arith)
        requires
            0 <= b1 < 256,
            0 <= b2 < 256,
    ;
    assert(((b1 % 16) * 4 + b2 / 64) % 4 == b2 / 64) by (nonlinear_arith)
        requires
            0 <= b1 < 256,
            0 <= b2 < 256,
    ;
    assert(0 <= (b1 % 16) * 4 + b2 / 64 < 64) by (nonlinear_arith)
        requires
            0 <= b1 < 256,
            0 <= b2 < 256,
    ;
}

/// Decoding the Base64 text of some bytes gives the same bytes back.
pub proof fn lemma_base64_round_trip(bytes: Seq<u8>)
    ensures
        base64_decode_standard(base64_standard(bytes)) == bytes,
    decreases bytes.len(),
{
    if bytes.len() == 0 {
        assert(base64_decode_standard(base64_standard(bytes)) =~= bytes);
    } else {
        let b0 = bytes[0] as int;
        let b1 = if bytes.len() > 1 { bytes[1] as int } else { 0 };
        let b2 = if bytes.len() > 2 { bytes[2] as int } else { 0 };
        lemma_group_bits(b0, b1, b2);
        lemma_symbol_value(b0 / 4);
        lemma_symbol_value((b0 % 4) * 16 + b1 / 16);
        lemma_symbol_value((b1 % 16) * 4 + b2 / 64);
        lemma_symbol_value(b2 % 64);
        let text = base64_standard(bytes);
        if bytes.len() == 1 {
            assert(b1 == 0);
            assert(base64_decode_standard(text) =~= bytes);
        } else if bytes.len() == 2 {
            assert(b2 == 0);
            assert(base64_decode_standard(text) =~= bytes);
        } else {
            lemma_base64_round_trip(bytes.skip(3));
            let head = seq![
                base64_symbol(b0 / 4),
                base64_symbol((b0 % 4) * 16 + b1 / 16),
                base64_symbol((b1 % 16) * 4 + b2 / 64),
                base64_symbol(b2 % 64),
            ];
            assert(text == head + base64_standard(bytes.skip(3)));
            assert(text.skip(4) =~= base64_standard(bytes.skip(3)));
            assert(base64_decode_standard(text) =~= bytes);
        }
    }
}

/// The audio text of `audio` has `4 * ceil(n / 3)` symbols and decodes back to
/// `audio`.
pub proof fn lemma_speech_base64_round_trip(audio: Seq<u8>)
    ensures
        base64_standard(audio).len() == base64_len(audio.len() as int),
        base64_decode_standard(base64_standard(audio)) == audio,
{
    lemma_base64_length(audio);
    lemma_base64_round_trip(audio);
}

} // verus!
