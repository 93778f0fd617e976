//! Base64 with the standard alphabet and padding.

use vstd::prelude::*;
use vstd::string::*;
use base64::Engine;

verus! {

/// The character that stands for six bits.
pub open spec fn sextet_char(v: int) -> char {
    if v < 26 {
        (65 + v) as char
    } else if v < 52 {
        (97 + (v - 26)) as char
    } else if v < 62 {
        (48 + (v - 52)) as char
    } else if v == 62 {
        '+'
    } else {
        '/'
    }
}

/// The base64 text of `bytes`: four characters for every three bytes, the
/// last group filled up with `=`.
pub open spec fn base64_text(bytes: Seq<u8>) -> Seq<char>
    decreases bytes.len(),
{
    if bytes.len() == 0 {
        Seq::empty()
    } else if bytes.len() == 1 {
        let b0 = bytes[0] as int;
        seq![sextet_char(b0 / 4), sextet_char((b0 % 4) * 16), '=', '=']
    } else if bytes.len() == 2 {
        let b0 = bytes[0] as int;
        let b1 = bytes[1] as int;
        seq![
            sextet_char(b0 / 4),
            sextet_char((b0 % 4) * 16 + b1 / 16),
            sextet_char((b1 % 16) * 4),
            '=',
        ]
    } else {
        let b0 = bytes[0] as int;
        let b1 = bytes[1] as int;
        let b2 = bytes[2] as int;
        seq![
            sextet_char(b0 / 4),
            sextet_char((b0 % 4) * 16 + b1 / 16),
            sextet_char((b1 % 16) * 4 + b2 / 64),
            sextet_char(b2 % 64),
        ] + base64_text(bytes.skip(3))
    }
}

/// The length of the base64 text of `len` bytes.
pub open spec fn base64_len(len: nat) -> nat {
    (len + 2) / 3 * 4
}

/// The base64 text of `len` bytes is `base64_len(len)` characters long.
pub proof fn lemma_base64_len(bytes: Seq<u8>)
    ensures
        base64_text(bytes).len() == base64_len(bytes.len()),
    decreases bytes.len(),
{
    if bytes.len() >= 3 {
        lemma_base64_len(bytes.skip(3));
    }
}

fn sextet(v: u8) -> (c: char)
    requires
        v < 64,
    ensures
        c == sextet_char(v as int),
{
    if v < 26 {
        (65 + v) as char
    } else if v < 52 {
        (97 + (v - 26)) as char
    } else if v < 62 {
        (48 + (v - 52)) as char
    } else if v == 62 {
        '+'
    } else {
        '/'
    }
}

/// Encodes `data` as base64.
pub fn base64_encode(data: &[u8]) -> (text: String)
    ensures
        text@ == base64_text(data@),
{
    let mut text = String::new();
    let mut i: usize = 0;
    assert(data@.skip(0) =~= data@);
    while data.len() - i >= 3
        invariant
            i <= data.len(),
            text@ + base64_text(data@.skip(i as int)) == base64_text(data@),
        decreases data.len() - i,
    {
        let b0: u8 = data[i];
        let b1: u8 = data[i + 1];
        let b2: u8 = data[i + 2];
        let ghost rest = data@.skip(i as int);
        let ghost before = text@;
        proof {
            assert(rest[0] == b0 && rest[1] == b1 && rest[2] == b2);
            assert(rest.skip(3) =~= data@.skip(i + 3));
            assert(b0 >> 2 == b0 / 4) by (bit_vector);
            assert(((b0 & 0x03) << 4) | (b1 >> 4) == (b0 % 4) * 16 + b1 / 16) by (bit_vector);
            assert(((b1 & 0x0f) << 2) | (b2 >> 6) == (b1 % 16) * 4 + b2 / 64) by (bit_vector);
            assert(b2 & 0x3f == b2 % 64) by (bit_vector);
        }
        text.push(sextet(b0 >> 2));
        text.push(sextet(((b0 & 0x03) << 4) | (b1 >> 4)));
        text.push(sextet(((b1 & 0x0f) << 2) | (b2 >> 6)));
        text.push(sextet(b2 & 0x3f));
        proof {
            assert(text@ =~= before + seq![
                sextet_char(b0 as int / 4),
                sextet_char((b0 as int % 4) * 16 + b1 as int / 16),
                sextet_char((b1 as int % 16) * 4 + b2 as int / 64),
                sextet_char(b2 as int % 64),
            ]);
            assert(text@ + base64_text(rest.skip(3)) =~= before + base64_text(rest));
        }
        i = i + 3;
    }
    let ghost rest = data@.skip(i as int);
    let ghost before = text@;
    if data.len() - i == 1 {
        let b0: u8 = data[i];
        proof {
            assert(rest[0] == b0);
            assert(b0 >> 2 == b0 / 4) by (bit_vector);
            assert((b0 & 0x03) << 4 == (b0 % 4) * 16) by (bit_vector);
        }
        text.push(sextet(b0 >> 2));
        text.push(sextet((b0 & 0x03) << 4));
        text.push('=');
        text.push('=');
        assert(text@ =~= before + base64_text(rest));
    } else if data.len() - i == 2 {
        let b0: u8 = data[i];
        let b1: u8 = data[i + 1];
        proof {
            assert(rest[0] == b0 && rest[1] == b1);
            assert(b0 >> 2 == b0 / 4) by (bit_vector);
            assert(((b0 & 0x03) << 4) | (b1 >> 4) == (b0 % 4) * 16 + b1 / 16) by (bit_vector);
            assert((b1 & 0x0f) << 2 == (b1 % 16) * 4) by (bit_vector);
        }
        text.push(sextet(b0 >> 2));
        text.push(sextet(((b0 & 0x03) << 4) | (b1 >> 4)));
        text.push(sextet((b1 & 0x0f) << 2));
        text.push('=');
        assert(text@ =~= before + base64_text(rest));
    } else {
        assert(text@ =~= before + base64_text(rest));
    }
    text
}

/// `Engine::encode` of the base64 crate on its `STANDARD` engine: the
/// alphabet of RFC 4648 with padding, which is `base64_text`. The crate
/// panics where the length of the text does not fit in a `usize`; such
/// inputs are left out.
#[verifier::external_body]
pub(crate) fn standard_encode(bytes: &[u8]) -> (text: String)
    requires
        base64_len(bytes@.len()) <= usize::MAX,
    ensures
        text@ == base64_text(bytes@),
{
    base64::engine::general_purpose::STANDARD.encode(bytes)
}

/// Encodes `bytes` as base64 with the engine of the base64 crate. The crate
/// gives up where the length of the text does not fit in a `usize`; such
/// bytes go to `base64_encode` instead.
pub fn encode(bytes: &[u8]) -> (text: String)
    ensures
        text@ == base64_text(bytes@),
{
    let tail: usize = if bytes.len() % 3 > 0 {
        1
    } else {
        0
    };
    let groups: usize = bytes.len() / 3 + tail;
    assert(groups == (bytes@.len() + 2) / 3);
    match groups.checked_mul(4) {
        Some(_) => standard_encode(bytes),
        None => base64_encode(bytes),
    }
}

} // verus!
