use vstd::prelude::*;

use sha2::{Digest, Sha256};

use crate::text::{ascii_chars, ascii_text};

verus! {

/// The SHA-256 digest of the bytes, as `Sha256::digest` computes it.
pub uninterp spec fn sha256_digest(bytes: Seq<u8>) -> Seq<u8>;

pub open spec fn lower_hex_byte(d: int) -> u8 {
    if 0 <= d < 10 {
        (0x30 + d) as u8
    } else {
        (0x61 + d - 10) as u8
    }
}

/// Two lowercase hexadecimal digits per byte, high nibble first.
pub open spec fn lower_hex(bytes: Seq<u8>) -> Seq<u8> {
    Seq::new(
        2 * bytes.len(),
        |i: int|
            if i % 2 == 0 {
                lower_hex_byte((bytes[i / 2] / 16) as int)
            } else {
                lower_hex_byte((bytes[i / 2] % 16) as int)
            },
    )
}

/// Calls `Sha256::digest`; the digest is named `sha256_digest`, and is 32 bytes
/// long, as the type's output size says.
#[verifier::external_body]
pub(crate) fn sha256(bytes: &[u8]) -> (r: Vec<u8>)
    ensures
        r@ == sha256_digest(bytes@),
        r@.len() == 32,
{
    Sha256::digest(bytes).to_vec()
}

/// The lowercase hexadecimal text of the bytes.
pub fn lower_hex_text(bytes: &[u8]) -> (r: Vec<u8>)
    ensures
        r@ == lower_hex(bytes@),
{
    let mut out: Vec<u8> = Vec::new();
    let mut i: usize = 0;
    while i < bytes.len()
        invariant
            i <= bytes@.len(),
            out@.len() == 2 * i,
            forall|j: int| 0 <= j < 2 * i ==> out@[j] == lower_hex(bytes@)[j],
        decreases bytes@.len() - i,
    {
        let b = bytes[i];
        let high = b / 16;
        let low = b % 16;
        let high_char: u8 = if high < 10 { 0x30 + high } else { 0x61 + high - 10 };
        let low_char: u8 = if low < 10 { 0x30 + low } else { 0x61 + low - 10 };
        out.push(high_char);
        out.push(low_char);
        i = i + 1;
    }
    assert(out@ =~= lower_hex(bytes@));
    out
}

/// The lowercase hexadecimal SHA-256 digest of the bytes, 64 characters.
pub fn sha256_hex(bytes: &[u8]) -> (r: Vec<u8>)
    ensures
        r@ == lower_hex(sha256_digest(bytes@)),
        r@.len() == 64,
{
    let digest = sha256(bytes);
    lower_hex_text(digest.as_slice())
}

/// The lowercase hexadecimal SHA-256 digest of the bytes, as text.
pub open spec fn hex_digest_text(bytes: Seq<u8>) -> Seq<char> {
    ascii_chars(lower_hex(sha256_digest(bytes)))
}

/// The lowercase hexadecimal SHA-256 digest of the bytes as text, 64 characters.
pub fn sha256_hex_text(bytes: &[u8]) -> (r: String)
    ensures
        r@ == hex_digest_text(bytes@),
        r@.len() == 64,
{
    let hex = sha256_hex(bytes);
    assert forall|i: int| 0 <= i < hex@.len() implies hex@[i] < 128 by {
        let b = sha256_digest(bytes@)[i / 2];
        assert(0 <= b / 16 < 16 && 0 <= b % 16 < 16);
    }
    ascii_text(hex)
}

} // verus!
