//! The content fingerprint: the SHA-256 digest of the bytes as they were
//! received, written in lowercase hexadecimal.

use sha2::Digest;
use vstd::prelude::*;

verus! {

/// The SHA-256 digest of a byte sequence.
pub uninterp spec fn sha256(data: Seq<u8>) -> Seq<u8>;

/// The lowercase character of one hexadecimal digit.
pub open spec fn hex_digit(n: nat) -> char
    recommends
        n < 16,
{
    if n == 0 {
        '0'
    } else if n == 1 {
        '1'
    } else if n == 2 {
        '2'
    } else if n == 3 {
        '3'
    } else if n == 4 {
        '4'
    } else if n == 5 {
        '5'
    } else if n == 6 {
        '6'
    } else if n == 7 {
        '7'
    } else if n == 8 {
        '8'
    } else if n == 9 {
        '9'
    } else if n == 10 {
        'a'
    } else if n == 11 {
        'b'
    } else if n == 12 {
        'c'
    } else if n == 13 {
        'd'
    } else if n == 14 {
        'e'
    } else {
        'f'
    }
}

/// Bytes in lowercase hexadecimal: two digits for each byte, the high
/// half first.
pub open spec fn hex_lower(data: Seq<u8>) -> Seq<char> {
    Seq::new(
        2 * data.len(),
        |i: int|
            if i % 2 == 0 {
                hex_digit((data[i / 2] / 16) as nat)
            } else {
                hex_digit((data[i / 2] % 16) as nat)
            },
    )
}

/// The fingerprint of a submission, a function of its bytes and of
/// nothing else.
pub open spec fn fingerprint(data: Seq<u8>) -> Seq<char> {
    hex_lower(sha256(data))
}

/// Is this one of the characters that a fingerprint is written in?
pub open spec fn is_lower_hex(c: char) -> bool {
    exists|n: nat| n < 16 && c == #[trigger] hex_digit(n)
}

/// Calls `Sha256::digest` of the crate sha2. Trusted: the result is the
/// SHA-256 digest of the input, which is 32 bytes long.
#[verifier::external_body]
fn sha256_digest(data: &[u8]) -> (d: Vec<u8>)
    ensures
        d@ == sha256(data@),
        d@.len() == 32,
{
    sha2::Sha256::digest(data).to_vec()
}

/// Calls `hex::encode` of the crate hex. Trusted: the result holds, for
/// each byte in turn, the digit of its high half and then the digit of
/// its low half, in lowercase.
#[verifier::external_body]
fn hex_encode(data: &[u8]) -> (s: String)
    ensures
        s@ == hex_lower(data@),
{
    hex::encode(data)
}

/// Computes the fingerprint of a submission from its raw bytes.
pub fn content_fingerprint(data: &[u8]) -> (s: String)
    ensures
        s@ == fingerprint(data@),
        s@.len() == 64,
        forall|i: int| 0 <= i < 64 ==> is_lower_hex(#[trigger] s@[i]),
{
    let digest = sha256_digest(data);
    let s = hex_encode(digest.as_slice());
    proof {
        lemma_hex_lower_chars(digest@);
    }
    s
}

/// Hexadecimal text is twice as long as the bytes it stands for, and
/// holds nothing but lowercase hexadecimal digits.
pub proof fn lemma_hex_lower_chars(data: Seq<u8>)
    ensures
        hex_lower(data).len() == 2 * data.len(),
        forall|i: int| 0 <= i < 2 * data.len() ==> is_lower_hex(#[trigger] hex_lower(data)[i]),
{
    assert forall|i: int| 0 <= i < 2 * data.len() implies is_lower_hex(
        #[trigger] hex_lower(data)[i],
    ) by {
        let b = data[i / 2];
        let n: nat = if i % 2 == 0 {
            (b / 16) as nat
        } else {
            (b % 16) as nat
        };
        assert(n < 16);
        assert(hex_lower(data)[i] == hex_digit(n));
    }
}

/// Equal bytes have equal fingerprints, whenever and wherever they are
/// computed.
pub proof fn lemma_fingerprint_deterministic(a: Seq<u8>, b: Seq<u8>)
    requires
        a == b,
    ensures
        fingerprint(a) == fingerprint(b),
{
}

} // verus!
