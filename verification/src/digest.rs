//! Digests of texts.
use vstd::prelude::*;
use vstd::string::*;
use vstd::utf8::encode_utf8;

use crate::text::{chars_of, digit_char};

verus! {

/// The number of characters of a digest.
pub const DIGEST_LENGTH: usize = 64;

/// The characters of a digest: decimal digits and the letters up to `f` in lower case.
pub open spec fn hex_char(c: char) -> bool {
    ('0' <= c && c <= '9') || ('a' <= c && c <= 'f')
}

/// Whether a text has the form of a digest.
pub open spec fn canonical_digest(text: Seq<char>) -> bool {
    text.len() == DIGEST_LENGTH
        && forall|i: int| 0 <= i < text.len() ==> hex_char(#[trigger] text[i])
}

/// The SHA-256 digest of some bytes.
pub uninterp spec fn sha256_bytes(bytes: Seq<u8>) -> Seq<u8>;

/// The bytes that a digest in the making has taken in.
pub uninterp spec fn digest_input(digest: ContentDigest) -> Seq<u8>;

/// A digest in the making: a `sha2::Sha256`. That type cannot be declared to Verus, so it is held
/// here, and what it has taken in is named.
#[verifier::external_body]
pub struct ContentDigest {
    hasher: sha2::Sha256,
}

impl ContentDigest {
    /// `sha2::Digest::new`: a hasher that has taken nothing in.
    #[verifier::external_body]
    pub(crate) fn start() -> (r: Self)
        ensures
            digest_input(r) == Seq::<u8>::empty(),
    {
        ContentDigest { hasher: <sha2::Sha256 as sha2::Digest>::new() }
    }

    /// `sha2::Digest::update`: the bytes are taken in behind those that were taken in before.
    #[verifier::external_body]
    pub(crate) fn absorb(&mut self, bytes: &[u8])
        ensures
            digest_input(*final(self)) == digest_input(*old(self)) + bytes@,
    {
        sha2::Digest::update(&mut self.hasher, bytes);
    }

    /// `sha2::Digest::finalize` on a copy of the hasher: the 32 bytes of the digest of what was
    /// taken in. The digest is named and not described, but for its length.
    #[verifier::external_body]
    pub(crate) fn value(&self) -> (r: Vec<u8>)
        ensures
            r@ == sha256_bytes(digest_input(*self)),
            r@.len() == 32,
    {
        sha2::Digest::finalize(self.hasher.clone()).to_vec()
    }
}

/// The digit of a number below sixteen, in lower case.
pub open spec fn lower_hex(d: nat) -> char {
    if d == 10 {
        'a'
    } else if d == 11 {
        'b'
    } else if d == 12 {
        'c'
    } else if d == 13 {
        'd'
    } else if d == 14 {
        'e'
    } else if d >= 15 {
        'f'
    } else {
        digit_char(d)
    }
}

/// Some bytes in lower-case hexadecimal notation.
pub open spec fn hex_text(bytes: Seq<u8>) -> Seq<char>
    decreases bytes.len(),
{
    if bytes.len() == 0 {
        Seq::empty()
    } else {
        hex_text(bytes.drop_last()) + seq![
            lower_hex((bytes.last() / 16) as nat),
            lower_hex((bytes.last() % 16) as nat),
        ]
    }
}

/// The SHA-256 digest of a text's UTF-8 bytes in lower-case hexadecimal notation.
pub open spec fn sha256_hex(bytes: Seq<u8>) -> Seq<char> {
    hex_text(sha256_bytes(bytes))
}

fn hex_digit(d: u8) -> (r: char)
    requires
        d < 16,
    ensures
        r == lower_hex(d as nat),
        hex_char(r),
{
    if d == 0 {
        '0'
    } else if d == 1 {
        '1'
    } else if d == 2 {
        '2'
    } else if d == 3 {
        '3'
    } else if d == 4 {
        '4'
    } else if d == 5 {
        '5'
    } else if d == 6 {
        '6'
    } else if d == 7 {
        '7'
    } else if d == 8 {
        '8'
    } else if d == 9 {
        '9'
    } else if d == 10 {
        'a'
    } else if d == 11 {
        'b'
    } else if d == 12 {
        'c'
    } else if d == 13 {
        'd'
    } else if d == 14 {
        'e'
    } else {
        'f'
    }
}

fn hex(bytes: &Vec<u8>) -> (r: String)
    ensures
        r@ == hex_text(bytes@),
        r@.len() == 2 * bytes@.len(),
        forall|i: int| 0 <= i < r@.len() ==> hex_char(#[trigger] r@[i]),
{
    let mut out = String::new();
    let mut i: usize = 0;
    assert(out@ =~= hex_text(bytes@.take(0)));
    while i < bytes.len()
        invariant
            i <= bytes@.len(),
            out@ == hex_text(bytes@.take(i as int)),
            out@.len() == 2 * i,
            forall|k: int| 0 <= k < out@.len() ==> hex_char(#[trigger] out@[k]),
        decreases bytes.len() - i,
    {
        let byte: u8 = bytes[i];
        out.push(hex_digit(byte / 16));
        out.push(hex_digit(byte % 16));
        proof {
            assert(bytes@.take(i + 1).drop_last() =~= bytes@.take(i as int));
            assert(bytes@.take(i + 1).last() == byte);
            assert(out@ =~= hex_text(bytes@.take(i + 1)));
        }
        i = i + 1;
    }
    assert(bytes@.take(bytes@.len() as int) =~= bytes@);
    out
}

/// The SHA-256 digest of a text in lower-case hexadecimal notation.
pub fn sha256_digest(text: &str) -> (r: String)
    ensures
        r@ == sha256_hex(encode_utf8(text@)),
        canonical_digest(r@),
{
    let mut digest = ContentDigest::start();
    digest.absorb(text.as_bytes());
    proof {
        assert(Seq::<u8>::empty() + encode_utf8(text@) =~= encode_utf8(text@));
    }
    hex(&digest.value())
}

/// Whether a text has the form of a digest.
pub fn is_canonical_digest(value: &str) -> (r: bool)
    ensures
        r == canonical_digest(value@),
{
    let v = chars_of(value);
    if v.len() != DIGEST_LENGTH {
        return false;
    }
    let mut i: usize = 0;
    while i < v.len()
        invariant
            i <= v@.len(),
            v@ == value@,
            forall|k: int| 0 <= k < i ==> hex_char(#[trigger] v@[k]),
        decreases v.len() - i,
    {
        let c = v[i];
        if !(('0' <= c && c <= '9') || ('a' <= c && c <= 'f')) {
            assert(!hex_char(value@[i as int]));
            return false;
        }
        i = i + 1;
    }
    true
}

} // verus!
