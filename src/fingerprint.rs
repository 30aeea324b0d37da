//! Stable 32-byte identities of keys, derived from their public component.
use vstd::prelude::*;
use crate::bytes::bytes_equal;
use crate::external::{sha256, sha256_digest, string_from_chars};

verus! {

/// Lowercase hexadecimal digit of a nibble.
pub open spec fn hex_digit(n: u8) -> char {
    if n < 10 {
        ((n + 48) as u8) as char
    } else {
        ((n + 87) as u8) as char
    }
}

/// Lowercase hexadecimal text of a byte sequence, two digits per byte.
pub open spec fn hex_of(b: Seq<u8>) -> Seq<char>
    decreases b.len(),
{
    if b.len() == 0 {
        Seq::empty()
    } else {
        hex_of(b.drop_last()) + seq![hex_digit(b.last() / 16), hex_digit(b.last() % 16)]
    }
}

/// The SHA-256 digest of a key's public component.
#[derive(Debug, Clone)]
pub struct KeyFingerprint {
    pub bytes: Vec<u8>,
}

impl View for KeyFingerprint {
    type V = Seq<u8>;

    open spec fn view(&self) -> Seq<u8> {
        self.bytes@
    }
}

pub open spec fn fingerprint_of(public_key: Seq<u8>) -> Seq<u8> {
    sha256(public_key)
}

fn hex_digit_exec(n: u8) -> (c: char)
    requires
        n < 16,
    ensures
        c == hex_digit(n),
{
    if n < 10 {
        ((n + 48) as u8) as char
    } else {
        ((n + 87) as u8) as char
    }
}

impl KeyFingerprint {
    /// The fingerprint of a public key component.
    pub fn from_public_key(public_key: &[u8]) -> (r: KeyFingerprint)
        ensures
            r@ == fingerprint_of(public_key@),
            r@.len() == 32,
    {
        KeyFingerprint { bytes: sha256_digest(public_key) }
    }

    /// A copy of this fingerprint.
    pub fn duplicate(&self) -> (r: KeyFingerprint)
        ensures
            r@ == self@,
    {
        KeyFingerprint { bytes: self.bytes.clone() }
    }

    /// The raw digest bytes.
    pub fn as_bytes(&self) -> (r: &[u8])
        ensures
            r@ == self@,
    {
        self.bytes.as_slice()
    }

    /// Whether two fingerprints name the same key.
    pub fn same_as(&self, other: &KeyFingerprint) -> (r: bool)
        ensures
            r == (self@ == other@),
    {
        bytes_equal(self.bytes.as_slice(), other.bytes.as_slice())
    }

    /// Lowercase hexadecimal rendering of the digest.
    pub fn hex(&self) -> (r: String)
        ensures
            r@ == hex_of(self@),
    {
        let mut out: Vec<char> = Vec::new();
        let mut i: usize = 0;
        while i < self.bytes.len()
            invariant
                0 <= i <= self.bytes@.len(),
                out@ == hex_of(self.bytes@.subrange(0, i as int)),
            decreases self.bytes@.len() - i,
        {
            let b = self.bytes[i];
            out.push(hex_digit_exec(b / 16));
            out.push(hex_digit_exec(b % 16));
            proof {
                let s = self.bytes@.subrange(0, i + 1);
                assert(s.drop_last() == self.bytes@.subrange(0, i as int));
                assert(s.last() == b);
            }
            i = i + 1;
        }
        assert(self.bytes@.subrange(0, self.bytes@.len() as int) == self.bytes@);
        string_from_chars(&out)
    }
}

} // verus!
