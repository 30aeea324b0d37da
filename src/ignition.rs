//! Ignition keys: key material wrapped under a passphrase so that the
//! passphrase alone recovers it.
use vstd::prelude::*;
use crate::bytes::{append_bytes, be64, be64_bytes, bytes_equal};
use crate::error::{AgeError, AgeResult};
use crate::external::{sha256, sha256_digest};
use crate::fingerprint::{fingerprint_of, KeyFingerprint};
use crate::key_type::KeyType;
use crate::security::{char_count, count_chars};
use vstd::string::StringSliceAdditionalSpecFns;

verus! {

/// Minimum passphrase length, in characters, for an ignition key.
pub const IGNITION_MIN_PASSPHRASE: usize = 12;

/// Whether a key of this tier may be wrapped in an ignition key.
pub open spec fn wrappable(t: KeyType) -> bool {
    t == KeyType::Skull || t == KeyType::Ignition || t == KeyType::Distro
}

/// The iterated key derivation: SHA-256 of passphrase and salt, then `rounds`
/// further digests of the previous value followed by the passphrase.
pub open spec fn kdf(passphrase: Seq<u8>, salt: Seq<u8>, rounds: nat) -> Seq<u8>
    decreases rounds,
{
    if rounds == 0 {
        sha256(passphrase + salt)
    } else {
        sha256(kdf(passphrase, salt, (rounds - 1) as nat) + passphrase)
    }
}

/// Byte `i` of the keystream: byte `i mod 32` of the digest of the key and the
/// block number `i / 32`.
pub open spec fn keystream_byte(key: Seq<u8>, i: int) -> u8 {
    sha256(key + be64((i / 32) as u64))[i % 32]
}

/// Data XORed with the keystream of `key`.
pub open spec fn xor_stream(key: Seq<u8>, data: Seq<u8>) -> Seq<u8> {
    Seq::new(data.len(), |i: int| data[i] ^ keystream_byte(key, i))
}

/// The authentication tag of a ciphertext under a key.
pub open spec fn tag_of(key: Seq<u8>, ciphertext: Seq<u8>) -> Seq<u8> {
    sha256(key + ciphertext)
}

/// Key material wrapped under a passphrase-derived key.
#[derive(Debug, Clone)]
pub struct IgnitionKey {
    pub wrapped_ciphertext: Vec<u8>,
    pub wrapped_key_type: KeyType,
    pub salt: Vec<u8>,
    pub kdf_rounds: u32,
    pub check_tag: Vec<u8>,
    pub outer_fingerprint: KeyFingerprint,
    pub description: Option<String>,
}

/// What opening an ignition key with a passphrase yields: the unwrapped
/// material when the tag checks, nothing otherwise.
pub open spec fn opened(k: IgnitionKey, passphrase: Seq<u8>) -> Option<Seq<u8>> {
    let key = kdf(passphrase, k.salt@, k.kdf_rounds as nat);
    if k.check_tag@ == tag_of(key, k.wrapped_ciphertext@) {
        Some(xor_stream(key, k.wrapped_ciphertext@))
    } else {
        None
    }
}

/// Derives the wrapping key from a passphrase and salt.
pub fn derive_key(passphrase: &[u8], salt: &[u8], rounds: u32) -> (r: Vec<u8>)
    ensures
        r@ == kdf(passphrase@, salt@, rounds as nat),
{
    let mut msg: Vec<u8> = Vec::new();
    append_bytes(&mut msg, passphrase);
    append_bytes(&mut msg, salt);
    let mut key = sha256_digest(msg.as_slice());
    let mut i: u32 = 0;
    while i < rounds
        invariant
            0 <= i <= rounds,
            key@ == kdf(passphrase@, salt@, i as nat),
        decreases rounds - i,
    {
        let mut next: Vec<u8> = Vec::new();
        append_bytes(&mut next, key.as_slice());
        append_bytes(&mut next, passphrase);
        key = sha256_digest(next.as_slice());
        i = i + 1;
    }
    key
}

/// XORs data with the keystream of `key`; applying it twice restores the data.
pub fn apply_stream(key: &[u8], data: &[u8]) -> (r: Vec<u8>)
    ensures
        r@ == xor_stream(key@, data@),
{
    let mut out: Vec<u8> = Vec::new();
    let mut block: Vec<u8> = Vec::new();
    let mut i: usize = 0;
    while i < data.len()
        invariant
            0 <= i <= data@.len(),
            out@ =~= xor_stream(key@, data@).subrange(0, i as int),
            i % 32 != 0 ==> block@ == sha256(key@ + be64((i / 32) as u64)) && block@.len() == 32,
        decreases data@.len() - i,
    {
        if i % 32 == 0 {
            let mut msg: Vec<u8> = Vec::new();
            append_bytes(&mut msg, key);
            let counter = be64_bytes((i / 32) as u64);
            append_bytes(&mut msg, counter.as_slice());
            block = sha256_digest(msg.as_slice());
        }
        out.push(data[i] ^ block[i % 32]);
        proof {
            if (i + 1) % 32 != 0 {
                assert((i + 1) / 32 == i / 32);
            }
        }
        i = i + 1;
    }
    assert(out@ =~= xor_stream(key@, data@));
    out
}

fn tag(key: &[u8], ciphertext: &[u8]) -> (r: Vec<u8>)
    ensures
        r@ == tag_of(key@, ciphertext@),
{
    let mut msg: Vec<u8> = Vec::new();
    append_bytes(&mut msg, key);
    append_bytes(&mut msg, ciphertext);
    sha256_digest(msg.as_slice())
}

/// Tests whether a tier may be wrapped.
pub fn is_wrappable(t: KeyType) -> (r: bool)
    ensures
        r == wrappable(t),
{
    matches!(t, KeyType::Skull | KeyType::Ignition | KeyType::Distro)
}

impl IgnitionKey {
    /// Wraps `material` of tier `wrapped_key_type` under `passphrase` with the
    /// given salt and number of derivation rounds.
    pub fn create(
        material: &[u8],
        wrapped_key_type: KeyType,
        passphrase: &str,
        salt: Vec<u8>,
        kdf_rounds: u32,
        description: Option<String>,
    ) -> (r: AgeResult<IgnitionKey>)
        ensures
            r is Ok <==> wrappable(wrapped_key_type) && char_count(passphrase.spec_bytes())
                >= IGNITION_MIN_PASSPHRASE,
            r is Err ==> r->Err_0.is_invalid_operation(),
            r matches Ok(k) ==> {
                let key = kdf(passphrase.spec_bytes(), salt@, kdf_rounds as nat);
                &&& k.wrapped_key_type == wrapped_key_type
                &&& k.salt@ == salt@
                &&& k.kdf_rounds == kdf_rounds
                &&& k.wrapped_ciphertext@ == xor_stream(key, material@)
                &&& k.check_tag@ == tag_of(key, k.wrapped_ciphertext@)
                &&& k.outer_fingerprint@ == fingerprint_of(k.wrapped_ciphertext@)
                &&& k.description == description
            },
    {
        if !is_wrappable(wrapped_key_type) {
            let mut reason = wrapped_key_type.name();
            reason.append(" keys cannot be wrapped in an ignition key");
            return Err(AgeError::InvalidOperation { operation: "IgnitionKey::create".to_string(), reason });
        }
        if count_chars(passphrase.as_bytes()) < IGNITION_MIN_PASSPHRASE {
            return Err(AgeError::InvalidOperation {
                operation: "IgnitionKey::create".to_string(),
                reason: "Ignition key passphrase must be at least 12 characters".to_string(),
            });
        }
        let key = derive_key(passphrase.as_bytes(), salt.as_slice(), kdf_rounds);
        let wrapped_ciphertext = apply_stream(key.as_slice(), material);
        let check_tag = tag(key.as_slice(), wrapped_ciphertext.as_slice());
        let outer_fingerprint = KeyFingerprint::from_public_key(wrapped_ciphertext.as_slice());
        Ok(IgnitionKey {
            wrapped_ciphertext,
            wrapped_key_type,
            salt,
            kdf_rounds,
            check_tag,
            outer_fingerprint,
            description,
        })
    }

    /// Recovers the wrapped material. A wrong passphrase and a damaged record
    /// both fail with `AuthenticationFailed` after the same work.
    pub fn open(&self, passphrase: &str) -> (r: AgeResult<Vec<u8>>)
        ensures
            match opened(*self, passphrase.spec_bytes()) {
                Some(m) => r matches Ok(v) && v@ == m,
                None => r matches Err(AgeError::AuthenticationFailed),
            },
    {
        let key = derive_key(passphrase.as_bytes(), self.salt.as_slice(), self.kdf_rounds);
        let expected = tag(key.as_slice(), self.wrapped_ciphertext.as_slice());
        let plain = apply_stream(key.as_slice(), self.wrapped_ciphertext.as_slice());
        if bytes_equal(expected.as_slice(), self.check_tag.as_slice()) {
            Ok(plain)
        } else {
            Err(AgeError::AuthenticationFailed)
        }
    }

    /// The fingerprint of the wrapped record.
    pub fn fingerprint(&self) -> (r: &KeyFingerprint)
        ensures
            r == self.outer_fingerprint,
    {
        &self.outer_fingerprint
    }
}

proof fn lemma_xor_twice(a: u8, b: u8)
    ensures
        (a ^ b) ^ b == a,
{
    assert((a ^ b) ^ b == a) by (bit_vector);
}

/// XORing with the same keystream twice restores the data.
pub proof fn lemma_xor_stream_involution(key: Seq<u8>, data: Seq<u8>)
    ensures
        xor_stream(key, xor_stream(key, data)) == data,
{
    assert forall|i: int| 0 <= i < data.len() implies #[trigger] xor_stream(key, xor_stream(key, data))[i]
        == data[i] by {
        lemma_xor_twice(data[i], keystream_byte(key, i));
    }
    assert(xor_stream(key, xor_stream(key, data)) =~= data);
}

/// An ignition key made from `material` under `passphrase` opens with that
/// passphrase to exactly `material`.
pub proof fn lemma_ignition_round_trip(k: IgnitionKey, material: Seq<u8>, passphrase: Seq<u8>)
    requires
        k.wrapped_ciphertext@ == xor_stream(kdf(passphrase, k.salt@, k.kdf_rounds as nat), material),
        k.check_tag@ == tag_of(kdf(passphrase, k.salt@, k.kdf_rounds as nat), k.wrapped_ciphertext@),
    ensures
        opened(k, passphrase) == Some(material),
{
    lemma_xor_stream_involution(kdf(passphrase, k.salt@, k.kdf_rounds as nat), material);
}

} // verus!
