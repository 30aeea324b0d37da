//! Key generation at every tier: hierarchy and length checks, material
//! synthesis with entropy mixing, proof minting and post-validation.
use vstd::prelude::*;
use crate::authority_proof::{proof_valid, same_proof, signature_over, AuthorityProof};
use crate::bytes::{append_bytes, be128, be128_bytes, decimal, decimal_string};
use crate::chain::AuthorityChain;
use crate::error::{AgeError, AgeResult};
use crate::external::{entropy_rng, fill_random, nanos_since_epoch, seeded_rng, sha256, sha256_digest, system_time_now};
use crate::fingerprint::{fingerprint_of, KeyFingerprint};
use crate::key::{is_weak, parent_fits, same_key, AuthorityKey, KeyFormat, KeyMaterial, KeyMetadata};
use crate::security::{char_count, count_chars};
use crate::ignition::{is_wrappable, lemma_ignition_round_trip, opened, wrappable, IgnitionKey, IGNITION_MIN_PASSPHRASE};
use crate::key::material_is_weak;
use crate::key_type::KeyType;
use vstd::string::{StringExecFns, StringSliceAdditionalSpecFns};

verus! {

/// Seconds in a day.
pub const SECONDS_PER_DAY: u64 = 86400;

/// Bytes of random salt drawn for each ignition key.
pub const IGNITION_SALT_LENGTH: usize = 16;

/// Key-derivation rounds of a generated ignition key.
pub const IGNITION_KDF_ROUNDS: u32 = 10000;

/// Whether an ignition key may be generated: the wrapped tier can be wrapped,
/// the passphrase is long enough, at least one authority is named, and the
/// requested length meets the wrapped tier's floor.
pub open spec fn ignition_params_ok(
    wrapped_key_type: KeyType,
    passphrase: Seq<u8>,
    authority_count: nat,
    key_length: usize,
) -> bool {
    &&& wrappable(wrapped_key_type)
    &&& char_count(passphrase) >= IGNITION_MIN_PASSPHRASE
    &&& authority_count > 0
    &&& key_length >= wrapped_key_type.spec_min_key_length()
}

/// Parameters of one key generation.
#[derive(Debug, Clone)]
pub struct KeyGenerationParams {
    pub key_type: KeyType,
    pub parent_authority: Option<KeyFingerprint>,
    pub key_length: usize,
    /// Lifetime in seconds; `None` for a key that does not expire.
    pub expiration_duration: Option<u64>,
    pub metadata: GenerationMetadata,
}

/// Descriptive data recorded with a generated key.
#[derive(Debug, Clone)]
pub struct GenerationMetadata {
    pub purpose: String,
    pub created_by: String,
    pub environment: String,
    pub tags: Vec<String>,
}

/// A generated key with its fingerprint and the proof binding it to its parent.
#[derive(Debug, Clone)]
pub struct KeyGenerationResult {
    pub key: AuthorityKey,
    pub fingerprint: KeyFingerprint,
    pub generation_proof: AuthorityProof,
    /// Seconds since the Unix epoch.
    pub creation_timestamp: i64,
}

/// Whether the requested tier may be generated under the given parent (only a
/// Skull key is generated without one) and the length meets the tier's floor.
pub open spec fn params_ok(key_type: KeyType, key_length: usize, parent: Option<AuthorityKey>) -> bool {
    &&& match parent {
        Some(p) => p.key_type.rank() > key_type.rank(),
        None => key_type == KeyType::Skull,
    }
    &&& key_length >= key_type.spec_min_key_length()
}

/// Material mixed with a digest: each byte is XORed with the digest byte at
/// its position modulo 32.
pub open spec fn mixed(raw: Seq<u8>, digest: Seq<u8>) -> Seq<u8> {
    Seq::new(raw.len(), |i: int| raw[i] ^ digest[i % 32])
}

/// Domain separator of the entropy digest.
pub open spec fn generation_domain() -> Seq<u8> {
    "padlock-authority-key-generation".spec_bytes()
}

/// The digest that is mixed into fresh material: SHA-256 of the raw bytes, the
/// timestamp in nanoseconds as sixteen big-endian bytes, and the domain separator.
pub open spec fn entropy_digest_of(raw: Seq<u8>, nanos: u128) -> Seq<u8> {
    sha256(raw + be128(nanos) + generation_domain())
}

/// The expiration time `secs` after `now`, saturating at the largest timestamp.
pub open spec fn expiration_after(now: i64, secs: u64) -> i64 {
    if now + secs > i64::MAX {
        i64::MAX
    } else {
        (now + secs) as i64
    }
}

/// The parent key, if any, as a value.
pub open spec fn owned(parent: Option<&AuthorityKey>) -> Option<AuthorityKey> {
    match parent {
        Some(p) => Some(*p),
        None => None,
    }
}

/// The key that signs the proof: the parent, or the new key itself for a Skull.
pub open spec fn signer_of(parent: Option<AuthorityKey>, key: AuthorityKey) -> AuthorityKey {
    match parent {
        Some(p) => p,
        None => key,
    }
}

/// Whether material can be assembled into a key of the requested tier under the
/// given parent: the parent reference fits, the material is not weak, the
/// signer holds a private component, and the proof it signs verifies under its
/// public component.
pub open spec fn assembly_ok(key_type: KeyType, parent: Option<AuthorityKey>, material: KeyMaterial, now: i64) -> bool {
    let fp = fingerprint_of(material.public_key@);
    let signer_public = match parent {
        Some(p) => p.material.public_key@,
        None => material.public_key@,
    };
    let signer_private = match parent {
        Some(p) => p.material.private_key,
        None => material.private_key,
    };
    let signer_fp = match parent {
        Some(p) => p.fingerprint@,
        None => fp,
    };
    &&& parent_fits(key_type, parent is Some)
    &&& !is_weak(material.public_key@, key_type)
    &&& signer_private is Some
    &&& signature_over(signer_private->0@, signer_fp, fp, now) == signature_over(
        signer_public,
        signer_fp,
        fp,
        now,
    )
}

/// Mixes a 32-byte digest into raw material by XOR, cycling the digest.
pub fn mix_entropy(raw: &[u8], digest: &[u8]) -> (r: Vec<u8>)
    requires
        digest@.len() == 32,
    ensures
        r@ == mixed(raw@, digest@),
{
    let mut out: Vec<u8> = Vec::new();
    let mut i: usize = 0;
    while i < raw.len()
        invariant
            0 <= i <= raw@.len(),
            digest@.len() == 32,
            out@ =~= mixed(raw@, digest@).subrange(0, i as int),
        decreases raw@.len() - i,
    {
        out.push(raw[i] ^ digest[i % 32]);
        i = i + 1;
    }
    assert(out@ =~= mixed(raw@, digest@));
    out
}

/// The entropy digest of raw material at a timestamp in nanoseconds.
pub fn entropy_digest(raw: &[u8], nanos: u128) -> (r: Vec<u8>)
    ensures
        r@ == entropy_digest_of(raw@, nanos),
        r@.len() == 32,
{
    let mut msg: Vec<u8> = Vec::new();
    append_bytes(&mut msg, raw);
    let ts = be128_bytes(nanos);
    append_bytes(&mut msg, ts.as_slice());
    let domain: &str = "padlock-authority-key-generation";
    append_bytes(&mut msg, domain.as_bytes());
    sha256_digest(msg.as_slice())
}

/// Builds material from raw random bytes and the entropy digest; the public and
/// private components are the same bytes.
pub fn material_from_random(raw: &[u8], nanos: u128) -> (r: KeyMaterial)
    ensures
        r.public_key@ == mixed(raw@, entropy_digest_of(raw@, nanos)),
        r.private_key is Some,
        r.private_key->0@ == r.public_key@,
        r.format == KeyFormat::Ed25519,
{
    let digest = entropy_digest(raw, nanos);
    let data = mix_entropy(raw, digest.as_slice());
    let copy = data.clone();
    KeyMaterial::new(data, Some(copy), KeyFormat::Ed25519)
}

/// Assembles generated material into a key with metadata, mints its proof
/// (a self-proof for a Skull key) at `now`, and verifies it.
pub fn assemble_key(
    params: &KeyGenerationParams,
    parent: Option<&AuthorityKey>,
    material: KeyMaterial,
    now: i64,
) -> (r: AgeResult<KeyGenerationResult>)
    ensures
        r is Ok <==> assembly_ok(params.key_type, owned(parent), material, now),
        r is Err ==> r->Err_0.is_refusal_by("validate_generated_key"@),
        r matches Ok(g) ==> {
            &&& g.key.wf()
            &&& g.key.key_type == params.key_type
            &&& g.key.material == material
            &&& g.key.key_path is None
            &&& g.key.parent_authority matches Some(f) ==> parent matches Some(p) && f@ == p.fingerprint@
            &&& g.key.metadata matches Some(m) && m.creation_time == now && m.creator@
                == params.metadata.created_by@ && m.description@ == params.metadata.purpose@
                && m.last_used is None && m.usage_count == 0 && m.expiration == match params.expiration_duration {
                Some(d) => Some(expiration_after(now, d)),
                None => None,
            }
            &&& g.fingerprint@ == g.key.fingerprint@
            &&& g.creation_timestamp == now
            &&& g.generation_proof.issued_at == now
            &&& proof_valid(g.generation_proof, signer_of(owned(parent), g.key), g.key)
        },
{
    let expiration = match params.expiration_duration {
        Some(d) => {
            let sum: i128 = now as i128 + d as i128;
            if sum > i64::MAX as i128 {
                Some(i64::MAX)
            } else {
                Some(sum as i64)
            }
        },
        None => None,
    };
    let metadata = KeyMetadata {
        creation_time: now,
        creator: params.metadata.created_by.clone(),
        description: params.metadata.purpose.clone(),
        expiration,
        last_used: None,
        usage_count: 0,
    };
    let parent_fp = match parent {
        Some(p) => Some(p.fingerprint.duplicate()),
        None => None,
    };
    let key = match AuthorityKey::new(material, params.key_type, None, Some(metadata), parent_fp) {
        Ok(k) => k,
        Err(_) => {
            return Err(AgeError::InvalidOperation {
                operation: "validate_generated_key".to_string(),
                reason: "Generated key material is weak or its parent reference does not fit".to_string(),
            });
        },
    };
    let minted = match parent {
        Some(p) => AuthorityProof::generate(p, &key, now),
        None => AuthorityProof::generate(&key, &key, now),
    };
    let proof = match minted {
        Ok(p) => p,
        Err(_) => {
            return Err(AgeError::InvalidOperation {
                operation: "validate_generated_key".to_string(),
                reason: "Signing key has no private component".to_string(),
            });
        },
    };
    let verified = match parent {
        Some(p) => proof.verify(p, &key),
        None => proof.verify(&key, &key),
    };
    if !verified {
        return Err(AgeError::InvalidOperation {
            operation: "validate_generated_key".to_string(),
            reason: "Generated key proof verification failed".to_string(),
        });
    }
    let fingerprint = key.fingerprint.duplicate();
    Ok(KeyGenerationResult { key, fingerprint, generation_proof: proof, creation_timestamp: now })
}

/// Refusal reason of a parent that does not outrank the requested tier.
pub open spec fn delegation_reason(parent: KeyType, child: KeyType) -> Seq<char> {
    parent.spec_name() + " cannot delegate to "@ + child.spec_name()
}

/// Refusal reason of a parentless request for a tier other than Skull.
pub open spec fn parentless_reason() -> Seq<char> {
    "Only skull keys can be generated without parent"@
}

/// Refusal reason of a length below the tier's floor; it cites both numbers.
pub open spec fn length_reason(key_length: nat, key_type: KeyType) -> Seq<char> {
    "Key length "@ + decimal(key_length) + " below minimum "@ + decimal(key_type.spec_min_key_length())
        + " for "@ + key_type.spec_name()
}

/// The reason generation parameters are refused, if they are: the hierarchy is
/// checked first, then the length floor.
pub open spec fn generation_refusal(key_type: KeyType, key_length: usize, parent: Option<AuthorityKey>) -> Option<
    Seq<char>,
> {
    match parent {
        Some(p) => if !(p.key_type.rank() > key_type.rank()) {
            Some(delegation_reason(p.key_type, key_type))
        } else if key_length < key_type.spec_min_key_length() {
            Some(length_reason(key_length as nat, key_type))
        } else {
            None
        },
        None => if key_type != KeyType::Skull {
            Some(parentless_reason())
        } else if key_length < key_type.spec_min_key_length() {
            Some(length_reason(key_length as nat, key_type))
        } else {
            None
        },
    }
}

/// The reason ignition parameters are refused, if they are, checked in this
/// order: wrappable tier, passphrase of at least twelve characters, a named
/// authority, the tier's length floor.
pub open spec fn ignition_refusal(
    wrapped_key_type: KeyType,
    passphrase: Seq<u8>,
    authority_count: nat,
    key_length: usize,
) -> Option<Seq<char>> {
    if !wrappable(wrapped_key_type) {
        Some("Key type "@ + wrapped_key_type.spec_name() + " cannot be wrapped in ignition key"@)
    } else if char_count(passphrase) < IGNITION_MIN_PASSPHRASE {
        Some("Ignition key passphrase must be at least 12 characters"@)
    } else if authority_count == 0 {
        Some("Ignition key requires at least one authority in chain"@)
    } else if key_length < wrapped_key_type.spec_min_key_length() {
        Some(length_reason(key_length as nat, wrapped_key_type))
    } else {
        None
    }
}

/// Whether a result is the given refusal by the given operation.
pub open spec fn refused_with<T>(r: AgeResult<T>, op: Seq<char>, why: Seq<char>) -> bool {
    r matches Err(e) && e.is_refusal(op, why)
}

/// The failures generation may end in after its parameters were accepted: an
/// unreadable clock, a failed post-validation, or a failed installation.
pub open spec fn late_generation_error(e: AgeError) -> bool {
    e is InternalError || e.is_refusal_by("validate_generated_key"@) || e.is_refusal_by(
        "AuthorityChain::add_key"@,
    )
}

/// What a successful generation returns: a well-formed key of the requested
/// tier and length whose private component equals its public one, bound to its
/// parent (itself for Skull) by a valid proof, with the requested metadata.
pub open spec fn generated_as(
    g: KeyGenerationResult,
    key_type: KeyType,
    key_length: usize,
    expiration_duration: Option<u64>,
    metadata: GenerationMetadata,
    parent: Option<AuthorityKey>,
) -> bool {
    &&& g.key.wf()
    &&& g.key.key_type == key_type
    &&& g.key.material.public_key@.len() == key_length
    &&& g.key.material.private_key is Some
    &&& g.key.material.private_key->0@ == g.key.material.public_key@
    &&& g.key.key_path is None
    &&& (g.key.parent_authority is Some ==> parent is Some && g.key.parent_authority->0@ == parent->0.fingerprint@)
    &&& g.fingerprint@ == g.key.fingerprint@
    &&& g.generation_proof.child_fingerprint@ == g.fingerprint@
    &&& proof_valid(g.generation_proof, signer_of(parent, g.key), g.key)
    &&& g.key.metadata is Some
    &&& g.key.metadata->0.creation_time == g.creation_timestamp
    &&& g.key.metadata->0.creator@ == metadata.created_by@
    &&& g.key.metadata->0.description@ == metadata.purpose@
    &&& g.key.metadata->0.last_used is None
    &&& g.key.metadata->0.usage_count == 0
    &&& g.key.metadata->0.expiration == match expiration_duration {
        Some(d) => Some(expiration_after(g.creation_timestamp, d)),
        None => None,
    }
}

/// The chain grew by exactly the generated key and its proof.
pub open spec fn installed(before: AuthorityChain, after: AuthorityChain, g: KeyGenerationResult) -> bool {
    &&& after.wf()
    &&& after.keys@.len() == before.keys@.len() + 1
    &&& after.keys@.drop_last() == before.keys@
    &&& after.proofs@.drop_last() == before.proofs@
    &&& same_key(after.keys@.last(), g.key)
    &&& same_proof(after.proofs@.last(), g.generation_proof)
}

proof fn lemma_operation_names_distinct()
    ensures
        "validate_generation_params"@ != "validate_generated_key"@,
        "validate_generation_params"@ != "AuthorityChain::add_key"@,
        "generate_master_key"@ != "validate_generation_params"@,
        "generate_master_key"@ != "validate_generated_key"@,
        "generate_master_key"@ != "AuthorityChain::add_key"@,
        "generate_repo_key"@ != "validate_generation_params"@,
        "generate_repo_key"@ != "validate_generated_key"@,
        "generate_repo_key"@ != "AuthorityChain::add_key"@,
        "validate_ignition_params"@ != "generate_ignition_key"@,
{
    reveal_strlit("validate_generation_params");
    reveal_strlit("validate_generated_key");
    reveal_strlit("AuthorityChain::add_key");
    reveal_strlit("generate_master_key");
    reveal_strlit("generate_repo_key");
    reveal_strlit("validate_ignition_params");
    reveal_strlit("generate_ignition_key");
    assert("validate_generation_params"@[16] != "validate_generated_key"@[16]);
    assert("validate_generation_params"@.len() != "AuthorityChain::add_key"@.len());
    assert("generate_master_key"@.len() != "validate_generation_params"@.len());
    assert("generate_master_key"@.len() != "validate_generated_key"@.len());
    assert("generate_master_key"@.len() != "AuthorityChain::add_key"@.len());
    assert("generate_repo_key"@.len() != "validate_generation_params"@.len());
    assert("generate_repo_key"@.len() != "validate_generated_key"@.len());
    assert("generate_repo_key"@.len() != "AuthorityChain::add_key"@.len());
    assert("validate_ignition_params"@.len() != "generate_ignition_key"@.len());
}

fn length_refusal_text(key_length: usize, key_type: KeyType) -> (r: String)
    ensures
        r@ == length_reason(key_length as nat, key_type),
{
    let mut reason = "Key length ".to_string();
    reason.append(decimal_string(key_length as u64).as_str());
    reason.append(" below minimum ");
    reason.append(decimal_string(key_type.min_key_length() as u64).as_str());
    reason.append(" for ");
    reason.append(key_type.name().as_str());
    reason
}

/// Reads the system clock once, in nanoseconds since the Unix epoch.
fn clock_nanos() -> (r: Option<u128>) {
    let t = system_time_now();
    nanos_since_epoch(&t)
}

/// Generates authority keys from a dedicated random generator and installs
/// them into its chain.
pub struct AuthorityKeyGenerator {
    pub authority_chain: AuthorityChain,
    pub rng: rand::rngs::StdRng,
}

impl AuthorityKeyGenerator {
    /// A generator over the given chain, seeded from the operating system's
    /// entropy source; an error when that source cannot supply entropy.
    pub fn new(authority_chain: AuthorityChain) -> (r: AgeResult<AuthorityKeyGenerator>)
        ensures
            r matches Ok(g) ==> g.authority_chain == authority_chain,
            r is Err ==> r->Err_0 is InternalError,
    {
        match entropy_rng() {
            Ok(rng) => Ok(AuthorityKeyGenerator { authority_chain, rng }),
            Err(_) => Err(AgeError::InternalError { detail: "Entropy source unavailable".to_string() }),
        }
    }

    /// A generator over the given chain whose random stream is fixed by `seed`.
    pub fn with_seed(authority_chain: AuthorityChain, seed: u64) -> (r: AuthorityKeyGenerator)
        ensures
            r.authority_chain == authority_chain,
    {
        AuthorityKeyGenerator { authority_chain, rng: seeded_rng(seed) }
    }

    /// Checks the hierarchy (a parent must strictly outrank the requested tier;
    /// only a Skull key has no parent), then the tier's length floor.
    fn validate_generation_params(&self, params: &KeyGenerationParams, parent_key: Option<&AuthorityKey>) -> (r:
        AgeResult<()>)
        ensures
            match generation_refusal(params.key_type, params.key_length, owned(parent_key)) {
                None => r is Ok,
                Some(why) => refused_with(r, "validate_generation_params"@, why),
            },
    {
        match parent_key {
            Some(parent) => {
                if !parent.key_type.can_control(params.key_type) {
                    let mut reason = parent.key_type.name();
                    reason.append(" cannot delegate to ");
                    reason.append(params.key_type.name().as_str());
                    return Err(AgeError::InvalidOperation {
                        operation: "validate_generation_params".to_string(),
                        reason,
                    });
                }
            },
            None => {
                if !matches!(params.key_type, KeyType::Skull) {
                    return Err(AgeError::InvalidOperation {
                        operation: "validate_generation_params".to_string(),
                        reason: "Only skull keys can be generated without parent".to_string(),
                    });
                }
            },
        }
        if params.key_length < params.key_type.min_key_length() {
            return Err(AgeError::InvalidOperation {
                operation: "validate_generation_params".to_string(),
                reason: length_refusal_text(params.key_length, params.key_type),
            });
        }
        Ok(())
    }

    /// Draws `length` random bytes and mixes in the entropy digest taken at the
    /// clock reading `nanos`.
    fn generate_key_material(&mut self, length: usize, nanos: u128) -> (r: KeyMaterial)
        ensures
            final(self).authority_chain == old(self).authority_chain,
            exists|raw: Seq<u8>|
                raw.len() == length && r.public_key@ == #[trigger] mixed(raw, entropy_digest_of(raw, nanos)),
            r.public_key@.len() == length,
            r.private_key is Some && r.private_key->0@ == r.public_key@,
            r.format == KeyFormat::Ed25519,
    {
        let mut raw: Vec<u8> = vec![0u8; length];
        fill_random(&mut self.rng, &mut raw);
        let m = material_from_random(raw.as_slice(), nanos);
        assert(mixed(raw@, entropy_digest_of(raw@, nanos)).len() == length);
        m
    }

    /// Checks the ignition parameters in order: wrappable tier, passphrase of
    /// at least twelve characters, a named authority, the tier's length floor.
    fn validate_ignition_params(
        &self,
        wrapped_key_type: KeyType,
        passphrase: &str,
        authority_chain: &Vec<KeyFingerprint>,
        key_length: usize,
    ) -> (r: AgeResult<()>)
        ensures
            match ignition_refusal(wrapped_key_type, passphrase.spec_bytes(), authority_chain@.len(), key_length) {
                None => r is Ok,
                Some(why) => refused_with(r, "validate_ignition_params"@, why),
            },
    {
        if !is_wrappable(wrapped_key_type) {
            let mut reason = "Key type ".to_string();
            reason.append(wrapped_key_type.name().as_str());
            reason.append(" cannot be wrapped in ignition key");
            return Err(AgeError::InvalidOperation { operation: "validate_ignition_params".to_string(), reason });
        }
        if count_chars(passphrase.as_bytes()) < IGNITION_MIN_PASSPHRASE {
            return Err(AgeError::InvalidOperation {
                operation: "validate_ignition_params".to_string(),
                reason: "Ignition key passphrase must be at least 12 characters".to_string(),
            });
        }
        if authority_chain.len() == 0 {
            return Err(AgeError::InvalidOperation {
                operation: "validate_ignition_params".to_string(),
                reason: "Ignition key requires at least one authority in chain".to_string(),
            });
        }
        if key_length < wrapped_key_type.min_key_length() {
            return Err(AgeError::InvalidOperation {
                operation: "validate_ignition_params".to_string(),
                reason: length_refusal_text(key_length, wrapped_key_type),
            });
        }
        Ok(())
    }

    /// Generates a key of `params.key_type` under `parent_key` (none for a Skull
    /// key) and installs it, with its proof, into the generator's chain; a
    /// non-Skull key's parent must already be in the chain. Invalid parameters
    /// are refused before the clock or any randomness is read, and a failure
    /// leaves the chain as it was.
    pub fn generate_authority_key(&mut self, params: KeyGenerationParams, parent_key: Option<&AuthorityKey>) -> (r:
        AgeResult<KeyGenerationResult>)
        requires
            old(self).authority_chain.wf(),
        ensures
            final(self).authority_chain.wf(),
            generation_refusal(params.key_type, params.key_length, owned(parent_key)) matches Some(why) ==> (
            refused_with(r, "validate_generation_params"@, why) && *final(self) == *old(self)),
            generation_refusal(params.key_type, params.key_length, owned(parent_key)) is None ==> (r is Ok
                || late_generation_error(r->Err_0)),
            r is Err ==> final(self).authority_chain == old(self).authority_chain,
            r matches Ok(g) ==> {
                &&& params_ok(params.key_type, params.key_length, owned(parent_key))
                &&& generated_as(
                    g,
                    params.key_type,
                    params.key_length,
                    params.expiration_duration,
                    params.metadata,
                    owned(parent_key),
                )
                &&& installed(old(self).authority_chain, final(self).authority_chain, g)
            },
    {
        proof {
            lemma_operation_names_distinct();
        }
        self.validate_generation_params(&params, parent_key)?;
        let nanos = match clock_nanos() {
            Some(n) => n,
            None => {
                return Err(AgeError::InternalError { detail: "System clock reads before the Unix epoch".to_string() });
            },
        };
        let secs = nanos / 1_000_000_000;
        if secs > i64::MAX as u128 {
            return Err(AgeError::InternalError { detail: "System clock reading out of range".to_string() });
        }
        let now = secs as i64;
        let material = self.generate_key_material(params.key_length, nanos);
        let g = assemble_key(&params, parent_key, material, now)?;
        let key_copy = g.key.duplicate();
        let proof_copy = g.generation_proof.duplicate();
        let ghost before = self.authority_chain;
        self.authority_chain.add_key(key_copy, proof_copy)?;
        proof {
            assert(self.authority_chain.keys@.drop_last() =~= before.keys@);
            assert(self.authority_chain.proofs@.drop_last() =~= before.proofs@);
        }
        Ok(g)
    }

    /// Generates fresh material of `params.key_length` bytes and wraps it under
    /// `passphrase` in an ignition key. Invalid parameters are refused before
    /// the clock or any randomness is read.
    pub fn generate_ignition_key(
        &mut self,
        wrapped_key_type: KeyType,
        passphrase: &str,
        authority_chain: Vec<KeyFingerprint>,
        params: KeyGenerationParams,
    ) -> (r: AgeResult<IgnitionKey>)
        ensures
            final(self).authority_chain == old(self).authority_chain,
            ignition_refusal(wrapped_key_type, passphrase.spec_bytes(), authority_chain@.len(), params.key_length)
                matches Some(why) ==> (refused_with(r, "validate_ignition_params"@, why) && *final(self)
                == *old(self)),
            ignition_refusal(wrapped_key_type, passphrase.spec_bytes(), authority_chain@.len(), params.key_length)
                is None ==> (r is Ok || r->Err_0 is InternalError || r->Err_0.is_refusal(
                "generate_ignition_key"@,
                "Generated key material is weak"@,
            )),
            r matches Ok(k) ==> {
                &&& ignition_params_ok(
                    wrapped_key_type,
                    passphrase.spec_bytes(),
                    authority_chain@.len(),
                    params.key_length,
                )
                &&& k.wrapped_key_type == wrapped_key_type
                &&& k.kdf_rounds == IGNITION_KDF_ROUNDS
                &&& k.salt@.len() == IGNITION_SALT_LENGTH
                &&& k.description matches Some(d) && d@ == params.metadata.purpose@
                &&& opened(k, passphrase.spec_bytes()) matches Some(m) && m.len() == params.key_length
                    && !is_weak(m, wrapped_key_type)
            },
    {
        proof {
            lemma_operation_names_distinct();
        }
        self.validate_ignition_params(wrapped_key_type, passphrase, &authority_chain, params.key_length)?;
        let nanos = match clock_nanos() {
            Some(n) => n,
            None => {
                return Err(AgeError::InternalError { detail: "System clock reads before the Unix epoch".to_string() });
            },
        };
        let material = self.generate_key_material(params.key_length, nanos);
        if material_is_weak(material.public_key.as_slice(), wrapped_key_type) {
            return Err(AgeError::InvalidOperation {
                operation: "generate_ignition_key".to_string(),
                reason: "Generated key material is weak".to_string(),
            });
        }
        let mut salt: Vec<u8> = vec![0u8; IGNITION_SALT_LENGTH];
        fill_random(&mut self.rng, &mut salt);
        let r = IgnitionKey::create(
            material.public_key.as_slice(),
            wrapped_key_type,
            passphrase,
            salt,
            IGNITION_KDF_ROUNDS,
            Some(params.metadata.purpose.clone()),
        );
        proof {
            if r is Ok {
                lemma_ignition_round_trip(r->Ok_0, material.public_key@, passphrase.spec_bytes());
            }
        }
        r
    }

    /// Generates a Skull key: 64 bytes, no parent, no expiration.
    pub fn generate_skull_key(&mut self, metadata: GenerationMetadata) -> (r: AgeResult<KeyGenerationResult>)
        requires
            old(self).authority_chain.wf(),
        ensures
            final(self).authority_chain.wf(),
            r is Ok || late_generation_error(r->Err_0),
            r is Err ==> final(self).authority_chain == old(self).authority_chain,
            r matches Ok(g) ==> generated_as(g, KeyType::Skull, 64, None, metadata, None) && g.key.parent_authority
                is None && installed(old(self).authority_chain, final(self).authority_chain, g),
    {
        proof {
            reveal_strlit("validate_generation_params");
        }
        let params = KeyGenerationParams {
            key_type: KeyType::Skull,
            parent_authority: None,
            key_length: 64,
            expiration_duration: None,
            metadata,
        };
        self.generate_authority_key(params, None)
    }

    /// Generates a Master key under a Skull key in the chain: 48 bytes,
    /// expiring 365 days after creation.
    pub fn generate_master_key(&mut self, skull_key: &AuthorityKey, metadata: GenerationMetadata) -> (r: AgeResult<
        KeyGenerationResult,
    >)
        requires
            old(self).authority_chain.wf(),
        ensures
            final(self).authority_chain.wf(),
            refused_with(r, "generate_master_key"@, "Parent must be skull key"@) <==> skull_key.key_type
                != KeyType::Skull,
            skull_key.key_type != KeyType::Skull ==> *final(self) == *old(self),
            skull_key.key_type == KeyType::Skull ==> (r is Ok || late_generation_error(r->Err_0)),
            r is Err ==> final(self).authority_chain == old(self).authority_chain,
            r matches Ok(g) ==> generated_as(
                g,
                KeyType::Master,
                48,
                Some((365 * SECONDS_PER_DAY) as u64),
                metadata,
                Some(*skull_key),
            ) && g.key.parent_authority is Some && installed(
                old(self).authority_chain,
                final(self).authority_chain,
                g,
            ),
    {
        proof {
            lemma_operation_names_distinct();
        }
        if !matches!(skull_key.key_type, KeyType::Skull) {
            return Err(AgeError::InvalidOperation {
                operation: "generate_master_key".to_string(),
                reason: "Parent must be skull key".to_string(),
            });
        }
        let params = KeyGenerationParams {
            key_type: KeyType::Master,
            parent_authority: Some(skull_key.fingerprint.duplicate()),
            key_length: 48,
            expiration_duration: Some(365 * SECONDS_PER_DAY),
            metadata,
        };
        self.generate_authority_key(params, Some(skull_key))
    }

    /// Generates a Repo key under a Master key in the chain for the repository
    /// at `repo_path`: 32 bytes, expiring 90 days after creation, tagged with
    /// the path.
    pub fn generate_repo_key(&mut self, master_key: &AuthorityKey, repo_path: &str, metadata: GenerationMetadata) -> (r:
        AgeResult<KeyGenerationResult>)
        requires
            old(self).authority_chain.wf(),
        ensures
            final(self).authority_chain.wf(),
            refused_with(r, "generate_repo_key"@, "Parent must be master key"@) <==> master_key.key_type
                != KeyType::Master,
            master_key.key_type != KeyType::Master ==> *final(self) == *old(self),
            master_key.key_type == KeyType::Master ==> (r is Ok || late_generation_error(r->Err_0)),
            r is Err ==> final(self).authority_chain == old(self).authority_chain,
            r matches Ok(g) ==> generated_as(
                g,
                KeyType::Repo,
                32,
                Some((90 * SECONDS_PER_DAY) as u64),
                metadata,
                Some(*master_key),
            ) && g.key.parent_authority is Some && installed(
                old(self).authority_chain,
                final(self).authority_chain,
                g,
            ),
    {
        proof {
            lemma_operation_names_distinct();
        }
        if !matches!(master_key.key_type, KeyType::Master) {
            return Err(AgeError::InvalidOperation {
                operation: "generate_repo_key".to_string(),
                reason: "Parent must be master key".to_string(),
            });
        }
        let mut repo_metadata = metadata;
        let mut tag = "repo:".to_string();
        tag.append(repo_path);
        repo_metadata.tags.push(tag);
        let params = KeyGenerationParams {
            key_type: KeyType::Repo,
            parent_authority: Some(master_key.fingerprint.duplicate()),
            key_length: 32,
            expiration_duration: Some(90 * SECONDS_PER_DAY),
            metadata: repo_metadata,
        };
        self.generate_authority_key(params, Some(master_key))
    }
}

/// Builds key generators.
pub struct KeyGeneratorFactory;

impl KeyGeneratorFactory {
    /// A generator over an empty chain.
    pub fn create_empty() -> (r: AgeResult<AuthorityKeyGenerator>)
        ensures
            r matches Ok(g) ==> g.authority_chain.wf() && g.authority_chain.keys@.len() == 0,
            r is Err ==> r->Err_0 is InternalError,
    {
        AuthorityKeyGenerator::new(AuthorityChain::new())
    }

    /// A generator over an existing chain.
    pub fn create_with_chain(authority_chain: AuthorityChain) -> (r: AgeResult<AuthorityKeyGenerator>)
        ensures
            r matches Ok(g) ==> g.authority_chain == authority_chain,
            r is Err ==> r->Err_0 is InternalError,
    {
        AuthorityKeyGenerator::new(authority_chain)
    }
}

/// Sets up the key-operations framework; it needs no external resources.
pub fn initialize() -> (r: AgeResult<()>)
    ensures
        r is Ok,
{
    Ok(())
}

} // verus!
