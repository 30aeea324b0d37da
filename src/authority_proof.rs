//! Proofs that a parent key authorised a child key.
use vstd::prelude::*;
use crate::bytes::{append_bytes, be64, be64_bytes, bytes_equal};
use crate::error::{AgeError, AgeResult};
use crate::external::{sha256, sha256_digest};
use crate::fingerprint::KeyFingerprint;
use crate::key::AuthorityKey;

verus! {

/// Canonical bytes that a proof binds: parent fingerprint, child fingerprint,
/// and the issue time as a big-endian 64-bit value.
pub open spec fn canonical_bytes(parent_fp: Seq<u8>, child_fp: Seq<u8>, issued_at: i64) -> Seq<u8> {
    parent_fp + child_fp + be64(issued_at as u64)
}

/// The signature of the canonical bytes under some key material: the digest of
/// the material followed by the canonical bytes.
pub open spec fn signature_over(material: Seq<u8>, parent_fp: Seq<u8>, child_fp: Seq<u8>, issued_at: i64) -> Seq<u8> {
    sha256(material + canonical_bytes(parent_fp, child_fp, issued_at))
}

/// A record binding a parent fingerprint to a child fingerprint at an issue time.
#[derive(Debug, Clone)]
pub struct AuthorityProof {
    pub parent_fingerprint: KeyFingerprint,
    pub child_fingerprint: KeyFingerprint,
    pub issued_at: i64,
    pub signature: Vec<u8>,
}

/// Two proofs carry the same fingerprints, issue time and signature.
pub open spec fn same_proof(p: AuthorityProof, q: AuthorityProof) -> bool {
    &&& p.parent_fingerprint@ == q.parent_fingerprint@
    &&& p.child_fingerprint@ == q.child_fingerprint@
    &&& p.issued_at == q.issued_at
    &&& p.signature@ == q.signature@
}

/// A proof holds for (parent, child) when it names both fingerprints and its
/// signature checks against the parent's public component.
pub open spec fn proof_valid(p: AuthorityProof, parent: AuthorityKey, child: AuthorityKey) -> bool {
    &&& p.parent_fingerprint@ == parent.fingerprint@
    &&& p.child_fingerprint@ == child.fingerprint@
    &&& p.signature@ == signature_over(
        parent.material.public_key@,
        p.parent_fingerprint@,
        p.child_fingerprint@,
        p.issued_at,
    )
}

fn sign(material: &[u8], parent_fp: &[u8], child_fp: &[u8], issued_at: i64) -> (r: Vec<u8>)
    ensures
        r@ == signature_over(material@, parent_fp@, child_fp@, issued_at),
{
    let mut msg: Vec<u8> = Vec::new();
    append_bytes(&mut msg, material);
    append_bytes(&mut msg, parent_fp);
    append_bytes(&mut msg, child_fp);
    let ts = be64_bytes(issued_at as u64);
    append_bytes(&mut msg, ts.as_slice());
    assert(msg@ =~= material@ + canonical_bytes(parent_fp@, child_fp@, issued_at));
    sha256_digest(msg.as_slice())
}

impl AuthorityProof {
    /// Signs the binding of `child` to `parent` at `issued_at` with the parent's
    /// private component; fails when the parent holds none.
    pub fn generate(parent: &AuthorityKey, child: &AuthorityKey, issued_at: i64) -> (r: AgeResult<AuthorityProof>)
        ensures
            r is Ok <==> parent.material.private_key is Some,
            r is Err ==> r->Err_0.is_refusal_by("AuthorityProof::generate"@),
            r matches Ok(p) ==> {
                &&& p.parent_fingerprint@ == parent.fingerprint@
                &&& p.child_fingerprint@ == child.fingerprint@
                &&& p.issued_at == issued_at
                &&& p.signature@ == signature_over(
                    parent.material.private_key->0@,
                    parent.fingerprint@,
                    child.fingerprint@,
                    issued_at,
                )
            },
    {
        match &parent.material.private_key {
            None => Err(AgeError::InvalidOperation {
                operation: "AuthorityProof::generate".to_string(),
                reason: "Parent key has no private component".to_string(),
            }),
            Some(private_key) => {
                let signature = sign(
                    private_key.as_slice(),
                    parent.fingerprint.as_bytes(),
                    child.fingerprint.as_bytes(),
                    issued_at,
                );
                Ok(AuthorityProof {
                    parent_fingerprint: parent.fingerprint.duplicate(),
                    child_fingerprint: child.fingerprint.duplicate(),
                    issued_at,
                    signature,
                })
            },
        }
    }

    /// A copy of the proof.
    pub fn duplicate(&self) -> (r: AuthorityProof)
        ensures
            same_proof(r, *self),
    {
        AuthorityProof {
            parent_fingerprint: self.parent_fingerprint.duplicate(),
            child_fingerprint: self.child_fingerprint.duplicate(),
            issued_at: self.issued_at,
            signature: self.signature.clone(),
        }
    }

    /// Checks the proof against the given parent and child keys.
    pub fn verify(&self, parent: &AuthorityKey, child: &AuthorityKey) -> (r: bool)
        ensures
            r == proof_valid(*self, *parent, *child),
    {
        if !self.parent_fingerprint.same_as(&parent.fingerprint) {
            return false;
        }
        if !self.child_fingerprint.same_as(&child.fingerprint) {
            return false;
        }
        let expected = sign(
            parent.material.public_key.as_slice(),
            self.parent_fingerprint.as_bytes(),
            self.child_fingerprint.as_bytes(),
            self.issued_at,
        );
        bytes_equal(self.signature.as_slice(), expected.as_slice())
    }
}

/// A proof generated by a parent whose private component equals its public
/// component verifies for that parent and child.
pub proof fn lemma_generated_proof_verifies(p: AuthorityProof, parent: AuthorityKey, child: AuthorityKey)
    requires
        parent.material.private_key is Some,
        parent.material.private_key->0@ == parent.material.public_key@,
        p.parent_fingerprint@ == parent.fingerprint@,
        p.child_fingerprint@ == child.fingerprint@,
        p.signature@ == signature_over(
            parent.material.private_key->0@,
            parent.fingerprint@,
            child.fingerprint@,
            p.issued_at,
        ),
    ensures
        proof_valid(p, parent, child),
{
}

/// Altering the signature, or naming another parent or child fingerprint,
/// makes a valid proof fail verification.
pub proof fn lemma_tampered_proof_rejected(
    p: AuthorityProof,
    q: AuthorityProof,
    parent: AuthorityKey,
    child: AuthorityKey,
)
    requires
        proof_valid(p, parent, child),
        q.signature@ != p.signature@ || q.parent_fingerprint@ != p.parent_fingerprint@
            || q.child_fingerprint@ != p.child_fingerprint@,
        q.issued_at == p.issued_at,
    ensures
        !proof_valid(q, parent, child),
{
}

} // verus!
