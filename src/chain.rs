//! The authority chain: every key indexed by fingerprint, each non-Skull key
//! bound to an earlier, higher-tier parent by a verified proof.
use vstd::prelude::*;
use crate::authority_proof::{proof_valid, AuthorityProof};
use crate::error::{AgeError, AgeResult};
use crate::key::AuthorityKey;
use crate::key_type::KeyType;

verus! {

/// Keys and their proofs; `proofs[i]` is the proof of `keys[i]`.
#[derive(Debug, Clone)]
pub struct AuthorityChain {
    pub keys: Vec<AuthorityKey>,
    pub proofs: Vec<AuthorityProof>,
}

/// Whether the key at index `i` is correctly installed: a Skull key proves
/// itself; any other key names a parent at an earlier index, of a strictly
/// higher tier, whose proof verifies.
pub open spec fn key_installed(keys: Seq<AuthorityKey>, proofs: Seq<AuthorityProof>, i: int) -> bool {
    if keys[i].key_type == KeyType::Skull {
        proof_valid(proofs[i], keys[i], keys[i])
    } else {
        exists|j: int|
            0 <= j < i && keys[j].fingerprint@ == keys[i].parent_authority->0@
                && keys[j].key_type.rank() > keys[i].key_type.rank()
                && #[trigger] proof_valid(proofs[i], keys[j], keys[i])
    }
}

/// Whether a key, with its proof, may be added to the chain.
pub open spec fn admissible(keys: Seq<AuthorityKey>, key: AuthorityKey, proof: AuthorityProof) -> bool {
    &&& forall|i: int| 0 <= i < keys.len() ==> keys[i].fingerprint@ != key.fingerprint@
    &&& if key.key_type == KeyType::Skull {
        proof_valid(proof, key, key)
    } else {
        exists|j: int|
            0 <= j < keys.len() && keys[j].fingerprint@ == key.parent_authority->0@
                && keys[j].key_type.rank() > key.key_type.rank()
                && #[trigger] proof_valid(proof, keys[j], key)
    }
}

impl AuthorityChain {
    /// Fingerprints are unique, every key is well formed, and every key is
    /// installed with its proof.
    pub open spec fn wf(&self) -> bool {
        &&& self.keys@.len() == self.proofs@.len()
        &&& forall|i: int, j: int|
            0 <= i < self.keys@.len() && 0 <= j < self.keys@.len() && i != j
                ==> self.keys@[i].fingerprint@ != self.keys@[j].fingerprint@
        &&& forall|i: int| 0 <= i < self.keys@.len() ==> #[trigger] self.keys@[i].wf()
        &&& forall|i: int|
            0 <= i < self.keys@.len() ==> key_installed(self.keys@, self.proofs@, i)
    }

    /// An empty chain.
    pub fn new() -> (r: AuthorityChain)
        ensures
            r.wf(),
            r.keys@.len() == 0,
    {
        AuthorityChain { keys: Vec::new(), proofs: Vec::new() }
    }

    /// Number of keys in the chain.
    pub fn len(&self) -> (r: usize)
        ensures
            r == self.keys@.len(),
    {
        self.keys.len()
    }

    /// Index of the key with the given fingerprint bytes.
    pub fn find(&self, fingerprint: &[u8]) -> (r: Option<usize>)
        ensures
            r matches Some(i) ==> i < self.keys@.len() && self.keys@[i as int].fingerprint@
                == fingerprint@,
            r is None ==> forall|i: int|
                0 <= i < self.keys@.len() ==> self.keys@[i].fingerprint@ != fingerprint@,
    {
        let mut i: usize = 0;
        while i < self.keys.len()
            invariant
                0 <= i <= self.keys@.len(),
                forall|j: int| 0 <= j < i ==> self.keys@[j].fingerprint@ != fingerprint@,
            decreases self.keys@.len() - i,
        {
            if crate::bytes::bytes_equal(self.keys[i].fingerprint.as_bytes(), fingerprint) {
                return Some(i);
            }
            i = i + 1;
        }
        None
    }

    /// Adds a key with its proof when the key is new to the chain and the proof
    /// binds it to itself (Skull) or to a higher-tier parent in the chain.
    pub fn add_key(&mut self, key: AuthorityKey, proof: AuthorityProof) -> (r: AgeResult<()>)
        requires
            old(self).wf(),
            key.wf(),
        ensures
            final(self).wf(),
            r is Ok <==> admissible(old(self).keys@, key, proof),
            r is Ok ==> final(self).keys@ == old(self).keys@.push(key) && final(self).proofs@
                == old(self).proofs@.push(proof),
            r is Err ==> *final(self) == *old(self) && r->Err_0.is_refusal_by("AuthorityChain::add_key"@),
    {
        if self.find(key.fingerprint.as_bytes()).is_some() {
            return Err(AgeError::InvalidOperation {
                operation: "AuthorityChain::add_key".to_string(),
                reason: "Key already present in chain".to_string(),
            });
        }
        let ok = match key.key_type {
            KeyType::Skull => proof.verify(&key, &key),
            _ => {
                match &key.parent_authority {
                    None => false,
                    Some(parent_fp) => {
                        match self.find(parent_fp.as_bytes()) {
                            None => {
                                proof {
                                    assert(!admissible(self.keys@, key, proof));
                                }
                                false
                            },
                            Some(j) => {
                                let c = self.keys[j].key_type.can_control(key.key_type);
                                let v = proof.verify(&self.keys[j], &key);
                                proof {
                                    if admissible(self.keys@, key, proof) {
                                        let k = choose|k: int|
                                            0 <= k < self.keys@.len()
                                                && self.keys@[k].fingerprint@
                                                == key.parent_authority->0@
                                                && self.keys@[k].key_type.rank()
                                                > key.key_type.rank() && #[trigger] proof_valid(
                                                proof,
                                                self.keys@[k],
                                                key,
                                            );
                                        assert(k == j as int);
                                    }
                                }
                                c && v
                            },
                        }
                    },
                }
            },
        };
        if !ok {
            return Err(AgeError::InvalidOperation {
                operation: "AuthorityChain::add_key".to_string(),
                reason: "Key is not authorised by a parent in the chain".to_string(),
            });
        }
        assert(admissible(self.keys@, key, proof));
        let ghost old_keys = self.keys@;
        let ghost old_proofs = self.proofs@;
        self.keys.push(key);
        self.proofs.push(proof);
        proof {
            assert forall|i: int| 0 <= i < self.keys@.len() implies key_installed(
                self.keys@,
                self.proofs@,
                i,
            ) by {
                if i < old_keys.len() {
                    assert(key_installed(old_keys, old_proofs, i));
                    assert(self.keys@[i] == old_keys[i]);
                    assert(self.proofs@[i] == old_proofs[i]);
                    if self.keys@[i].key_type != KeyType::Skull {
                        let j = choose|j: int|
                            0 <= j < i && old_keys[j].fingerprint@ == old_keys[i].parent_authority->0@
                                && old_keys[j].key_type.rank() > old_keys[i].key_type.rank()
                                && #[trigger] proof_valid(old_proofs[i], old_keys[j], old_keys[i]);
                        assert(self.keys@[j] == old_keys[j]);
                        assert(proof_valid(self.proofs@[i], self.keys@[j], self.keys@[i]));
                    }
                } else if key.key_type != KeyType::Skull {
                    let j = choose|j: int|
                        0 <= j < old_keys.len() && old_keys[j].fingerprint@ == key.parent_authority->0@
                            && old_keys[j].key_type.rank() > key.key_type.rank()
                            && #[trigger] proof_valid(proof, old_keys[j], key);
                    assert(self.keys@[j] == old_keys[j]);
                    assert(self.keys@[i] == key);
                    assert(self.proofs@[i] == proof);
                    assert(proof_valid(self.proofs@[i], self.keys@[j], self.keys@[i]));
                } else {
                    assert(self.keys@[i] == key);
                    assert(self.proofs@[i] == proof);
                }
            }
        }
        Ok(())
    }

    /// The proof installed for the key with the given fingerprint bytes.
    pub fn proof_for(&self, fingerprint: &[u8]) -> (r: Option<&AuthorityProof>)
        requires
            self.wf(),
        ensures
            r matches Some(p) ==> exists|i: int|
                0 <= i < self.keys@.len() && self.keys@[i].fingerprint@ == fingerprint@ && *p
                    == self.proofs@[i],
            r is None ==> forall|i: int|
                0 <= i < self.keys@.len() ==> self.keys@[i].fingerprint@ != fingerprint@,
    {
        match self.find(fingerprint) {
            Some(i) => Some(&self.proofs[i]),
            None => None,
        }
    }
}

/// Every key of a well-formed chain has a proof that verifies under the parent
/// it names (itself for a Skull key), and that parent is of a strictly higher
/// tier and stands earlier in the chain, so the chain has no cycle.
pub proof fn lemma_chain_proofs_verify(chain: AuthorityChain, i: int)
    requires
        chain.wf(),
        0 <= i < chain.keys@.len(),
    ensures
        exists|j: int|
            0 <= j <= i && #[trigger] proof_valid(chain.proofs@[i], chain.keys@[j], chain.keys@[i])
                && (j == i <==> chain.keys@[i].key_type == KeyType::Skull)
                && (j < i ==> chain.keys@[j].key_type.rank() > chain.keys@[i].key_type.rank()),
{
    assert(key_installed(chain.keys@, chain.proofs@, i));
    if chain.keys@[i].key_type == KeyType::Skull {
        assert(proof_valid(chain.proofs@[i], chain.keys@[i], chain.keys@[i]));
    } else {
        let j = choose|j: int|
            0 <= j < i && chain.keys@[j].fingerprint@ == chain.keys@[i].parent_authority->0@
                && chain.keys@[j].key_type.rank() > chain.keys@[i].key_type.rank()
                && #[trigger] proof_valid(chain.proofs@[i], chain.keys@[j], chain.keys@[i]);
        assert(proof_valid(chain.proofs@[i], chain.keys@[j], chain.keys@[i]));
    }
}

} // verus!
