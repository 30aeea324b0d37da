//! Key material, metadata, and the authority key aggregate.
use vstd::prelude::*;
use crate::bytes::{all_zero, is_all_zero};
use crate::error::{AgeError, AgeResult};
use crate::fingerprint::{fingerprint_of, KeyFingerprint};
use crate::key_type::KeyType;

verus! {

/// Format tag of key material.
#[derive(Debug, Clone, Copy, PartialEq, Eq, Structural)]
pub enum KeyFormat {
    Ed25519,
    X25519,
    Raw,
}

/// Raw key bytes: a public component that is always present and an optional
/// private component.
#[derive(Debug, Clone)]
pub struct KeyMaterial {
    pub public_key: Vec<u8>,
    pub private_key: Option<Vec<u8>>,
    pub format: KeyFormat,
}

impl KeyMaterial {
    pub fn new(public_key: Vec<u8>, private_key: Option<Vec<u8>>, format: KeyFormat) -> (r: KeyMaterial)
        ensures
            r.public_key@ == public_key@,
            r.private_key == private_key,
            r.format == format,
    {
        KeyMaterial { public_key, private_key, format }
    }

    /// A copy of the material.
    pub fn duplicate(&self) -> (r: KeyMaterial)
        ensures
            r.public_key@ == self.public_key@,
            r.private_key is Some <==> self.private_key is Some,
            r.private_key is Some ==> r.private_key->0@ == self.private_key->0@,
            r.format == self.format,
    {
        let private_key = match &self.private_key {
            Some(k) => Some(k.clone()),
            None => None,
        };
        KeyMaterial { public_key: self.public_key.clone(), private_key, format: self.format }
    }

    /// The public component.
    pub fn public_key(&self) -> (r: &[u8])
        ensures
            r@ == self.public_key@,
    {
        self.public_key.as_slice()
    }
}

/// Material is weak for a tier when it is shorter than the tier's floor or
/// consists of zero bytes only.
pub open spec fn is_weak(public_key: Seq<u8>, key_type: KeyType) -> bool {
    public_key.len() < key_type.spec_min_key_length() || all_zero(public_key)
}

/// Tests whether the material is weak for the given tier.
pub fn material_is_weak(public_key: &[u8], key_type: KeyType) -> (r: bool)
    ensures
        r == is_weak(public_key@, key_type),
{
    public_key.len() < key_type.min_key_length() || is_all_zero(public_key)
}

/// Bookkeeping attached to a key; timestamps are seconds since the Unix epoch.
#[derive(Debug, Clone)]
pub struct KeyMetadata {
    pub creation_time: i64,
    pub creator: String,
    pub description: String,
    pub expiration: Option<i64>,
    pub last_used: Option<i64>,
    pub usage_count: u64,
}

impl KeyMetadata {
    /// Records one use of the key at `now`; the usage counter never decreases.
    pub fn record_use(&mut self, now: i64)
        ensures
            final(self).last_used == Some(now),
            final(self).usage_count == if old(self).usage_count < u64::MAX {
                (old(self).usage_count + 1) as u64
            } else {
                old(self).usage_count
            },
            final(self).creation_time == old(self).creation_time,
            final(self).expiration == old(self).expiration,
    {
        self.last_used = Some(now);
        if self.usage_count < u64::MAX {
            self.usage_count = self.usage_count + 1;
        }
    }

    /// Whether the key has expired at `now`.
    pub fn is_expired(&self, now: i64) -> (r: bool)
        ensures
            r == match self.expiration {
                Some(e) => now >= e,
                None => false,
            },
    {
        match self.expiration {
            Some(e) => now >= e,
            None => false,
        }
    }
}

/// A key of the authority hierarchy.
#[derive(Debug, Clone)]
pub struct AuthorityKey {
    pub material: KeyMaterial,
    pub key_type: KeyType,
    pub key_path: Option<String>,
    pub metadata: Option<KeyMetadata>,
    pub parent_authority: Option<KeyFingerprint>,
    pub fingerprint: KeyFingerprint,
}

/// Whether a parent reference fits a tier: only Skull keys are parentless.
pub open spec fn parent_fits(key_type: KeyType, has_parent: bool) -> bool {
    (key_type == KeyType::Skull) == !has_parent
}

/// Two keys agree on what identifies and authorises them: fingerprint,
/// material, tier and parent reference.
pub open spec fn same_key(a: AuthorityKey, b: AuthorityKey) -> bool {
    &&& a.fingerprint@ == b.fingerprint@
    &&& a.material.public_key@ == b.material.public_key@
    &&& (a.material.private_key is Some <==> b.material.private_key is Some)
    &&& (a.material.private_key is Some ==> a.material.private_key->0@ == b.material.private_key->0@)
    &&& a.material.format == b.material.format
    &&& a.key_type == b.key_type
    &&& (a.parent_authority is Some <==> b.parent_authority is Some)
    &&& (a.parent_authority is Some ==> a.parent_authority->0@ == b.parent_authority->0@)
}

impl AuthorityKey {
    /// The key's fingerprint matches its public component, its parent reference
    /// fits its tier, and its material is not weak.
    pub open spec fn wf(&self) -> bool {
        &&& self.fingerprint@ == fingerprint_of(self.material.public_key@)
        &&& parent_fits(self.key_type, self.parent_authority is Some)
        &&& !is_weak(self.material.public_key@, self.key_type)
    }

    /// Builds a key, refusing a parent reference that does not fit the tier and
    /// weak material.
    pub fn new(
        material: KeyMaterial,
        key_type: KeyType,
        key_path: Option<String>,
        metadata: Option<KeyMetadata>,
        parent_authority: Option<KeyFingerprint>,
    ) -> (r: AgeResult<AuthorityKey>)
        ensures
            r is Ok <==> parent_fits(key_type, parent_authority is Some) && !is_weak(
                material.public_key@,
                key_type,
            ),
            r is Err ==> r->Err_0.is_refusal_by("AuthorityKey::new"@),
            r matches Ok(k) ==> {
                &&& k.wf()
                &&& k.material == material
                &&& k.key_type == key_type
                &&& k.key_path == key_path
                &&& k.metadata == metadata
                &&& k.parent_authority == parent_authority
            },
    {
        let is_skull = match key_type {
            KeyType::Skull => true,
            _ => false,
        };
        if is_skull != parent_authority.is_none() {
            return Err(AgeError::InvalidOperation {
                operation: "AuthorityKey::new".to_string(),
                reason: if is_skull {
                    "Skull keys cannot have a parent".to_string()
                } else {
                    "Only skull keys can be parentless".to_string()
                },
            });
        }
        if material_is_weak(material.public_key.as_slice(), key_type) {
            return Err(AgeError::InvalidOperation {
                operation: "AuthorityKey::new".to_string(),
                reason: "Key material is weak".to_string(),
            });
        }
        let fingerprint = KeyFingerprint::from_public_key(material.public_key.as_slice());
        Ok(AuthorityKey { material, key_type, key_path, metadata, parent_authority, fingerprint })
    }

    /// A copy of the key.
    pub fn duplicate(&self) -> (r: AuthorityKey)
        ensures
            same_key(r, *self),
    {
        let key_path = match &self.key_path {
            Some(p) => Some(p.clone()),
            None => None,
        };
        let metadata = match &self.metadata {
            Some(m) => Some(KeyMetadata {
                creation_time: m.creation_time,
                creator: m.creator.clone(),
                description: m.description.clone(),
                expiration: m.expiration,
                last_used: m.last_used,
                usage_count: m.usage_count,
            }),
            None => None,
        };
        let parent_authority = match &self.parent_authority {
            Some(f) => Some(f.duplicate()),
            None => None,
        };
        AuthorityKey {
            material: self.material.duplicate(),
            key_type: self.key_type,
            key_path,
            metadata,
            parent_authority,
            fingerprint: self.fingerprint.duplicate(),
        }
    }

    pub fn key_type(&self) -> (r: KeyType)
        ensures
            r == self.key_type,
    {
        self.key_type
    }

    pub fn fingerprint(&self) -> (r: &KeyFingerprint)
        ensures
            r == self.fingerprint,
    {
        &self.fingerprint
    }

    pub fn parent_authority(&self) -> (r: Option<&KeyFingerprint>)
        ensures
            r == match self.parent_authority {
                Some(f) => Some(&f),
                None => None::<&KeyFingerprint>,
            },
    {
        match &self.parent_authority {
            Some(f) => Some(f),
            None => None,
        }
    }

    pub fn key_material(&self) -> (r: &KeyMaterial)
        ensures
            r == self.material,
    {
        &self.material
    }
}

} // verus!
