use padlock::authority_proof::AuthorityProof;
use padlock::error::AgeError;
use padlock::fingerprint::KeyFingerprint;
use padlock::generator::{
    mix_entropy, AuthorityKeyGenerator, GenerationMetadata, KeyGenerationParams, KeyGeneratorFactory,
};
use padlock::ignition::IgnitionKey;
use padlock::key::{AuthorityKey, KeyFormat, KeyMaterial};
use padlock::{AuthorityChain, KeyType};

fn metadata(purpose: &str) -> GenerationMetadata {
    GenerationMetadata {
        purpose: purpose.to_string(),
        created_by: "test".to_string(),
        environment: "test".to_string(),
        tags: vec!["test".to_string()],
    }
}

#[test]
fn test_key_generator_creation() {
    let generator = KeyGeneratorFactory::create_empty();
    assert!(generator.is_ok());
}

#[test]
fn test_skull_key_generation() {
    let mut generator = KeyGeneratorFactory::create_empty().unwrap();
    let metadata = GenerationMetadata {
        purpose: "Test skull key".to_string(),
        created_by: "test".to_string(),
        environment: "test".to_string(),
        tags: vec!["test".to_string()],
    };
    let result = generator.generate_skull_key(metadata);
    assert!(result.is_ok());
    let result = result.unwrap();
    assert_eq!(result.key.key_type(), KeyType::Skull);
    assert!(result.key.parent_authority().is_none());
}

#[test]
fn test_key_validation() {
    let mut generator = KeyGeneratorFactory::create_empty().unwrap();
    let params = KeyGenerationParams {
        key_type: KeyType::Skull,
        parent_authority: None,
        key_length: 8,
        expiration_duration: None,
        metadata: GenerationMetadata {
            purpose: "test".to_string(),
            created_by: "test".to_string(),
            environment: "test".to_string(),
            tags: vec![],
        },
    };
    let result = generator.generate_authority_key(params, None);
    assert!(result.is_err());
}

#[test]
fn key_length_floor_cites_length() {
    let mut generator = AuthorityKeyGenerator::with_seed(AuthorityChain::new(), 7);
    let params = KeyGenerationParams {
        key_type: KeyType::Skull,
        parent_authority: None,
        key_length: 8,
        expiration_duration: None,
        metadata: metadata("floor"),
    };
    match generator.generate_authority_key(params, None) {
        Err(AgeError::InvalidOperation { operation, reason }) => {
            assert_eq!(operation, "validate_generation_params");
            assert_eq!(reason, "Key length 8 below minimum 64 for Skull");
        }
        other => panic!("unexpected {:?}", other.map(|g| g.fingerprint.hex())),
    }
}

#[test]
fn repo_key_requires_master_parent() {
    let mut generator = KeyGeneratorFactory::create_empty().unwrap();
    let skull = generator.generate_skull_key(metadata("skull")).unwrap();
    match generator.generate_repo_key(&skull.key, "/tmp/repo", metadata("repo")) {
        Err(AgeError::InvalidOperation { operation, reason }) => {
            assert_eq!(operation, "generate_repo_key");
            assert_eq!(reason, "Parent must be master key");
        }
        other => panic!("unexpected {:?}", other.map(|g| g.fingerprint.hex())),
    }
}

#[test]
fn master_key_requires_skull_parent() {
    let mut generator = KeyGeneratorFactory::create_empty().unwrap();
    let skull = generator.generate_skull_key(metadata("skull")).unwrap();
    let master = generator.generate_master_key(&skull.key, metadata("master")).unwrap();
    match generator.generate_master_key(&master.key, metadata("again")) {
        Err(AgeError::InvalidOperation { operation, reason }) => {
            assert_eq!(operation, "generate_master_key");
            assert_eq!(reason, "Parent must be skull key");
        }
        other => panic!("unexpected {:?}", other.map(|g| g.fingerprint.hex())),
    }
}

#[test]
fn hierarchy_refuses_equal_or_higher_tier() {
    let mut generator = KeyGeneratorFactory::create_empty().unwrap();
    let skull = generator.generate_skull_key(metadata("skull")).unwrap();
    let master = generator.generate_master_key(&skull.key, metadata("master")).unwrap();
    let params = KeyGenerationParams {
        key_type: KeyType::Master,
        parent_authority: None,
        key_length: 48,
        expiration_duration: None,
        metadata: metadata("sibling"),
    };
    match generator.generate_authority_key(params, Some(&master.key)) {
        Err(AgeError::InvalidOperation { reason, .. }) => assert_eq!(reason, "Master cannot delegate to Master"),
        other => panic!("unexpected {:?}", other.map(|g| g.fingerprint.hex())),
    }
    let params = KeyGenerationParams {
        key_type: KeyType::Repo,
        parent_authority: None,
        key_length: 32,
        expiration_duration: None,
        metadata: metadata("orphan"),
    };
    assert!(generator.generate_authority_key(params, None).is_err());
}

#[test]
fn generated_chain_installs_and_verifies() {
    let mut generator = KeyGeneratorFactory::create_empty().unwrap();
    let skull = generator.generate_skull_key(metadata("skull")).unwrap();
    let master = generator.generate_master_key(&skull.key, metadata("master")).unwrap();
    let repo = generator.generate_repo_key(&master.key, "/tmp/repo", metadata("repo")).unwrap();
    assert_eq!(skull.key.key_material().public_key().len(), 64);
    assert_eq!(master.key.key_material().public_key().len(), 48);
    assert_eq!(repo.key.key_material().public_key().len(), 32);
    assert!(skull.generation_proof.verify(&skull.key, &skull.key));
    assert!(master.generation_proof.verify(&skull.key, &master.key));
    assert!(repo.generation_proof.verify(&master.key, &repo.key));
    assert!(!repo.generation_proof.verify(&skull.key, &repo.key));
    let meta = master.key.metadata.as_ref().unwrap();
    assert!(meta.creation_time > 1_600_000_000);
    assert_eq!(meta.expiration, Some(meta.creation_time + 365 * 86400));
    assert_eq!(meta.creator, "test");
    assert_eq!(meta.description, "master");
    assert_eq!(meta.usage_count, 0);
    let repo_meta = repo.key.metadata.as_ref().unwrap();
    assert_eq!(repo_meta.expiration, Some(repo_meta.creation_time + 90 * 86400));
    assert_eq!(skull.key.metadata.as_ref().unwrap().expiration, None);
    assert_eq!(generator.authority_chain.len(), 3);
    assert_eq!(generator.authority_chain.find(repo.fingerprint.as_bytes()), Some(2));

    let mut chain = AuthorityChain::new();
    assert!(chain.add_key(master.key.clone(), master.generation_proof.clone()).is_err());
    chain.add_key(skull.key.clone(), skull.generation_proof.clone()).unwrap();
    chain.add_key(master.key.clone(), master.generation_proof.clone()).unwrap();
    assert!(chain.add_key(master.key.clone(), master.generation_proof.clone()).is_err());
    chain.add_key(repo.key.clone(), repo.generation_proof.clone()).unwrap();
    assert_eq!(chain.len(), 3);
    assert_eq!(chain.find(repo.fingerprint.as_bytes()), Some(2));
    assert!(chain.proof_for(master.fingerprint.as_bytes()).is_some());
}

#[test]
fn tampered_proof_fails_verification() {
    let mut generator = KeyGeneratorFactory::create_empty().unwrap();
    let skull = generator.generate_skull_key(metadata("skull")).unwrap();
    let master = generator.generate_master_key(&skull.key, metadata("master")).unwrap();
    let mut bad_sig = master.generation_proof.clone();
    bad_sig.signature[0] ^= 1;
    assert!(!bad_sig.verify(&skull.key, &master.key));
    let mut bad_time = master.generation_proof.clone();
    bad_time.issued_at += 1;
    assert!(!bad_time.verify(&skull.key, &master.key));
    let mut bad_fp = master.generation_proof.clone();
    bad_fp.child_fingerprint.bytes[31] ^= 0x80;
    assert!(!bad_fp.verify(&skull.key, &master.key));
}

#[test]
fn proof_needs_private_component() {
    let material = KeyMaterial::new(vec![7u8; 64], None, KeyFormat::Raw);
    let key = AuthorityKey::new(material, KeyType::Skull, None, None, None).unwrap();
    assert!(AuthorityProof::generate(&key, &key, 1).is_err());
}

#[test]
fn weak_material_is_refused() {
    let zeros = KeyMaterial::new(vec![0u8; 64], None, KeyFormat::Raw);
    assert!(AuthorityKey::new(zeros, KeyType::Skull, None, None, None).is_err());
    let short = KeyMaterial::new(vec![1u8; 63], None, KeyFormat::Raw);
    assert!(AuthorityKey::new(short, KeyType::Skull, None, None, None).is_err());
    let fp = KeyFingerprint::from_public_key(&[1u8; 16]);
    let orphan = KeyMaterial::new(vec![1u8; 16], None, KeyFormat::Raw);
    assert!(AuthorityKey::new(orphan, KeyType::Distro, None, None, None).is_err());
    let child = KeyMaterial::new(vec![1u8; 16], None, KeyFormat::Raw);
    assert!(AuthorityKey::new(child, KeyType::Distro, None, None, Some(fp)).is_ok());
}

#[test]
fn fingerprint_is_sha256_hex() {
    let fp = KeyFingerprint::from_public_key(b"abc");
    assert_eq!(fp.hex(), "ba7816bf8f01cfea414140de5dae2223b00361a396177a9cb410ff61f20015ad");
    assert!(fp.same_as(&KeyFingerprint::from_public_key(b"abc")));
    assert!(!fp.same_as(&KeyFingerprint::from_public_key(b"abd")));
}

#[test]
fn entropy_mixing_cycles_digest() {
    let raw: Vec<u8> = (0u8..40).collect();
    let digest: Vec<u8> = vec![0xFF; 32];
    let mixed = mix_entropy(&raw, &digest);
    assert_eq!(mixed.len(), 40);
    assert_eq!(mixed[0], 0xFF);
    assert_eq!(mixed[1], 0xFE);
    assert_eq!(mixed[33], 33 ^ 0xFF);
}

#[test]
fn ignition_key_round_trip() {
    let mut generator = KeyGeneratorFactory::create_empty().unwrap();
    let skull = generator.generate_skull_key(metadata("skull")).unwrap();
    let params = KeyGenerationParams {
        key_type: KeyType::Ignition,
        parent_authority: None,
        key_length: 32,
        expiration_duration: None,
        metadata: metadata("ignition"),
    };
    let key = generator
        .generate_ignition_key(KeyType::Ignition, "a long passphrase", vec![skull.fingerprint.clone()], params)
        .unwrap();
    assert_ne!(key.salt, vec![0u8; 16]);
    let material = key.open("a long passphrase").unwrap();
    assert_eq!(material.len(), 32);
    assert_eq!(key.open("another passphrase"), Err(AgeError::AuthenticationFailed));
    assert_eq!(key.description.as_deref(), Some("ignition"));
}

#[test]
fn ignition_parameters_are_checked() {
    let mut generator = KeyGeneratorFactory::create_empty().unwrap();
    let params = KeyGenerationParams {
        key_type: KeyType::Ignition,
        parent_authority: None,
        key_length: 32,
        expiration_duration: None,
        metadata: metadata("ignition"),
    };
    let fp = KeyFingerprint::from_public_key(b"authority");
    assert!(generator.generate_ignition_key(KeyType::Master, "a long passphrase", vec![fp.clone()], params.clone()).is_err());
    assert!(generator.generate_ignition_key(KeyType::Ignition, "short", vec![fp.clone()], params.clone()).is_err());
    assert!(generator.generate_ignition_key(KeyType::Ignition, "a long passphrase", vec![], params).is_err());
}

#[test]
fn ignition_create_and_open_exact() {
    let material = vec![9u8; 40];
    let key = IgnitionKey::create(&material, KeyType::Distro, "twelve chars", vec![1, 2, 3], 3, None).unwrap();
    assert_ne!(key.wrapped_ciphertext, material);
    assert_eq!(key.open("twelve chars").unwrap(), material);
    assert!(IgnitionKey::create(&material, KeyType::Repo, "twelve chars", vec![1], 3, None).is_err());
    assert!(IgnitionKey::create(&material, KeyType::Distro, "eleven char", vec![1], 3, None).is_err());
}

#[test]
fn delegation_order() {
    assert!(KeyType::Skull.can_control(KeyType::Master));
    assert!(KeyType::Ignition.can_control(KeyType::Distro));
    assert!(!KeyType::Distro.can_control(KeyType::Distro));
    assert!(!KeyType::Repo.can_control(KeyType::Master));
    assert_eq!(KeyType::Repo.min_key_length(), 24);
    assert_eq!(KeyType::Skull.name(), "Skull");
}

#[test]
fn initializers_succeed() {
    assert!(padlock::generator::initialize().is_ok());
    assert!(padlock::bridge::initialize().is_ok());
}

#[test]
fn seeded_generators_share_their_stream() {
    let params = KeyGenerationParams {
        key_type: KeyType::Distro,
        parent_authority: None,
        key_length: 16,
        expiration_duration: None,
        metadata: metadata("seeded"),
    };
    let fp = KeyFingerprint::from_public_key(b"authority");
    let mut g1 = AuthorityKeyGenerator::with_seed(AuthorityChain::new(), 42);
    let mut g2 = AuthorityKeyGenerator::with_seed(AuthorityChain::new(), 42);
    let mut g3 = AuthorityKeyGenerator::with_seed(AuthorityChain::new(), 43);
    let k1 = g1.generate_ignition_key(KeyType::Distro, "a long passphrase", vec![fp.clone()], params.clone()).unwrap();
    let k2 = g2.generate_ignition_key(KeyType::Distro, "a long passphrase", vec![fp.clone()], params.clone()).unwrap();
    let k3 = g3.generate_ignition_key(KeyType::Distro, "a long passphrase", vec![fp], params).unwrap();
    assert_eq!(k1.salt, k2.salt);
    assert_ne!(k1.salt, k3.salt);
}

#[test]
fn parent_outside_the_chain_is_refused() {
    let mut other = KeyGeneratorFactory::create_empty().unwrap();
    let foreign_skull = other.generate_skull_key(metadata("foreign")).unwrap();
    let mut generator = KeyGeneratorFactory::create_empty().unwrap();
    match generator.generate_master_key(&foreign_skull.key, metadata("master")) {
        Err(AgeError::InvalidOperation { operation, .. }) => assert_eq!(operation, "AuthorityChain::add_key"),
        other => panic!("unexpected {:?}", other.map(|g| g.fingerprint.hex())),
    }
    assert_eq!(generator.authority_chain.len(), 0);
}

#[test]
fn ignition_passphrase_counts_characters() {
    let mut generator = KeyGeneratorFactory::create_empty().unwrap();
    let params = KeyGenerationParams {
        key_type: KeyType::Ignition,
        parent_authority: None,
        key_length: 32,
        expiration_duration: None,
        metadata: metadata("ignition"),
    };
    let fp = KeyFingerprint::from_public_key(b"authority");
    match generator.generate_ignition_key(KeyType::Ignition, "ééééééééééé", vec![fp.clone()], params.clone()) {
        Err(AgeError::InvalidOperation { operation, reason }) => {
            assert_eq!(operation, "validate_ignition_params");
            assert_eq!(reason, "Ignition key passphrase must be at least 12 characters");
        }
        other => panic!("unexpected {:?}", other.map(|k| k.kdf_rounds)),
    }
    assert!(generator.generate_ignition_key(KeyType::Ignition, "éééééééééééé", vec![fp], params).is_ok());
}

#[test]
fn audit_records_name_fingerprint_type_and_purpose() {
    let fp = KeyFingerprint::from_public_key(b"abc").hex();
    let m = padlock::audit::key_generation_record(&fp, KeyType::Master, "ci");
    assert_eq!(m, format!("Authority key generated: {} (Master) for ci", fp));
    let i = padlock::audit::ignition_generation_record("ab12", KeyType::Distro);
    assert_eq!(i, "Ignition key generated: ab12 wrapping Distro");
    let line = padlock::audit::audit_line("2024-01-01T00:00:00Z", "INFO", "authority", &i);
    assert_eq!(line, "2024-01-01T00:00:00Z INFO authority Ignition key generated: ab12 wrapping Distro");
}
