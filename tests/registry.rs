use did_system::did::{
    decode_signing_key, derive_public_key, did_for_key, holds_key, is_consistent, new_document,
    prepare_update, public_key_base58, DIDDocument, PublicKeyInfo, Service,
};
use did_system::registry::Registry;
use did_system::store::DocumentStore;
use did_system::types::{DIDStatus, Error, ErrorKind};
use did_system::utils::encode_base58;

fn key_text(seed: [u8; 32]) -> String {
    encode_base58(&seed)
}

fn expected_public(seed: [u8; 32]) -> String {
    let key = ed25519_dalek::SigningKey::from_bytes(&seed);
    bs58::encode(key.verifying_key().to_bytes()).into_string()
}

#[test]
fn create_resolve_update_with_seed_of_ones() {
    let seed = [1u8; 32];
    let mut registry = Registry::new();
    let public = expected_public(seed);
    let created = registry.create_did_at(&key_text(seed), 1000).unwrap();
    assert_eq!(created.id, format!("did:example:{}", public));
    assert_eq!(created.public_keys.len(), 1);
    assert_eq!(created.public_keys[0].public_key_base58, public);
    assert_eq!(created.public_keys[0].id, format!("{}#keys-1", created.id));
    assert_eq!(created.public_keys[0].type_, "Ed25519VerificationKey2020");
    assert_eq!(created.public_keys[0].controller, created.id);
    assert_eq!(created.authentication, vec![format!("{}#keys-1", created.id)]);
    assert!(created.services.is_empty());
    assert_eq!((created.created, created.updated), (1000, 1000));

    let resolved = registry.resolve_did(&created.id).unwrap();
    assert_eq!(format!("{:?}", resolved), format!("{:?}", created));

    let mut proposed = created.clone();
    proposed.services.push(Service {
        id: format!("{}#hub", created.id),
        type_: "Hub".to_string(),
        endpoint: "https://hub.example.com".to_string(),
    });
    proposed.created = 5;
    let updated = registry.update_did_at(&created.id, &key_text(seed), proposed, true, 2000).unwrap();
    assert_eq!(updated.services.len(), 1);
    assert_eq!(updated.services[0].endpoint, "https://hub.example.com");
    assert_eq!(updated.created, 1000);
    assert_eq!(updated.updated, 2000);
    let again = registry.resolve_did(&created.id).unwrap();
    assert_eq!(again.services.len(), 1);
}

#[test]
fn create_twice_fails_with_invalid_input() {
    let mut registry = Registry::new();
    let key = key_text([2u8; 32]);
    registry.create_did_at(&key, 1).unwrap();
    let second = registry.create_did_at(&key, 2);
    assert!(matches!(second, Err(Error::InvalidInput(_))));
}

#[test]
fn create_rejects_bad_key_material() {
    let mut registry = Registry::new();
    assert!(matches!(registry.create_did_at("0OIl", 1), Err(Error::InvalidInput(_))));
    assert!(matches!(
        registry.create_did_at(&encode_base58(&[1u8; 31]), 1),
        Err(Error::InvalidInput(_))
    ));
    assert!(matches!(
        registry.create_did_at(&encode_base58(&[1u8; 64]), 1),
        Err(Error::InvalidInput(_))
    ));
    assert!(registry.create_did(&key_text([9u8; 32])).is_ok());
}

#[test]
fn resolve_unknown_is_not_found() {
    let registry = Registry::new();
    let r = registry.resolve_did("did:example:nothing");
    assert!(matches!(r, Err(Error::NotFound(_))));
}

#[test]
fn update_with_foreign_key_is_unauthorized_and_changes_nothing() {
    let mut registry = Registry::new();
    let owner = key_text([3u8; 32]);
    let doc = registry.create_did_at(&owner, 10).unwrap();
    let proposed = doc.clone();
    let r = registry.update_did_at(&doc.id, &key_text([4u8; 32]), proposed, true, 20);
    assert!(matches!(r, Err(Error::Unauthorized(_))));
    let after = registry.resolve_did(&doc.id).unwrap();
    assert_eq!(after.updated, 10);
    assert!(matches!(
        registry.verify_did_ownership(&doc.id, &key_text([4u8; 32])),
        Err(Error::Unauthorized(_))
    ));
    assert!(registry.verify_did_ownership(&doc.id, &owner).is_ok());
}

#[test]
fn update_never_moves_time_back() {
    let mut registry = Registry::new();
    let key = key_text([5u8; 32]);
    let doc = registry.create_did_at(&key, 500).unwrap();
    let updated = registry.update_did_at(&doc.id, &key, doc.clone(), true, 100).unwrap();
    assert_eq!(updated.updated, 500);
    assert_eq!(updated.created, 500);
}

#[test]
fn update_refused_when_ledger_reports_inactive() {
    let mut registry = Registry::new();
    let key = key_text([6u8; 32]);
    let doc = registry.create_did_at(&key, 1).unwrap();
    let r = registry.update_did_at(&doc.id, &key, doc.clone(), false, 2);
    assert!(matches!(r, Err(Error::InvalidState(_))));
    assert_eq!(r.unwrap_err().kind(), ErrorKind::InvalidState);
}

#[test]
fn deactivate_then_update_resolve_and_deactivate_again() {
    let mut registry = Registry::new();
    let key = key_text([8u8; 32]);
    let doc = registry.create_did_at(&key, 1).unwrap();
    registry.deactivate_did(&doc.id, &key).unwrap();
    assert!(matches!(registry.resolve_did(&doc.id), Err(Error::NotFound(_))));
    let r = registry.update_did_at(&doc.id, &key, doc.clone(), true, 3);
    assert!(matches!(r, Err(Error::NotFound(_))));
    assert!(matches!(registry.deactivate_did(&doc.id, &key), Err(Error::NotFound(_))));
    assert!(matches!(registry.create_did_at(&key, 4), Err(Error::InvalidInput(_))));
}

#[test]
fn store_create_update_get_deactivate() {
    let mut store = DocumentStore::new();
    let doc = new_document("abc", 7);
    assert!(store.get_did_document("did:example:abc").is_none());
    assert!(matches!(store.store_did_document("did:example:abc", &doc, true), Err(Error::NotFound(_))));
    store.store_did_document("did:example:abc", &doc, false).unwrap();
    assert!(matches!(
        store.store_did_document("did:example:abc", &doc, false),
        Err(Error::InvalidInput(_))
    ));
    let mut changed = doc.clone();
    changed.updated = 9;
    store.store_did_document("did:example:abc", &changed, true).unwrap();
    assert_eq!(store.get_did_document("did:example:abc").unwrap().updated, 9);
    store.deactivate_did("did:example:abc").unwrap();
    assert!(store.get_did_document("did:example:abc").is_none());
    store.deactivate_did("did:example:abc").unwrap();
    assert!(matches!(store.deactivate_did("did:example:zzz"), Err(Error::NotFound(_))));
}

#[test]
fn document_rules() {
    assert_eq!(did_for_key("XYZ"), "did:example:XYZ");
    let doc = new_document("XYZ", 3);
    assert!(holds_key(&doc, "XYZ"));
    assert!(!holds_key(&doc, "XY"));
    let mut proposed: DIDDocument = doc.clone();
    proposed.id = "did:example:other".to_string();
    proposed.created = 99;
    proposed.updated = 1;
    let next = prepare_update(&doc, proposed, 10);
    assert_eq!((next.id.as_str(), next.created, next.updated), ("did:example:XYZ", 3, 10));
}

#[test]
fn key_material_decoding_and_derivation() {
    let seed = [1u8; 32];
    let text = key_text(seed);
    assert_eq!(decode_signing_key(&text).unwrap(), seed.to_vec());
    assert!(matches!(decode_signing_key("0"), Err(Error::InvalidInput(_))));
    let public = derive_public_key(&seed);
    assert_eq!(
        public,
        ed25519_dalek::SigningKey::from_bytes(&seed).verifying_key().to_bytes().to_vec()
    );
    assert_ne!(public, seed.to_vec());
    assert_eq!(public_key_base58(&seed), expected_public(seed));
}

#[test]
fn status_names() {
    assert_eq!(DIDStatus::from_str("ACTIVE").unwrap(), DIDStatus::Active);
    assert_eq!(DIDStatus::from_str("Deactivated").unwrap(), DIDStatus::Deactivated);
    assert!(matches!(DIDStatus::from_str("gone"), Err(Error::InvalidInput(_))));
    assert_eq!(DIDStatus::default(), DIDStatus::Active);
}

#[test]
fn registry_over_existing_store() {
    let seed = [11u8; 32];
    let mut store = DocumentStore::new();
    let doc = new_document(&public_key_base58(&seed), 42);
    store.store_did_document(&doc.id, &doc, false).unwrap();
    let mut registry = Registry::from_store(store);
    assert_eq!(registry.resolve_did(&doc.id).unwrap().created, 42);
    assert!(matches!(registry.create_did_at(&key_text(seed), 50), Err(Error::InvalidInput(_))));
    assert!(registry.deactivate_did(&doc.id, &key_text(seed)).is_ok());
}

#[test]
fn resolve_with_ledger_status() {
    let mut registry = Registry::new();
    let key = key_text([12u8; 32]);
    let doc = registry.create_did_at(&key, 1).unwrap();
    assert!(registry.resolve_did_with_status(&doc.id, true).is_ok());
    assert!(matches!(registry.resolve_did_with_status(&doc.id, false), Err(Error::InvalidState(_))));
    assert!(matches!(registry.resolve_did_with_status("did:example:x", false), Err(Error::NotFound(_))));
}

#[test]
fn update_refuses_structurally_invalid_documents() {
    let mut registry = Registry::new();
    let key = key_text([13u8; 32]);
    let doc = registry.create_did_at(&key, 1).unwrap();

    let mut dangling = doc.clone();
    dangling.authentication.push(format!("{}#keys-9", doc.id));
    let r = registry.update_did_at(&doc.id, &key, dangling, true, 2);
    assert!(matches!(r, Err(Error::InvalidInput(_))));

    let mut foreign = doc.clone();
    foreign.public_keys[0].controller = "did:example:someone-else".to_string();
    let r = registry.update_did_at(&doc.id, &key, foreign, true, 2);
    assert!(matches!(r, Err(Error::InvalidInput(_))));

    let mut keyless = doc.clone();
    keyless.public_keys.clear();
    keyless.authentication.clear();
    let r = registry.update_did_at(&doc.id, &key, keyless, true, 2);
    assert!(matches!(r, Err(Error::InvalidInput(_))));

    let after = registry.resolve_did(&doc.id).unwrap();
    assert_eq!(format!("{:?}", after), format!("{:?}", doc));
}

#[test]
fn update_keeps_the_requested_identifier() {
    let mut registry = Registry::new();
    let key = key_text([14u8; 32]);
    let doc = registry.create_did_at(&key, 1).unwrap();
    let mut renamed = doc.clone();
    renamed.id = "did:example:elsewhere".to_string();
    let updated = registry.update_did_at(&doc.id, &key, renamed, true, 2).unwrap();
    assert_eq!(updated.id, doc.id);
    assert!(matches!(registry.resolve_did("did:example:elsewhere"), Err(Error::NotFound(_))));
}

#[test]
fn consistency_of_documents() {
    let doc = new_document("XYZ", 3);
    assert!(is_consistent(&doc));
    let mut twin = doc.clone();
    twin.public_keys.push(PublicKeyInfo {
        id: doc.public_keys[0].id.clone(),
        type_: "Ed25519VerificationKey2020".to_string(),
        controller: doc.id.clone(),
        public_key_base58: "ABC".to_string(),
    });
    assert!(!is_consistent(&twin));
    let mut second = doc.clone();
    second.public_keys.push(PublicKeyInfo {
        id: format!("{}#keys-2", doc.id),
        type_: "Ed25519VerificationKey2020".to_string(),
        controller: doc.id.clone(),
        public_key_base58: "ABC".to_string(),
    });
    second.authentication.push(format!("{}#keys-2", doc.id));
    assert!(is_consistent(&second));
}

#[test]
fn empty_key_material_is_refused() {
    let mut registry = Registry::new();
    assert!(matches!(registry.create_did_at("", 1), Err(Error::InvalidInput(_))));
    assert!(matches!(decode_signing_key(""), Err(Error::InvalidInput(_))));
}

#[test]
fn inactive_ledger_wins_over_malformed_document() {
    let mut registry = Registry::new();
    let key = key_text([15u8; 32]);
    let doc = registry.create_did_at(&key, 1).unwrap();
    let mut dangling = doc.clone();
    dangling.authentication.push("nowhere".to_string());
    let r = registry.update_did_at(&doc.id, &key, dangling, false, 2);
    assert!(matches!(r, Err(Error::InvalidState(_))));
}
