use custodial_registry::record::CredentialRecord;
use custodial_registry::registry::{Registry, RegistryError};
use custodial_registry::request::{
    get_key, save_key, status_of, GetKeyInput, SaveKeyInput, STATUS_BAD_REQUEST,
    STATUS_NOT_FOUND, STATUS_OK,
};
use keyplace::CustodialAgentKey;

const ZEROS_32: &str = "AAAAAAAAAAAAAAAAAAAAAAAAAAAAAAAAAAAAAAAAAAA=";
const ONES_32: &str = "AQEBAQEBAQEBAQEBAQEBAQEBAQEBAQEBAQEBAQEBAQE=";

fn key(tag: &str, bytes: &str) -> CustodialAgentKey {
    let text = format!(
        "{{\"pubkey\":\"{b}\",\"mask\":{{\"mask\":\"{b}\"}},\"check\":\"{b}\",\"email\":\"{t}\"}}",
        b = bytes,
        t = tag
    );
    serde_json::from_str(&text).expect("a well-formed custodial key")
}

fn record(tag: &str) -> CredentialRecord {
    CredentialRecord::new(key(tag, ZEROS_32))
}

fn found(registry: &Registry, id: &str) -> CustodialAgentKey {
    match registry.lookup(&id.to_string()) {
        Ok(rec) => rec.custodial_key.clone(),
        Err(e) => panic!("expected a record for {}, got {:?}", id, e),
    }
}

#[test]
fn empty_registry_finds_nothing() {
    let registry = Registry::new();
    assert_eq!(registry.lookup(&"a@x.com".to_string()).err(), Some(RegistryError::NotFound));
}

#[test]
fn save_then_lookup_returns_record() {
    let mut registry = Registry::new();
    registry.save("a@x.com".to_string(), record("K1"));
    assert_eq!(found(&registry, "a@x.com"), key("K1", ZEROS_32));
}

#[test]
fn lookup_returns_record_field_for_field() {
    let mut registry = Registry::new();
    let original = key("a@x.com", ONES_32);
    registry.save("a@x.com".to_string(), CredentialRecord::new(original.clone()));
    let back = found(&registry, "a@x.com");
    assert_eq!(back, original);
    assert_eq!(
        serde_json::to_string(&back).unwrap(),
        serde_json::to_string(&original).unwrap()
    );
    assert_ne!(back, key("a@x.com", ZEROS_32));
}

#[test]
fn later_save_overwrites() {
    let mut registry = Registry::new();
    registry.save("a@x.com".to_string(), record("A"));
    registry.save("a@x.com".to_string(), record("B"));
    assert_eq!(found(&registry, "a@x.com"), key("B", ZEROS_32));
    assert_ne!(found(&registry, "a@x.com"), key("A", ZEROS_32));
}

#[test]
fn never_saved_identifier_is_not_found() {
    let mut registry = Registry::new();
    registry.save("a@x.com".to_string(), record("K1"));
    registry.save("c@x.com".to_string(), record("K3"));
    assert_eq!(registry.lookup(&"b@x.com".to_string()).err(), Some(RegistryError::NotFound));
}

#[test]
fn identifiers_are_case_sensitive() {
    let mut registry = Registry::new();
    registry.save("a@x.com".to_string(), record("lower"));
    assert_eq!(registry.lookup(&"A@x.com".to_string()).err(), Some(RegistryError::NotFound));
    registry.save("A@x.com".to_string(), record("upper"));
    assert_eq!(found(&registry, "a@x.com"), key("lower", ZEROS_32));
    assert_eq!(found(&registry, "A@x.com"), key("upper", ZEROS_32));
}

#[test]
fn distinct_identifiers_are_kept_apart() {
    let mut registry = Registry::new();
    let ids: Vec<String> = (0..20).map(|i| format!("user{}@x.com", i)).collect();
    for id in ids.iter().rev() {
        registry.save(id.clone(), record(id));
    }
    for id in &ids {
        assert_eq!(found(&registry, id), key(id, ZEROS_32));
    }
}

#[test]
fn repeated_save_is_idempotent() {
    let mut registry = Registry::new();
    for _ in 0..5 {
        registry.save("a@x.com".to_string(), record("R"));
        assert_eq!(found(&registry, "a@x.com"), key("R", ZEROS_32));
    }
    assert_eq!(found(&registry, "a@x.com"), key("R", ZEROS_32));
}

#[test]
fn status_codes() {
    assert_eq!(status_of(&Ok::<(), RegistryError>(())), 200);
    assert_eq!(status_of(&Err::<(), RegistryError>(RegistryError::MalformedInput)), 400);
    assert_eq!(status_of(&Err::<(), RegistryError>(RegistryError::NotFound)), 404);
    assert_eq!((STATUS_OK, STATUS_BAD_REQUEST, STATUS_NOT_FOUND), (200, 400, 404));
}

#[test]
fn malformed_save_leaves_registry_unchanged() {
    let mut registry = Registry::new();
    registry.save("a@x.com".to_string(), record("K1"));
    let outcome = save_key(&mut registry, None);
    assert_eq!(outcome, Err(RegistryError::MalformedInput));
    assert_eq!(found(&registry, "a@x.com"), key("K1", ZEROS_32));
}

#[test]
fn malformed_lookup_is_rejected() {
    let mut registry = Registry::new();
    registry.save("a@x.com".to_string(), record("K1"));
    let outcome = get_key(&registry, None);
    assert_eq!(outcome.err(), Some(RegistryError::MalformedInput));
}

#[test]
fn save_and_get_requests() {
    let mut registry = Registry::new();
    let saved = save_key(
        &mut registry,
        Some(SaveKeyInput { email: "a@x.com".to_string(), custodial_key: key("K1", ONES_32) }),
    );
    assert_eq!(saved, Ok(()));
    let got = get_key(&registry, Some(GetKeyInput { email: "a@x.com".to_string() }));
    assert_eq!(got.map(|r| r.custodial_key.clone()).ok(), Some(key("K1", ONES_32)));
}

#[test]
fn request_scenario() {
    let mut registry = Registry::new();
    let saved = save_key(
        &mut registry,
        Some(SaveKeyInput { email: "a@x.com".to_string(), custodial_key: key("K1", ZEROS_32) }),
    );
    assert_eq!(status_of(&saved), 200);

    let hit = get_key(&registry, Some(GetKeyInput { email: "a@x.com".to_string() }));
    assert_eq!(status_of(&hit), 200);
    assert_eq!(hit.map(|r| r.custodial_key.clone()).ok(), Some(key("K1", ZEROS_32)));

    let miss = get_key(&registry, Some(GetKeyInput { email: "b@x.com".to_string() }));
    assert_eq!(status_of(&miss), 404);

    assert!(serde_json::from_str::<serde_json::Value>("not json").is_err());
    let malformed = save_key(&mut registry, None);
    assert_eq!(status_of(&malformed), 400);
}
