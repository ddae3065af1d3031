use pleb_signer::error::SignerError;
use pleb_signer::keys::{KeyManager, KeyMetadata, KeysMetadata};
use pleb_signer::time::Timestamp;

const SECRET_A: &str = "6b911fd37cdf5c81d4c0adb1ab7fa822ed253ab0ad9aa18d77257c88b29b718e";
const SECRET_B: &str = "7b911fd37cdf5c81d4c0adb1ab7fa822ed253ab0ad9aa18d77257c88b29b718e";

fn at(secs: u64) -> Timestamp {
    Timestamp { secs, nanos: 0 }
}

fn names(km: &KeyManager) -> Vec<String> {
    km.list_keys().iter().map(|k| k.name.clone()).collect()
}

fn active_flags(km: &KeyManager) -> Vec<bool> {
    km.list_keys().iter().map(|k| k.is_active).collect()
}

const SECRET_C: &str = "8b911fd37cdf5c81d4c0adb1ab7fa822ed253ab0ad9aa18d77257c88b29b718e";

fn secret_of(name: &str) -> nostr::Keys {
    let secret = match name {
        "one" => SECRET_A,
        "two" => SECRET_B,
        _ => SECRET_C,
    };
    nostr::Keys::parse(secret).unwrap()
}

fn three_keys() -> KeyManager {
    let mut km = KeyManager::new();
    for (i, name) in ["one", "two", "three"].iter().enumerate() {
        km.store_key_at(name, &secret_of(name), at(i as u64)).unwrap();
    }
    km
}

#[test]
fn new_manager_is_empty_and_locked() {
    let km = KeyManager::new();
    assert!(!km.has_keys());
    assert!(km.list_keys().is_empty());
    assert_eq!(km.get_active_pubkey(), None);
    assert_eq!(km.get_active_pubkey_hex(), None);
    assert_eq!(km.get_active_key_name(), None);
    assert!(!km.is_unlocked());
    assert!(matches!(km.get_signing_keys(), Err(SignerError::NoActiveKey)));
    let km = KeyManager::default();
    assert!(!km.has_keys());
}

#[test]
fn import_derives_the_public_key() {
    let mut km = KeyManager::new();
    let keys = km.import_key("main", SECRET_A).unwrap();
    let expected = nostr::Keys::parse(SECRET_A).unwrap();
    assert_eq!(keys.public_key(), expected.public_key());
    let meta = km.store_key_at("main", &keys, at(1_700_000_000)).unwrap();
    assert_eq!(meta.name, "main");
    assert_eq!(meta.pubkey_hex, expected.public_key().to_hex());
    assert_eq!(meta.pubkey_hex.len(), 64);
    assert!(meta.npub.starts_with("npub1"));
    assert_eq!(meta.npub, nostr::ToBech32::to_bech32(&expected.public_key()).unwrap());
    assert_eq!(meta.created_at, at(1_700_000_000));
    assert!(meta.is_active);
    assert!(km.has_keys());
    assert!(km.contains_key("main"));
    assert_eq!(km.get_active_key_name(), Some("main"));
    assert_eq!(km.get_active_pubkey(), Some(meta.npub.as_str()));
    assert_eq!(km.get_active_pubkey_hex(), Some(meta.pubkey_hex.as_str()));
}

#[test]
fn import_refuses_taken_names_and_bad_secrets() {
    let mut km = KeyManager::new();
    let keys = km.import_key("main", SECRET_A).unwrap();
    km.store_key_at("main", &keys, at(0)).unwrap();
    assert!(matches!(km.import_key("main", SECRET_B), Err(SignerError::KeyAlreadyExists(n)) if n == "main"));
    assert!(matches!(km.import_key("main", "garbage"), Err(SignerError::KeyAlreadyExists(_))));
    assert!(matches!(km.import_key("other", "garbage"), Err(SignerError::InvalidKeyFormat(_))));
    assert!(matches!(km.import_key("other", ""), Err(SignerError::InvalidKeyFormat(_))));
    assert!(matches!(km.generate_key("main"), Err(SignerError::KeyAlreadyExists(_))));
    assert!(matches!(km.check_name_free("main"), Err(SignerError::KeyAlreadyExists(_))));
    assert!(km.check_name_free("other").is_ok());
    assert!(matches!(km.store_key_at("main", &keys, at(5)), Err(SignerError::KeyAlreadyExists(_))));
    assert!(matches!(km.store_key("main", &keys), Err(SignerError::KeyAlreadyExists(_))));
    assert_eq!(names(&km), vec!["main"]);
    assert!(km.get_keys_by_name("main").is_ok());
    assert!(matches!(km.get_keys_by_name("other"), Err(SignerError::KeyNotFound(n)) if n == "other"));
}

#[test]
fn nsec_is_accepted_like_hex() {
    let km = KeyManager::new();
    let keys = km.import_key("a", SECRET_A).unwrap();
    let nsec = KeyManager::export_nsec(&keys).unwrap();
    assert!(nsec.starts_with("nsec1"));
    let again = km.import_key("b", &nsec).unwrap();
    assert_eq!(again.public_key(), keys.public_key());
}

#[test]
fn mnemonic_import() {
    let km = KeyManager::new();
    // the first test vector of NIP-06
    let keys = km
        .import_from_mnemonic(
            "m",
            "leader monkey parrot ring guide accident before fence cannon height naive bean",
            None,
        )
        .unwrap();
    assert_eq!(
        keys.public_key().to_hex(),
        "17162c921dc4d2518f9a101db33695df1afb56ab82f5ff3e5da6eec3ca5cd917"
    );
    assert!(matches!(
        km.import_from_mnemonic("m", "not a mnemonic", None),
        Err(SignerError::InvalidKeyFormat(_))
    ));
    // a passphrase leads to another key
    let other = km
        .import_from_mnemonic(
            "m",
            "leader monkey parrot ring guide accident before fence cannon height naive bean",
            Some("passphrase"),
        )
        .unwrap();
    assert_ne!(other.public_key(), keys.public_key());
}

#[test]
fn sealed_export() {
    let km = KeyManager::new();
    let keys = km.import_key("a", SECRET_A).unwrap();
    let sealed = KeyManager::export_encrypted(&keys, "pass word").unwrap();
    assert!(sealed.starts_with("ncryptsec1"));
    let read = <nostr::nips::nip49::EncryptedSecretKey as nostr::FromBech32>::from_bech32(&sealed).unwrap();
    assert_eq!(read.log_n(), 16);
    assert_eq!(read.key_security(), nostr::nips::nip49::KeySecurity::Medium);
}

#[test]
fn sealed_import() {
    let km = KeyManager::new();
    let keys = nostr::Keys::parse(SECRET_A).unwrap();
    let sealed = nostr::nips::nip49::EncryptedSecretKey::new(
        keys.secret_key(),
        "pass word",
        4,
        nostr::nips::nip49::KeySecurity::Medium,
    )
    .unwrap();
    let sealed = nostr::ToBech32::to_bech32(&sealed).unwrap();
    let opened = km.import_encrypted("b", &sealed, "pass word").unwrap();
    assert_eq!(opened.public_key(), keys.public_key());
    assert!(matches!(km.import_encrypted("b", &sealed, "wrong"), Err(SignerError::InvalidPassword)));
    assert!(matches!(km.import_encrypted("b", "ncryptsec1nonsense", "x"), Err(SignerError::InvalidKeyFormat(_))));
    assert!(matches!(km.import_encrypted("b", "", "x"), Err(SignerError::InvalidKeyFormat(_))));
}

#[test]
fn stored_keys_are_dated() {
    let mut km = KeyManager::new();
    let keys = km.generate_key("fresh").unwrap();
    let meta = km.store_key("fresh", &keys).unwrap();
    assert!(meta.created_at.secs > 1_600_000_000);
    assert!(meta.is_active);
    assert_eq!(meta.pubkey_hex, keys.public_key().to_hex());
    assert_eq!(km.list_keys()[0].created_at, meta.created_at);
}

#[test]
fn first_key_becomes_active_and_later_ones_do_not() {
    let km = three_keys();
    assert_eq!(names(&km), vec!["one", "two", "three"]);
    assert_eq!(active_flags(&km), vec![true, false, false]);
    assert_eq!(km.get_active_key_name(), Some("one"));
    assert_eq!(km.metadata().active_key.as_deref(), Some("one"));
}

#[test]
fn switching_the_active_key_drops_the_secret() {
    let mut km = three_keys();
    assert!(matches!(km.get_signing_keys(), Ok(None)));
    km.unlock(secret_of("one")).unwrap();
    assert!(km.is_unlocked());
    assert!(matches!(km.get_signing_keys(), Ok(Some(_))));

    assert!(matches!(km.set_active_key("nope"), Err(SignerError::KeyNotFound(n)) if n == "nope"));
    assert!(km.is_unlocked());
    assert_eq!(km.get_active_key_name(), Some("one"));

    km.set_active_key("three").unwrap();
    assert!(!km.is_unlocked());
    assert_eq!(km.get_active_key_name(), Some("three"));
    assert_eq!(active_flags(&km), vec![false, false, true]);
    assert_eq!(names(&km), vec!["one", "two", "three"]);
}

#[test]
fn only_the_active_keys_secret_is_taken() {
    let mut km = KeyManager::new();
    assert!(matches!(km.unlock(secret_of("one")), Err(SignerError::NoActiveKey)));
    let mut km = three_keys();
    assert!(matches!(km.unlock(secret_of("two")), Err(SignerError::InvalidKeyFormat(_))));
    assert!(matches!(km.unlock(nostr::Keys::generate()), Err(SignerError::InvalidKeyFormat(_))));
    assert!(!km.is_unlocked());
    km.unlock(secret_of("one")).unwrap();
    assert!(matches!(km.unlock(secret_of("three")), Err(SignerError::InvalidKeyFormat(_))));
    assert!(km.is_unlocked());
    let at_hand = km.get_signing_keys().unwrap().unwrap();
    assert_eq!(at_hand.public_key(), secret_of("one").public_key());
}

#[test]
fn lock_drops_the_secret_only() {
    let mut km = three_keys();
    km.unlock(secret_of("one")).unwrap();
    km.lock();
    assert!(!km.is_unlocked());
    assert_eq!(km.get_active_key_name(), Some("one"));
    assert_eq!(names(&km), vec!["one", "two", "three"]);
}

#[test]
fn deleting_the_active_key_passes_the_role_on() {
    let mut km = three_keys();
    km.unlock(secret_of("one")).unwrap();
    km.delete_key("one").unwrap();
    assert_eq!(names(&km), vec!["two", "three"]);
    assert_eq!(km.get_active_key_name(), Some("two"));
    assert_eq!(active_flags(&km), vec![true, false]);
    assert!(!km.is_unlocked());

    km.unlock(secret_of("two")).unwrap();
    km.delete_key("three").unwrap();
    assert_eq!(names(&km), vec!["two"]);
    assert_eq!(km.get_active_key_name(), Some("two"));
    assert!(km.is_unlocked());

    assert!(matches!(km.delete_key("three"), Err(SignerError::KeyNotFound(n)) if n == "three"));
    km.delete_key("two").unwrap();
    assert!(!km.has_keys());
    assert_eq!(km.get_active_key_name(), None);
    assert!(!km.is_unlocked());
}

fn meta(name: &str, active: bool) -> KeyMetadata {
    KeyMetadata {
        name: name.to_string(),
        npub: format!("npub-{name}"),
        pubkey_hex: format!("hex-{name}"),
        created_at: at(9),
        is_active: active,
    }
}

#[test]
fn load_takes_consistent_metadata_and_sets_the_flags() {
    let mut km = KeyManager::new();
    let metadata = KeysMetadata {
        keys: vec![meta("a", true), meta("b", true), meta("c", false)],
        active_key: Some("c".to_string()),
    };
    km.load(metadata).unwrap();
    assert_eq!(names(&km), vec!["a", "b", "c"]);
    assert_eq!(active_flags(&km), vec![false, false, true]);
    assert_eq!(km.get_active_pubkey(), Some("npub-c"));
    assert_eq!(km.get_active_pubkey_hex(), Some("hex-c"));

    let none_active = KeysMetadata { keys: vec![meta("a", true)], active_key: None };
    km.load(none_active).unwrap();
    assert_eq!(active_flags(&km), vec![false]);
    assert_eq!(km.get_active_key_name(), None);
    km.load(KeysMetadata::default()).unwrap();
    assert!(!km.has_keys());
}

#[test]
fn load_refuses_inconsistent_metadata() {
    let mut km = three_keys();
    let twice = KeysMetadata { keys: vec![meta("a", false), meta("b", false), meta("a", false)], active_key: None };
    assert!(matches!(km.load(twice), Err(SignerError::ConfigError(_))));
    let stray = KeysMetadata { keys: vec![meta("a", false)], active_key: Some("z".to_string()) };
    assert!(matches!(km.load(stray), Err(SignerError::ConfigError(_))));
    // nothing was taken over
    assert_eq!(names(&km), vec!["one", "two", "three"]);
    assert_eq!(km.get_active_key_name(), Some("one"));
}
