use pleb_signer::app::{AppMessage, AppState};
use pleb_signer::config::{AppPermissions, AuthorizedApp, Config};
use pleb_signer::dbus::{DbusResponse, SignerInterface, DBUS_INTERFACE, DBUS_NAME, DBUS_PATH};
use pleb_signer::dispatch::Reply;
use pleb_signer::error::SignerError;
use pleb_signer::signing::SigningResultData;
use pleb_signer::time::Timestamp;

const SECRET_A: &str = "6b911fd37cdf5c81d4c0adb1ab7fa822ed253ab0ad9aa18d77257c88b29b718e";
const SECRET_B: &str = "7b911fd37cdf5c81d4c0adb1ab7fa822ed253ab0ad9aa18d77257c88b29b718e";

fn value_at(text: &str, pointer: &str) -> Option<serde_json::Value> {
    serde_json::from_str::<serde_json::Value>(text).ok()?.pointer(pointer).cloned()
}

fn string_at(text: &str, pointer: &str) -> Option<String> {
    value_at(text, pointer)?.as_str().map(String::from)
}

fn unsigned_at(text: &str, pointer: &str) -> Option<u64> {
    value_at(text, pointer)?.as_u64()
}

fn flag_at(text: &str, pointer: &str) -> Option<bool> {
    value_at(text, pointer)?.as_bool()
}

fn now() -> Timestamp {
    Timestamp { secs: 1, nanos: 0x2a }
}

fn state() -> AppState {
    let mut permissions = AppPermissions::default();
    permissions.get_public_key = true;
    permissions.sign_event = Some(vec![1]);
    permissions.nip04_encrypt = true;
    permissions.nip04_decrypt = true;
    permissions.nip44_encrypt = true;
    permissions.nip44_decrypt = true;
    permissions.decrypt_zap_event = true;
    let mut config = Config::default_config();
    config.authorize_app(AuthorizedApp {
        app_id: "app".to_string(),
        name: "App".to_string(),
        authorized_at: Timestamp { secs: 0, nanos: 0 },
        permissions,
        auto_approve: false,
    });
    let mut state = AppState::new(config);
    let keys = state.key_manager.import_key("main", SECRET_A).unwrap();
    state.key_manager.store_key_at("main", &keys, Timestamp { secs: 0, nanos: 0 }).unwrap();
    state.key_manager.unlock(keys).unwrap();
    state
}

#[test]
fn names_of_the_service() {
    assert_eq!(DBUS_NAME, "com.plebsigner.Signer");
    assert_eq!(DBUS_PATH, "/com/plebsigner/Signer");
    assert_eq!(DBUS_INTERFACE, "com.plebsigner.Signer1");
    assert_eq!(SignerInterface::version(), "0.1.0");
}

#[test]
fn app_state_starts_ready() {
    let mut config = Config::default_config();
    config.security.max_auto_approvals_per_min = 3;
    let state = AppState::new(config);
    assert!(state.is_ready());
    assert!(!state.is_locked);
    assert!(state.window_visible);
    assert!(!state.key_manager.has_keys());
    assert_eq!(state.rate_limiter.max_per_minute(), 3);
    assert!(SignerInterface::is_ready(&state));
    assert_ne!(AppMessage::Lock, AppMessage::Unlock);
}

#[test]
fn request_ids_are_the_time_in_hex() {
    assert_eq!(SignerInterface::generate_request_id(Timestamp { secs: 0, nanos: 0 }), "req_0");
    assert_eq!(SignerInterface::generate_request_id(Timestamp { secs: 0, nanos: 255 }), "req_ff");
    assert_eq!(SignerInterface::generate_request_id(Timestamp { secs: 1, nanos: 0 }), "req_3b9aca00");
    assert_eq!(SignerInterface::generate_request_id(now()), "req_3b9aca2a");
    assert_eq!(
        SignerInterface::generate_request_id(Timestamp { secs: 1_700_000_000, nanos: 123_456_789 }),
        format!("req_{:x}", 1_700_000_000_123_456_789u128)
    );
    assert_eq!(
        SignerInterface::generate_request_id(Timestamp { secs: u64::MAX, nanos: u32::MAX }),
        format!("req_{:x}", u64::MAX as u128 * 1_000_000_000 + u32::MAX as u128)
    );
}

#[test]
fn the_clock_reads_the_present() {
    let now = pleb_signer::time::wall_clock();
    assert!(now.secs > 1_600_000_000);
    assert!(now.nanos < 1_000_000_000);
}

#[test]
fn readiness() {
    assert_eq!(SignerInterface::check_ready(false), Ok(()));
    assert_eq!(SignerInterface::check_ready(true), Err("Signer is locked".to_string()));
}

#[test]
fn envelopes() {
    assert_eq!(
        DbusResponse::success("req_1".to_string(), "{\"a\":1}"),
        r#"{"success":true,"id":"req_1","result":"{\"a\":1}","error":null}"#
    );
    assert_eq!(
        DbusResponse::error("req_2".to_string(), "Signer is locked"),
        r#"{"success":false,"id":"req_2","result":null,"error":"Signer is locked"}"#
    );
    let r = DbusResponse::from_outcome("i".to_string(), &Ok(Reply::Pong));
    assert!(r.success);
    assert_eq!(r.result.as_deref(), Some("\"pong\""));
    assert_eq!(r.error, None);
    let r = DbusResponse::from_outcome(
        "i".to_string(),
        &Ok(Reply::Data(SigningResultData::Decrypted { plaintext: "p".to_string() })),
    );
    assert_eq!(r.result.as_deref(), Some(r#"{"type":"decrypted","plaintext":"p"}"#));
    let r = DbusResponse::from_outcome("i".to_string(), &Err(SignerError::Timeout));
    assert!(!r.success);
    assert_eq!(r.result, None);
    assert_eq!(r.error.as_deref(), Some("Request timeout"));
    assert_eq!(r.to_json(), r#"{"success":false,"id":"i","result":null,"error":"Request timeout"}"#);
}

/// The answer with its identifier checked and taken out.
fn answer(text: &str) -> (bool, Option<String>, Option<String>) {
    let id = string_at(text, "/id").unwrap();
    assert!(id.starts_with("req_") && id.len() > 4, "{id}");
    assert!(id[4..].chars().all(|c| c.is_ascii_hexdigit() && !c.is_ascii_uppercase()), "{id}");
    assert!(value_at(text, "/result").is_some() && value_at(text, "/error").is_some());
    (flag_at(text, "/success").unwrap(), string_at(text, "/result"), string_at(text, "/error"))
}

fn failure(message: &str) -> (bool, Option<String>, Option<String>) {
    (false, None, Some(message.to_string()))
}

#[test]
fn locked_signer_refuses_every_call() {
    let mut state = state();
    state.is_locked = true;
    let interface = SignerInterface::new();
    let locked = failure("Signer is locked");
    assert_eq!(answer(&interface.get_public_key(&mut state, "app")), locked);
    assert_eq!(answer(&interface.sign_event(&mut state, "{\"kind\":1}", "app")), locked);
    assert_eq!(answer(&interface.nip04_encrypt(&mut state, "m", "pk", "app")), locked);
    assert_eq!(answer(&interface.nip04_decrypt(&mut state, "c", "pk", "app")), locked);
    assert_eq!(answer(&interface.nip44_encrypt(&mut state, "m", "pk", "app")), locked);
    assert_eq!(answer(&interface.nip44_decrypt(&mut state, "c", "pk", "app")), locked);
    assert_eq!(answer(&interface.decrypt_zap_event(&mut state, "{}", "app")), locked);
    assert_eq!(answer(&interface.call(&mut state, "app", "ping", None, None)), locked);
    assert!(!SignerInterface::is_ready(&state));
    assert_eq!(
        interface.call_at(&mut state, "app", "ping", None, None, now()).to_json(),
        r#"{"success":false,"id":"req_3b9aca2a","result":null,"error":"Signer is locked"}"#
    );
}

#[test]
fn public_key_call() {
    let mut state = state();
    let interface = SignerInterface::new();
    let (success, result, error) = answer(&interface.get_public_key(&mut state, "app"));
    assert!(success);
    assert_eq!(error, None);
    let result = result.unwrap();
    assert_eq!(string_at(&result, "/type"), Some("public_key".to_string()));
    assert_eq!(
        string_at(&result, "/hex"),
        Some(nostr::Keys::parse(SECRET_A).unwrap().public_key().to_hex())
    );
    assert!(string_at(&result, "/npub").unwrap().starts_with("npub1"));
}

#[test]
fn unlisted_and_unpermitted_callers_are_refused() {
    let mut state = state();
    let interface = SignerInterface::new();
    assert_eq!(
        answer(&interface.get_public_key(&mut state, "other")),
        failure("Application not authorized: other")
    );
    assert_eq!(
        answer(&interface.sign_event(&mut state, "{\"kind\":7,\"content\":\"x\"}", "app")),
        failure("Permission denied: sign_event")
    );
    assert_eq!(
        answer(&interface.sign_event(&mut state, "{\"content\":\"x\"}", "app")),
        failure("Invalid request: Invalid event")
    );
    assert_eq!(
        interface
            .call_at(&mut state, "other", "get_public_key", None, None, now())
            .to_json(),
        r#"{"success":false,"id":"req_3b9aca2a","result":null,"error":"Application not authorized: other"}"#
    );
}

#[test]
fn sign_and_encrypt_calls() {
    let mut state = state();
    let interface = SignerInterface::new();
    let response = interface.call_at(
        &mut state,
        "app",
        "sign_event",
        Some("{\"kind\":1,\"content\":\"gm\"}".to_string()),
        None,
        now(),
    );
    assert!(response.success);
    assert_eq!(response.id, "req_3b9aca2a");
    let result = response.result.unwrap();
    assert_eq!(string_at(&result, "/type"), Some("event".to_string()));
    let event_json = string_at(&result, "/event_json").unwrap();
    let event = <nostr::Event as nostr::JsonUtil>::from_json(&event_json).unwrap();
    assert!(event.verify().is_ok());
    assert_eq!(event.content, "gm");
    assert_eq!(event.created_at.as_secs(), 1);
    assert_eq!(string_at(&result, "/signature"), Some(event.sig.to_string()));

    let (success, result, _) = answer(&interface.sign_event(&mut state, "{\"kind\":1,\"content\":\"gn\"}", "app"));
    assert!(success);
    let event_json = string_at(&result.unwrap(), "/event_json").unwrap();
    let event = <nostr::Event as nostr::JsonUtil>::from_json(&event_json).unwrap();
    assert_eq!(event.content, "gn");
    assert!(event.created_at.as_secs() > 1_600_000_000);

    let peer = nostr::Keys::parse(SECRET_B).unwrap();
    let me = nostr::Keys::parse(SECRET_A).unwrap();
    let peer_hex = peer.public_key().to_hex();
    for old_scheme in [true, false] {
        let text = if old_scheme {
            interface.nip04_encrypt(&mut state, "hello", &peer_hex, "app")
        } else {
            interface.nip44_encrypt(&mut state, "hello", &peer_hex, "app")
        };
        let sealed = string_at(&answer(&text).1.unwrap(), "/ciphertext").unwrap();
        let opened = if old_scheme {
            nostr::nips::nip04::decrypt(peer.secret_key(), &me.public_key(), &sealed).unwrap()
        } else {
            nostr::nips::nip44::decrypt(peer.secret_key(), &me.public_key(), &sealed).unwrap()
        };
        assert_eq!(opened, "hello");
        let text = if old_scheme {
            interface.nip04_decrypt(&mut state, &sealed, &peer_hex, "app")
        } else {
            interface.nip44_decrypt(&mut state, &sealed, &peer_hex, "app")
        };
        assert_eq!(
            answer(&text),
            (true, Some(r#"{"type":"decrypted","plaintext":"hello"}"#.to_string()), None)
        );
    }
}

#[test]
fn zap_call_is_offered_locally() {
    let mut state = state();
    let interface = SignerInterface::new();
    let peer = nostr::Keys::parse(SECRET_B).unwrap();
    let me = nostr::Keys::parse(SECRET_A).unwrap();
    let sealed = nostr::nips::nip04::encrypt(peer.secret_key(), &me.public_key(), "thanks").unwrap();
    let event = nostr::EventBuilder::new(nostr::Kind::from(9734u16), sealed)
        .tag(nostr::Tag::public_key(peer.public_key()))
        .sign_with_keys(&nostr::Keys::generate())
        .unwrap();
    let text = interface.decrypt_zap_event(&mut state, &nostr::JsonUtil::try_as_json(&event).unwrap(), "app");
    assert_eq!(
        answer(&text),
        (true, Some(r#"{"type":"decrypted","plaintext":"thanks"}"#.to_string()), None)
    );
}

#[test]
fn call_without_keys_at_hand() {
    let mut state = state();
    state.key_manager.lock();
    let interface = SignerInterface::new();
    let response = interface.call_at(&mut state, "app", "get_public_key", None, None, now());
    assert!(!response.success);
    assert_eq!(response.error.as_deref(), Some("No active key"));
    let response = interface.call_at(&mut state, "nobody", "ping", None, None, now());
    assert!(response.success);
    assert_eq!(response.result.as_deref(), Some("\"pong\""));
    let response = interface.call_at(&mut state, "nobody", "connect", None, None, now());
    assert_eq!(response.result.as_deref(), Some("\"ack\""));
    let response = interface.call_at(&mut state, "nobody", "unheard_of", None, None, now());
    assert_eq!(response.error.as_deref(), Some("Invalid request: Unknown method: unheard_of"));
    assert_eq!(response.id, "req_3b9aca2a");
}

#[test]
fn keys_are_listed_as_json() {
    let mut state = AppState::new(Config::default_config());
    assert_eq!(SignerInterface::list_keys(&state), "[]");
    for (name, secret) in [("one", SECRET_A), ("t\"wo", SECRET_B)] {
        let keys = state.key_manager.import_key(name, secret).unwrap();
        state.key_manager.store_key_at(name, &keys, Timestamp { secs: 0, nanos: 0 }).unwrap();
    }
    let text = SignerInterface::list_keys(&state);
    assert_eq!(value_at(&text, "").unwrap().as_array().map(|a| a.len()), Some(2));
    assert_eq!(string_at(&text, "/0/name"), Some("one".to_string()));
    assert_eq!(string_at(&text, "/1/name"), Some("t\"wo".to_string()));
    assert_eq!(flag_at(&text, "/0/is_active"), Some(true));
    assert_eq!(flag_at(&text, "/1/is_active"), Some(false));
    assert_eq!(
        string_at(&text, "/1/pubkey_hex"),
        Some(nostr::Keys::parse(SECRET_B).unwrap().public_key().to_hex())
    );
    assert!(string_at(&text, "/0/npub").unwrap().starts_with("npub1"));
    let hex = nostr::Keys::parse(SECRET_A).unwrap().public_key().to_hex();
    let npub = nostr::ToBech32::to_bech32(&nostr::Keys::parse(SECRET_A).unwrap().public_key()).unwrap();
    assert!(text.starts_with(&format!(
        "[{{\"name\":\"one\",\"npub\":\"{npub}\",\"pubkey_hex\":\"{hex}\",\"is_active\":true}},"
    )));
    // what the signer lists, the client reads
    let keys = pleb_signer::client::KeyInfo::list_from_json(&text).unwrap();
    assert_eq!(keys.len(), 2);
    assert_eq!(keys[1].name, "t\"wo");
    assert!(keys[0].is_default && !keys[1].is_default);
}
