use pleb_signer::bunker::{
    answer_draft, answer_event, answer_request, handle_nip46_request, listener_step, seal_answer, BunkerSigner,
    BunkerState, InboundEvent,
    ListenerAction, Subscription, NOSTR_CONNECT_KIND, POLL_INTERVAL_MILLIS,
};
use pleb_signer::config::{AppPermissions, AuthorizedApp, Config};
use pleb_signer::error::SignerError;
use pleb_signer::keys::KeyManager;
use pleb_signer::permissions::RateLimiter;
use pleb_signer::signing::SigningEngine;
use pleb_signer::time::Timestamp;

const SECRET_A: &str = "6b911fd37cdf5c81d4c0adb1ab7fa822ed253ab0ad9aa18d77257c88b29b718e";
const SECRET_B: &str = "7b911fd37cdf5c81d4c0adb1ab7fa822ed253ab0ad9aa18d77257c88b29b718e";

fn value_at(text: &str, pointer: &str) -> Option<serde_json::Value> {
    serde_json::from_str::<serde_json::Value>(text).ok()?.pointer(pointer).cloned()
}

fn string_at(text: &str, pointer: &str) -> Option<String> {
    value_at(text, pointer)?.as_str().map(String::from)
}

fn unsigned_at(text: &str, pointer: &str) -> Option<u64> {
    value_at(text, pointer)?.as_u64()
}

fn signer_keys() -> nostr::Keys {
    nostr::Keys::parse(SECRET_A).unwrap()
}

fn peer_keys() -> nostr::Keys {
    nostr::Keys::parse(SECRET_B).unwrap()
}

fn key_manager() -> KeyManager {
    let mut km = KeyManager::new();
    km.store_key_at("main", &signer_keys(), Timestamp { secs: 0, nanos: 0 }).unwrap();
    km
}

fn listening() -> BunkerSigner {
    let mut signer = BunkerSigner::new();
    signer.start_listening(&key_manager()).unwrap();
    signer
}

fn config_for(peer: &str) -> Config {
    let mut permissions = AppPermissions::default();
    permissions.sign_event = Some(vec![1, 4]);
    let mut config = Config::default_config();
    config.authorize_app(AuthorizedApp {
        app_id: peer.to_string(),
        name: "peer".to_string(),
        authorized_at: Timestamp { secs: 0, nanos: 0 },
        permissions,
        auto_approve: false,
    });
    config
}

fn inbound(request: &str) -> InboundEvent {
    let signer = signer_keys().public_key();
    let content = nostr::nips::nip04::encrypt(peer_keys().secret_key(), &signer, request).unwrap();
    InboundEvent {
        pubkey: peer_keys().public_key().to_hex(),
        kind: NOSTR_CONNECT_KIND,
        content,
        tags: vec![vec!["p".to_string(), signer.to_hex()]],
        created_at: 100,
    }
}

fn open(answer: &nostr::Event) -> String {
    assert!(answer.verify().is_ok());
    assert_eq!(answer.pubkey, signer_keys().public_key());
    assert_eq!(answer.kind, nostr::Kind::from(NOSTR_CONNECT_KIND));
    let recipients: Vec<_> = answer.tags.public_keys().copied().collect();
    assert_eq!(recipients, vec![peer_keys().public_key()]);
    nostr::nips::nip04::decrypt(peer_keys().secret_key(), &signer_keys().public_key(), &answer.content).unwrap()
}

#[test]
fn new_signer_is_disconnected_with_default_relays() {
    let signer = BunkerSigner::new();
    assert!(matches!(signer.state(), BunkerState::Disconnected));
    assert_eq!(signer.relays(), &vec!["wss://relay.nsec.app".to_string(), "wss://relay.damus.io".to_string()]);
    assert!(!signer.is_listening());
    assert!(signer.should_stop());
    assert_eq!(NOSTR_CONNECT_KIND, 24133);
    assert!(POLL_INTERVAL_MILLIS <= 5_000);
}

#[test]
fn bunker_uri_names_key_relays_and_secret() {
    let km = key_manager();
    let hex = signer_keys().public_key().to_hex();
    let signer = BunkerSigner::new();
    assert_eq!(
        signer.generate_bunker_uri(&km).unwrap(),
        format!("bunker://{hex}?relay=wss%3A%2F%2Frelay.nsec.app&relay=wss%3A%2F%2Frelay.damus.io")
    );
    let signer = BunkerSigner::new().with_secret("s3cr&t=1".to_string());
    assert_eq!(
        signer.generate_bunker_uri(&km).unwrap(),
        format!("bunker://{hex}?relay=wss%3A%2F%2Frelay.nsec.app&relay=wss%3A%2F%2Frelay.damus.io&secret=s3cr%26t%3D1")
    );
    let signer = BunkerSigner::new().with_relays(vec!["wss://r.example/a b".to_string()]);
    assert_eq!(signer.generate_bunker_uri(&km).unwrap(), format!("bunker://{hex}?relay=wss%3A%2F%2Fr.example%2Fa%20b"));
    let signer = BunkerSigner::new().with_relays(vec![]);
    assert_eq!(signer.generate_bunker_uri(&km).unwrap(), format!("bunker://{hex}"));
    let signer = BunkerSigner::new().with_relays(vec![]).with_secret("x".to_string());
    assert_eq!(signer.generate_bunker_uri(&km).unwrap(), format!("bunker://{hex}?secret=x"));
}

#[test]
fn connection_uri_adds_the_signers_name() {
    let km = key_manager();
    let hex = signer_keys().public_key().to_hex();
    let signer = BunkerSigner::new();
    assert_eq!(
        signer.generate_connection_uri(&km).unwrap(),
        format!(
            "nostrconnect://{hex}?relay=wss%3A%2F%2Frelay.nsec.app&relay=wss%3A%2F%2Frelay.damus.io&metadata=%7B%22name%22%3A%22Pleb%20Signer%22%7D"
        )
    );
    let signer = BunkerSigner::new().with_relays(vec![]).with_secret("a b".to_string());
    assert_eq!(
        signer.generate_connection_uri(&km).unwrap(),
        format!("nostrconnect://{hex}?secret=a%20b&metadata=%7B%22name%22%3A%22Pleb%20Signer%22%7D")
    );
    // handing out a URI is no transition
    assert!(matches!(signer.state(), BunkerState::Disconnected));
}

#[test]
fn uris_need_an_active_key() {
    let km = KeyManager::new();
    let mut signer = BunkerSigner::new();
    assert!(matches!(signer.generate_bunker_uri(&km), Err(SignerError::NoActiveKey)));
    assert!(matches!(signer.generate_connection_uri(&km), Err(SignerError::NoActiveKey)));
    assert!(matches!(signer.start_listening(&km), Err(SignerError::NoActiveKey)));
    assert!(matches!(signer.state(), BunkerState::Disconnected));
}

#[test]
fn start_request_stop() {
    let km = key_manager();
    let mut signer = BunkerSigner::new();
    let uri = signer.start_listening(&km).unwrap().unwrap();
    assert_eq!(uri, signer.generate_bunker_uri(&km).unwrap());
    assert!(matches!(signer.state(), BunkerState::WaitingForConnection { connection_string } if connection_string == uri));
    assert!(signer.is_listening());

    // a second start changes nothing
    assert_eq!(signer.start_listening(&km).unwrap(), None);
    assert!(matches!(signer.state(), BunkerState::WaitingForConnection { .. }));

    signer.note_request("peer-1");
    assert!(matches!(signer.state(), BunkerState::Connected { client_pubkey, app_name: None } if client_pubkey == "peer-1"));
    assert_eq!(signer.start_listening(&km).unwrap(), None);
    signer.note_request("peer-2");
    assert!(matches!(signer.state(), BunkerState::Connected { client_pubkey, .. } if client_pubkey == "peer-2"));

    signer.stop();
    assert!(matches!(signer.state(), BunkerState::Disconnected));
    assert!(signer.should_stop());
    signer.note_request("peer-3");
    assert!(matches!(signer.state(), BunkerState::Disconnected));
    signer.stop();
    assert!(matches!(signer.state(), BunkerState::Disconnected));

    assert!(signer.start_listening(&km).unwrap().is_some());
    signer.stop();
    assert!(matches!(signer.state(), BunkerState::Disconnected));
}

#[test]
fn start_fails_without_a_relay() {
    let mut signer = listening();
    assert!(signer.relays_connected(1).is_ok());
    assert!(signer.is_listening());
    assert!(matches!(signer.relays_connected(0), Err(SignerError::NoRelayConnected)));
    assert!(matches!(signer.state(), BunkerState::Error(m) if m == "No relay connected"));
    assert!(signer.should_stop());
    signer.note_failure("Transport error: subscription refused");
    assert!(matches!(signer.state(), BunkerState::Error(m) if m == "Transport error: subscription refused"));
    // the next start begins anew
    assert!(signer.start_listening(&key_manager()).unwrap().is_some());
    signer.stop();
    assert!(matches!(signer.relays_connected(0), Err(SignerError::NoRelayConnected)));
    assert!(matches!(signer.state(), BunkerState::Disconnected));
}

#[test]
fn subscription_checks_kind_time_and_recipient() {
    let hex = signer_keys().public_key().to_hex();
    let sub = Subscription::new(&hex, 100);
    assert_eq!((sub.kind, sub.recipient.as_str(), sub.since), (24133, hex.as_str(), 100));
    let live = Subscription::starting_now(&hex);
    assert_eq!((live.kind, live.recipient.as_str()), (24133, hex.as_str()));
    assert!(live.since > 1_600_000_000);
    let event = |kind: u16, at: u64, tags: Vec<Vec<&str>>| InboundEvent {
        pubkey: "ff".to_string(),
        kind,
        content: String::new(),
        tags: tags.into_iter().map(|t| t.into_iter().map(String::from).collect()).collect(),
        created_at: at,
    };
    assert!(sub.accepts(&event(24133, 100, vec![vec!["p", &hex]])));
    assert!(sub.accepts(&event(24133, 5_000, vec![vec!["e", "x"], vec![], vec!["p", &hex, "wss://r"]])));
    assert!(!sub.accepts(&event(24133, 99, vec![vec!["p", &hex]])));
    assert!(!sub.accepts(&event(1, 100, vec![vec!["p", &hex]])));
    assert!(!sub.accepts(&event(24133, 100, vec![])));
    assert!(!sub.accepts(&event(24133, 100, vec![vec!["p"]])));
    assert!(!sub.accepts(&event(24133, 100, vec![vec!["P", &hex]])));
    assert!(!sub.accepts(&event(24133, 100, vec![vec!["p", "someone else"]])));
    assert!(!sub.accepts(&event(24133, 100, vec![vec![&hex, "p"]])));
}

#[test]
fn ping_is_answered_whoever_asks() {
    let mut signer = listening();
    let mut limiter = RateLimiter::new(10);
    let event = inbound(r#"{"id":"ping-1","method":"ping","params":[]}"#);
    let answer = handle_nip46_request(
        &mut signer,
        &event,
        &signer_keys(),
        &SigningEngine::new(),
        &Config::default_config(),
        &mut limiter,
    )
    .unwrap()
    .unwrap();
    assert_eq!(open(&answer), r#"{"id":"ping-1","result":"pong"}"#);
    assert!(matches!(signer.state(), BunkerState::Connected { client_pubkey, app_name: None }
        if client_pubkey == peer_keys().public_key().to_hex()));
}

#[test]
fn unknown_method_and_denied_permission_are_answered() {
    let mut signer = listening();
    let mut limiter = RateLimiter::new(10);
    let config = config_for(&peer_keys().public_key().to_hex());
    let engine = SigningEngine::new();
    let mut ask = |request: &str| {
        let event = inbound(request);
        let answer = handle_nip46_request(&mut signer, &event, &signer_keys(), &engine, &config, &mut limiter)
            .unwrap()
            .unwrap();
        open(&answer)
    };
    assert_eq!(
        ask(r#"{"id":"u1","method":"frobnicate","params":[]}"#),
        r#"{"id":"u1","error":"Invalid request: Unknown method: frobnicate"}"#
    );
    assert_eq!(
        ask(r#"{"id":"d1","method":"get_public_key","params":[]}"#),
        r#"{"id":"d1","error":"Permission denied: get_public_key"}"#
    );
    assert_eq!(
        ask(r#"{"id":"d2","method":"sign_event","params":["{\"kind\":7}"]}"#),
        r#"{"id":"d2","error":"Permission denied: sign_event"}"#
    );
    let signed = ask(r#"{"id":"s1","method":"sign_event","params":["{\"kind\":1,\"content\":\"gm\"}"]}"#);
    assert_eq!(string_at(&signed, "/id"), Some("s1".to_string()));
    assert_eq!(string_at(&signed, "/result/content"), Some("gm".to_string()));
    assert_eq!(unsigned_at(&signed, "/result/kind"), Some(1));
}

#[test]
fn undecryptable_requests_get_no_answer() {
    let mut signer = listening();
    let mut limiter = RateLimiter::new(10);
    let config = Config::default_config();
    let engine = SigningEngine::new();

    let mut garbled = inbound(r#"{"id":"1","method":"ping"}"#);
    garbled.content = "AAAA?iv=AAAAAAAAAAAAAAAAAAAAAA==".to_string();
    let r = handle_nip46_request(&mut signer, &garbled, &signer_keys(), &engine, &config, &mut limiter);
    assert!(matches!(r, Err(SignerError::DecryptionError(_))));
    assert!(matches!(signer.state(), BunkerState::WaitingForConnection { .. }));

    let mut plain = inbound("x");
    plain.content = r#"{"id":"1","method":"ping"}"#.to_string();
    let r = handle_nip46_request(&mut signer, &plain, &signer_keys(), &engine, &config, &mut limiter);
    assert!(matches!(r, Err(SignerError::DecryptionError(_))));

    let mut anonymous = inbound(r#"{"id":"1","method":"ping"}"#);
    anonymous.pubkey = "not a key".to_string();
    let r = handle_nip46_request(&mut signer, &anonymous, &signer_keys(), &engine, &config, &mut limiter);
    assert!(matches!(r, Err(SignerError::DecryptionError(_))));

    // a request for someone else's eyes: encrypted to another key
    let mut misdirected = inbound(r#"{"id":"1","method":"ping"}"#);
    misdirected.content = nostr::nips::nip04::encrypt(
        peer_keys().secret_key(),
        &nostr::Keys::generate().public_key(),
        r#"{"id":"1","method":"ping"}"#,
    )
    .unwrap();
    let r = handle_nip46_request(&mut signer, &misdirected, &signer_keys(), &engine, &config, &mut limiter);
    assert!(!matches!(r, Ok(Some(_))));
    assert!(matches!(signer.state(), BunkerState::WaitingForConnection { .. }));
}

#[test]
fn decrypted_text_that_is_no_request_gets_no_answer() {
    let mut signer = listening();
    let mut limiter = RateLimiter::new(10);
    let event = inbound("hello, are you there?");
    let r = handle_nip46_request(
        &mut signer,
        &event,
        &signer_keys(),
        &SigningEngine::new(),
        &Config::default_config(),
        &mut limiter,
    );
    assert!(matches!(r, Err(SignerError::SerializationError(_))));
    assert!(matches!(signer.state(), BunkerState::WaitingForConnection { .. }));
}

#[test]
fn json_that_is_no_request_gets_no_answer() {
    let config = Config::default_config();
    let engine = SigningEngine::new();
    for text in ["42", "{}", "[]", "null", r#"{"id":"1"}"#, r#"{"method":"ping"}"#, r#"{"id":1,"method":"ping"}"#] {
        let mut signer = listening();
        let mut limiter = RateLimiter::new(10);
        let r = handle_nip46_request(&mut signer, &inbound(text), &signer_keys(), &engine, &config, &mut limiter);
        assert!(matches!(r, Err(SignerError::SerializationError(_))), "{text}");
        assert!(matches!(signer.state(), BunkerState::WaitingForConnection { .. }), "{text}");
    }
}

#[test]
fn a_request_of_the_signer_itself_is_answered_to_it() {
    let keys = signer_keys();
    let me = keys.public_key();
    let content = nostr::nips::nip04::encrypt(keys.secret_key(), &me, r#"{"id":"s","method":"ping"}"#).unwrap();
    let event = InboundEvent {
        pubkey: me.to_hex(),
        kind: NOSTR_CONNECT_KIND,
        content,
        tags: vec![vec!["p".to_string(), me.to_hex()]],
        created_at: 100,
    };
    let mut signer = listening();
    let mut limiter = RateLimiter::new(10);
    let config = Config::default_config();
    let answer = handle_nip46_request(&mut signer, &event, &keys, &SigningEngine::new(), &config, &mut limiter)
        .unwrap()
        .unwrap();
    assert!(answer.verify().is_ok());
    let recipients: Vec<_> = answer.tags.public_keys().copied().collect();
    assert_eq!(recipients, vec![me]);
    assert_eq!(
        nostr::nips::nip04::decrypt(keys.secret_key(), &me, &answer.content).unwrap(),
        r#"{"id":"s","result":"pong"}"#
    );
}

#[test]
fn refusals_are_sealed_for_the_sender() {
    let keys = signer_keys();
    let engine = SigningEngine::new();
    let config = Config::default_config();
    let mut signer = listening();
    let mut limiter = RateLimiter::new(10);
    let unknown = inbound(r#"{"id":"u1","method":"steal_keys","params":[]}"#);
    let answer = handle_nip46_request(&mut signer, &unknown, &keys, &engine, &config, &mut limiter).unwrap().unwrap();
    assert_eq!(open(&answer), r#"{"id":"u1","error":"Invalid request: Unknown method: steal_keys"}"#);
    let peer = peer_keys().public_key().to_hex();
    let denied = inbound(r#"{"id":"d1","method":"get_public_key","params":[]}"#);
    let answer = handle_nip46_request(&mut signer, &denied, &keys, &engine, &config, &mut limiter).unwrap().unwrap();
    assert_eq!(open(&answer), format!(r#"{{"id":"d1","error":"Application not authorized: {peer}"}}"#));
    let config = config_for(&peer);
    let answer = handle_nip46_request(&mut signer, &denied, &keys, &engine, &config, &mut limiter).unwrap().unwrap();
    assert_eq!(open(&answer), r#"{"id":"d1","error":"Permission denied: get_public_key"}"#);
}

#[test]
fn stopped_signer_reads_nothing() {
    let mut signer = listening();
    signer.stop();
    let mut limiter = RateLimiter::new(10);
    let event = inbound(r#"{"id":"1","method":"ping"}"#);
    let config = Config::default_config();
    let engine = SigningEngine::new();
    let r = handle_nip46_request(&mut signer, &event, &signer_keys(), &engine, &config, &mut limiter);
    assert!(matches!(r, Ok(None)));
    assert!(matches!(signer.state(), BunkerState::Disconnected));
    let keys = signer_keys();
    let answer = answer_request(
        &mut signer,
        "peer",
        r#"{"id":"1","method":"ping"}"#,
        &engine,
        Some(&keys),
        &config,
        &mut limiter,
        0,
        0,
    );
    assert_eq!(answer, None);
}

#[test]
fn answers_are_written_before_they_are_sealed() {
    let mut signer = listening();
    let mut limiter = RateLimiter::new(10);
    let keys = signer_keys();
    let engine = SigningEngine::new();
    let config = Config::default_config();
    let answer = answer_request(
        &mut signer,
        "peer-hex",
        r#"{"id":"c1","method":"connect","params":["x"]}"#,
        &engine,
        Some(&keys),
        &config,
        &mut limiter,
        0,
        0,
    );
    assert_eq!(answer.as_deref(), Some(r#"{"id":"c1","result":"ack"}"#));
    assert!(matches!(signer.state(), BunkerState::Connected { client_pubkey, .. } if client_pubkey == "peer-hex"));
    // the handshake can be repeated
    let again = answer_request(
        &mut signer,
        "peer-hex",
        r#"{"id":"c2","method":"connect","params":["x"]}"#,
        &engine,
        Some(&keys),
        &config,
        &mut limiter,
        0,
        0,
    );
    assert_eq!(again.as_deref(), Some(r#"{"id":"c2","result":"ack"}"#));
    // what is no request gets no answer, and its sender is not taken for a peer
    let mut fresh = listening();
    for text in ["{", "42", "{}", "[]", r#"{"id":"1"}"#, r#"{"method":"ping"}"#, r#"{"id":1,"method":"ping"}"#] {
        assert_eq!(
            answer_request(&mut fresh, "peer-hex", text, &engine, Some(&keys), &config, &mut limiter, 0, 0),
            None,
            "{text}"
        );
        assert!(matches!(fresh.state(), BunkerState::WaitingForConnection { .. }));
    }

    let peer = peer_keys().public_key().to_hex();
    let sealed = seal_answer(&keys, &peer, "the answer", 1_700_000_000).unwrap();
    assert_eq!(open(&sealed), "the answer");
    assert_eq!(sealed.created_at.as_secs(), 1_700_000_000);
    assert!(matches!(seal_answer(&keys, "nobody", "the answer", 0), Err(SignerError::EncryptionError(_))));
    assert!(matches!(seal_answer(&keys, "", "the answer", 0), Err(SignerError::EncryptionError(_))));
    let addressed: Vec<Vec<String>> = sealed.tags.iter().map(|t| t.clone().to_vec()).collect();
    assert_eq!(addressed, vec![vec!["p".to_string(), peer.clone()]]);
    // an answer to oneself is addressed like any other
    let me = keys.public_key().to_hex();
    let own = seal_answer(&keys, &me, "note", 5).unwrap();
    assert!(own.verify().is_ok());
    let addressed: Vec<Vec<String>> = own.tags.iter().map(|t| t.clone().to_vec()).collect();
    assert_eq!(addressed, vec![vec!["p".to_string(), me.clone()]]);
    assert_eq!(own.kind, nostr::Kind::from(NOSTR_CONNECT_KIND));
    assert_eq!(nostr::nips::nip04::decrypt(keys.secret_key(), &keys.public_key(), &own.content).unwrap(), "note");
}

#[test]
fn listener_turns() {
    let hex = signer_keys().public_key().to_hex();
    let sub = Subscription::new(&hex, 50);
    let mut limiter = RateLimiter::new(10);
    let config = Config::default_config();
    let engine = SigningEngine::new();
    let keys = signer_keys();
    let mut signer = listening();

    // a wait that brought nothing
    assert!(matches!(listener_step(&mut signer, &sub, None, &keys, &engine, &config, &mut limiter), ListenerAction::Wait));

    // an event the subscription did not ask for
    let mut stray = inbound(r#"{"id":"1","method":"ping"}"#);
    stray.tags = vec![vec!["p".to_string(), "someone else".to_string()]];
    assert!(matches!(
        listener_step(&mut signer, &sub, Some(&stray), &keys, &engine, &config, &mut limiter),
        ListenerAction::Wait
    ));
    let mut old = inbound(r#"{"id":"1","method":"ping"}"#);
    old.created_at = 49;
    assert!(matches!(
        listener_step(&mut signer, &sub, Some(&old), &keys, &engine, &config, &mut limiter),
        ListenerAction::Wait
    ));
    assert!(matches!(signer.state(), BunkerState::WaitingForConnection { .. }));

    // a request
    let event = inbound(r#"{"id":"1","method":"ping"}"#);
    match listener_step(&mut signer, &sub, Some(&event), &keys, &engine, &config, &mut limiter) {
        ListenerAction::Publish(answer) => assert_eq!(open(&answer), r#"{"id":"1","result":"pong"}"#),
        other => panic!("expected an answer, got {other:?}"),
    }

    // an event that cannot be read
    let mut garbled = inbound("x");
    garbled.content = "garbage".to_string();
    assert!(matches!(
        listener_step(&mut signer, &sub, Some(&garbled), &keys, &engine, &config, &mut limiter),
        ListenerAction::Dropped(SignerError::DecryptionError(_))
    ));

    // an event that decrypts to something that is no request
    let chatter = inbound("are you there?");
    assert!(matches!(
        listener_step(&mut signer, &sub, Some(&chatter), &keys, &engine, &config, &mut limiter),
        ListenerAction::Dropped(SignerError::SerializationError(_))
    ));

    // after a stop, nothing is read any more
    signer.stop();
    assert!(matches!(
        listener_step(&mut signer, &sub, Some(&event), &keys, &engine, &config, &mut limiter),
        ListenerAction::Stop
    ));
    assert!(matches!(listener_step(&mut signer, &sub, None, &keys, &engine, &config, &mut limiter), ListenerAction::Stop));
    assert!(matches!(signer.state(), BunkerState::Disconnected));
}

#[test]
fn answers_are_drafted_for_their_recipient() {
    let event = answer_event("abc", "cipher?iv=x".to_string(), 99);
    assert_eq!(event.kind, 24133);
    assert_eq!(event.content, "cipher?iv=x");
    assert_eq!(event.tags, vec![vec!["p".to_string(), "abc".to_string()]]);
    assert_eq!(event.created_at, Some(99));
    let draft = answer_draft("abc", "cipher?iv=x".to_string(), 99);
    assert_eq!(draft.kind, 24133);
    assert_eq!(draft.content, "cipher?iv=x");
    assert_eq!(draft.created_at, 99);
    let fields: Vec<Vec<String>> = draft.tags.iter().map(|t| t.clone().to_vec()).collect();
    assert_eq!(fields, vec![vec!["p".to_string(), "abc".to_string()]]);
}
