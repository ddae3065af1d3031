use pleb_signer::config::{AppPermissions, AuthorizedApp, Config};
use pleb_signer::dispatch::{
    decide, dispatch, gate, perform, refusal, write_answer, write_wire_reply, Operation, Reply, Transport,
    WireRequest,
};
use pleb_signer::error::SignerError;
use pleb_signer::permissions::{RateLimiter, RequestType, Verdict};
use pleb_signer::signing::{SigningEngine, SigningResultData};
use pleb_signer::time::Timestamp;

const SECRET_A: &str = "6b911fd37cdf5c81d4c0adb1ab7fa822ed253ab0ad9aa18d77257c88b29b718e";
const SECRET_B: &str = "7b911fd37cdf5c81d4c0adb1ab7fa822ed253ab0ad9aa18d77257c88b29b718e";

fn value_at(text: &str, pointer: &str) -> Option<serde_json::Value> {
    serde_json::from_str::<serde_json::Value>(text).ok()?.pointer(pointer).cloned()
}

fn string_at(text: &str, pointer: &str) -> Option<String> {
    value_at(text, pointer)?.as_str().map(String::from)
}

fn unsigned_at(text: &str, pointer: &str) -> Option<u64> {
    value_at(text, pointer)?.as_u64()
}

fn signer_keys() -> nostr::Keys {
    nostr::Keys::parse(SECRET_A).unwrap()
}

fn peer_keys() -> nostr::Keys {
    nostr::Keys::parse(SECRET_B).unwrap()
}

fn request(text: &str) -> WireRequest {
    WireRequest::decode(text).unwrap()
}

fn wallet_x(auto_approve: bool) -> Config {
    let mut permissions = AppPermissions::default();
    permissions.sign_event = Some(vec![1, 4]);
    permissions.nip04_encrypt = true;
    permissions.nip04_decrypt = true;
    permissions.nip44_encrypt = true;
    permissions.nip44_decrypt = true;
    let mut config = Config::default_config();
    config.security.allow_auto_approve = auto_approve;
    config.authorize_app(AuthorizedApp {
        app_id: "wallet-x".to_string(),
        name: "Wallet X".to_string(),
        authorized_at: Timestamp { secs: 0, nanos: 0 },
        permissions,
        auto_approve,
    });
    config
}

fn answer(config: &Config, limiter: &mut RateLimiter, sender: &str, text: &str) -> String {
    let keys = signer_keys();
    dispatch(
        Transport::Remote,
        &request(text),
        sender,
        &SigningEngine::new(),
        Some(&keys),
        config,
        limiter,
        0,
        1_700_000_000,
    )
}

#[test]
fn requests_are_decoded() {
    let req = request(r#"{"id":"abc","method":"nip04_encrypt","params":["pk","text","more"]}"#);
    assert_eq!(req.id, "abc");
    assert_eq!(req.method, "nip04_encrypt");
    assert_eq!(req.first.as_deref(), Some("pk"));
    assert_eq!(req.second.as_deref(), Some("text"));

    let req = request(r#"{"id":"","method":"ping"}"#);
    assert_eq!(req.id, "");
    assert_eq!(req.method, "ping");
    assert_eq!(req.first, None);
    assert_eq!(req.second, None);

    let req = request(r#"{"id":"7","method":"x","params":{"0":"a","1":"b"}}"#);
    assert_eq!(req.first, None);
    assert_eq!(req.second, None);

    let req = request(r#"{"id":"1","method":"m","params":[1,"two"]}"#);
    assert_eq!(req.first, None);
    assert_eq!(req.second.as_deref(), Some("two"));
}

#[test]
fn what_is_no_request_is_not_decoded() {
    // no JSON
    assert!(WireRequest::decode("").is_none());
    assert!(WireRequest::decode("{\"id\":").is_none());
    assert!(WireRequest::decode("ping").is_none());
    // JSON, but no object with an identifier and a method
    assert!(WireRequest::decode("42").is_none());
    assert!(WireRequest::decode("[]").is_none());
    assert!(WireRequest::decode("{}").is_none());
    assert!(WireRequest::decode("null").is_none());
    assert!(WireRequest::decode(r#"["id","method"]"#).is_none());
    // one of the two is missing
    assert!(WireRequest::decode(r#"{"method":"ping"}"#).is_none());
    assert!(WireRequest::decode(r#"{"id":"1"}"#).is_none());
    assert!(WireRequest::decode(r#"{"id":"1","params":[]}"#).is_none());
    // one of the two is no string
    assert!(WireRequest::decode(r#"{"id":7,"method":"ping"}"#).is_none());
    assert!(WireRequest::decode(r#"{"id":"1","method":["ping"]}"#).is_none());
    assert!(WireRequest::decode(r#"{"id":null,"method":"ping"}"#).is_none());
    assert!(WireRequest::decode(r#"{"id":"1","method":null}"#).is_none());
    // with both it is a request, whatever else it holds
    assert!(WireRequest::decode(r#"{"id":"1","method":"ping"}"#).is_some());
    assert!(WireRequest::decode(r#"{"id":"1","method":"ping","params":7,"more":true}"#).is_some());
}

#[test]
fn unknown_method_is_answered_with_an_error_under_its_id() {
    let config = Config::default_config();
    let mut limiter = RateLimiter::new(10);
    assert_eq!(
        answer(&config, &mut limiter, "anyone", r#"{"id":"req-9","method":"steal_keys","params":[]}"#),
        r#"{"id":"req-9","error":"Invalid request: Unknown method: steal_keys"}"#
    );
    assert_eq!(
        answer(&config, &mut limiter, "anyone", r#"{"id":"q\"1","method":""}"#),
        r#"{"id":"q\"1","error":"Invalid request: Unknown method: "}"#
    );
    assert_eq!(
        answer(&config, &mut limiter, "anyone", r#"{"id":"","method":"PING"}"#),
        r#"{"id":"","error":"Invalid request: Unknown method: PING"}"#
    );
    // the zap operation is not offered over relays
    assert_eq!(
        answer(&config, &mut limiter, "wallet-x", r#"{"id":"z","method":"decrypt_zap_event","params":["{}"]}"#),
        r#"{"id":"z","error":"Invalid request: Unknown method: decrypt_zap_event"}"#
    );
}

#[test]
fn handshake_and_probe_need_no_authorization() {
    let config = Config::default_config();
    let mut limiter = RateLimiter::new(0);
    assert_eq!(
        answer(&config, &mut limiter, "stranger", r#"{"id":"1","method":"connect","params":["pk","secret"]}"#),
        r#"{"id":"1","result":"ack"}"#
    );
    assert_eq!(
        answer(&config, &mut limiter, "stranger", r#"{"id":"1","method":"connect"}"#),
        r#"{"id":"1","result":"ack"}"#
    );
    assert_eq!(
        answer(&config, &mut limiter, "stranger", r#"{"id":"2","method":"ping","params":[]}"#),
        r#"{"id":"2","result":"pong"}"#
    );
    let listed = wallet_x(true);
    assert_eq!(
        answer(&listed, &mut limiter, "wallet-x", r#"{"id":"3","method":"ping"}"#),
        r#"{"id":"3","result":"pong"}"#
    );
}

#[test]
fn probe_can_be_tied_to_authorization() {
    let mut config = wallet_x(false);
    config.security.ping_without_authorization = false;
    let mut limiter = RateLimiter::new(10);
    assert_eq!(
        answer(&config, &mut limiter, "stranger", r#"{"id":"2","method":"ping"}"#),
        r#"{"id":"2","error":"Application not authorized: stranger"}"#
    );
    assert_eq!(
        answer(&config, &mut limiter, "wallet-x", r#"{"id":"2","method":"ping"}"#),
        r#"{"id":"2","result":"pong"}"#
    );
    // the handshake stays open
    assert_eq!(
        answer(&config, &mut limiter, "stranger", r#"{"id":"2","method":"connect"}"#),
        r#"{"id":"2","result":"ack"}"#
    );
}

#[test]
fn denied_permission_is_answered_not_dropped() {
    let config = wallet_x(false);
    let mut limiter = RateLimiter::new(10);
    assert_eq!(
        answer(&config, &mut limiter, "wallet-x", r#"{"id":"5","method":"get_public_key","params":[]}"#),
        r#"{"id":"5","error":"Permission denied: get_public_key"}"#
    );
    assert_eq!(
        answer(
            &config,
            &mut limiter,
            "wallet-x",
            r#"{"id":"6","method":"sign_event","params":["{\"kind\":7,\"content\":\"+\"}"]}"#
        ),
        r#"{"id":"6","error":"Permission denied: sign_event"}"#
    );
    assert_eq!(
        answer(&config, &mut limiter, "stranger", r#"{"id":"7","method":"get_public_key"}"#),
        r#"{"id":"7","error":"Application not authorized: stranger"}"#
    );
}

#[test]
fn allowed_kind_is_signed() {
    let config = wallet_x(false);
    let mut limiter = RateLimiter::new(10);
    let text = answer(
        &config,
        &mut limiter,
        "wallet-x",
        r#"{"id":"8","method":"sign_event","params":["{\"kind\":1,\"content\":\"gm\",\"tags\":[[\"t\",\"x\"]],\"created_at\":5}"]}"#,
    );
    assert_eq!(string_at(&text, "/id"), Some("8".to_string()));
    assert_eq!(string_at(&text, "/error"), None);
    assert_eq!(unsigned_at(&text, "/result/kind"), Some(1));
    assert_eq!(unsigned_at(&text, "/result/created_at"), Some(5));
    assert_eq!(string_at(&text, "/result/content"), Some("gm".to_string()));
    assert_eq!(string_at(&text, "/result/pubkey"), Some(signer_keys().public_key().to_hex()));
    assert_eq!(string_at(&text, "/result/tags/0/1"), Some("x".to_string()));
    assert_eq!(string_at(&text, "/result/sig").map(|s| s.len()), Some(128));

    // an event without a date is dated by the signer
    let text = answer(
        &config,
        &mut limiter,
        "wallet-x",
        r#"{"id":"9","method":"sign_event","params":["{\"kind\":4}"]}"#,
    );
    assert_eq!(unsigned_at(&text, "/result/created_at"), Some(1_700_000_000));
    assert_eq!(unsigned_at(&text, "/result/kind"), Some(4));
}

#[test]
fn malformed_parameters_are_invalid_requests() {
    let config = wallet_x(false);
    let mut limiter = RateLimiter::new(10);
    let cases = [
        (r#"{"id":"1","method":"sign_event","params":[]}"#, "Missing event"),
        (r#"{"id":"1","method":"sign_event"}"#, "Missing event"),
        (r#"{"id":"1","method":"sign_event","params":["not json"]}"#, "Invalid event"),
        (r#"{"id":"1","method":"sign_event","params":["{\"kind\":70000}"]}"#, "Invalid event"),
        (r#"{"id":"1","method":"sign_event","params":["{\"kind\":1,\"tags\":[1]}"]}"#, "Invalid event"),
        (r#"{"id":"1","method":"nip04_encrypt","params":[]}"#, "Missing pubkey"),
        (r#"{"id":"1","method":"nip04_encrypt","params":["pk"]}"#, "Missing plaintext"),
        (r#"{"id":"1","method":"nip44_encrypt","params":["pk",5]}"#, "Missing plaintext"),
        (r#"{"id":"1","method":"nip04_decrypt","params":["pk"]}"#, "Missing ciphertext"),
        (r#"{"id":"1","method":"nip44_decrypt","params":[null,"c"]}"#, "Missing pubkey"),
    ];
    for (text, reason) in cases {
        assert_eq!(
            answer(&config, &mut limiter, "wallet-x", text),
            format!("{{\"id\":\"1\",\"error\":\"Invalid request: {reason}\"}}"),
            "{text}"
        );
    }
    // a peer that is no public key is found out when the work is done
    let text = answer(
        &config,
        &mut limiter,
        "wallet-x",
        r#"{"id":"1","method":"nip04_encrypt","params":["nobody","hello"]}"#,
    );
    assert!(string_at(&text, "/error").unwrap().starts_with("Invalid request: "));
}

#[test]
fn encryption_over_the_wire_round_trips() {
    let config = wallet_x(false);
    let mut limiter = RateLimiter::new(10);
    let peer = peer_keys().public_key().to_hex();
    for scheme in ["nip04", "nip44"] {
        let text = answer(
            &config,
            &mut limiter,
            "wallet-x",
            &format!("{{\"id\":\"e\",\"method\":\"{scheme}_encrypt\",\"params\":[\"{peer}\",\"for your eyes\"]}}"),
        );
        let sealed = string_at(&text, "/result").unwrap();
        let opened = if scheme == "nip04" {
            nostr::nips::nip04::decrypt(peer_keys().secret_key(), &signer_keys().public_key(), &sealed).unwrap()
        } else {
            nostr::nips::nip44::decrypt(peer_keys().secret_key(), &signer_keys().public_key(), &sealed).unwrap()
        };
        assert_eq!(opened, "for your eyes");

        let text = answer(
            &config,
            &mut limiter,
            "wallet-x",
            &format!("{{\"id\":\"d\",\"method\":\"{scheme}_decrypt\",\"params\":[\"{peer}\",{}]}}", serde_json::to_string(&sealed).unwrap()),
        );
        assert_eq!(text, r#"{"id":"d","result":"for your eyes"}"#);
    }
}

#[test]
fn work_without_keys_fails_for_want_of_a_key() {
    let config = wallet_x(false);
    let mut limiter = RateLimiter::new(10);
    let text = dispatch(
        Transport::Remote,
        &request(r#"{"id":"k","method":"nip04_encrypt","params":["pk","m"]}"#),
        "wallet-x",
        &SigningEngine::new(),
        None,
        &config,
        &mut limiter,
        0,
        0,
    );
    assert_eq!(text, r#"{"id":"k","error":"No active key"}"#);
}

#[test]
fn auto_approved_requests_are_throttled_after_permission() {
    let config = wallet_x(true);
    let mut limiter = RateLimiter::new(2);
    let peer = peer_keys().public_key().to_hex();
    let encrypt = format!("{{\"id\":\"e\",\"method\":\"nip04_encrypt\",\"params\":[\"{peer}\",\"m\"]}}");
    // refused by permission: costs nothing
    for _ in 0..5 {
        assert_eq!(
            answer(&config, &mut limiter, "wallet-x", r#"{"id":"p","method":"get_public_key"}"#),
            r#"{"id":"p","error":"Permission denied: get_public_key"}"#
        );
    }
    assert!(string_at(&answer(&config, &mut limiter, "wallet-x", &encrypt), "/result").is_some());
    assert!(string_at(&answer(&config, &mut limiter, "wallet-x", &encrypt), "/result").is_some());
    assert_eq!(
        answer(&config, &mut limiter, "wallet-x", &encrypt),
        r#"{"id":"e","error":"Rate limit exceeded: nip04_encrypt"}"#
    );
    // another operation has its own allowance
    let decrypt = format!("{{\"id\":\"d\",\"method\":\"nip04_decrypt\",\"params\":[\"{peer}\",\"junk\"]}}");
    assert!(string_at(&answer(&config, &mut limiter, "wallet-x", &decrypt), "/error")
        .unwrap()
        .starts_with("Decryption error: "));
}

#[test]
fn operations_know_their_capability() {
    let parse = |text: &str| Operation::parse(Transport::Local, &request(text)).unwrap();
    assert_eq!(parse(r#"{"id":"t","method":"connect"}"#).request_type(), None);
    assert_eq!(parse(r#"{"id":"t","method":"ping"}"#).request_type(), None);
    assert_eq!(parse(r#"{"id":"t","method":"get_public_key"}"#).request_type(), Some(RequestType::GetPublicKey));
    let sign = parse(r#"{"id":"t","method":"sign_event","params":["{\"kind\":30023}"]}"#);
    assert_eq!(sign.request_type(), Some(RequestType::SignEvent));
    assert_eq!(sign.event_kind(), Some(30023));
    let zap = parse(r#"{"id":"t","method":"decrypt_zap_event","params":["{}"]}"#);
    assert_eq!(zap.request_type(), Some(RequestType::DecryptZapEvent));
    assert_eq!(zap.event_kind(), None);
    assert!(matches!(
        Operation::parse(Transport::Remote, &request(r#"{"id":"t","method":"decrypt_zap_event","params":["{}"]}"#)),
        Err(SignerError::InvalidRequest(m)) if m == "Unknown method: decrypt_zap_event"
    ));
    assert!(matches!(
        Operation::parse(Transport::Local, &request(r#"{"id":"t","method":"decrypt_zap_event"}"#)),
        Err(SignerError::InvalidRequest(m)) if m == "Missing event"
    ));
}

#[test]
fn gate_and_refusal() {
    let config = wallet_x(false);
    let mut limiter = RateLimiter::new(1);
    let op = Operation::parse(Transport::Remote, &request(r#"{"id":"t","method":"get_public_key"}"#)).unwrap();
    assert_eq!(gate(&op, &config, &mut limiter, "wallet-x", 0), Verdict::PermissionDenied);
    assert_eq!(gate(&op, &config, &mut limiter, "nobody", 0), Verdict::NotAuthorized);
    let op = Operation::parse(Transport::Remote, &request(r#"{"id":"t","method":"connect"}"#)).unwrap();
    assert_eq!(gate(&op, &config, &mut limiter, "nobody", 0), Verdict::Allowed);
    let message = |v| refusal(v, "s", "m").map(|e| e.message());
    assert_eq!(message(Verdict::NotAuthorized).as_deref(), Some("Application not authorized: s"));
    assert_eq!(message(Verdict::PermissionDenied).as_deref(), Some("Permission denied: m"));
    assert_eq!(message(Verdict::RateLimited).as_deref(), Some("Rate limit exceeded: m"));
    assert_eq!(message(Verdict::Allowed), None);
    assert!(matches!(refusal(Verdict::PermissionDenied, "s", "m"), Some(SignerError::PermissionDenied(_))));
    assert!(matches!(refusal(Verdict::NotAuthorized, "s", "m"), Some(SignerError::NotAuthorized(_))));
    assert!(matches!(refusal(Verdict::RateLimited, "s", "m"), Some(SignerError::RateLimited(_))));
}

#[test]
fn replies_go_over_the_wire_as_json() {
    let s = |t: &str| t.to_string();
    assert_eq!(write_wire_reply(&Reply::Ack), "\"ack\"");
    assert_eq!(write_wire_reply(&Reply::Pong), "\"pong\"");
    assert_eq!(
        write_wire_reply(&Reply::Data(SigningResultData::PublicKey { npub: s("npub1q"), hex: s("ab") })),
        "\"npub1q\""
    );
    assert_eq!(
        write_wire_reply(&Reply::Data(SigningResultData::Event { event_json: s("{\"kind\":1}"), signature: s("ff") })),
        "{\"kind\":1}"
    );
    assert_eq!(write_wire_reply(&Reply::Data(SigningResultData::Encrypted { ciphertext: s("c") })), "\"c\"");
    assert_eq!(write_wire_reply(&Reply::Data(SigningResultData::Decrypted { plaintext: s("a\"b") })), "\"a\\\"b\"");
    assert_eq!(write_answer("i", &Ok(Reply::Pong)), r#"{"id":"i","result":"pong"}"#);
    assert_eq!(write_answer("i", &Err(SignerError::Timeout)), r#"{"id":"i","error":"Request timeout"}"#);
}

#[test]
fn wallet_x_is_held_to_its_kinds() {
    let config = wallet_x(false);
    let mut limiter = RateLimiter::new(10);
    let keys = signer_keys();
    let engine = SigningEngine::new();
    let mut ask = |text: &str| {
        decide(Transport::Remote, &request(text), "wallet-x", &engine, Some(&keys), &config, &mut limiter, 0, 0)
    };
    assert!(matches!(
        ask(r#"{"id":"t","method":"sign_event","params":["{\"kind\":1}"]}"#),
        Ok(Reply::Data(SigningResultData::Event { .. }))
    ));
    assert!(matches!(
        ask(r#"{"id":"t","method":"sign_event","params":["{\"kind\":7}"]}"#),
        Err(SignerError::PermissionDenied(m)) if m == "sign_event"
    ));
    assert!(matches!(
        ask(r#"{"id":"t","method":"get_public_key"}"#),
        Err(SignerError::PermissionDenied(m)) if m == "get_public_key"
    ));
}

#[test]
fn decide_and_perform() {
    let config = wallet_x(false);
    let mut limiter = RateLimiter::new(1);
    let keys = signer_keys();
    let engine = SigningEngine::new();
    let outcome = decide(
        Transport::Local,
        &request(r#"{"id":"t","method":"connect"}"#),
        "x",
        &engine,
        None,
        &config,
        &mut limiter,
        0,
        0,
    );
    assert!(matches!(outcome, Ok(Reply::Ack)));
    let op = Operation::parse(Transport::Local, &request(r#"{"id":"t","method":"get_public_key"}"#)).unwrap();
    assert!(matches!(
        perform(&op, &engine, Some(&keys), 0),
        Ok(Reply::Data(SigningResultData::PublicKey { .. }))
    ));
    assert!(matches!(perform(&op, &engine, None, 0), Err(SignerError::NoActiveKey)));
    let op = Operation::parse(Transport::Local, &request(r#"{"id":"t","method":"ping"}"#)).unwrap();
    assert!(matches!(perform(&op, &engine, None, 0), Ok(Reply::Pong)));
    let op = Operation::parse(Transport::Local, &request(r#"{"id":"t","method":"connect"}"#)).unwrap();
    assert!(matches!(perform(&op, &engine, Some(&keys), 0), Ok(Reply::Ack)));
}
