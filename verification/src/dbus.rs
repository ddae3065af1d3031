//! The local transport: the signer's operations for applications on this
//! host, each answered with an envelope that says whether it succeeded.

use vstd::prelude::*;
use vstd::string::*;
use nostr::Keys;
use crate::app::AppState;
use crate::dispatch::{decide, decided, request_limiter_effect, request_verdict, Reply, Transport, WireRequest};
use crate::error::Result;
use crate::json;
use crate::json::json_quoted;
use crate::keys::KeyMetadata;
use crate::permissions::Verdict;
use crate::signing::SigningEngine;
use crate::text::{join2, lower_hex, owned, radix_digits};
use crate::time::Timestamp;

verus! {

/// D-Bus service name
pub const DBUS_NAME: &'static str = "com.plebsigner.Signer";

/// D-Bus object path
pub const DBUS_PATH: &'static str = "/com/plebsigner/Signer";

/// D-Bus interface name
pub const DBUS_INTERFACE: &'static str = "com.plebsigner.Signer1";

/// Response structure for D-Bus calls
#[derive(Debug, Clone)]
pub struct DbusResponse {
    pub success: bool,
    pub id: String,
    pub result: Option<String>,
    pub error: Option<String>,
}

/// An optional string as JSON: a string literal, or `null`.
pub open spec fn opt_json(s: Option<String>) -> Seq<char> {
    match s {
        Some(s) => json_quoted(s@),
        None => "null"@,
    }
}

/// A reply as the local envelope carries it: JSON text.
pub open spec fn local_reply(reply: Reply) -> Seq<char> {
    match reply {
        Reply::Ack => json_quoted("ack"@),
        Reply::Pong => json_quoted("pong"@),
        Reply::Data(data) => data.json(),
    }
}

impl DbusResponse {
    /// The response as JSON text.
    pub open spec fn json(self) -> Seq<char> {
        json::object(
            seq![
                ("success"@, if self.success { "true"@ } else { "false"@ }),
                ("id"@, json_quoted(self.id@)),
                ("result"@, opt_json(self.result)),
                ("error"@, opt_json(self.error)),
            ],
        )
    }

    /// Whether the response is the success that carries `result` under
    /// `id`.
    pub open spec fn is_success(self, id: Seq<char>, result: Seq<char>) -> bool {
        &&& self.success
        &&& self.id@ == id
        &&& self.result matches Some(r) && r@ == result
        &&& self.error is None
    }

    /// Whether the response is the failure that carries `message` under
    /// `id`.
    pub open spec fn is_failure(self, id: Seq<char>, message: Seq<char>) -> bool {
        &&& !self.success
        &&& self.id@ == id
        &&& self.result is None
        &&& self.error matches Some(m) && m@ == message
    }

    /// Whether the response carries `outcome` under `id`.
    pub open spec fn carries(self, id: Seq<char>, outcome: Result<Reply>) -> bool {
        match outcome {
            Ok(reply) => self.is_success(id, local_reply(reply)),
            Err(e) => self.is_failure(id, e.text()),
        }
    }

    /// Writes the response as JSON text.
    pub fn to_json(&self) -> (text: String)
        ensures
            text@ == self.json(),
    {
        let mut fields: Vec<(String, String)> = Vec::new();
        fields.push((owned("success"), owned(if self.success { "true" } else { "false" })));
        fields.push((owned("id"), json::quote(self.id.as_str())));
        fields.push(
            (
                owned("result"),
                match &self.result {
                    Some(r) => json::quote(r.as_str()),
                    None => owned("null"),
                },
            ),
        );
        fields.push(
            (
                owned("error"),
                match &self.error {
                    Some(m) => json::quote(m.as_str()),
                    None => owned("null"),
                },
            ),
        );
        assert(json::pairs_view(fields@) =~= seq![
            ("success"@, if self.success { "true"@ } else { "false"@ }),
            ("id"@, json_quoted(self.id@)),
            ("result"@, opt_json(self.result)),
            ("error"@, opt_json(self.error)),
        ]);
        json::write_object(&fields)
    }

    /// The JSON text of the success that carries `result` under `id`.
    pub fn success(id: String, result: &str) -> (text: String)
        ensures
            exists|response: DbusResponse| response.is_success(id@, result@) && text@ == #[trigger] response.json(),
    {
        let response = DbusResponse { success: true, id, result: Some(owned(result)), error: None };
        response.to_json()
    }

    /// The JSON text of the failure that carries `error` under `id`.
    pub fn error(id: String, error: &str) -> (text: String)
        ensures
            exists|response: DbusResponse| response.is_failure(id@, error@) && text@ == #[trigger] response.json(),
    {
        let response = DbusResponse { success: false, id, result: None, error: Some(owned(error)) };
        response.to_json()
    }

    /// The response that carries an outcome under `id`.
    pub fn from_outcome(id: String, outcome: &Result<Reply>) -> (response: DbusResponse)
        ensures
            response.carries(id@, *outcome),
    {
        match outcome {
            Ok(reply) => {
                let result = match reply {
                    Reply::Ack => json::quote("ack"),
                    Reply::Pong => json::quote("pong"),
                    Reply::Data(data) => data.to_json(),
                };
                DbusResponse { success: true, id, result: Some(result), error: None }
            },
            Err(e) => DbusResponse { success: false, id, result: None, error: Some(e.message()) },
        }
    }
}

/// The nanoseconds from the Unix epoch to `t`.
pub open spec fn nanos_since_epoch(t: Timestamp) -> nat {
    (t.secs * 1_000_000_000 + t.nanos) as nat
}

/// Whether `response` answers a local call.
///
/// A locked signer refuses every call. Otherwise the call is decided as a
/// request is, and the response carries the outcome under the
/// identifier: the reason why the call is invalid, the refusal of the
/// gates, `"ack"` or `"pong"`, the want of an active key, or what the keys
/// made of the work.
pub open spec fn local_answered(
    response: DbusResponse,
    is_locked: bool,
    id: Seq<char>,
    app_id: Seq<char>,
    method: Seq<char>,
    first: Option<Seq<char>>,
    second: Option<Seq<char>>,
    v: Verdict,
    keys: Option<Keys>,
    now_secs: u64,
) -> bool {
    if is_locked {
        response.is_failure(id, "Signer is locked"@)
    } else {
        exists|outcome: Result<Reply>| #[trigger]
            decided(outcome, Transport::Local, app_id, method, first, second, v, keys, now_secs)
                && response.carries(id, outcome)
    }
}

/// Whether `response` answers a call made at `now` in the state `before`,
/// and leaves the state `after`: the call is answered as
/// [`local_answered`] says, at some time on the limiter's clock, and
/// nothing changes but what the limiter has on record.
pub open spec fn served(
    response: DbusResponse,
    before: AppState,
    after: AppState,
    app_id: Seq<char>,
    method: Seq<char>,
    first: Option<Seq<char>>,
    second: Option<Seq<char>>,
    now: Timestamp,
) -> bool {
    &&& after.config == before.config
    &&& after.key_manager == before.key_manager
    &&& after.is_locked == before.is_locked
    &&& after.window_visible == before.window_visible
    &&& exists|now_millis: u64|
        {
            &&& #[trigger] local_answered(
                response,
                before.is_locked,
                "req_"@ + radix_digits(nanos_since_epoch(now), 16),
                app_id,
                method,
                first,
                second,
                request_verdict(
                    Transport::Local,
                    method,
                    first,
                    second,
                    before.config,
                    before.rate_limiter,
                    app_id,
                    now_millis,
                ),
                before.key_manager.held(),
                now.secs,
            )
            &&& if before.is_locked {
                after.rate_limiter == before.rate_limiter
            } else {
                request_limiter_effect(
                    Transport::Local,
                    method,
                    first,
                    second,
                    before.config,
                    before.rate_limiter,
                    after.rate_limiter,
                    app_id,
                    now_millis,
                )
            }
        }
}

/// Whether `text` is the JSON of a response that answers the call, made
/// at some time.
pub open spec fn served_text(
    text: Seq<char>,
    before: AppState,
    after: AppState,
    app_id: Seq<char>,
    method: Seq<char>,
    first: Option<Seq<char>>,
    second: Option<Seq<char>>,
) -> bool {
    exists|response: DbusResponse, now: Timestamp|
        #[trigger] served(response, before, after, app_id, method, first, second, now) && text
            == response.json()
}

/// The D-Bus interface implementation
pub struct SignerInterface {
    signing_engine: SigningEngine,
}

impl SignerInterface {
    pub fn new() -> SignerInterface {
        SignerInterface { signing_engine: SigningEngine::new() }
    }

    /// The identifier of a request made at `now`: `req_` and the
    /// nanoseconds since the Unix epoch in hexadecimal.
    pub fn generate_request_id(now: Timestamp) -> (id: String)
        ensures
            id@ == "req_"@ + radix_digits(nanos_since_epoch(now), 16),
    {
        let nanos: u128 = (now.secs as u128) * 1_000_000_000 + (now.nanos as u128);
        join2("req_", lower_hex(nanos).as_str())
    }

    /// Refuses while the signer is locked.
    pub fn check_ready(is_locked: bool) -> (r: core::result::Result<(), String>)
        ensures
            match r {
                Ok(_) => !is_locked,
                Err(message) => is_locked && message@ == "Signer is locked"@,
            },
    {
        if is_locked {
            Err(owned("Signer is locked"))
        } else {
            Ok(())
        }
    }

    /// Get the version of the signer
    pub fn version() -> (v: String)
        ensures
            v@ == "0.1.0"@,
    {
        owned("0.1.0")
    }

    /// Check if the signer is unlocked and ready
    pub fn is_ready(state: &AppState) -> (ready: bool)
        ensures
            ready == !state.is_locked,
    {
        !state.is_locked
    }

    /// What is known of one key, as a JSON object.
    pub open spec fn key_json(key: KeyMetadata) -> Seq<char> {
        json::object(
            seq![
                ("name"@, json_quoted(key.name@)),
                ("npub"@, json_quoted(key.npub@)),
                ("pubkey_hex"@, json_quoted(key.pubkey_hex@)),
                ("is_active"@, if key.is_active { "true"@ } else { "false"@ }),
            ],
        )
    }

    /// List all available keys (public info only), as a JSON array.
    pub fn list_keys(state: &AppState) -> (text: String)
        ensures
            text@ == json::array(state.key_manager@.keys@.map_values(|k: KeyMetadata| Self::key_json(k))),
    {
        let keys = state.key_manager.list_keys();
        let ghost all = keys@.map_values(|k: KeyMetadata| Self::key_json(k));
        let mut items: Vec<String> = Vec::new();
        let mut i: usize = 0;
        assert(json::texts_view(items@) =~= all.take(0));
        while i < keys.len()
            invariant
                i <= keys@.len(),
                all == keys@.map_values(|k: KeyMetadata| Self::key_json(k)),
                json::texts_view(items@) == all.take(i as int),
            decreases keys@.len() - i,
        {
            let key = &keys[i];
            let mut fields: Vec<(String, String)> = Vec::new();
            fields.push((owned("name"), json::quote(key.name.as_str())));
            fields.push((owned("npub"), json::quote(key.npub.as_str())));
            fields.push((owned("pubkey_hex"), json::quote(key.pubkey_hex.as_str())));
            fields.push((owned("is_active"), owned(if key.is_active { "true" } else { "false" })));
            assert(json::pairs_view(fields@) =~= seq![
                ("name"@, json_quoted(key.name@)),
                ("npub"@, json_quoted(key.npub@)),
                ("pubkey_hex"@, json_quoted(key.pubkey_hex@)),
                ("is_active"@, if key.is_active { "true"@ } else { "false"@ }),
            ]);
            let ghost before = items@;
            items.push(json::write_object(&fields));
            assert(json::texts_view(items@) =~= json::texts_view(before).push(Self::key_json(*key)));
            assert(all.take(i + 1) =~= all.take(i as int).push(all[i as int]));
            i += 1;
        }
        assert(all.take(keys@.len() as int) == all);
        json::write_array(&items)
    }

    /// Answers a call of the application `app_id`, made now, and writes the
    /// response as JSON text.
    pub fn call(
        &self,
        state: &mut AppState,
        app_id: &str,
        method: &str,
        first: Option<String>,
        second: Option<String>,
    ) -> (text: String)
        ensures
            served_text(
                text@,
                *old(state),
                *final(state),
                app_id@,
                method@,
                crate::dispatch::opt_text(first),
                crate::dispatch::opt_text(second),
            ),
    {
        self.call_at(state, app_id, method, first, second, crate::time::wall_clock()).to_json()
    }

    /// Answers a call of the application `app_id` made at `now`.
    ///
    /// The keys are the ones the key manager has at hand; where it has
    /// none, work that needs keys fails for want of an active key.
    pub fn call_at(
        &self,
        state: &mut AppState,
        app_id: &str,
        method: &str,
        first: Option<String>,
        second: Option<String>,
        now: Timestamp,
    ) -> (response: DbusResponse)
        ensures
            served(
                response,
                *old(state),
                *final(state),
                app_id@,
                method@,
                crate::dispatch::opt_text(first),
                crate::dispatch::opt_text(second),
                now,
            ),
    {
        let id = Self::generate_request_id(now);
        let now_millis = state.rate_limiter.now();
        if state.is_locked {
            let response = DbusResponse { success: false, id, result: None, error: Some(owned("Signer is locked")) };
            assert(local_answered(
                response,
                true,
                "req_"@ + radix_digits(nanos_since_epoch(now), 16),
                app_id@,
                method@,
                crate::dispatch::opt_text(first),
                crate::dispatch::opt_text(second),
                request_verdict(
                    Transport::Local,
                    method@,
                    crate::dispatch::opt_text(first),
                    crate::dispatch::opt_text(second),
                    old(state).config,
                    old(state).rate_limiter,
                    app_id@,
                    now_millis,
                ),
                old(state).key_manager.held(),
                now.secs,
            ));
            return response;
        }
        let now_secs = now.secs;
        let req = WireRequest { id: String::new(), method: owned(method), first, second };
        let keys: Option<&Keys> = match state.key_manager.get_signing_keys() {
            Ok(Some(keys)) => Some(keys),
            _ => None,
        };
        let outcome = decide(
            Transport::Local,
            &req,
            app_id,
            &self.signing_engine,
            keys,
            &state.config,
            &mut state.rate_limiter,
            now_millis,
            now_secs,
        );
        let response = DbusResponse::from_outcome(id, &outcome);
        assert(decided(
            outcome,
            Transport::Local,
            app_id@,
            method@,
            crate::dispatch::opt_text(first),
            crate::dispatch::opt_text(second),
            request_verdict(
                Transport::Local,
                method@,
                crate::dispatch::opt_text(first),
                crate::dispatch::opt_text(second),
                old(state).config,
                old(state).rate_limiter,
                app_id@,
                now_millis,
            ),
            old(state).key_manager.held(),
            now.secs,
        ) && response.carries("req_"@ + radix_digits(nanos_since_epoch(now), 16), outcome));
        assert(local_answered(
            response,
            false,
            "req_"@ + radix_digits(nanos_since_epoch(now), 16),
            app_id@,
            method@,
            crate::dispatch::opt_text(first),
            crate::dispatch::opt_text(second),
            request_verdict(
                Transport::Local,
                method@,
                crate::dispatch::opt_text(first),
                crate::dispatch::opt_text(second),
                old(state).config,
                old(state).rate_limiter,
                app_id@,
                now_millis,
            ),
            old(state).key_manager.held(),
            now.secs,
        ));
        response
    }

    /// Get the active public key
    pub fn get_public_key(&self, state: &mut AppState, app_id: &str) -> (text: String)
        ensures
            served_text(text@, *old(state), *final(state), app_id@, "get_public_key"@, None, None),
    {
        self.call(state, app_id, "get_public_key", None, None)
    }

    /// Sign a Nostr event
    pub fn sign_event(&self, state: &mut AppState, event_json: &str, app_id: &str) -> (text: String)
        ensures
            served_text(
                text@,
                *old(state),
                *final(state),
                app_id@,
                "sign_event"@,
                Some(event_json@),
                None,
            ),
    {
        self.call(state, app_id, "sign_event", Some(owned(event_json)), None)
    }

    /// NIP-04 encrypt
    pub fn nip04_encrypt(
        &self,
        state: &mut AppState,
        plaintext: &str,
        recipient_pubkey: &str,
        app_id: &str,
    ) -> (text: String)
        ensures
            served_text(
                text@,
                *old(state),
                *final(state),
                app_id@,
                "nip04_encrypt"@,
                Some(recipient_pubkey@),
                Some(plaintext@),
            ),
    {
        self.call(state, app_id, "nip04_encrypt", Some(owned(recipient_pubkey)), Some(owned(plaintext)))
    }

    /// NIP-04 decrypt
    pub fn nip04_decrypt(
        &self,
        state: &mut AppState,
        ciphertext: &str,
        sender_pubkey: &str,
        app_id: &str,
    ) -> (text: String)
        ensures
            served_text(
                text@,
                *old(state),
                *final(state),
                app_id@,
                "nip04_decrypt"@,
                Some(sender_pubkey@),
                Some(ciphertext@),
            ),
    {
        self.call(state, app_id, "nip04_decrypt", Some(owned(sender_pubkey)), Some(owned(ciphertext)))
    }

    /// NIP-44 encrypt
    pub fn nip44_encrypt(
        &self,
        state: &mut AppState,
        plaintext: &str,
        recipient_pubkey: &str,
        app_id: &str,
    ) -> (text: String)
        ensures
            served_text(
                text@,
                *old(state),
                *final(state),
                app_id@,
                "nip44_encrypt"@,
                Some(recipient_pubkey@),
                Some(plaintext@),
            ),
    {
        self.call(state, app_id, "nip44_encrypt", Some(owned(recipient_pubkey)), Some(owned(plaintext)))
    }

    /// NIP-44 decrypt
    pub fn nip44_decrypt(
        &self,
        state: &mut AppState,
        ciphertext: &str,
        sender_pubkey: &str,
        app_id: &str,
    ) -> (text: String)
        ensures
            served_text(
                text@,
                *old(state),
                *final(state),
                app_id@,
                "nip44_decrypt"@,
                Some(sender_pubkey@),
                Some(ciphertext@),
            ),
    {
        self.call(state, app_id, "nip44_decrypt", Some(owned(sender_pubkey)), Some(owned(ciphertext)))
    }

    /// Decrypt a zap event
    pub fn decrypt_zap_event(&self, state: &mut AppState, event_json: &str, app_id: &str) -> (text: String)
        ensures
            served_text(
                text@,
                *old(state),
                *final(state),
                app_id@,
                "decrypt_zap_event"@,
                Some(event_json@),
                None,
            ),
    {
        self.call(state, app_id, "decrypt_zap_event", Some(owned(event_json)), None)
    }
}

} // verus!
