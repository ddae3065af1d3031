//! The remote signer: its connection states, the URIs it hands out, and the
//! decisions of its listener.

use vstd::prelude::*;
use vstd::string::*;
use nostr::{Event, Keys};
use crate::config::Config;
use crate::dispatch::{
    answered, dispatch, envelope, held, id_of, is_request, is_unknown, lemma_denied_is_answered,
    lemma_unknown_method_answered, method_of, param_at, parsed, refusal_text, request_limiter_effect, request_verdict,
    Transport, WireRequest,
};
use crate::permissions::Verdict;
use crate::error::{Result, SignerError};
use crate::keys::KeyManager;
use crate::permissions::RateLimiter;
use crate::primitives;
use crate::primitives::{event_text, hex_key_read, is_key_hex, keys_public_hex, nip04_opened};
use crate::signing::{
    carries, draft, drafted, event_carries, Draft, EventView, SigningEngine, UnsignedEventData,
};
use crate::text::{join2, owned, str_eq};
use crate::urlencoding;
use crate::urlencoding::encoded;

verus! {

/// Bunker connection state
#[derive(Debug)]
pub enum BunkerState {
    /// Not connected
    Disconnected,
    /// Waiting for client connection
    WaitingForConnection { connection_string: String },
    /// Connected to a client
    Connected { client_pubkey: String, app_name: Option<String> },
    /// Error state
    Error(String),
}

/// A connection state, with its texts as sequences of characters.
pub enum StateView {
    Disconnected,
    Waiting { uri: Seq<char> },
    Connected { peer: Seq<char>, app_name: Option<Seq<char>> },
    Failed { message: Seq<char> },
}

/// What can happen to the remote signer.
pub enum BunkerEvent {
    /// The listener is asked to start, and would hand out `uri`
    Start { uri: Seq<char> },
    /// A request of `sender` was decrypted and read
    Request { sender: Seq<char> },
    /// The listener is asked to stop
    Stop,
    /// The listener gave up
    Fail { message: Seq<char> },
}

impl StateView {
    /// Whether a listener is running in this state.
    pub open spec fn listening(self) -> bool {
        self is Waiting || self is Connected
    }

    /// The state after an event.
    ///
    /// Starting does nothing while a listener runs. A request connects its
    /// sender, but only while a listener runs: a stopped signer reads no
    /// requests. Stopping always ends in `Disconnected`. A failure is shown
    /// until the next start, unless the signer was stopped before.
    pub open spec fn after(self, event: BunkerEvent) -> StateView {
        match event {
            BunkerEvent::Start { uri } => if self.listening() {
                self
            } else {
                StateView::Waiting { uri }
            },
            BunkerEvent::Request { sender } => if self.listening() {
                StateView::Connected { peer: sender, app_name: None }
            } else {
                self
            },
            BunkerEvent::Stop => StateView::Disconnected,
            BunkerEvent::Fail { message } => if self is Disconnected {
                self
            } else {
                StateView::Failed { message }
            },
        }
    }
}

impl View for BunkerState {
    type V = StateView;

    open spec fn view(&self) -> StateView {
        match self {
            BunkerState::Disconnected => StateView::Disconnected,
            BunkerState::WaitingForConnection { connection_string } => StateView::Waiting {
                uri: connection_string@,
            },
            BunkerState::Connected { client_pubkey, app_name } => StateView::Connected {
                peer: client_pubkey@,
                app_name: match app_name {
                    Some(name) => Some(name@),
                    None => None,
                },
            },
            BunkerState::Error(message) => StateView::Failed { message: message@ },
        }
    }
}

impl Clone for BunkerState {
    fn clone(&self) -> (copy: BunkerState)
        ensures
            copy@ == self@,
    {
        match self {
            BunkerState::Disconnected => BunkerState::Disconnected,
            BunkerState::WaitingForConnection { connection_string } => BunkerState::WaitingForConnection {
                connection_string: connection_string.clone(),
            },
            BunkerState::Connected { client_pubkey, app_name } => BunkerState::Connected {
                client_pubkey: client_pubkey.clone(),
                app_name: match app_name {
                    Some(name) => Some(name.clone()),
                    None => None,
                },
            },
            BunkerState::Error(message) => BunkerState::Error(message.clone()),
        }
    }
}

/// From `Disconnected`, starting leads to `WaitingForConnection`; from
/// there, the first request leads to `Connected`; and from every state,
/// stopping leads to `Disconnected` and nowhere else.
pub proof fn lemma_state_machine(s: StateView, uri: Seq<char>, sender: Seq<char>)
    ensures
        StateView::Disconnected.after(BunkerEvent::Start { uri }) == (StateView::Waiting { uri }),
        (StateView::Waiting { uri }).after(BunkerEvent::Request { sender }) == (StateView::Connected {
            peer: sender,
            app_name: None,
        }),
        s.after(BunkerEvent::Stop) == StateView::Disconnected,
        StateView::Disconnected.after(BunkerEvent::Request { sender }) == StateView::Disconnected,
{
}

/// Of two starts in a row only the first takes effect: whoever starts a
/// signer that is already listening changes nothing.
pub proof fn lemma_second_start_is_idle(s: StateView, first: Seq<char>, second: Seq<char>)
    ensures
        s.after(BunkerEvent::Start { uri: first }).after(BunkerEvent::Start { uri: second }) == s.after(
            BunkerEvent::Start { uri: first },
        ),
{
}

/// Whatever happens after a stop, the signer stays disconnected until it is
/// started again.
pub proof fn lemma_stopped_stays_stopped(s: StateView, event: BunkerEvent)
    requires
        !(event is Start),
    ensures
        s.after(BunkerEvent::Stop).after(event) == StateView::Disconnected,
{
}

/// One `relay=` parameter of a connection URI.
pub open spec fn relay_param(relay: String) -> Seq<char> {
    "relay="@ + encoded(relay@)
}

/// The `secret=` parameter of a connection URI.
pub open spec fn secret_param(secret: Seq<char>) -> Seq<char> {
    "secret="@ + encoded(secret)
}

/// The parameters of a connection URI: one for each relay, in order, then
/// the secret if there is one.
pub open spec fn connection_params(relays: Seq<String>, secret: Option<String>) -> Seq<Seq<char>> {
    relays.map_values(|r: String| relay_param(r)) + match secret {
        Some(s) => seq![secret_param(s@)],
        None => Seq::empty(),
    }
}

/// The parameters, separated by `&`.
pub open spec fn joined(params: Seq<Seq<char>>) -> Seq<char>
    decreases params.len(),
{
    if params.len() == 0 {
        Seq::empty()
    } else if params.len() == 1 {
        params[0]
    } else {
        joined(params.drop_last()) + "&"@ + params.last()
    }
}

/// A connection URI: the scheme, the signer's public key, and after a `?`
/// the parameters, if there are any.
pub open spec fn connection_uri(scheme: Seq<char>, pubkey: Seq<char>, params: Seq<Seq<char>>) -> Seq<char> {
    if params.len() == 0 {
        scheme + pubkey
    } else {
        scheme + pubkey + "?"@ + joined(params)
    }
}

/// The parameter that names this signer in an app-initiated URI.
pub open spec fn metadata_param() -> Seq<char> {
    "metadata=%7B%22name%22%3A%22Pleb%20Signer%22%7D"@
}

/// Writes a connection URI.
fn write_uri(scheme: &str, pubkey: &str, params: &Vec<String>) -> (uri: String)
    ensures
        uri@ == connection_uri(scheme@, pubkey@, crate::json::texts_view(params@)),
{
    let ghost all = crate::json::texts_view(params@);
    let mut out = join2(scheme, pubkey);
    if params.len() == 0 {
        return out;
    }
    out.append("?");
    let mut i: usize = 0;
    while i < params.len()
        invariant
            i <= params@.len(),
            all == crate::json::texts_view(params@),
            out@ == scheme@ + pubkey@ + "?"@ + joined(all.take(i as int)),
        decreases params@.len() - i,
    {
        proof {
            assert(all.take(i + 1).drop_last() == all.take(i as int));
            assert(all.take(i + 1).last() == params@[i as int]@);
        }
        if i > 0 {
            out.append("&");
        }
        out.append(params[i].as_str());
        i += 1;
    }
    proof {
        assert(all.take(params@.len() as int) == all);
    }
    out
}

/// NIP-46 Bunker signer that allows remote signing
pub struct BunkerSigner {
    state: BunkerState,
    relays: Vec<String>,
    secret: Option<String>,
}

impl BunkerSigner {
    /// The connection state.
    pub closed spec fn view(&self) -> StateView {
        self.state@
    }

    /// The relays the signer listens on.
    pub closed spec fn relay_list(&self) -> Seq<String> {
        self.relays@
    }

    /// The shared secret, if one is set.
    pub closed spec fn shared_secret(&self) -> Option<String> {
        self.secret
    }

    /// Create a new bunker signer, disconnected, with the two default
    /// relays and no secret.
    pub fn new() -> (signer: BunkerSigner)
        ensures
            signer@ == StateView::Disconnected,
            signer.relay_list().len() == 2,
            signer.relay_list()[0]@ == "wss://relay.nsec.app"@,
            signer.relay_list()[1]@ == "wss://relay.damus.io"@,
            signer.shared_secret() is None,
    {
        let mut relays: Vec<String> = Vec::new();
        relays.push(owned("wss://relay.nsec.app"));
        relays.push(owned("wss://relay.damus.io"));
        BunkerSigner { state: BunkerState::Disconnected, relays, secret: None }
    }

    /// Set custom relays for bunker connection
    pub fn with_relays(self, relays: Vec<String>) -> (signer: BunkerSigner)
        ensures
            signer.relay_list() == relays@,
            signer@ == self@,
            signer.shared_secret() == self.shared_secret(),
    {
        BunkerSigner { state: self.state, relays, secret: self.secret }
    }

    /// Set a secret for the connection (optional additional security)
    pub fn with_secret(self, secret: String) -> (signer: BunkerSigner)
        ensures
            signer.shared_secret() == Some(secret),
            signer@ == self@,
            signer.relay_list() == self.relay_list(),
    {
        BunkerSigner { state: self.state, relays: self.relays, secret: Some(secret) }
    }

    /// Get current state
    pub fn state(&self) -> (state: BunkerState)
        ensures
            state@ == self@,
    {
        self.state.clone()
    }

    /// The relays the signer listens on.
    pub fn relays(&self) -> (relays: &Vec<String>)
        ensures
            relays@ == self.relay_list(),
    {
        &self.relays
    }

    /// Whether a listener is running.
    pub fn is_listening(&self) -> (listening: bool)
        ensures
            listening == self@.listening(),
    {
        match &self.state {
            BunkerState::WaitingForConnection { .. } => true,
            BunkerState::Connected { .. } => true,
            _ => false,
        }
    }

    /// Whether the listener has been told to stop: it looks here between
    /// two waits, and ends when the answer is yes.
    pub fn should_stop(&self) -> (stop: bool)
        ensures
            stop == !self@.listening(),
    {
        !self.is_listening()
    }

    /// The parameters shared by both kinds of URI.
    fn params(&self) -> (params: Vec<String>)
        ensures
            crate::json::texts_view(params@) == connection_params(self.relays@, self.secret),
    {
        let mut params: Vec<String> = Vec::new();
        let mut i: usize = 0;
        let ghost relay_part = self.relays@.map_values(|r: String| relay_param(r));
        assert(crate::json::texts_view(params@) =~= relay_part.take(0));
        while i < self.relays.len()
            invariant
                i <= self.relays@.len(),
                relay_part == self.relays@.map_values(|r: String| relay_param(r)),
                crate::json::texts_view(params@) == relay_part.take(i as int),
            decreases self.relays@.len() - i,
        {
            let ghost before = params@;
            params.push(join2("relay=", urlencoding::encode(self.relays[i].as_str()).as_str()));
            assert(crate::json::texts_view(params@) =~= crate::json::texts_view(before).push(
                relay_param(self.relays@[i as int]),
            ));
            assert(relay_part.take(i + 1) =~= relay_part.take(i as int).push(relay_part[i as int]));
            i += 1;
        }
        assert(relay_part.take(self.relays@.len() as int) == relay_part);
        match &self.secret {
            Some(secret) => {
                let ghost before = params@;
                params.push(join2("secret=", urlencoding::encode(secret.as_str()).as_str()));
                assert(crate::json::texts_view(params@) =~= crate::json::texts_view(before).push(
                    secret_param(secret@),
                ));
                assert(relay_part.push(secret_param(secret@)) =~= relay_part + seq![secret_param(secret@)]);
            },
            None => {
                assert(relay_part + Seq::<Seq<char>>::empty() =~= relay_part);
            },
        }
        params
    }

    /// Generate the URI of an app-initiated connection (`nostrconnect://`):
    /// the active key in hex, the relays, the secret if one is set, and the
    /// signer's name. Fails when no key is active.
    pub fn generate_connection_uri(&self, key_manager: &KeyManager) -> (r: Result<String>)
        ensures
            match r {
                Ok(uri) => exists|k: int|
                    0 <= k < key_manager@.keys@.len() && crate::keys::is_active_name(
                        key_manager@.active_key,
                        (#[trigger] key_manager@.keys@[k]).name@,
                    ) && uri@ == connection_uri(
                        "nostrconnect://"@,
                        key_manager@.keys@[k].pubkey_hex@,
                        connection_params(self.relay_list(), self.shared_secret()).push(metadata_param()),
                    ),
                Err(e) => key_manager@.active_key is None && e is NoActiveKey,
            },
    {
        let pubkey = match key_manager.get_active_pubkey_hex() {
            Some(pubkey) => pubkey,
            None => {
                return Err(SignerError::NoActiveKey);
            },
        };
        let mut params = self.params();
        let ghost before = params@;
        params.push(owned("metadata=%7B%22name%22%3A%22Pleb%20Signer%22%7D"));
        assert(crate::json::texts_view(params@) =~= crate::json::texts_view(before).push(metadata_param()));
        Ok(write_uri("nostrconnect://", pubkey, &params))
    }

    /// Generate the URI of a signer-initiated connection (`bunker://`): the
    /// active key in hex, the relays, and the secret if one is set. Fails
    /// when no key is active.
    pub fn generate_bunker_uri(&self, key_manager: &KeyManager) -> (r: Result<String>)
        ensures
            match r {
                Ok(uri) => exists|k: int|
                    0 <= k < key_manager@.keys@.len() && crate::keys::is_active_name(
                        key_manager@.active_key,
                        (#[trigger] key_manager@.keys@[k]).name@,
                    ) && uri@ == connection_uri(
                        "bunker://"@,
                        key_manager@.keys@[k].pubkey_hex@,
                        connection_params(self.relay_list(), self.shared_secret()),
                    ),
                Err(e) => key_manager@.active_key is None && e is NoActiveKey,
            },
    {
        let pubkey = match key_manager.get_active_pubkey_hex() {
            Some(pubkey) => pubkey,
            None => {
                return Err(SignerError::NoActiveKey);
            },
        };
        let params = self.params();
        Ok(write_uri("bunker://", pubkey, &params))
    }

    /// Start listening for bunker connections.
    ///
    /// While a listener runs this changes nothing and answers `Ok(None)`.
    /// Otherwise the active key decides: without one the start fails and
    /// the state stays; with one the state becomes `WaitingForConnection`
    /// with the signer's `bunker://` URI, which is handed back so that the
    /// caller starts the listener.
    pub fn start_listening(&mut self, key_manager: &KeyManager) -> (r: Result<Option<String>>)
        ensures
            final(self).relay_list() == old(self).relay_list(),
            final(self).shared_secret() == old(self).shared_secret(),
            match r {
                Ok(None) => old(self)@.listening() && final(self)@ == old(self)@,
                Ok(Some(uri)) => {
                    &&& !old(self)@.listening()
                    &&& final(self)@ == old(self)@.after(BunkerEvent::Start { uri: uri@ })
                    &&& final(self)@ == (StateView::Waiting { uri: uri@ })
                    &&& exists|k: int|
                        0 <= k < key_manager@.keys@.len() && crate::keys::is_active_name(
                            key_manager@.active_key,
                            (#[trigger] key_manager@.keys@[k]).name@,
                        ) && uri@ == connection_uri(
                            "bunker://"@,
                            key_manager@.keys@[k].pubkey_hex@,
                            connection_params(old(self).relay_list(), old(self).shared_secret()),
                        )
                },
                Err(e) => {
                    &&& !old(self)@.listening()
                    &&& key_manager@.active_key is None
                    &&& e is NoActiveKey
                    &&& final(self)@ == old(self)@
                },
            },
    {
        if self.is_listening() {
            return Ok(None);
        }
        match self.generate_bunker_uri(key_manager) {
            Ok(uri) => {
                self.state = BunkerState::WaitingForConnection { connection_string: uri.clone() };
                Ok(Some(uri))
            },
            Err(e) => Err(e),
        }
    }

    /// Records that the listener gave up, and why. The state shows the
    /// reason until the next start; a signer that was stopped before stays
    /// disconnected.
    pub fn note_failure(&mut self, message: &str)
        ensures
            final(self)@ == old(self)@.after(BunkerEvent::Fail { message: message@ }),
            final(self).relay_list() == old(self).relay_list(),
            final(self).shared_secret() == old(self).shared_secret(),
    {
        match &self.state {
            BunkerState::Disconnected => {},
            _ => {
                self.state = BunkerState::Error(owned(message));
            },
        }
    }

    /// What the listener reports once it has tried every relay: with none
    /// connected the start has failed, the state shows it, and the listener
    /// ends.
    pub fn relays_connected(&mut self, connected: usize) -> (r: Result<()>)
        ensures
            final(self).relay_list() == old(self).relay_list(),
            final(self).shared_secret() == old(self).shared_secret(),
            match r {
                Ok(_) => connected > 0 && final(self)@ == old(self)@,
                Err(e) => {
                    &&& connected == 0
                    &&& e is NoRelayConnected
                    &&& final(self)@ == old(self)@.after(
                        BunkerEvent::Fail { message: SignerError::NoRelayConnected.text() },
                    )
                },
            },
    {
        if connected > 0 {
            return Ok(());
        }
        self.note_failure(SignerError::NoRelayConnected.message().as_str());
        Err(SignerError::NoRelayConnected)
    }

    /// Records that a request of `sender` was decrypted and read. A stopped
    /// signer records nothing.
    pub fn note_request(&mut self, sender: &str)
        ensures
            final(self)@ == old(self)@.after(BunkerEvent::Request { sender: sender@ }),
            final(self).relay_list() == old(self).relay_list(),
            final(self).shared_secret() == old(self).shared_secret(),
    {
        if self.is_listening() {
            self.state = BunkerState::Connected { client_pubkey: owned(sender), app_name: None };
        }
    }

    /// Stop the bunker listener: the state is `Disconnected` at once, and
    /// the listener ends when it next looks.
    pub fn stop(&mut self)
        ensures
            final(self)@ == old(self)@.after(BunkerEvent::Stop),
            final(self)@ == StateView::Disconnected,
            final(self).relay_list() == old(self).relay_list(),
            final(self).shared_secret() == old(self).shared_secret(),
    {
        self.state = BunkerState::Disconnected;
    }
}

/// The kind of the events that carry requests and answers.
pub const NOSTR_CONNECT_KIND: u16 = 24133;

/// How long the listener waits for an event before it looks whether it has
/// been told to stop, in milliseconds.
pub const POLL_INTERVAL_MILLIS: u64 = 1000;

/// An event as it comes from a relay, with what the listener reads of it.
#[derive(Debug)]
pub struct InboundEvent {
    /// The sender's public key, in hex
    pub pubkey: String,
    pub kind: u16,
    /// The encrypted request
    pub content: String,
    pub tags: Vec<Vec<String>>,
    /// When the sender made the event, in seconds since the Unix epoch
    pub created_at: u64,
}

/// What the listener asks the relays for.
#[derive(Debug)]
pub struct Subscription {
    pub kind: u16,
    /// The signer's public key, in hex
    pub recipient: String,
    /// When the subscription began, in seconds since the Unix epoch
    pub since: u64,
}

/// Whether a tag addresses its event to the public key `key`: it reads
/// `p`, then the key.
pub open spec fn names_recipient(tag: Seq<Seq<char>>, key: Seq<char>) -> bool {
    tag.len() >= 2 && tag[0] == "p"@ && tag[1] == key
}

/// Whether one of the tags addresses the event to `key`.
pub open spec fn addressed_to(tags: Seq<Seq<Seq<char>>>, key: Seq<char>) -> bool {
    exists|i: int| 0 <= i < tags.len() && names_recipient(#[trigger] tags[i], key)
}

impl Subscription {
    /// The subscription of a signer that starts to listen at `now`:
    /// requests addressed to it, made at `now` or later.
    pub fn new(signer_hex: &str, now: u64) -> (sub: Subscription)
        ensures
            sub.kind == NOSTR_CONNECT_KIND,
            sub.recipient@ == signer_hex@,
            sub.since == now,
    {
        Subscription { kind: NOSTR_CONNECT_KIND, recipient: owned(signer_hex), since: now }
    }

    /// The subscription of a signer that starts to listen now.
    pub fn starting_now(signer_hex: &str) -> (sub: Subscription)
        ensures
            sub.kind == NOSTR_CONNECT_KIND,
            sub.recipient@ == signer_hex@,
    {
        Subscription::new(signer_hex, primitives::unix_now())
    }

    /// Whether an event is one the subscription asked for.
    pub open spec fn wants(self, event: InboundEvent) -> bool {
        &&& event.kind == self.kind
        &&& event.created_at >= self.since
        &&& addressed_to(event.tags.deep_view(), self.recipient@)
    }

    /// Checks an event against the subscription. Relays are not trusted to
    /// have done so: what they deliver is looked at again here, the
    /// recipient above all.
    pub fn accepts(&self, event: &InboundEvent) -> (ok: bool)
        ensures
            ok == self.wants(*event),
    {
        if event.kind != self.kind || event.created_at < self.since {
            return false;
        }
        let ghost tags = event.tags.deep_view();
        let mut i: usize = 0;
        while i < event.tags.len()
            invariant
                i <= event.tags@.len(),
                event.kind == self.kind,
                event.created_at >= self.since,
                tags == event.tags.deep_view(),
                tags.len() == event.tags@.len(),
                forall|j: int| 0 <= j < i ==> !names_recipient(#[trigger] tags[j], self.recipient@),
            decreases event.tags@.len() - i,
        {
            let tag = &event.tags[i];
            proof {
                assert(tags[i as int] == tag.deep_view());
                assert(tag.deep_view().len() == tag@.len());
                if tag@.len() >= 2 {
                    assert(tag.deep_view()[0] == tag@[0]@);
                    assert(tag.deep_view()[1] == tag@[1]@);
                }
            }
            if tag.len() >= 2 && str_eq(tag[0].as_str(), "p") && str_eq(tag[1].as_str(), self.recipient.as_str()) {
                assert(names_recipient(tags[i as int], self.recipient@));
                return true;
            }
            i += 1;
        }
        false
    }
}

/// Reads a decrypted message of `sender` and answers it.
///
/// A message that is no request gets no answer, and nothing changes. So it is with any message once the signer has been
/// stopped. Otherwise the sender counts as connected, and the answer is
/// what the dispatcher writes.
pub fn answer_request(
    signer: &mut BunkerSigner,
    sender: &str,
    message: &str,
    engine: &SigningEngine,
    keys: Option<&Keys>,
    config: &Config,
    limiter: &mut RateLimiter,
    now_millis: u64,
    now_secs: u64,
) -> (answer: Option<String>)
    ensures
        final(signer).relay_list() == old(signer).relay_list(),
        final(signer).shared_secret() == old(signer).shared_secret(),
        answer is Some <==> old(signer)@.listening() && is_request(message@),
        answer is None ==> final(signer)@ == old(signer)@ && *final(limiter) == *old(limiter),
        answer matches Some(text) ==> {
            &&& final(signer)@ == old(signer)@.after(BunkerEvent::Request { sender: sender@ })
            &&& request_answered(text@, message@, sender@, held(keys), *config, *old(limiter), now_millis, now_secs)
            &&& limiter_served(message@, *config, *old(limiter), *final(limiter), sender@, now_millis)
        },
{
    if signer.should_stop() {
        return None;
    }
    let req = match WireRequest::decode(message) {
        Some(req) => req,
        None => {
            return None;
        },
    };
    signer.note_request(sender);
    let text = dispatch(Transport::Remote, &req, sender, engine, keys, config, limiter, now_millis, now_secs);
    Some(text)
}

/// Whether `text` is the answer to the request of `sender` in `message`,
/// as the dispatcher writes it: the gates are asked at `now_millis` with
/// what the limiter has on record, and the work is done with `keys` at
/// `now_secs`.
pub open spec fn request_answered(
    text: Seq<char>,
    message: Seq<char>,
    sender: Seq<char>,
    keys: Option<Keys>,
    config: Config,
    limiter: RateLimiter,
    now_millis: u64,
    now_secs: u64,
) -> bool {
    answered(
        text,
        Transport::Remote,
        sender,
        id_of(message),
        method_of(message),
        param_at(message, "/params/0"@),
        param_at(message, "/params/1"@),
        request_verdict(
            Transport::Remote,
            method_of(message),
            param_at(message, "/params/0"@),
            param_at(message, "/params/1"@),
            config,
            limiter,
            sender,
            now_millis,
        ),
        keys,
        now_secs,
    )
}

/// What a request of `sender` in `message` does to the limiter when it
/// is gated at `now_millis`.
pub open spec fn limiter_served(
    message: Seq<char>,
    config: Config,
    before: RateLimiter,
    after: RateLimiter,
    sender: Seq<char>,
    now_millis: u64,
) -> bool {
    request_limiter_effect(
        Transport::Remote,
        method_of(message),
        param_at(message, "/params/0"@),
        param_at(message, "/params/1"@),
        config,
        before,
        after,
        sender,
        now_millis,
    )
}

/// The event that carries an answer: of the kind of the protocol, with the
/// encrypted answer as its content, one tag that addresses it to the
/// recipient, and the date `now_secs`.
pub open spec fn answer_template(recipient: Seq<char>, ciphertext: Seq<char>, now_secs: u64) -> EventView {
    EventView {
        kind: NOSTR_CONNECT_KIND,
        content: ciphertext,
        tags: seq![seq!["p"@, recipient]],
        created_at: Some(now_secs),
    }
}

/// Describes the event that carries an answer.
pub fn answer_event(recipient: &str, ciphertext: String, now_secs: u64) -> (event: UnsignedEventData)
    ensures
        event@ == answer_template(recipient@, ciphertext@, now_secs),
{
    let mut tag: Vec<String> = Vec::new();
    tag.push(owned("p"));
    tag.push(owned(recipient));
    let mut tags: Vec<Vec<String>> = Vec::new();
    tags.push(tag);
    assert(tags.deep_view() =~= seq![seq!["p"@, recipient@]]) by {
        assert(tags.deep_view().len() == 1);
        assert(tags.deep_view()[0] == tags@[0].deep_view());
        assert(tags@[0].deep_view() =~= seq!["p"@, recipient@]) by {
            assert(tags@[0].deep_view().len() == 2);
            assert(tags@[0].deep_view()[0] == tags@[0]@[0]@);
            assert(tags@[0].deep_view()[1] == tags@[0]@[1]@);
        }
    }
    UnsignedEventData { kind: NOSTR_CONNECT_KIND, content: ciphertext, tags, created_at: Some(now_secs) }
}

/// Makes what goes to the signing of an answer: the kind of the protocol,
/// the encrypted answer, the one tag `p` with the recipient's key, and the
/// date `now_secs`.
pub fn answer_draft(recipient: &str, ciphertext: String, now_secs: u64) -> (d: Draft)
    ensures
        d@ == drafted(answer_template(recipient@, ciphertext@, now_secs), now_secs),
        d@.kind == NOSTR_CONNECT_KIND,
        d@.content == ciphertext@,
        d@.tags == seq![seq!["p"@, recipient@]],
        d@.created_at == now_secs,
{
    let event = answer_event(recipient, ciphertext, now_secs);
    proof {
        let one = seq!["p"@, recipient@];
        reveal(Seq::filter);
        Seq::<Seq<Seq<char>>>::empty().lemma_filter_push(one, |t: Seq<Seq<char>>| crate::signing::has_fields(t));
        assert(Seq::<Seq<Seq<char>>>::empty().push(one) =~= seq![one]);
        assert(Seq::<Seq<Seq<char>>>::empty().filter(|t: Seq<Seq<char>>| crate::signing::has_fields(t))
            =~= Seq::<Seq<Seq<char>>>::empty());
    }
    draft(&event, now_secs)
}

/// The text that `content` opens to under `keys`, where `peer` is a public
/// key in hex and the content is something that was encrypted between
/// that key and these keys.
pub open spec fn opened(peer: Seq<char>, content: Seq<char>, keys: Keys) -> Option<Seq<char>> {
    match hex_key_read(peer) {
        Some(key) => nip04_opened(keys, key, content),
        None => None,
    }
}

/// Whether `event` is `answer`, sealed at `now_secs` for `recipient` by
/// the signer who holds `keys`: written as JSON, it carries what
/// [`answer_template`] describes for a ciphertext that opens to the
/// answer.
pub open spec fn is_sealed_answer(
    event: Event,
    recipient: Seq<char>,
    answer: Seq<char>,
    now_secs: u64,
    keys: Keys,
) -> bool {
    exists|ciphertext: Seq<char>, signature: Seq<char>| #[trigger]
        carries(
            event_text(event),
            signature,
            answer_template(recipient, ciphertext, now_secs),
            now_secs,
            keys_public_hex(keys),
        ) && opened(recipient, ciphertext, keys) == Some(answer)
}

/// Encrypts an answer to `recipient`, whose public key is given in hex,
/// and wraps it in a signed event that is addressed to them.
///
/// Both the ciphertext and the event are read again before anything is
/// handed out: a ciphertext that does not open to the answer, or an event
/// that is not what [`answer_template`] describes, is withheld, and the
/// sealing counts as failed.
pub fn seal_answer(keys: &Keys, recipient: &str, answer: &str, now_secs: u64) -> (r: Result<Event>)
    ensures
        match r {
            Ok(event) => is_key_hex(recipient@) && is_sealed_answer(event, recipient@, answer@, now_secs, *keys),
            Err(e) => if is_key_hex(recipient@) {
                e is EncryptionError || e is NostrError
            } else {
                e is EncryptionError
            },
        },
{
    let key = match primitives::public_key_from_hex(recipient) {
        Ok(key) => key,
        Err(e) => {
            return Err(SignerError::EncryptionError(e.to_string()));
        },
    };
    let encrypted = match primitives::nip04_encrypt(keys, &key, answer) {
        Ok(encrypted) => encrypted,
        Err(e) => {
            return Err(SignerError::EncryptionError(e.to_string()));
        },
    };
    match primitives::nip04_decrypt(keys, &key, encrypted.as_str()) {
        Ok(text) => {
            if !str_eq(text.as_str(), answer) {
                return Err(SignerError::EncryptionError(owned("the sealed answer does not open to the answer")));
            }
        },
        Err(e) => {
            return Err(SignerError::EncryptionError(e.to_string()));
        },
    }
    let described = answer_event(recipient, encrypted.clone(), now_secs);
    let event = match primitives::sign_event(keys, answer_draft(recipient, encrypted, now_secs)) {
        Ok(event) => event,
        Err(e) => {
            return Err(SignerError::NostrError(e.to_string()));
        },
    };
    let text = match primitives::event_json(&event) {
        Ok(text) => text,
        Err(e) => {
            return Err(SignerError::NostrError(e.to_string()));
        },
    };
    let signature = primitives::event_signature(&event);
    let signer = primitives::public_hex(keys);
    if !event_carries(text.as_str(), signature.as_str(), &described, now_secs, signer.as_str()) {
        return Err(SignerError::NostrError(owned("the sealed answer is not what was to be sent")));
    }
    assert(carries(
        event_text(event),
        signature@,
        answer_template(recipient@, described.content@, now_secs),
        now_secs,
        keys_public_hex(*keys),
    ) && opened(recipient@, described.content@, *keys) == Some(answer@));
    Ok(event)
}

/// Whether `text` is the answer to a request and `event` is that answer,
/// sealed for the sender.
pub open spec fn is_answer_in(
    text: Seq<char>,
    event: Event,
    message: Seq<char>,
    sender: Seq<char>,
    keys: Keys,
    config: Config,
    limiter: RateLimiter,
    now_millis: u64,
    now_secs: u64,
) -> bool {
    &&& request_answered(text, message, sender, Some(keys), config, limiter, now_millis, now_secs)
    &&& is_sealed_answer(event, sender, text, now_secs, keys)
}

/// Whether `event` seals the answer to the request of `sender` in
/// `message`.
pub open spec fn seals_answer(
    event: Event,
    message: Seq<char>,
    sender: Seq<char>,
    keys: Keys,
    config: Config,
    limiter: RateLimiter,
    now_millis: u64,
    now_secs: u64,
) -> bool {
    exists|text: Seq<char>| #[trigger]
        is_answer_in(text, event, message, sender, keys, config, limiter, now_millis, now_secs)
}

/// What a listening signer makes of the decrypted message of `sender`, at
/// the times given.
///
/// A message that is no request ends in a serialization error, and nothing
/// changes. A request connects its sender and serves the limiter as the
/// request asks; what comes back is the answer that the dispatcher writes,
/// sealed for the sender at `now_secs`, or the error that kept it from
/// being sealed.
pub open spec fn handled(
    message: Seq<char>,
    sender: Seq<char>,
    keys: Keys,
    config: Config,
    state: StateView,
    state_after: StateView,
    limiter: RateLimiter,
    limiter_after: RateLimiter,
    now_millis: u64,
    now_secs: u64,
    r: Result<Option<Event>>,
) -> bool {
    if is_request(message) {
        &&& state_after == state.after(BunkerEvent::Request { sender })
        &&& limiter_served(message, config, limiter, limiter_after, sender, now_millis)
        &&& match r {
            Ok(sealed) => sealed matches Some(event) && seals_answer(
                event,
                message,
                sender,
                keys,
                config,
                limiter,
                now_millis,
                now_secs,
            ),
            Err(e) => e is EncryptionError || e is NostrError,
        }
    } else {
        &&& r matches Err(e) && e is SerializationError
        &&& state_after == state
        &&& limiter_after == limiter
    }
}

/// The text in which a request is refused, for the reason given.
pub open spec fn refused_in(message: Seq<char>, reason: Seq<char>) -> Seq<char> {
    envelope(id_of(message), Err(reason))
}

/// The verdict of the gates on the request of `sender` in `message`.
pub open spec fn verdict_on(
    message: Seq<char>,
    config: Config,
    limiter: RateLimiter,
    sender: Seq<char>,
    now_millis: u64,
) -> Verdict {
    request_verdict(
        Transport::Remote,
        method_of(message),
        param_at(message, "/params/0"@),
        param_at(message, "/params/1"@),
        config,
        limiter,
        sender,
        now_millis,
    )
}

/// A request is never passed over in silence: what a listening signer
/// makes of one is an answer to publish, unless sealing the answer fails.
pub proof fn lemma_request_is_not_dropped(
    message: Seq<char>,
    sender: Seq<char>,
    keys: Keys,
    config: Config,
    state: StateView,
    state_after: StateView,
    limiter: RateLimiter,
    limiter_after: RateLimiter,
    now_millis: u64,
    now_secs: u64,
    r: Result<Option<Event>>,
)
    requires
        is_request(message),
        handled(message, sender, keys, config, state, state_after, limiter, limiter_after, now_millis, now_secs, r),
    ensures
        match r {
            Ok(sealed) => sealed is Some,
            Err(e) => e is EncryptionError || e is NostrError,
        },
{
}

/// A request that names no method is answered: the event that comes back
/// seals an error that carries the request's identifier and quotes the
/// name.
pub proof fn lemma_unknown_method_is_sealed(
    message: Seq<char>,
    sender: Seq<char>,
    keys: Keys,
    config: Config,
    state: StateView,
    state_after: StateView,
    limiter: RateLimiter,
    limiter_after: RateLimiter,
    now_millis: u64,
    now_secs: u64,
    event: Event,
)
    requires
        is_request(message),
        is_unknown(Transport::Remote, method_of(message)),
        handled(
            message,
            sender,
            keys,
            config,
            state,
            state_after,
            limiter,
            limiter_after,
            now_millis,
            now_secs,
            Ok(Some(event)),
        ),
    ensures
        is_sealed_answer(
            event,
            sender,
            refused_in(message, "Invalid request: Unknown method: "@ + method_of(message)),
            now_secs,
            keys,
        ),
{
    let text = choose|text: Seq<char>| #[trigger]
        is_answer_in(text, event, message, sender, keys, config, limiter, now_millis, now_secs);
    lemma_unknown_method_answered(
        text,
        Transport::Remote,
        sender,
        id_of(message),
        method_of(message),
        param_at(message, "/params/0"@),
        param_at(message, "/params/1"@),
        verdict_on(message, config, limiter, sender, now_millis),
        Some(keys),
        now_secs,
    );
}

/// A request that the gates refuse is answered: the event that comes
/// back seals an error that carries the request's identifier and says
/// which gate refused.
pub proof fn lemma_denied_is_sealed(
    message: Seq<char>,
    sender: Seq<char>,
    keys: Keys,
    config: Config,
    state: StateView,
    state_after: StateView,
    limiter: RateLimiter,
    limiter_after: RateLimiter,
    now_millis: u64,
    now_secs: u64,
    event: Event,
)
    requires
        is_request(message),
        parsed(Transport::Remote, method_of(message), param_at(message, "/params/0"@), param_at(message, "/params/1"@))
            is Ok,
        verdict_on(message, config, limiter, sender, now_millis) != Verdict::Allowed,
        handled(
            message,
            sender,
            keys,
            config,
            state,
            state_after,
            limiter,
            limiter_after,
            now_millis,
            now_secs,
            Ok(Some(event)),
        ),
    ensures
        is_sealed_answer(
            event,
            sender,
            refused_in(
                message,
                refusal_text(verdict_on(message, config, limiter, sender, now_millis), sender, method_of(message)),
            ),
            now_secs,
            keys,
        ),
{
    let text = choose|text: Seq<char>| #[trigger]
        is_answer_in(text, event, message, sender, keys, config, limiter, now_millis, now_secs);
    lemma_denied_is_answered(
        text,
        Transport::Remote,
        sender,
        id_of(message),
        method_of(message),
        param_at(message, "/params/0"@),
        param_at(message, "/params/1"@),
        verdict_on(message, config, limiter, sender, now_millis),
        Some(keys),
        now_secs,
    );
}

/// An event that does not decrypt gets no answer: a listening signer
/// gives a decryption error for it and changes nothing.
pub proof fn lemma_undecrypted_gets_no_answer(
    sender: Seq<char>,
    content: Seq<char>,
    keys: Keys,
    config: Config,
    state: StateView,
    state_after: StateView,
    limiter: RateLimiter,
    limiter_after: RateLimiter,
    r: Result<Option<Event>>,
)
    requires
        opened(sender, content, keys) is None,
        event_handled(sender, content, keys, config, state, state_after, limiter, limiter_after, r),
    ensures
        r matches Err(e) && e is DecryptionError,
        state_after == state,
        limiter_after == limiter,
        outcome_of(ListenerAction::Dropped(r->Err_0)) == r,
{
}

/// Handles a request of `sender` whose decryption has been tried.
///
/// A request that could not be decrypted gets no answer: its sender is not
/// known to be who they say, and nothing is told to them. A decrypted
/// message that is no request gets none either. Both end in an error, for
/// the listener to note. Every other request is answered, the limiter is
/// served as the request asks, and the answer is sealed for the sender;
/// only if sealing fails is there an error instead. A signer that has
/// been stopped looks at nothing.
pub fn handle_decrypted(
    signer: &mut BunkerSigner,
    sender: &str,
    decrypted: Result<String>,
    engine: &SigningEngine,
    keys: &Keys,
    config: &Config,
    limiter: &mut RateLimiter,
    now_millis: u64,
    now_secs: u64,
) -> (r: Result<Option<Event>>)
    ensures
        final(signer).relay_list() == old(signer).relay_list(),
        final(signer).shared_secret() == old(signer).shared_secret(),
        !old(signer)@.listening() ==> (r matches Ok(None)) && final(signer)@ == old(signer)@ && *final(limiter)
            == *old(limiter),
        old(signer)@.listening() ==> match decrypted {
            Err(cause) => (r matches Err(e) && e == cause) && final(signer)@ == old(signer)@ && *final(limiter)
                == *old(limiter),
            Ok(message) => handled(
                message@,
                sender@,
                *keys,
                *config,
                old(signer)@,
                final(signer)@,
                *old(limiter),
                *final(limiter),
                now_millis,
                now_secs,
                r,
            ),
        },
{
    if signer.should_stop() {
        return Ok(None);
    }
    let message = match decrypted {
        Ok(message) => message,
        Err(e) => {
            return Err(e);
        },
    };
    let answer = answer_request(
        signer,
        sender,
        message.as_str(),
        engine,
        Some(keys),
        config,
        limiter,
        now_millis,
        now_secs,
    );
    match answer {
        Some(text) => match seal_answer(keys, sender, text.as_str(), now_secs) {
            Ok(event) => {
                assert(is_answer_in(
                    text@,
                    event,
                    message@,
                    sender@,
                    *keys,
                    *config,
                    *old(limiter),
                    now_millis,
                    now_secs,
                ));
                Ok(Some(event))
            },
            Err(e) => Err(e),
        },
        None => Err(SignerError::SerializationError(owned("the message holds no request"))),
    }
}

/// Whether a listening signer made of a message what [`handled`] says,
/// at some time.
pub open spec fn handled_once(
    message: Seq<char>,
    sender: Seq<char>,
    keys: Keys,
    config: Config,
    state: StateView,
    state_after: StateView,
    limiter: RateLimiter,
    limiter_after: RateLimiter,
    r: Result<Option<Event>>,
) -> bool {
    exists|now_millis: u64, now_secs: u64| #[trigger]
        handled(
            message,
            sender,
            keys,
            config,
            state,
            state_after,
            limiter,
            limiter_after,
            now_millis,
            now_secs,
            r,
        )
}

/// What a listening signer makes of an event with the given sender and
/// content.
///
/// Where the sender is no public key in hex, or the content does not open
/// under the keys as something the sender encrypted, the event ends in a
/// decryption error and nothing changes. Where it opens to a message, the
/// message is handled as [`handled`] says, at the time of the call.
pub open spec fn event_handled(
    sender: Seq<char>,
    content: Seq<char>,
    keys: Keys,
    config: Config,
    state: StateView,
    state_after: StateView,
    limiter: RateLimiter,
    limiter_after: RateLimiter,
    r: Result<Option<Event>>,
) -> bool {
    match opened(sender, content, keys) {
        Some(message) => handled_once(
            message,
            sender,
            keys,
            config,
            state,
            state_after,
            limiter,
            limiter_after,
            r,
        ),
        None => {
            &&& r matches Err(e) && e is DecryptionError
            &&& state_after == state
            &&& limiter_after == limiter
        },
    }
}

/// Handle a NIP-46 request event: decrypt it with the active keys, answer
/// it, and seal the answer for the sender.
///
/// Once the signer has been stopped no event is looked at. An event whose
/// sender is no public key, or whose content cannot be decrypted, ends in
/// a decryption error; one that decrypts to something that is no request,
/// in a serialization error. Neither changes anything, and neither is
/// answered. A request that is answered connects its sender and serves the
/// limiter as the request asks; the event that comes back is the sealed
/// answer, addressed to the sender.
pub fn handle_nip46_request(
    signer: &mut BunkerSigner,
    event: &InboundEvent,
    keys: &Keys,
    engine: &SigningEngine,
    config: &Config,
    limiter: &mut RateLimiter,
) -> (r: Result<Option<Event>>)
    ensures
        final(signer).relay_list() == old(signer).relay_list(),
        final(signer).shared_secret() == old(signer).shared_secret(),
        r matches Ok(None) <==> !old(signer)@.listening(),
        old(signer)@.listening() ==> event_handled(
            event.pubkey@,
            event.content@,
            *keys,
            *config,
            old(signer)@,
            final(signer)@,
            *old(limiter),
            *final(limiter),
            r,
        ),
        !old(signer)@.listening() ==> final(signer)@ == old(signer)@ && *final(limiter) == *old(limiter),
        old(signer)@.listening() && !is_key_hex(event.pubkey@) ==> (r matches Err(e) && e is DecryptionError),
{
    if signer.should_stop() {
        return Ok(None);
    }
    let sender = event.pubkey.as_str();
    let sender_key = match primitives::public_key_from_hex(sender) {
        Ok(key) => key,
        Err(e) => {
            return Err(SignerError::DecryptionError(e.to_string()));
        },
    };
    let decrypted = match primitives::nip04_decrypt(keys, &sender_key, event.content.as_str()) {
        Ok(message) => Ok(message),
        Err(e) => Err(SignerError::DecryptionError(e.to_string())),
    };
    let now_millis = limiter.now();
    let now_secs = primitives::unix_now();
    let ghost tried = decrypted;
    let r = handle_decrypted(signer, sender, decrypted, engine, keys, config, limiter, now_millis, now_secs);
    proof {
        if tried is Ok {
            let message = tried->Ok_0;
            assert(handled(
                message@,
                sender@,
                *keys,
                *config,
                old(signer)@,
                signer@,
                *old(limiter),
                *limiter,
                now_millis,
                now_secs,
                r,
            ));
        }
    }
    r
}

/// What the listener does next.
#[derive(Debug)]
pub enum ListenerAction {
    /// End: disconnect from the relays
    Stop,
    /// Nothing to do: wait for the next event
    Wait,
    /// An event was dropped, for the reason given: note it and wait
    Dropped(SignerError),
    /// Publish this answer, then wait
    Publish(Event),
}

/// What the handling of an event came to, as an action tells it.
pub open spec fn outcome_of(action: ListenerAction) -> Result<Option<Event>> {
    match action {
        ListenerAction::Publish(answer) => Ok(Some(answer)),
        ListenerAction::Dropped(e) => Err(e),
        _ => Ok(None),
    }
}

/// One turn of the listener: what it does with what a wait brought, an
/// event or nothing.
///
/// Once the signer has been stopped the answer is `Stop`, whatever came,
/// and nothing is read. An event the subscription did not ask for is
/// passed over. Every other event is handled as a request: its answer is
/// to be published, and an error is the reason it was dropped.
pub fn listener_step(
    signer: &mut BunkerSigner,
    subscription: &Subscription,
    arrived: Option<&InboundEvent>,
    keys: &Keys,
    engine: &SigningEngine,
    config: &Config,
    limiter: &mut RateLimiter,
) -> (action: ListenerAction)
    ensures
        final(signer).relay_list() == old(signer).relay_list(),
        final(signer).shared_secret() == old(signer).shared_secret(),
        action is Stop <==> !old(signer)@.listening(),
        action is Stop || action is Wait ==> final(signer)@ == old(signer)@ && *final(limiter) == *old(limiter),
        old(signer)@.listening() && (arrived matches Some(event) ==> !subscription.wants(*event)) ==> (action
            is Wait),
        action is Publish || action is Dropped ==> (arrived matches Some(event) && subscription.wants(*event)),
        old(signer)@.listening() && (arrived matches Some(event) && subscription.wants(*event)) ==> (action
            is Publish || action is Dropped),
        old(signer)@.listening() ==> (arrived matches Some(event) ==> subscription.wants(*event) ==> event_handled(
            event.pubkey@,
            event.content@,
            *keys,
            *config,
            old(signer)@,
            final(signer)@,
            *old(limiter),
            *final(limiter),
            outcome_of(action),
        )),
{
    if signer.should_stop() {
        return ListenerAction::Stop;
    }
    let event = match arrived {
        Some(event) => event,
        None => {
            return ListenerAction::Wait;
        },
    };
    if !subscription.accepts(event) {
        return ListenerAction::Wait;
    }
    match handle_nip46_request(signer, event, keys, engine, config, limiter) {
        Ok(Some(answer)) => ListenerAction::Publish(answer),
        // a signer that listens gives an answer or an error
        Ok(None) => vstd::pervasive::unreached(),
        Err(e) => ListenerAction::Dropped(e),
    }
}

} // verus!
