//! The request dispatcher: from a decoded request to the text of its answer.
//!
//! A request names a method and carries up to two string parameters. The
//! dispatcher reads the method, checks the parameters, asks the two gates,
//! has the signing engine do the work, and writes the answer: a result, or
//! an error that says why there is none. A request that was read is always
//! answered.

use vstd::prelude::*;
use vstd::string::*;
use nostr::Keys;
use crate::config::{listed, Config};
use crate::error::{Result, SignerError};
use crate::json;
use crate::json::{json_array_len, json_quoted, json_string, json_valid};
use crate::permissions::{authorize, reaches_limiter, verdict, RateLimiter, RequestType, Verdict};
use crate::primitives::{keys_public_hex, keys_public_npub};
use crate::signing::{
    carries, described_event, describes_event, nip04_decrypt_outcome, nip04_encrypt_outcome, nip44_decrypt_outcome,
    nip44_encrypt_outcome, zap_outcome, EventView, SigningEngine, SigningResultData, UnsignedEventData,
};
use crate::text::{join2, owned, str_eq};

verus! {

/// Where a request came from.
#[derive(Debug, Clone, Copy, PartialEq, Eq, Structural)]
pub enum Transport {
    /// From an application on this host
    Local,
    /// From a peer, over a relay
    Remote,
}

/// The text of an optional string.
pub open spec fn opt_text(s: Option<String>) -> Option<Seq<char>> {
    match s {
        Some(s) => Some(s@),
        None => None,
    }
}

/// A request as it arrives: its identifier, the name of its method, and its
/// first two parameters where they are strings.
#[derive(Debug)]
pub struct WireRequest {
    pub id: String,
    pub method: String,
    pub first: Option<String>,
    pub second: Option<String>,
}

/// Whether `text` is a request: JSON that holds a string under `id` and a
/// string under `method`.
pub open spec fn is_request(text: Seq<char>) -> bool {
    json_valid(text) && json_string(text, "/id"@) is Some && json_string(text, "/method"@) is Some
}

/// The identifier of the request that `text` holds.
pub open spec fn id_of(text: Seq<char>) -> Seq<char>
    recommends
        is_request(text),
{
    json_string(text, "/id"@)->Some_0
}

/// The name of the method that the request in `text` asks for.
pub open spec fn method_of(text: Seq<char>) -> Seq<char>
    recommends
        is_request(text),
{
    json_string(text, "/method"@)->Some_0
}

/// The parameter that `text` holds at `pointer`: a string in the array
/// `params`. Without such an array there are no parameters.
pub open spec fn param_at(text: Seq<char>, pointer: Seq<char>) -> Option<Seq<char>> {
    if json_array_len(text, "/params"@) is Some {
        json_string(text, pointer)
    } else {
        None
    }
}

impl WireRequest {
    /// Whether `req` is what `text` reads as.
    pub open spec fn decode_spec(text: Seq<char>, req: WireRequest) -> bool {
        &&& is_request(text)
        &&& req.id@ == id_of(text)
        &&& req.method@ == method_of(text)
        &&& opt_text(req.first) == param_at(text, "/params/0"@)
        &&& opt_text(req.second) == param_at(text, "/params/1"@)
    }

    /// Reads a request from the JSON text of a message. A text that is not
    /// JSON, or that holds no string under `id` or none under `method`, is
    /// no request. The parameters are optional.
    pub fn decode(text: &str) -> (r: Option<WireRequest>)
        ensures
            match r {
                Some(req) => WireRequest::decode_spec(text@, req),
                None => !is_request(text@),
            },
    {
        if !json::is_valid(text) {
            return None;
        }
        let id = match json::string_at(text, "/id") {
            Some(id) => id,
            None => {
                return None;
            },
        };
        let method = match json::string_at(text, "/method") {
            Some(method) => method,
            None => {
                return None;
            },
        };
        let (first, second) = if json::array_len_at(text, "/params").is_some() {
            (json::string_at(text, "/params/0"), json::string_at(text, "/params/1"))
        } else {
            (None, None)
        };
        Some(WireRequest { id, method, first, second })
    }
}

/// What a request asks for, with everything the work needs.
#[derive(Debug)]
pub enum Operation {
    /// The handshake of a new peer
    Connect,
    /// A liveness probe
    Ping,
    GetPublicKey,
    SignEvent { event: UnsignedEventData },
    Nip04Encrypt { peer: String, plaintext: String },
    Nip04Decrypt { peer: String, ciphertext: String },
    Nip44Encrypt { peer: String, plaintext: String },
    Nip44Decrypt { peer: String, ciphertext: String },
    DecryptZapEvent { event_json: String },
}

/// An operation, with its texts as sequences of characters.
pub enum OperationView {
    Connect,
    Ping,
    GetPublicKey,
    SignEvent { event: EventView },
    Nip04Encrypt { peer: Seq<char>, plaintext: Seq<char> },
    Nip04Decrypt { peer: Seq<char>, ciphertext: Seq<char> },
    Nip44Encrypt { peer: Seq<char>, plaintext: Seq<char> },
    Nip44Decrypt { peer: Seq<char>, ciphertext: Seq<char> },
    DecryptZapEvent { event_json: Seq<char> },
}

impl View for Operation {
    type V = OperationView;

    open spec fn view(&self) -> OperationView {
        match self {
            Operation::Connect => OperationView::Connect,
            Operation::Ping => OperationView::Ping,
            Operation::GetPublicKey => OperationView::GetPublicKey,
            Operation::SignEvent { event } => OperationView::SignEvent { event: event@ },
            Operation::Nip04Encrypt { peer, plaintext } => OperationView::Nip04Encrypt {
                peer: peer@,
                plaintext: plaintext@,
            },
            Operation::Nip04Decrypt { peer, ciphertext } => OperationView::Nip04Decrypt {
                peer: peer@,
                ciphertext: ciphertext@,
            },
            Operation::Nip44Encrypt { peer, plaintext } => OperationView::Nip44Encrypt {
                peer: peer@,
                plaintext: plaintext@,
            },
            Operation::Nip44Decrypt { peer, ciphertext } => OperationView::Nip44Decrypt {
                peer: peer@,
                ciphertext: ciphertext@,
            },
            Operation::DecryptZapEvent { event_json } => OperationView::DecryptZapEvent {
                event_json: event_json@,
            },
        }
    }
}

impl OperationView {
    /// The capability the operation needs; the handshake and the probe need
    /// none.
    pub open spec fn request_type(self) -> Option<RequestType> {
        match self {
            OperationView::Connect => None,
            OperationView::Ping => None,
            OperationView::GetPublicKey => Some(RequestType::GetPublicKey),
            OperationView::SignEvent { .. } => Some(RequestType::SignEvent),
            OperationView::Nip04Encrypt { .. } => Some(RequestType::Nip04Encrypt),
            OperationView::Nip04Decrypt { .. } => Some(RequestType::Nip04Decrypt),
            OperationView::Nip44Encrypt { .. } => Some(RequestType::Nip44Encrypt),
            OperationView::Nip44Decrypt { .. } => Some(RequestType::Nip44Decrypt),
            OperationView::DecryptZapEvent { .. } => Some(RequestType::DecryptZapEvent),
        }
    }

    /// The kind of the event to be signed, if the operation signs one.
    pub open spec fn event_kind(self) -> Option<u16> {
        match self {
            OperationView::SignEvent { event } => Some(event.kind),
            _ => None,
        }
    }
}

/// What the two parameters of an encryption or decryption are read as: the
/// peer's public key and the text. The error names the one that is missing.
pub open spec fn peer_and_text(
    first: Option<Seq<char>>,
    second: Option<Seq<char>>,
    what: Seq<char>,
) -> core::result::Result<(Seq<char>, Seq<char>), Seq<char>> {
    match first {
        None => Err("Missing pubkey"@),
        Some(peer) => match second {
            None => Err("Missing "@ + what),
            Some(text) => Ok((peer, text)),
        },
    }
}

/// What a method name and two parameters are read as: the operation, or
/// the reason why the request is invalid.
///
/// Decrypting a zap event is offered to local applications only. A name
/// that is no method of the transport is answered with `Unknown method: `
/// and the name.
pub open spec fn parsed(
    transport: Transport,
    method: Seq<char>,
    first: Option<Seq<char>>,
    second: Option<Seq<char>>,
) -> core::result::Result<OperationView, Seq<char>> {
    if method == "connect"@ {
        Ok(OperationView::Connect)
    } else if method == "ping"@ {
        Ok(OperationView::Ping)
    } else if method == "get_public_key"@ {
        Ok(OperationView::GetPublicKey)
    } else if method == "sign_event"@ {
        match first {
            None => Err("Missing event"@),
            Some(text) => if describes_event(text) {
                Ok(OperationView::SignEvent { event: described_event(text) })
            } else {
                Err("Invalid event"@)
            },
        }
    } else if method == "nip04_encrypt"@ {
        match peer_and_text(first, second, "plaintext"@) {
            Ok((peer, plaintext)) => Ok(OperationView::Nip04Encrypt { peer, plaintext }),
            Err(reason) => Err(reason),
        }
    } else if method == "nip04_decrypt"@ {
        match peer_and_text(first, second, "ciphertext"@) {
            Ok((peer, ciphertext)) => Ok(OperationView::Nip04Decrypt { peer, ciphertext }),
            Err(reason) => Err(reason),
        }
    } else if method == "nip44_encrypt"@ {
        match peer_and_text(first, second, "plaintext"@) {
            Ok((peer, plaintext)) => Ok(OperationView::Nip44Encrypt { peer, plaintext }),
            Err(reason) => Err(reason),
        }
    } else if method == "nip44_decrypt"@ {
        match peer_and_text(first, second, "ciphertext"@) {
            Ok((peer, ciphertext)) => Ok(OperationView::Nip44Decrypt { peer, ciphertext }),
            Err(reason) => Err(reason),
        }
    } else if method == "decrypt_zap_event"@ && transport == Transport::Local {
        match first {
            None => Err("Missing event"@),
            Some(event_json) => Ok(OperationView::DecryptZapEvent { event_json }),
        }
    } else {
        Err("Unknown method: "@ + method)
    }
}

/// Whether `method` is no method of the transport.
pub open spec fn is_unknown(transport: Transport, method: Seq<char>) -> bool {
    &&& method != "connect"@
    &&& method != "ping"@
    &&& method != "get_public_key"@
    &&& method != "sign_event"@
    &&& method != "nip04_encrypt"@
    &&& method != "nip04_decrypt"@
    &&& method != "nip44_encrypt"@
    &&& method != "nip44_decrypt"@
    &&& !(method == "decrypt_zap_event"@ && transport == Transport::Local)
}

/// Reads the peer and the text of an encryption or decryption.
fn read_peer_and_text(req: &WireRequest, what: &str) -> (r: Result<(String, String)>)
    ensures
        match r {
            Ok((peer, text)) => peer_and_text(opt_text(req.first), opt_text(req.second), what@) == Ok::<
                (Seq<char>, Seq<char>),
                Seq<char>,
            >((peer@, text@)),
            Err(e) => e matches SignerError::InvalidRequest(reason) && peer_and_text(
                opt_text(req.first),
                opt_text(req.second),
                what@,
            ) == Err::<(Seq<char>, Seq<char>), Seq<char>>(reason@),
        },
{
    let peer = match &req.first {
        Some(peer) => peer.clone(),
        None => {
            return Err(SignerError::InvalidRequest(owned("Missing pubkey")));
        },
    };
    let text = match &req.second {
        Some(text) => text.clone(),
        None => {
            return Err(SignerError::InvalidRequest(join2("Missing ", what)));
        },
    };
    Ok((peer, text))
}

impl Operation {
    /// Reads the operation that a request asks for. A request that names no
    /// method of the transport, lacks a parameter, or describes no event
    /// that can be signed, is refused as invalid, with the reason.
    pub fn parse(transport: Transport, req: &WireRequest) -> (r: Result<Operation>)
        ensures
            match r {
                Ok(op) => parsed(transport, req.method@, opt_text(req.first), opt_text(req.second)) == Ok::<
                    OperationView,
                    Seq<char>,
                >(op@),
                Err(e) => e matches SignerError::InvalidRequest(reason) && parsed(
                    transport,
                    req.method@,
                    opt_text(req.first),
                    opt_text(req.second),
                ) == Err::<OperationView, Seq<char>>(reason@),
            },
    {
        let method = req.method.as_str();
        if str_eq(method, "connect") {
            Ok(Operation::Connect)
        } else if str_eq(method, "ping") {
            Ok(Operation::Ping)
        } else if str_eq(method, "get_public_key") {
            Ok(Operation::GetPublicKey)
        } else if str_eq(method, "sign_event") {
            match &req.first {
                None => Err(SignerError::InvalidRequest(owned("Missing event"))),
                Some(text) => match UnsignedEventData::from_json(text.as_str()) {
                    Ok(event) => Ok(Operation::SignEvent { event }),
                    Err(_) => Err(SignerError::InvalidRequest(owned("Invalid event"))),
                },
            }
        } else if str_eq(method, "nip04_encrypt") {
            match read_peer_and_text(req, "plaintext") {
                Ok((peer, plaintext)) => Ok(Operation::Nip04Encrypt { peer, plaintext }),
                Err(e) => Err(e),
            }
        } else if str_eq(method, "nip04_decrypt") {
            match read_peer_and_text(req, "ciphertext") {
                Ok((peer, ciphertext)) => Ok(Operation::Nip04Decrypt { peer, ciphertext }),
                Err(e) => Err(e),
            }
        } else if str_eq(method, "nip44_encrypt") {
            match read_peer_and_text(req, "plaintext") {
                Ok((peer, plaintext)) => Ok(Operation::Nip44Encrypt { peer, plaintext }),
                Err(e) => Err(e),
            }
        } else if str_eq(method, "nip44_decrypt") {
            match read_peer_and_text(req, "ciphertext") {
                Ok((peer, ciphertext)) => Ok(Operation::Nip44Decrypt { peer, ciphertext }),
                Err(e) => Err(e),
            }
        } else if str_eq(method, "decrypt_zap_event") && transport == Transport::Local {
            match &req.first {
                None => Err(SignerError::InvalidRequest(owned("Missing event"))),
                Some(event_json) => Ok(Operation::DecryptZapEvent { event_json: event_json.clone() }),
            }
        } else {
            Err(SignerError::InvalidRequest(join2("Unknown method: ", method)))
        }
    }

    /// The capability the operation needs.
    pub fn request_type(&self) -> (t: Option<RequestType>)
        ensures
            t == self@.request_type(),
    {
        match self {
            Operation::Connect => None,
            Operation::Ping => None,
            Operation::GetPublicKey => Some(RequestType::GetPublicKey),
            Operation::SignEvent { .. } => Some(RequestType::SignEvent),
            Operation::Nip04Encrypt { .. } => Some(RequestType::Nip04Encrypt),
            Operation::Nip04Decrypt { .. } => Some(RequestType::Nip04Decrypt),
            Operation::Nip44Encrypt { .. } => Some(RequestType::Nip44Encrypt),
            Operation::Nip44Decrypt { .. } => Some(RequestType::Nip44Decrypt),
            Operation::DecryptZapEvent { .. } => Some(RequestType::DecryptZapEvent),
        }
    }

    /// The kind of the event to be signed, if the operation signs one.
    pub fn event_kind(&self) -> (k: Option<u16>)
        ensures
            k == self@.event_kind(),
    {
        match self {
            Operation::SignEvent { event } => Some(event.kind),
            _ => None,
        }
    }
}

/// A name that is no method of the transport is refused, and the refusal
/// quotes it.
pub proof fn lemma_unknown_method_refused(
    transport: Transport,
    method: Seq<char>,
    first: Option<Seq<char>>,
    second: Option<Seq<char>>,
)
    requires
        is_unknown(transport, method),
    ensures
        parsed(transport, method, first, second) == Err::<OperationView, Seq<char>>("Unknown method: "@ + method),
{
}

/// The verdict of the gates on an operation.
///
/// The handshake passes always: whatever a peer sends along with it, a
/// shared secret too, is not looked at. The probe passes always where the
/// settings say so, and otherwise for listed applications. Every other
/// operation goes through both gates.
pub open spec fn op_verdict(
    op: OperationView,
    config: Config,
    recorded: Seq<u64>,
    limit: u32,
    sender: Seq<char>,
    now: u64,
) -> Verdict {
    match op.request_type() {
        Some(request_type) => verdict(config, recorded, limit, sender, request_type, op.event_kind(), now),
        None => if op is Ping && !config.security.ping_without_authorization && !listed(
            config.authorized_apps@,
            sender,
        ) {
            Verdict::NotAuthorized
        } else {
            Verdict::Allowed
        },
    }
}

/// What the limiter has on record for the operation of `sender`.
pub open spec fn op_record(op: OperationView, limiter: RateLimiter, sender: Seq<char>) -> Seq<u64> {
    match op.request_type() {
        Some(request_type) => limiter.history(sender, request_type),
        None => Seq::empty(),
    }
}

/// What the gates do to the limiter: an operation that reaches it is
/// served by it, and nothing else touches it.
pub open spec fn op_limiter_effect(
    op: OperationView,
    config: Config,
    before: RateLimiter,
    after: RateLimiter,
    sender: Seq<char>,
    now: u64,
    v: Verdict,
) -> bool {
    match op.request_type() {
        Some(request_type) => if reaches_limiter(config, sender, request_type, op.event_kind()) {
            after.served_from(before, sender, request_type, now, v is Allowed)
        } else {
            after == before
        },
        None => after == before,
    }
}

/// Asks the gates about an operation of `sender` at `now`, on the
/// limiter's clock.
pub fn gate(op: &Operation, config: &Config, limiter: &mut RateLimiter, sender: &str, now: u64) -> (v: Verdict)
    ensures
        v == op_verdict(
            op@,
            *config,
            op_record(op@, *old(limiter), sender@),
            old(limiter).limit(),
            sender@,
            now,
        ),
        op_limiter_effect(op@, *config, *old(limiter), *final(limiter), sender@, now, v),
{
    match op.request_type() {
        Some(request_type) => authorize(config, limiter, sender, request_type, op.event_kind(), now),
        None => match op {
            Operation::Ping => if config.security.ping_without_authorization || config.is_app_authorized(sender) {
                Verdict::Allowed
            } else {
                Verdict::NotAuthorized
            },
            _ => Verdict::Allowed,
        },
    }
}

/// The message of the error that answers a request the gates have refused.
pub open spec fn refusal_text(v: Verdict, sender: Seq<char>, method: Seq<char>) -> Seq<char> {
    match v {
        Verdict::NotAuthorized => "Application not authorized: "@ + sender,
        Verdict::PermissionDenied => "Permission denied: "@ + method,
        Verdict::RateLimited => "Rate limit exceeded: "@ + method,
        Verdict::Allowed => Seq::empty(),
    }
}

/// The error that answers a request the gates have refused; there is
/// none for a request they have allowed.
pub fn refusal(v: Verdict, sender: &str, method: &str) -> (r: Option<SignerError>)
    ensures
        match r {
            Some(e) => {
                &&& v != Verdict::Allowed
                &&& e.text() == refusal_text(v, sender@, method@)
                &&& v is NotAuthorized ==> e is NotAuthorized
                &&& v is PermissionDenied ==> e is PermissionDenied
                &&& v is RateLimited ==> e is RateLimited
            },
            None => v == Verdict::Allowed,
        },
{
    match v {
        Verdict::Allowed => None,
        Verdict::NotAuthorized => Some(SignerError::NotAuthorized(owned(sender))),
        Verdict::PermissionDenied => Some(SignerError::PermissionDenied(owned(method))),
        Verdict::RateLimited => Some(SignerError::RateLimited(owned(method))),
    }
}

/// What a request is answered with when it succeeds.
#[derive(Debug)]
pub enum Reply {
    /// The handshake is acknowledged
    Ack,
    /// The probe is answered
    Pong,
    /// The keys have done the work
    Data(SigningResultData),
}

/// The keys at hand, if there are any.
pub open spec fn held(keys: Option<&Keys>) -> Option<Keys> {
    match keys {
        Some(keys) => Some(*keys),
        None => None,
    }
}

/// What the keys made of the work, where the reply holds that.
pub open spec fn work_of(outcome: Result<Reply>) -> Option<Result<SigningResultData>> {
    match outcome {
        Ok(Reply::Data(data)) => Some(Ok(data)),
        Ok(_) => None,
        Err(e) => Some(Err(e)),
    }
}

/// What becomes of an operation that the gates have let through.
///
/// The handshake is acknowledged and the probe answered, keys or no keys.
/// Everything else needs the active keys and fails without them. With
/// them, reading the public key gives that of the keys; a signing gives an
/// event that carries what was asked, dated `now` if it has no date of its
/// own, or fails; an encryption gives a ciphertext that opens to the
/// plaintext again, or fails; a decryption gives the plaintext that the ciphertext opens to
/// under the keys, and fails exactly where it opens to nothing.
pub open spec fn performed(op: Operation, keys: Option<Keys>, now: u64, outcome: Result<Reply>) -> bool {
    match op {
        Operation::Connect => outcome matches Ok(reply) && reply is Ack,
        Operation::Ping => outcome matches Ok(reply) && reply is Pong,
        _ => match keys {
            None => outcome matches Err(e) && e is NoActiveKey,
            Some(keys) => match op {
                Operation::GetPublicKey => outcome matches Ok(
                    Reply::Data(SigningResultData::PublicKey { npub, hex }),
                ) && hex@ == keys_public_hex(keys) && npub@ == keys_public_npub(keys),
                Operation::SignEvent { event } => match outcome {
                    Ok(reply) => reply matches Reply::Data(SigningResultData::Event { event_json, signature })
                        && carries(event_json@, signature@, event@, now, keys_public_hex(keys)),
                    Err(e) => e is NostrError,
                },
                Operation::Nip04Encrypt { peer, plaintext } => work_of(outcome) matches Some(done)
                    && nip04_encrypt_outcome(keys, peer@, plaintext@, done),
                Operation::Nip44Encrypt { peer, plaintext } => work_of(outcome) matches Some(done)
                    && nip44_encrypt_outcome(keys, peer@, plaintext@, done),
                Operation::Nip04Decrypt { peer, ciphertext } => work_of(outcome) matches Some(done)
                    && nip04_decrypt_outcome(keys, peer@, ciphertext@, done),
                Operation::Nip44Decrypt { peer, ciphertext } => work_of(outcome) matches Some(done)
                    && nip44_decrypt_outcome(keys, peer@, ciphertext@, done),
                Operation::DecryptZapEvent { event_json } => work_of(outcome) matches Some(done) && zap_outcome(
                    keys,
                    event_json@,
                    done,
                ),
                _ => false,
            },
        },
    }
}

/// The reply that carries what the keys made of the work.
fn reply_with(done: Result<SigningResultData>) -> (outcome: Result<Reply>)
    ensures
        work_of(outcome) == Some(done),
{
    match done {
        Ok(data) => Ok(Reply::Data(data)),
        Err(e) => Err(e),
    }
}

/// Does the work of an operation. An event without a date of its own is
/// dated `now`, in seconds since the Unix epoch.
pub fn perform(op: &Operation, engine: &SigningEngine, keys: Option<&Keys>, now: u64) -> (outcome: Result<Reply>)
    ensures
        performed(*op, held(keys), now, outcome),
{
    match op {
        Operation::Connect => Ok(Reply::Ack),
        Operation::Ping => Ok(Reply::Pong),
        Operation::GetPublicKey => match keys {
            Some(keys) => Ok(Reply::Data(engine.get_public_key(keys))),
            None => Err(SignerError::NoActiveKey),
        },
        Operation::SignEvent { event } => match keys {
            Some(keys) => reply_with(engine.sign_event(keys, event, now)),
            None => Err(SignerError::NoActiveKey),
        },
        Operation::Nip04Encrypt { peer, plaintext } => match keys {
            Some(keys) => reply_with(engine.nip04_encrypt(keys, peer.as_str(), plaintext.as_str())),
            None => Err(SignerError::NoActiveKey),
        },
        Operation::Nip04Decrypt { peer, ciphertext } => match keys {
            Some(keys) => reply_with(engine.nip04_decrypt(keys, peer.as_str(), ciphertext.as_str())),
            None => Err(SignerError::NoActiveKey),
        },
        Operation::Nip44Encrypt { peer, plaintext } => match keys {
            Some(keys) => reply_with(engine.nip44_encrypt(keys, peer.as_str(), plaintext.as_str())),
            None => Err(SignerError::NoActiveKey),
        },
        Operation::Nip44Decrypt { peer, ciphertext } => match keys {
            Some(keys) => reply_with(engine.nip44_decrypt(keys, peer.as_str(), ciphertext.as_str())),
            None => Err(SignerError::NoActiveKey),
        },
        Operation::DecryptZapEvent { event_json } => match keys {
            Some(keys) => reply_with(engine.decrypt_zap_event(keys, event_json.as_str())),
            None => Err(SignerError::NoActiveKey),
        },
    }
}

/// The verdict of the gates on a request; a request that is invalid does
/// not get to them.
pub open spec fn request_verdict(
    transport: Transport,
    method: Seq<char>,
    first: Option<Seq<char>>,
    second: Option<Seq<char>>,
    config: Config,
    limiter: RateLimiter,
    sender: Seq<char>,
    now: u64,
) -> Verdict {
    match parsed(transport, method, first, second) {
        Ok(op) => op_verdict(op, config, op_record(op, limiter, sender), limiter.limit(), sender, now),
        Err(_) => Verdict::Allowed,
    }
}

/// What a request does to the limiter; an invalid request does nothing.
pub open spec fn request_limiter_effect(
    transport: Transport,
    method: Seq<char>,
    first: Option<Seq<char>>,
    second: Option<Seq<char>>,
    config: Config,
    before: RateLimiter,
    after: RateLimiter,
    sender: Seq<char>,
    now: u64,
) -> bool {
    match parsed(transport, method, first, second) {
        Ok(op) => op_limiter_effect(
            op,
            config,
            before,
            after,
            sender,
            now,
            request_verdict(transport, method, first, second, config, before, sender, now),
        ),
        Err(_) => after == before,
    }
}

/// What is known of the outcome of a request.
///
/// An invalid request fails with the reason, a refused one with the
/// refusal. What the gates let through is performed, with the active keys
/// if there are any.
pub open spec fn decided(
    outcome: Result<Reply>,
    transport: Transport,
    sender: Seq<char>,
    method: Seq<char>,
    first: Option<Seq<char>>,
    second: Option<Seq<char>>,
    v: Verdict,
    keys: Option<Keys>,
    now_secs: u64,
) -> bool {
    match parsed(transport, method, first, second) {
        Err(reason) => outcome matches Err(e) && e is InvalidRequest && e.text() == "Invalid request: "@
            + reason,
        Ok(intended) => if v != Verdict::Allowed {
            &&& outcome matches Err(e)
            &&& e.text() == refusal_text(v, sender, method)
            &&& v is NotAuthorized ==> e is NotAuthorized
            &&& v is PermissionDenied ==> e is PermissionDenied
            &&& v is RateLimited ==> e is RateLimited
        } else {
            exists|op: Operation| op@ == intended && #[trigger] performed(op, keys, now_secs, outcome)
        },
    }
}

/// Decides on a request of `sender` and, where the gates allow it, does
/// the work.
///
/// `keys` are the active keys, if the signer has any at hand.
/// `now_millis` is the time on the limiter's clock, `now_secs` the time of
/// day in seconds since the Unix epoch.
pub fn decide(
    transport: Transport,
    req: &WireRequest,
    sender: &str,
    engine: &SigningEngine,
    keys: Option<&Keys>,
    config: &Config,
    limiter: &mut RateLimiter,
    now_millis: u64,
    now_secs: u64,
) -> (outcome: Result<Reply>)
    ensures
        decided(
            outcome,
            transport,
            sender@,
            req.method@,
            opt_text(req.first),
            opt_text(req.second),
            request_verdict(
                transport,
                req.method@,
                opt_text(req.first),
                opt_text(req.second),
                *config,
                *old(limiter),
                sender@,
                now_millis,
            ),
            held(keys),
            now_secs,
        ),
        request_limiter_effect(
            transport,
            req.method@,
            opt_text(req.first),
            opt_text(req.second),
            *config,
            *old(limiter),
            *final(limiter),
            sender@,
            now_millis,
        ),
{
    let op = match Operation::parse(transport, req) {
        Ok(op) => op,
        Err(e) => {
            return Err(e);
        },
    };
    let v = gate(&op, config, limiter, sender, now_millis);
    match refusal(v, sender, req.method.as_str()) {
        Some(e) => {
            return Err(e);
        },
        None => {},
    }
    let outcome = perform(&op, engine, keys, now_secs);
    assert(performed(op, held(keys), now_secs, outcome));
    outcome
}

/// The result of an operation as it goes over the wire: the public key in
/// its npub form, the signed event as it stands, a ciphertext or a
/// plaintext as a JSON string.
pub open spec fn wire_result(data: SigningResultData) -> Seq<char> {
    match data {
        SigningResultData::PublicKey { npub, hex } => json_quoted(npub@),
        SigningResultData::Event { event_json, signature } => event_json@,
        SigningResultData::Encrypted { ciphertext } => json_quoted(ciphertext@),
        SigningResultData::Decrypted { plaintext } => json_quoted(plaintext@),
    }
}

/// A reply as it goes over the wire.
pub open spec fn wire_reply(reply: Reply) -> Seq<char> {
    match reply {
        Reply::Ack => json_quoted("ack"@),
        Reply::Pong => json_quoted("pong"@),
        Reply::Data(data) => wire_result(data),
    }
}

/// Writes a reply as it goes over the wire.
pub fn write_wire_reply(reply: &Reply) -> (text: String)
    ensures
        text@ == wire_reply(*reply),
{
    match reply {
        Reply::Ack => json::quote("ack"),
        Reply::Pong => json::quote("pong"),
        Reply::Data(data) => match data {
            SigningResultData::PublicKey { npub, .. } => json::quote(npub.as_str()),
            SigningResultData::Event { event_json, .. } => event_json.clone(),
            SigningResultData::Encrypted { ciphertext } => json::quote(ciphertext.as_str()),
            SigningResultData::Decrypted { plaintext } => json::quote(plaintext.as_str()),
        },
    }
}

/// The answer to a request: the identifier it came with, and either a
/// result, which is JSON text already, or the message of an error.
pub open spec fn envelope(id: Seq<char>, outcome: core::result::Result<Seq<char>, Seq<char>>) -> Seq<char> {
    match outcome {
        Ok(result) => json::object(seq![("id"@, json_quoted(id)), ("result"@, result)]),
        Err(message) => json::object(seq![("id"@, json_quoted(id)), ("error"@, json_quoted(message))]),
    }
}

/// The outcome of a request as its answer carries it.
pub open spec fn wire_outcome(outcome: Result<Reply>) -> core::result::Result<Seq<char>, Seq<char>> {
    match outcome {
        Ok(reply) => Ok(wire_reply(reply)),
        Err(e) => Err(e.text()),
    }
}

/// Writes the answer to a request.
pub fn write_answer(id: &str, outcome: &Result<Reply>) -> (text: String)
    ensures
        text@ == envelope(id@, wire_outcome(*outcome)),
{
    let mut fields: Vec<(String, String)> = Vec::new();
    fields.push((owned("id"), json::quote(id)));
    match outcome {
        Ok(reply) => {
            fields.push((owned("result"), write_wire_reply(reply)));
            assert(json::pairs_view(fields@) =~= seq![("id"@, json_quoted(id@)), ("result"@, wire_reply(*reply))]);
        },
        Err(e) => {
            fields.push((owned("error"), json::quote(e.message().as_str())));
            assert(json::pairs_view(fields@) =~= seq![("id"@, json_quoted(id@)), ("error"@, json_quoted(e.text()))]);
        },
    }
    json::write_object(&fields)
}

/// Whether `text` answers a request: it is the envelope, under the
/// request's identifier, of an outcome that the request was decided with.
///
/// So an invalid request is answered with the reason, a refused one with
/// the refusal, the handshake with `"ack"` and the probe with `"pong"`;
/// work that needs keys is answered with an error where there are none,
/// and otherwise with what the keys made of it.
pub open spec fn answered(
    text: Seq<char>,
    transport: Transport,
    sender: Seq<char>,
    id: Seq<char>,
    method: Seq<char>,
    first: Option<Seq<char>>,
    second: Option<Seq<char>>,
    v: Verdict,
    keys: Option<Keys>,
    now_secs: u64,
) -> bool {
    exists|outcome: Result<Reply>| #[trigger]
        decided(outcome, transport, sender, method, first, second, v, keys, now_secs) && text == envelope(
            id,
            wire_outcome(outcome),
        )
}

/// Answers a request of `sender` that came over a relay: decides on it
/// and writes the answer.
pub fn dispatch(
    transport: Transport,
    req: &WireRequest,
    sender: &str,
    engine: &SigningEngine,
    keys: Option<&Keys>,
    config: &Config,
    limiter: &mut RateLimiter,
    now_millis: u64,
    now_secs: u64,
) -> (text: String)
    ensures
        answered(
            text@,
            transport,
            sender@,
            req.id@,
            req.method@,
            opt_text(req.first),
            opt_text(req.second),
            request_verdict(
                transport,
                req.method@,
                opt_text(req.first),
                opt_text(req.second),
                *config,
                *old(limiter),
                sender@,
                now_millis,
            ),
            held(keys),
            now_secs,
        ),
        request_limiter_effect(
            transport,
            req.method@,
            opt_text(req.first),
            opt_text(req.second),
            *config,
            *old(limiter),
            *final(limiter),
            sender@,
            now_millis,
        ),
{
    let outcome = decide(transport, req, sender, engine, keys, config, limiter, now_millis, now_secs);
    write_answer(req.id.as_str(), &outcome)
}

/// A request that names no method of the transport is answered with an
/// error that carries the request's identifier and quotes the name.
pub proof fn lemma_unknown_method_answered(
    text: Seq<char>,
    transport: Transport,
    sender: Seq<char>,
    id: Seq<char>,
    method: Seq<char>,
    first: Option<Seq<char>>,
    second: Option<Seq<char>>,
    v: Verdict,
    keys: Option<Keys>,
    now_secs: u64,
)
    requires
        is_unknown(transport, method),
        answered(text, transport, sender, id, method, first, second, v, keys, now_secs),
    ensures
        text == envelope(id, Err("Invalid request: Unknown method: "@ + method)),
{
    assert("Invalid request: "@ + ("Unknown method: "@ + method) =~= "Invalid request: Unknown method: "@ + method) by {
        reveal_strlit("Invalid request: ");
        reveal_strlit("Unknown method: ");
        reveal_strlit("Invalid request: Unknown method: ");
    }
}

/// A request that the gates refuse is answered with an error that carries
/// the request's identifier and says which gate refused; it is never
/// passed over in silence.
pub proof fn lemma_denied_is_answered(
    text: Seq<char>,
    transport: Transport,
    sender: Seq<char>,
    id: Seq<char>,
    method: Seq<char>,
    first: Option<Seq<char>>,
    second: Option<Seq<char>>,
    v: Verdict,
    keys: Option<Keys>,
    now_secs: u64,
)
    requires
        parsed(transport, method, first, second) is Ok,
        v != Verdict::Allowed,
        answered(text, transport, sender, id, method, first, second, v, keys, now_secs),
    ensures
        text == envelope(id, Err(refusal_text(v, sender, method))),
        v is PermissionDenied ==> text == envelope(id, Err("Permission denied: "@ + method)),
{
}

/// Every request that was read is answered: with a result or an error,
/// under the identifier it came with.
pub proof fn lemma_always_answered(
    text: Seq<char>,
    transport: Transport,
    sender: Seq<char>,
    id: Seq<char>,
    method: Seq<char>,
    first: Option<Seq<char>>,
    second: Option<Seq<char>>,
    v: Verdict,
    keys: Option<Keys>,
    now_secs: u64,
)
    requires
        answered(text, transport, sender, id, method, first, second, v, keys, now_secs),
    ensures
        exists|outcome: core::result::Result<Seq<char>, Seq<char>>| text == #[trigger] envelope(id, outcome),
{
    let outcome = choose|outcome: Result<Reply>| #[trigger]
        decided(outcome, transport, sender, method, first, second, v, keys, now_secs) && text == envelope(
            id,
            wire_outcome(outcome),
        );
    assert(text == envelope(id, wire_outcome(outcome)));
}

/// Work that needs keys is answered with an error while none are at hand.
pub proof fn lemma_keys_are_needed(
    text: Seq<char>,
    transport: Transport,
    sender: Seq<char>,
    id: Seq<char>,
    method: Seq<char>,
    first: Option<Seq<char>>,
    second: Option<Seq<char>>,
    now_secs: u64,
)
    requires
        parsed(transport, method, first, second) matches Ok(op) && op.request_type() is Some,
        answered(text, transport, sender, id, method, first, second, Verdict::Allowed, None, now_secs),
    ensures
        text == envelope(id, Err("No active key"@)),
{
}

/// The probe is answered with `"pong"` wherever the settings let it pass
/// without authorization, whoever asks and whatever is on record.
pub proof fn lemma_ping_pongs(
    text: Seq<char>,
    transport: Transport,
    id: Seq<char>,
    first: Option<Seq<char>>,
    second: Option<Seq<char>>,
    config: Config,
    limiter: RateLimiter,
    sender: Seq<char>,
    now: u64,
    keys: Option<Keys>,
    now_secs: u64,
)
    requires
        config.security.ping_without_authorization,
        answered(
            text,
            transport,
            sender,
            id,
            "ping"@,
            first,
            second,
            request_verdict(transport, "ping"@, first, second, config, limiter, sender, now),
            keys,
            now_secs,
        ),
    ensures
        text == envelope(id, Ok(json_quoted("pong"@))),
{
    reveal_strlit("ping");
    reveal_strlit("connect");
    assert("ping"@.len() == 4 && "connect"@.len() == 7);
    assert(parsed(transport, "ping"@, first, second) == Ok::<OperationView, Seq<char>>(OperationView::Ping));
}

} // verus!
