//! The signing engine: the four operations on the active key.

use vstd::prelude::*;
use vstd::string::*;
use nostr::{Keys, Tag};
use crate::error::{Result, SignerError};
use crate::json;
use crate::json::{json_present, json_string, json_string_lists, json_unsigned, json_valid};
use crate::permissions::RequestType;
use crate::primitives;
use crate::primitives::{
    event_body, event_first_key, event_read, is_key_hex, keys_public_hex, keys_public_npub, nip04_opened,
    nip44_opened, public_key_read, tag_fields,
};
use crate::text::str_eq;
use crate::text::owned;
use crate::time::Timestamp;

verus! {

/// Data for an unsigned event
#[derive(Debug, Clone)]
pub struct UnsignedEventData {
    pub kind: u16,
    pub content: String,
    pub tags: Vec<Vec<String>>,
    pub created_at: Option<u64>,
}

/// The description of an event, with its texts as sequences of characters.
pub struct EventView {
    pub kind: u16,
    pub content: Seq<char>,
    pub tags: Seq<Seq<Seq<char>>>,
    pub created_at: Option<u64>,
}

impl View for UnsignedEventData {
    type V = EventView;

    open spec fn view(&self) -> EventView {
        EventView {
            kind: self.kind,
            content: self.content@,
            tags: self.tags.deep_view(),
            created_at: self.created_at,
        }
    }
}

/// Payload for signing requests
#[derive(Debug, Clone)]
pub enum SigningPayload {
    /// Empty payload (for get_public_key)
    Empty,
    /// Event to sign
    Event(UnsignedEventData),
    /// Data to encrypt
    Encrypt { plaintext: String, recipient_pubkey: String },
    /// Data to decrypt
    Decrypt { ciphertext: String, sender_pubkey: String },
    /// Zap event to decrypt
    ZapEvent(String),
}

/// A signing request
#[derive(Debug, Clone)]
pub struct SigningRequest {
    /// Unique request ID
    pub id: String,
    /// Type of request
    pub request_type: RequestType,
    /// Requesting application ID
    pub app_id: String,
    /// Requesting application name (if known)
    pub app_name: Option<String>,
    /// Specific key to use (if any)
    pub key_id: Option<String>,
    /// Request payload
    pub payload: SigningPayload,
    /// When the request was made
    pub timestamp: Timestamp,
}

/// Result data from signing operations
#[derive(Debug, Clone)]
pub enum SigningResultData {
    /// Public key result
    PublicKey { npub: String, hex: String },
    /// Signed event
    Event { event_json: String, signature: String },
    /// Encrypted data
    Encrypted { ciphertext: String },
    /// Decrypted data
    Decrypted { plaintext: String },
}

/// Result of a signing operation
#[derive(Debug, Clone)]
pub struct SigningResult {
    pub request_id: String,
    pub approved: bool,
    pub result: Option<SigningResultData>,
    pub error: Option<String>,
}

/// The largest event kind the protocol knows.
pub const MAX_KIND: u64 = 65_535;

/// Whether `text` describes an event that can be signed: it is JSON, its
/// kind is a number within the protocol's range, and its tags, if it has
/// any, are lists of strings.
pub open spec fn describes_event(text: Seq<char>) -> bool {
    &&& json_valid(text)
    &&& json_unsigned(text, "/kind"@) matches Some(kind)
    &&& kind <= MAX_KIND
    &&& json_present(text, "/tags"@) ==> json_string_lists(text, "/tags"@) is Some
}

/// The content of the event that `text` describes: empty unless it holds a
/// string.
pub open spec fn described_content(text: Seq<char>) -> Seq<char> {
    match json_string(text, "/content"@) {
        Some(content) => content,
        None => Seq::empty(),
    }
}

/// The tags of the event that `text` describes: none unless it holds some.
pub open spec fn described_tags(text: Seq<char>) -> Seq<Seq<Seq<char>>> {
    if json_present(text, "/tags"@) {
        json_string_lists(text, "/tags"@)->0
    } else {
        Seq::empty()
    }
}

/// The event that `text` describes: its kind as written, its content and
/// tags if it has them, and its date if it carries one.
pub open spec fn described_event(text: Seq<char>) -> EventView {
    EventView {
        kind: json_unsigned(text, "/kind"@)->0 as u16,
        content: described_content(text),
        tags: described_tags(text),
        created_at: json_unsigned(text, "/created_at"@),
    }
}

impl UnsignedEventData {
    /// Reads the description of an event from JSON text. A text that
    /// [`describes_event`] does not accept is refused as an invalid request.
    pub fn from_json(text: &str) -> (r: Result<UnsignedEventData>)
        ensures
            match r {
                Ok(event) => describes_event(text@) && event@ == described_event(text@),
                Err(e) => !describes_event(text@) && e is InvalidRequest,
            },
    {
        if !json::is_valid(text) {
            return Err(SignerError::InvalidRequest(owned("event is not JSON")));
        }
        let kind: u16 = match json::unsigned_at(text, "/kind") {
            Some(k) => {
                if k > MAX_KIND {
                    return Err(SignerError::InvalidRequest(owned("event kind is out of range")));
                }
                k as u16
            },
            None => {
                return Err(SignerError::InvalidRequest(owned("event kind is missing")));
            },
        };
        let content = match json::string_at(text, "/content") {
            Some(c) => c,
            None => String::new(),
        };
        let tags: Vec<Vec<String>> = if json::is_present(text, "/tags") {
            match json::string_lists_at(text, "/tags") {
                Some(lists) => lists,
                None => {
                    return Err(SignerError::InvalidRequest(owned("event tags are not lists of strings")));
                },
            }
        } else {
            let none: Vec<Vec<String>> = Vec::new();
            assert(none.deep_view() == Seq::<Seq<Seq<char>>>::empty());
            none
        };
        let created_at = json::unsigned_at(text, "/created_at");
        Ok(UnsignedEventData { kind, content, tags, created_at })
    }
}

impl SigningResultData {
    /// The result as JSON text: an object that names its variant under
    /// `type` and holds the variant's fields as strings.
    pub open spec fn json(self) -> Seq<char> {
        match self {
            SigningResultData::PublicKey { npub, hex } => json::object(
                seq![
                    ("type"@, json::json_quoted("public_key"@)),
                    ("npub"@, json::json_quoted(npub@)),
                    ("hex"@, json::json_quoted(hex@)),
                ],
            ),
            SigningResultData::Event { event_json, signature } => json::object(
                seq![
                    ("type"@, json::json_quoted("event"@)),
                    ("event_json"@, json::json_quoted(event_json@)),
                    ("signature"@, json::json_quoted(signature@)),
                ],
            ),
            SigningResultData::Encrypted { ciphertext } => json::object(
                seq![
                    ("type"@, json::json_quoted("encrypted"@)),
                    ("ciphertext"@, json::json_quoted(ciphertext@)),
                ],
            ),
            SigningResultData::Decrypted { plaintext } => json::object(
                seq![
                    ("type"@, json::json_quoted("decrypted"@)),
                    ("plaintext"@, json::json_quoted(plaintext@)),
                ],
            ),
        }
    }

    /// Writes the result as JSON text.
    pub fn to_json(&self) -> (text: String)
        ensures
            text@ == self.json(),
    {
        let mut fields: Vec<(String, String)> = Vec::new();
        match self {
            SigningResultData::PublicKey { npub, hex } => {
                fields.push((owned("type"), json::quote("public_key")));
                fields.push((owned("npub"), json::quote(npub.as_str())));
                fields.push((owned("hex"), json::quote(hex.as_str())));
            },
            SigningResultData::Event { event_json, signature } => {
                fields.push((owned("type"), json::quote("event")));
                fields.push((owned("event_json"), json::quote(event_json.as_str())));
                fields.push((owned("signature"), json::quote(signature.as_str())));
            },
            SigningResultData::Encrypted { ciphertext } => {
                fields.push((owned("type"), json::quote("encrypted")));
                fields.push((owned("ciphertext"), json::quote(ciphertext.as_str())));
            },
            SigningResultData::Decrypted { plaintext } => {
                fields.push((owned("type"), json::quote("decrypted")));
                fields.push((owned("plaintext"), json::quote(plaintext.as_str())));
            },
        }
        proof {
            assert(json::pairs_view(fields@) =~= match *self {
                SigningResultData::PublicKey { npub, hex } => seq![
                    ("type"@, json::json_quoted("public_key"@)),
                    ("npub"@, json::json_quoted(npub@)),
                    ("hex"@, json::json_quoted(hex@)),
                ],
                SigningResultData::Event { event_json, signature } => seq![
                    ("type"@, json::json_quoted("event"@)),
                    ("event_json"@, json::json_quoted(event_json@)),
                    ("signature"@, json::json_quoted(signature@)),
                ],
                SigningResultData::Encrypted { ciphertext } => seq![
                    ("type"@, json::json_quoted("encrypted"@)),
                    ("ciphertext"@, json::json_quoted(ciphertext@)),
                ],
                SigningResultData::Decrypted { plaintext } => seq![
                    ("type"@, json::json_quoted("decrypted"@)),
                    ("plaintext"@, json::json_quoted(plaintext@)),
                ],
            });
        }
        json::write_object(&fields)
    }
}

/// The tags of `tags` that are not empty, in their order: the ones that go
/// into a signed event.
pub open spec fn signable_tags(tags: Seq<Seq<Seq<char>>>) -> Seq<Seq<Seq<char>>> {
    tags.filter(|t: Seq<Seq<char>>| has_fields(t))
}

/// Whether a tag holds at least one string.
pub open spec fn has_fields(tag: Seq<Seq<char>>) -> bool {
    tag.len() > 0
}

/// What an encryption amounts to: a ciphertext that opens to the
/// plaintext again, or an encryption error. `opened` says what a
/// ciphertext opens to.
pub open spec fn closes(
    plaintext: Seq<char>,
    opened: spec_fn(Seq<char>) -> Option<Seq<char>>,
    r: Result<SigningResultData>,
) -> bool {
    match r {
        Ok(data) => data matches SigningResultData::Encrypted { ciphertext } && opened(ciphertext@) == Some(
            plaintext,
        ),
        Err(e) => e is EncryptionError,
    }
}

/// What becomes of a request to encrypt, in the older scheme, to
/// `recipient`: refused as invalid when the recipient is no public key;
/// otherwise a ciphertext that opens to the plaintext again, or an
/// encryption error.
pub open spec fn nip04_encrypt_outcome(
    keys: Keys,
    recipient: Seq<char>,
    plaintext: Seq<char>,
    r: Result<SigningResultData>,
) -> bool {
    match public_key_read(recipient) {
        Some(peer) => closes(plaintext, |c: Seq<char>| nip04_opened(keys, peer, c), r),
        None => r matches Err(e) && e is InvalidRequest,
    }
}

/// What becomes of a request to encrypt, in the newer scheme, to
/// `recipient`: refused as invalid when the recipient is no public key;
/// otherwise a ciphertext that opens to the plaintext again, or an
/// encryption error.
pub open spec fn nip44_encrypt_outcome(
    keys: Keys,
    recipient: Seq<char>,
    plaintext: Seq<char>,
    r: Result<SigningResultData>,
) -> bool {
    match public_key_read(recipient) {
        Some(peer) => closes(plaintext, |c: Seq<char>| nip44_opened(keys, peer, c), r),
        None => r matches Err(e) && e is InvalidRequest,
    }
}

/// What a decryption amounts to: the plaintext that the ciphertext opens
/// to, or a decryption error where it opens to nothing.
pub open spec fn opens_to(opened: Option<Seq<char>>, r: Result<SigningResultData>) -> bool {
    match opened {
        Some(text) => r matches Ok(SigningResultData::Decrypted { plaintext }) && plaintext@ == text,
        None => r matches Err(e) && e is DecryptionError,
    }
}

/// What becomes of a request to decrypt, in the older scheme, what `sender`
/// sent to `keys`: refused as invalid when the sender is no public key;
/// otherwise the plaintext, or a decryption error.
pub open spec fn nip04_decrypt_outcome(
    keys: Keys,
    sender: Seq<char>,
    ciphertext: Seq<char>,
    r: Result<SigningResultData>,
) -> bool {
    match public_key_read(sender) {
        Some(peer) => opens_to(nip04_opened(keys, peer, ciphertext), r),
        None => r matches Err(e) && e is InvalidRequest,
    }
}

/// What becomes of a request to decrypt, in the newer scheme, what `sender`
/// sent to `keys`: refused as invalid when the sender is no public key;
/// otherwise the plaintext, or a decryption error.
pub open spec fn nip44_decrypt_outcome(
    keys: Keys,
    sender: Seq<char>,
    ciphertext: Seq<char>,
    r: Result<SigningResultData>,
) -> bool {
    match public_key_read(sender) {
        Some(peer) => opens_to(nip44_opened(keys, peer, ciphertext), r),
        None => r matches Err(e) && e is InvalidRequest,
    }
}

/// What becomes of a request to decrypt a zap event for `keys`: refused as
/// invalid when the text is no signed event, or when no tag of the event
/// names a public key; otherwise the plaintext of the event's content, as
/// sent by the first key so named, or a decryption error.
pub open spec fn zap_outcome(keys: Keys, event_json: Seq<char>, r: Result<SigningResultData>) -> bool {
    match event_read(event_json) {
        Some(event) => match event_first_key(event) {
            Some(sender) => opens_to(nip04_opened(keys, sender, event_body(event)), r),
            None => r matches Err(e) && e is InvalidRequest,
        },
        None => r matches Err(e) && e is InvalidRequest,
    }
}

/// What the engine encrypts in the older scheme, it opens again: a
/// ciphertext made with `keys` for `peer` decrypts, with the same keys and
/// peer, to exactly the plaintext.
pub proof fn lemma_nip04_round_trip(
    keys: Keys,
    peer: Seq<char>,
    plaintext: Seq<char>,
    sealed: Result<SigningResultData>,
    unsealed: Result<SigningResultData>,
)
    requires
        nip04_encrypt_outcome(keys, peer, plaintext, sealed),
        sealed matches Ok(SigningResultData::Encrypted { ciphertext }) && nip04_decrypt_outcome(
            keys,
            peer,
            ciphertext@,
            unsealed,
        ),
    ensures
        unsealed matches Ok(SigningResultData::Decrypted { plaintext: text }) && text@ == plaintext,
{
}

/// What the engine encrypts in the newer scheme, it opens again: a
/// ciphertext made with `keys` for `peer` decrypts, with the same keys and
/// peer, to exactly the plaintext.
pub proof fn lemma_nip44_round_trip(
    keys: Keys,
    peer: Seq<char>,
    plaintext: Seq<char>,
    sealed: Result<SigningResultData>,
    unsealed: Result<SigningResultData>,
)
    requires
        nip44_encrypt_outcome(keys, peer, plaintext, sealed),
        sealed matches Ok(SigningResultData::Encrypted { ciphertext }) && nip44_decrypt_outcome(
            keys,
            peer,
            ciphertext@,
            unsealed,
        ),
    ensures
        unsealed matches Ok(SigningResultData::Decrypted { plaintext: text }) && text@ == plaintext,
{
}

/// What an encryption amounts to: the ciphertext as it came, or an
/// encryption error with the reason as it came.
pub fn encrypted(outcome: core::result::Result<String, String>) -> (r: Result<SigningResultData>)
    ensures
        match outcome {
            Ok(text) => r matches Ok(SigningResultData::Encrypted { ciphertext }) && ciphertext == text,
            Err(reason) => r matches Err(SignerError::EncryptionError(m)) && m == reason,
        },
{
    match outcome {
        Ok(ciphertext) => Ok(SigningResultData::Encrypted { ciphertext }),
        Err(reason) => Err(SignerError::EncryptionError(reason)),
    }
}

/// What a decryption amounts to: the plaintext as it came, or a
/// decryption error with the reason as it came.
pub fn decrypted(outcome: core::result::Result<String, String>) -> (r: Result<SigningResultData>)
    ensures
        match outcome {
            Ok(text) => r matches Ok(SigningResultData::Decrypted { plaintext }) && plaintext == text,
            Err(reason) => r matches Err(SignerError::DecryptionError(m)) && m == reason,
        },
{
    match outcome {
        Ok(plaintext) => Ok(SigningResultData::Decrypted { plaintext }),
        Err(reason) => Err(SignerError::DecryptionError(reason)),
    }
}

/// What a signing amounts to: the event as JSON with its signature, as
/// they came, or a protocol error with the reason as it came.
pub fn signed(outcome: core::result::Result<(String, String), String>) -> (r: Result<SigningResultData>)
    ensures
        match outcome {
            Ok((json, sig)) => r matches Ok(SigningResultData::Event { event_json, signature }) && event_json
                == json && signature == sig,
            Err(reason) => r matches Err(SignerError::NostrError(m)) && m == reason,
        },
{
    match outcome {
        Ok((event_json, signature)) => Ok(SigningResultData::Event { event_json, signature }),
        Err(reason) => Err(SignerError::NostrError(reason)),
    }
}

/// The date an event is signed under: its own if it carries one, and
/// otherwise `now`.
pub open spec fn dated(event: EventView, now: u64) -> u64 {
    match event.created_at {
        Some(t) => t,
        None => now,
    }
}

/// What goes to the signing: kind, content, tags and date.
pub struct Draft {
    pub kind: u16,
    pub content: String,
    pub tags: Vec<Tag>,
    pub created_at: u64,
}

/// A draft, with its texts as sequences of characters.
pub struct DraftView {
    pub kind: u16,
    pub content: Seq<char>,
    pub tags: Seq<Seq<Seq<char>>>,
    pub created_at: u64,
}

/// The strings of each tag.
pub open spec fn fields_of(tags: Seq<Tag>) -> Seq<Seq<Seq<char>>> {
    tags.map_values(|t: Tag| tag_fields(t))
}

impl View for Draft {
    type V = DraftView;

    open spec fn view(&self) -> DraftView {
        DraftView {
            kind: self.kind,
            content: self.content@,
            tags: fields_of(self.tags@),
            created_at: self.created_at,
        }
    }
}

/// The draft of an event: its kind and content, its tags without the empty
/// ones, in their order, and its date or `now`.
pub open spec fn drafted(event: EventView, now: u64) -> DraftView {
    DraftView {
        kind: event.kind,
        content: event.content,
        tags: signable_tags(event.tags),
        created_at: dated(event, now),
    }
}

/// Whether a signed event, written as JSON, carries what was asked for and
/// nothing else: the signer's public key, the kind and the content of
/// `event`, its date or `now`, the tags asked for that are not empty, in
/// their order and each as it was given, and under `sig` the signature
/// that goes with it.
pub open spec fn carries(
    event_json: Seq<char>,
    signature: Seq<char>,
    event: EventView,
    now: u64,
    signer: Seq<char>,
) -> bool {
    &&& json_string(event_json, "/pubkey"@) == Some(signer)
    &&& json_unsigned(event_json, "/kind"@) == Some(event.kind as u64)
    &&& json_string(event_json, "/content"@) == Some(event.content)
    &&& json_unsigned(event_json, "/created_at"@) == Some(dated(event, now))
    &&& json_string(event_json, "/sig"@) == Some(signature)
    &&& json_string_lists(event_json, "/tags"@) == Some(signable_tags(event.tags))
}

/// A copy of a list of strings.
fn copy_strings(list: &Vec<String>) -> (copy: Vec<String>)
    ensures
        copy.deep_view() == list.deep_view(),
{
    let mut copy: Vec<String> = Vec::new();
    let mut i: usize = 0;
    while i < list.len()
        invariant
            i <= list@.len(),
            copy@.len() == i,
            forall|j: int| 0 <= j < i ==> copy@[j]@ == list@[j]@,
        decreases list@.len() - i,
    {
        copy.push(list[i].clone());
        i += 1;
    }
    assert(copy.deep_view() =~= list.deep_view()) by {
        assert(copy.deep_view().len() == list.deep_view().len());
        assert forall|j: int| 0 <= j < copy@.len() implies copy.deep_view()[j] == list.deep_view()[j] by {
            assert(copy.deep_view()[j] == copy@[j]@);
            assert(list.deep_view()[j] == list@[j]@);
        }
    }
    copy
}

/// Whether two lists hold the same strings.
fn same_strings(a: &Vec<String>, b: &Vec<String>) -> (same: bool)
    ensures
        same == (a.deep_view() == b.deep_view()),
{
    if a.len() != b.len() {
        assert(a.deep_view().len() != b.deep_view().len());
        return false;
    }
    let mut i: usize = 0;
    while i < a.len()
        invariant
            i <= a@.len(),
            a@.len() == b@.len(),
            forall|j: int| 0 <= j < i ==> a.deep_view()[j] == b.deep_view()[j],
        decreases a@.len() - i,
    {
        proof {
            assert(a.deep_view()[i as int] == a@[i as int]@);
            assert(b.deep_view()[i as int] == b@[i as int]@);
        }
        if !str_eq(a[i].as_str(), b[i].as_str()) {
            return false;
        }
        i += 1;
    }
    assert(a.deep_view() =~= b.deep_view());
    true
}

/// Whether two lists hold the same lists of strings.
fn same_lists(a: &Vec<Vec<String>>, b: &Vec<Vec<String>>) -> (same: bool)
    ensures
        same == (a.deep_view() == b.deep_view()),
{
    if a.len() != b.len() {
        assert(a.deep_view().len() != b.deep_view().len());
        return false;
    }
    let mut i: usize = 0;
    while i < a.len()
        invariant
            i <= a@.len(),
            a@.len() == b@.len(),
            forall|j: int| 0 <= j < i ==> a.deep_view()[j] == b.deep_view()[j],
        decreases a@.len() - i,
    {
        proof {
            assert(a.deep_view()[i as int] == a@[i as int].deep_view());
            assert(b.deep_view()[i as int] == b@[i as int].deep_view());
        }
        if !same_strings(&a[i], &b[i]) {
            return false;
        }
        i += 1;
    }
    assert(a.deep_view() =~= b.deep_view());
    true
}

/// The tags that go into a signed event.
fn tags_to_sign(asked: &Vec<Vec<String>>) -> (kept: Vec<Vec<String>>)
    ensures
        kept.deep_view() == signable_tags(asked.deep_view()),
{
    let ghost all = asked.deep_view();
    let mut kept: Vec<Vec<String>> = Vec::new();
    let mut i: usize = 0;
    proof {
        reveal(Seq::filter);
        assert(all.take(0) == Seq::<Seq<Seq<char>>>::empty());
        assert(kept.deep_view() =~= signable_tags(all.take(0)));
    }
    while i < asked.len()
        invariant
            i <= asked@.len(),
            all == asked.deep_view(),
            all.len() == asked@.len(),
            kept.deep_view() == signable_tags(all.take(i as int)),
        decreases asked@.len() - i,
    {
        let tag = &asked[i];
        proof {
            assert(all.take(i + 1) == all.take(i as int).push(all[i as int]));
            all.take(i as int).lemma_filter_push(all[i as int], |t: Seq<Seq<char>>| has_fields(t));
            assert(all[i as int] == tag.deep_view());
            assert(tag.deep_view().len() == tag@.len());
        }
        if tag.len() > 0 {
            let ghost before = kept.deep_view();
            let copy = copy_strings(tag);
            kept.push(copy);
            assert(kept.deep_view() =~= before.push(tag.deep_view())) by {
                assert(kept.deep_view().len() == before.len() + 1);
                assert forall|j: int| 0 <= j < kept@.len() implies kept.deep_view()[j] == before.push(
                    tag.deep_view(),
                )[j] by {
                    assert(kept.deep_view()[j] == kept@[j].deep_view());
                }
            }
        }
        i += 1;
    }
    proof {
        assert(all.take(asked@.len() as int) == all);
    }
    kept
}

/// Reads a signed event back and compares it with what was asked of the
/// signer whose public key, in hex, is `signer`.
pub fn event_carries(event_json: &str, signature: &str, event: &UnsignedEventData, now: u64, signer: &str) -> (ok:
    bool)
    ensures
        ok == carries(event_json@, signature@, event@, now, signer@),
{
    let date = match event.created_at {
        Some(t) => t,
        None => now,
    };
    match json::string_at(event_json, "/pubkey") {
        Some(pubkey) => {
            if !str_eq(pubkey.as_str(), signer) {
                return false;
            }
        },
        None => {
            return false;
        },
    }
    match json::unsigned_at(event_json, "/kind") {
        Some(kind) => {
            if kind != event.kind as u64 {
                return false;
            }
        },
        None => {
            return false;
        },
    }
    match json::string_at(event_json, "/content") {
        Some(content) => {
            if !str_eq(content.as_str(), event.content.as_str()) {
                return false;
            }
        },
        None => {
            return false;
        },
    }
    match json::unsigned_at(event_json, "/created_at") {
        Some(created_at) => {
            if created_at != date {
                return false;
            }
        },
        None => {
            return false;
        },
    }
    match json::string_at(event_json, "/sig") {
        Some(sig) => {
            if !str_eq(sig.as_str(), signature) {
                return false;
            }
        },
        None => {
            return false;
        },
    }
    match json::string_lists_at(event_json, "/tags") {
        Some(tags) => same_lists(&tags, &tags_to_sign(&event.tags)),
        None => false,
    }
}

/// Makes the tags of an event from lists of strings, each tag with the
/// strings of its list. Empty lists are passed over.
pub fn collect_tags(lists: &Vec<Vec<String>>) -> (tags: Vec<Tag>)
    ensures
        fields_of(tags@) == signable_tags(lists.deep_view()),
{
    let ghost all = lists.deep_view();
    let mut tags: Vec<Tag> = Vec::new();
    let mut i: usize = 0;
    proof {
        reveal(Seq::filter);
        assert(all.take(0) == Seq::<Seq<Seq<char>>>::empty());
        assert(fields_of(tags@) =~= signable_tags(all.take(0)));
    }
    while i < lists.len()
        invariant
            i <= lists@.len(),
            all == lists.deep_view(),
            all.len() == lists@.len(),
            fields_of(tags@) == signable_tags(all.take(i as int)),
        decreases lists@.len() - i,
    {
        proof {
            assert(all.take(i + 1) == all.take(i as int).push(all[i as int]));
            all.take(i as int).lemma_filter_push(all[i as int], |t: Seq<Seq<char>>| has_fields(t));
            assert(all[i as int] == lists@[i as int].deep_view());
            assert(all[i as int].len() == lists@[i as int]@.len());
        }
        if lists[i].len() > 0 {
            let ghost before = tags@;
            match primitives::parse_tag(&lists[i]) {
                Ok(tag) => {
                    tags.push(tag);
                    assert(fields_of(tags@) =~= fields_of(before).push(all[i as int]));
                },
                Err(_) => {
                    // a list that holds a string always makes a tag
                    vstd::pervasive::unreached::<()>();
                },
            }
        }
        i += 1;
    }
    proof {
        assert(all.take(lists@.len() as int) == all);
    }
    tags
}

/// Makes the draft that goes to the signing of an event.
pub fn draft(event: &UnsignedEventData, now: u64) -> (d: Draft)
    ensures
        d@ == drafted(event@, now),
{
    Draft {
        kind: event.kind,
        content: event.content.clone(),
        tags: collect_tags(&event.tags),
        created_at: match event.created_at {
            Some(t) => t,
            None => now,
        },
    }
}

/// Signing engine: performs the operations with keys that the caller has
/// already loaded.
pub struct SigningEngine;

impl SigningEngine {
    /// Create a new signing engine
    pub fn new() -> SigningEngine {
        SigningEngine
    }

    /// Get the public key, in both of its encodings.
    pub fn get_public_key(&self, keys: &Keys) -> (data: SigningResultData)
        ensures
            data matches SigningResultData::PublicKey { npub, hex } && is_key_hex(hex@) && hex@
                == keys_public_hex(*keys) && npub@ == keys_public_npub(*keys),
    {
        SigningResultData::PublicKey { npub: primitives::public_npub(keys), hex: primitives::public_hex(keys) }
    }

    /// Sign an unsigned event from data. The event is dated `now` unless it
    /// carries a date of its own; its empty tags are left out, and every
    /// other tag is signed as it was given.
    ///
    /// What comes back from the signing is read again before it is handed
    /// out: an event that does not carry what was asked for is withheld,
    /// and the signing counts as failed.
    pub fn sign_event(&self, keys: &Keys, event_data: &UnsignedEventData, now: u64) -> (r: Result<
        SigningResultData,
    >)
        ensures
            match r {
                Ok(data) => data matches SigningResultData::Event { event_json, signature } && carries(
                    event_json@,
                    signature@,
                    event_data@,
                    now,
                    keys_public_hex(*keys),
                ),
                Err(e) => e is NostrError,
            },
    {
        let event = match primitives::sign_event(keys, draft(event_data, now)) {
            Ok(event) => event,
            Err(e) => {
                return signed(Err(e.to_string()));
            },
        };
        let event_json = match primitives::event_json(&event) {
            Ok(event_json) => event_json,
            Err(e) => {
                return signed(Err(e.to_string()));
            },
        };
        let signature = primitives::event_signature(&event);
        let signer = primitives::public_hex(keys);
        if !event_carries(event_json.as_str(), signature.as_str(), event_data, now, signer.as_str()) {
            return signed(Err(owned("the signed event does not carry what was asked for")));
        }
        signed(Ok((event_json, signature)))
    }

    /// NIP-04 encrypt. The ciphertext is opened again before it is handed
    /// out: one that does not give the plaintext back is withheld, and
    /// the encryption counts as failed.
    pub fn nip04_encrypt(&self, keys: &Keys, recipient_pubkey: &str, plaintext: &str) -> (r: Result<
        SigningResultData,
    >)
        ensures
            nip04_encrypt_outcome(*keys, recipient_pubkey@, plaintext@, r),
    {
        let peer = match primitives::parse_public_key(recipient_pubkey) {
            Ok(peer) => peer,
            Err(e) => {
                return Err(SignerError::InvalidRequest(e.to_string()));
            },
        };
        let ciphertext = match primitives::nip04_encrypt(keys, &peer, plaintext) {
            Ok(ciphertext) => ciphertext,
            Err(e) => {
                return encrypted(Err(e.to_string()));
            },
        };
        match primitives::nip04_decrypt(keys, &peer, ciphertext.as_str()) {
            Ok(text) => if str_eq(text.as_str(), plaintext) {
                encrypted(Ok(ciphertext))
            } else {
                encrypted(Err(owned("the ciphertext does not open to the plaintext")))
            },
            Err(e) => encrypted(Err(e.to_string())),
        }
    }

    /// NIP-04 decrypt
    pub fn nip04_decrypt(&self, keys: &Keys, sender_pubkey: &str, ciphertext: &str) -> (r: Result<
        SigningResultData,
    >)
        ensures
            nip04_decrypt_outcome(*keys, sender_pubkey@, ciphertext@, r),
    {
        let peer = match primitives::parse_public_key(sender_pubkey) {
            Ok(peer) => peer,
            Err(e) => {
                return Err(SignerError::InvalidRequest(e.to_string()));
            },
        };
        match primitives::nip04_decrypt(keys, &peer, ciphertext) {
            Ok(plaintext) => decrypted(Ok(plaintext)),
            Err(e) => decrypted(Err(e.to_string())),
        }
    }

    /// NIP-44 encrypt. The ciphertext is opened again before it is handed
    /// out: one that does not give the plaintext back is withheld, and
    /// the encryption counts as failed.
    pub fn nip44_encrypt(&self, keys: &Keys, recipient_pubkey: &str, plaintext: &str) -> (r: Result<
        SigningResultData,
    >)
        ensures
            nip44_encrypt_outcome(*keys, recipient_pubkey@, plaintext@, r),
    {
        let peer = match primitives::parse_public_key(recipient_pubkey) {
            Ok(peer) => peer,
            Err(e) => {
                return Err(SignerError::InvalidRequest(e.to_string()));
            },
        };
        let ciphertext = match primitives::nip44_encrypt(keys, &peer, plaintext) {
            Ok(ciphertext) => ciphertext,
            Err(e) => {
                return encrypted(Err(e.to_string()));
            },
        };
        match primitives::nip44_decrypt(keys, &peer, ciphertext.as_str()) {
            Ok(text) => if str_eq(text.as_str(), plaintext) {
                encrypted(Ok(ciphertext))
            } else {
                encrypted(Err(owned("the ciphertext does not open to the plaintext")))
            },
            Err(e) => encrypted(Err(e.to_string())),
        }
    }

    /// NIP-44 decrypt
    pub fn nip44_decrypt(&self, keys: &Keys, sender_pubkey: &str, ciphertext: &str) -> (r: Result<
        SigningResultData,
    >)
        ensures
            nip44_decrypt_outcome(*keys, sender_pubkey@, ciphertext@, r),
    {
        let peer = match primitives::parse_public_key(sender_pubkey) {
            Ok(peer) => peer,
            Err(e) => {
                return Err(SignerError::InvalidRequest(e.to_string()));
            },
        };
        match primitives::nip44_decrypt(keys, &peer, ciphertext) {
            Ok(plaintext) => decrypted(Ok(plaintext)),
            Err(e) => decrypted(Err(e.to_string())),
        }
    }

    /// Decrypt a zap event (NIP-57): the content of a signed event, sent by
    /// the first public key that its tags name.
    pub fn decrypt_zap_event(&self, keys: &Keys, event_json: &str) -> (r: Result<SigningResultData>)
        ensures
            zap_outcome(*keys, event_json@, r),
    {
        let event = match primitives::event_from_json(event_json) {
            Ok(event) => event,
            Err(e) => {
                return Err(SignerError::InvalidRequest(e.to_string()));
            },
        };
        let sender = match primitives::first_tagged_key(&event) {
            Some(sender) => sender,
            None => {
                return Err(SignerError::InvalidRequest(owned("No sender pubkey in zap event")));
            },
        };
        let content = primitives::event_content(&event);
        match primitives::nip04_decrypt(keys, &sender, content.as_str()) {
            Ok(plaintext) => decrypted(Ok(plaintext)),
            Err(e) => decrypted(Err(e.to_string())),
        }
    }
}

} // verus!
