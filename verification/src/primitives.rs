//! The cryptographic primitives, taken from the `nostr` crate.
//!
//! Keys, public keys, tags and signed events are values of that crate and
//! pass through this one unread. Each function here makes one call into the
//! crate. Where the crate's answer depends on chance or on the clock, nothing
//! is claimed of it; where it depends on the arguments alone and a line can
//! say when it succeeds, the contract says so.

use vstd::prelude::*;
use nostr::{Event, Keys, PublicKey, Tag};
use nostr::nips::nip49::EncryptedSecretKey;
use crate::signing::Draft;

verus! {

/// Trusted: `nostr::Keys`, a secret key with its public key.
#[verifier::external_type_specification]
#[verifier::external_body]
pub struct ExKeys(Keys);

/// Trusted: `nostr::PublicKey`.
#[verifier::external_type_specification]
#[verifier::external_body]
pub struct ExPublicKey(PublicKey);

/// Trusted: `nostr::Tag`, one tag of an event.
#[verifier::external_type_specification]
#[verifier::external_body]
pub struct ExTag(Tag);

/// Trusted: `nostr::Event`, a signed event.
#[verifier::external_type_specification]
#[verifier::external_body]
pub struct ExEvent(Event);

/// Trusted: `nostr::nips::nip49::EncryptedSecretKey`, a secret key sealed
/// under a password.
#[verifier::external_type_specification]
#[verifier::external_body]
pub struct ExEncryptedSecretKey(EncryptedSecretKey);

/// Trusted: the error type of `nostr::key`.
#[verifier::external_type_specification]
#[verifier::external_body]
pub struct ExKeyError(nostr::key::Error);

/// Trusted: the error type of `nostr::nips::nip04`.
#[verifier::external_type_specification]
#[verifier::external_body]
pub struct ExNip04Error(nostr::nips::nip04::Error);

/// Trusted: the error type of `nostr::nips::nip44`.
#[verifier::external_type_specification]
#[verifier::external_body]
pub struct ExNip44Error(nostr::nips::nip44::Error);

/// Trusted: the error type of `nostr::nips::nip06`.
#[verifier::external_type_specification]
#[verifier::external_body]
pub struct ExNip06Error(nostr::nips::nip06::Error);

/// Trusted: the error type of `nostr::nips::nip19`.
#[verifier::external_type_specification]
#[verifier::external_body]
pub struct ExNip19Error(nostr::nips::nip19::Error);

/// Trusted: the error type of `nostr::nips::nip49`.
#[verifier::external_type_specification]
#[verifier::external_body]
pub struct ExNip49Error(nostr::nips::nip49::Error);

/// Trusted: the error type of `nostr::event`.
#[verifier::external_type_specification]
#[verifier::external_body]
pub struct ExEventError(nostr::event::Error);

/// Trusted: the error type of `nostr::event::builder`.
#[verifier::external_type_specification]
#[verifier::external_body]
pub struct ExBuilderError(nostr::event::builder::Error);

/// Trusted: the error type of `nostr::event::tag`.
#[verifier::external_type_specification]
#[verifier::external_body]
pub struct ExTagError(nostr::event::tag::Error);

/// The keys that `Keys::parse` reads from `secret`, where it accepts it.
pub uninterp spec fn secret_key_read(secret: Seq<char>) -> Option<Keys>;

/// The public key that `keys` hold, as `PublicKey::to_hex` writes it.
pub uninterp spec fn keys_public_hex(keys: Keys) -> Seq<char>;

/// The public key that `keys` hold, in its `npub` form, as
/// `ToBech32::to_bech32` writes it.
pub uninterp spec fn keys_public_npub(keys: Keys) -> Seq<char>;

/// The secret key that `keys` hold, in its `nsec` form, as
/// `ToBech32::to_bech32` writes it.
pub uninterp spec fn keys_secret_nsec(keys: Keys) -> Seq<char>;

/// The `ncryptsec` form of `sealed`, as `ToBech32::to_bech32` writes it,
/// where it can be written.
pub uninterp spec fn sealed_key_text(sealed: EncryptedSecretKey) -> Option<Seq<char>>;

/// The JSON text of `event`, as `JsonUtil::try_as_json` writes it.
pub uninterp spec fn event_text(event: Event) -> Seq<char>;

/// The strings that `tag` holds, in their order.
pub uninterp spec fn tag_fields(tag: Tag) -> Seq<Seq<char>>;

/// The keys that `Keys::from_mnemonic` derives from `mnemonic`, with the
/// passphrase if there is one, where it accepts the phrase.
pub uninterp spec fn mnemonic_keys(mnemonic: Seq<char>, passphrase: Option<Seq<char>>) -> Option<Keys>;

/// The sealed key that `EncryptedSecretKey::from_bech32` reads from `text`,
/// where it accepts it.
pub uninterp spec fn sealed_key_read(text: Seq<char>) -> Option<EncryptedSecretKey>;

/// The keys that `EncryptedSecretKey::decrypt` opens `sealed` to under
/// `password`, where the password fits.
pub uninterp spec fn sealed_key_opened(sealed: EncryptedSecretKey, password: Seq<char>) -> Option<Keys>;

/// The public key that `PublicKey::parse` reads from `text`, where it
/// accepts it.
pub uninterp spec fn public_key_read(text: Seq<char>) -> Option<PublicKey>;

/// The public key that `PublicKey::from_hex` reads from `hex`, where it
/// accepts it.
pub uninterp spec fn hex_key_read(hex: Seq<char>) -> Option<PublicKey>;

/// The text that `nip04::decrypt` opens `ciphertext` to, with the secret of
/// `keys` and the public key `peer`, where it opens it.
pub uninterp spec fn nip04_opened(keys: Keys, peer: PublicKey, ciphertext: Seq<char>) -> Option<Seq<char>>;

/// The text that `nip44::decrypt` opens `payload` to, with the secret of
/// `keys` and the public key `peer`, where it opens it.
pub uninterp spec fn nip44_opened(keys: Keys, peer: PublicKey, payload: Seq<char>) -> Option<Seq<char>>;

/// The signed event that `Event::from_json` reads from `text`, where it
/// accepts it.
pub uninterp spec fn event_read(text: Seq<char>) -> Option<Event>;

/// The signature of `event`, in hex.
pub uninterp spec fn event_signature_hex(event: Event) -> Seq<char>;

/// The first of the public keys that the `p` tags of `event` name, as
/// `Tags::public_keys` walks them, if there is one.
pub uninterp spec fn event_first_key(event: Event) -> Option<PublicKey>;

/// The content of `event`.
pub uninterp spec fn event_body(event: Event) -> Seq<char>;

/// The text of an optional string.
pub open spec fn text_of(s: Option<&str>) -> Option<Seq<char>> {
    match s {
        Some(p) => Some(p@),
        None => None,
    }
}

/// Whether `c` is a hexadecimal digit, in either case.
pub open spec fn is_hex_digit(c: char) -> bool {
    ('0' <= c && c <= '9') || ('a' <= c && c <= 'f') || ('A' <= c && c <= 'F')
}

/// Whether `s` is a public key in hex: sixty-four hexadecimal digits.
pub open spec fn is_key_hex(s: Seq<char>) -> bool {
    s.len() == 64 && forall|i: int| 0 <= i < s.len() ==> is_hex_digit(#[trigger] s[i])
}

/// Trusted: `Keys::generate` draws a fresh key from the system's random
/// source.
#[verifier::external_body]
pub(crate) fn generate_keys() -> Keys {
    Keys::generate()
}

/// Trusted: `Keys::parse` reads a secret key in hex or bech32 and derives
/// its public key; what it gives depends on the text alone.
#[verifier::external_body]
pub(crate) fn parse_keys(secret: &str) -> (r: Result<Keys, nostr::key::Error>)
    ensures
        match r {
            Ok(keys) => secret_key_read(secret@) == Some(keys),
            Err(_) => secret_key_read(secret@) is None,
        },
{
    Keys::parse(secret)
}

/// Trusted: `Keys::from_mnemonic` derives a key from a phrase of words and
/// an optional passphrase; what it gives depends on the two alone.
#[verifier::external_body]
pub(crate) fn keys_from_mnemonic(mnemonic: &str, passphrase: Option<&str>) -> (r: Result<
    Keys,
    nostr::nips::nip06::Error,
>)
    ensures
        match r {
            Ok(keys) => mnemonic_keys(mnemonic@, text_of(passphrase)) == Some(keys),
            Err(_) => mnemonic_keys(mnemonic@, text_of(passphrase)) is None,
        },
{
    <Keys as nostr::nips::nip06::FromMnemonic>::from_mnemonic(mnemonic, passphrase)
}

/// Trusted: `Keys::public_key` and `PublicKey::to_hex` give the public key
/// as sixty-four hexadecimal digits.
#[verifier::external_body]
pub(crate) fn public_hex(keys: &Keys) -> (hex: String)
    ensures
        is_key_hex(hex@),
        hex@ == keys_public_hex(*keys),
{
    keys.public_key().to_hex()
}

/// Trusted: `Keys::public_key` and `ToBech32::to_bech32` give the public key
/// in its `npub` form; for a public key the encoding cannot fail.
#[verifier::external_body]
pub(crate) fn public_npub(keys: &Keys) -> (npub: String)
    ensures
        npub@ == keys_public_npub(*keys),
{
    match nostr::ToBech32::to_bech32(&keys.public_key()) {
        Ok(npub) => npub,
        Err(never) => match never {},
    }
}

/// Trusted: `Keys::secret_key` and `ToBech32::to_bech32` give the secret key
/// in its `nsec` form; for a secret key the encoding cannot fail.
#[verifier::external_body]
pub(crate) fn secret_nsec(keys: &Keys) -> (nsec: String)
    ensures
        nsec@ == keys_secret_nsec(*keys),
{
    match nostr::ToBech32::to_bech32(keys.secret_key()) {
        Ok(nsec) => nsec,
        Err(never) => match never {},
    }
}

/// How carefully a key has been handled, as recorded beside a sealed key.
#[derive(Debug, Clone, Copy, PartialEq, Eq, Structural)]
pub enum KeyCare {
    Weak,
    Medium,
    Unknown,
}

/// Trusted: `EncryptedSecretKey::new` seals the secret key under a password,
/// with a random salt and nonce.
#[verifier::external_body]
pub(crate) fn seal_secret(keys: &Keys, password: &str, log_n: u8, care: KeyCare) -> Result<
    EncryptedSecretKey,
    nostr::nips::nip49::Error,
> {
    let security = match care {
        KeyCare::Weak => nostr::nips::nip49::KeySecurity::Weak,
        KeyCare::Medium => nostr::nips::nip49::KeySecurity::Medium,
        KeyCare::Unknown => nostr::nips::nip49::KeySecurity::Unknown,
    };
    EncryptedSecretKey::new(keys.secret_key(), password, log_n, security)
}

/// Trusted: `ToBech32::to_bech32` writes a sealed key in its `ncryptsec`
/// form; the text depends on the sealed key alone.
#[verifier::external_body]
pub(crate) fn sealed_to_bech32(sealed: &EncryptedSecretKey) -> (r: Result<String, nostr::nips::nip19::Error>)
    ensures
        match r {
            Ok(text) => sealed_key_text(*sealed) == Some(text@),
            Err(_) => sealed_key_text(*sealed) is None,
        },
{
    nostr::ToBech32::to_bech32(sealed)
}

/// Trusted: `FromBech32::from_bech32` reads a sealed key from its
/// `ncryptsec` form; what it gives depends on the text alone.
#[verifier::external_body]
pub(crate) fn sealed_from_bech32(ncryptsec: &str) -> (r: Result<EncryptedSecretKey, nostr::nips::nip19::Error>)
    ensures
        match r {
            Ok(sealed) => sealed_key_read(ncryptsec@) == Some(sealed),
            Err(_) => sealed_key_read(ncryptsec@) is None,
        },
{
    <EncryptedSecretKey as nostr::FromBech32>::from_bech32(ncryptsec)
}

/// Trusted: `EncryptedSecretKey::decrypt` opens a sealed key with a
/// password, and `Keys::new` derives the public key; what comes of it
/// depends on the sealed key and the password alone.
#[verifier::external_body]
pub(crate) fn unseal(sealed: &EncryptedSecretKey, password: &str) -> (r: Result<Keys, nostr::nips::nip49::Error>)
    ensures
        match r {
            Ok(keys) => sealed_key_opened(*sealed, password@) == Some(keys),
            Err(_) => sealed_key_opened(*sealed, password@) is None,
        },
{
    sealed.decrypt(password).map(Keys::new)
}

/// Trusted: `PublicKey::parse` reads a public key in hex, bech32 or as a
/// `nostr:` URI; what it gives depends on the text alone.
#[verifier::external_body]
pub(crate) fn parse_public_key(text: &str) -> (r: Result<PublicKey, nostr::key::Error>)
    ensures
        match r {
            Ok(key) => public_key_read(text@) == Some(key),
            Err(_) => public_key_read(text@) is None,
        },
{
    PublicKey::parse(text)
}

/// Trusted: `PublicKey::from_hex` accepts exactly the texts of sixty-four
/// hexadecimal digits; the key it gives depends on the text alone.
#[verifier::external_body]
pub(crate) fn public_key_from_hex(hex: &str) -> (r: Result<PublicKey, nostr::key::Error>)
    ensures
        r is Ok == is_key_hex(hex@),
        match r {
            Ok(key) => hex_key_read(hex@) == Some(key),
            Err(_) => hex_key_read(hex@) is None,
        },
{
    PublicKey::from_hex(hex)
}

/// Trusted: `nip04::encrypt` encrypts to `peer` under a random
/// initialisation vector.
#[verifier::external_body]
pub(crate) fn nip04_encrypt(keys: &Keys, peer: &PublicKey, plaintext: &str) -> Result<
    String,
    nostr::nips::nip04::Error,
> {
    nostr::nips::nip04::encrypt(keys.secret_key(), peer, plaintext)
}

/// Trusted: `nip04::decrypt` decrypts what `peer` encrypted to these keys;
/// what it gives depends on the keys, the peer and the ciphertext alone.
#[verifier::external_body]
pub(crate) fn nip04_decrypt(keys: &Keys, peer: &PublicKey, ciphertext: &str) -> (r: Result<
    String,
    nostr::nips::nip04::Error,
>)
    ensures
        match r {
            Ok(text) => nip04_opened(*keys, *peer, ciphertext@) == Some(text@),
            Err(_) => nip04_opened(*keys, *peer, ciphertext@) is None,
        },
{
    nostr::nips::nip04::decrypt(keys.secret_key(), peer, ciphertext)
}

/// Trusted: `nip44::encrypt` encrypts to `peer` under a random nonce, in the
/// crate's default version of the scheme.
#[verifier::external_body]
pub(crate) fn nip44_encrypt(keys: &Keys, peer: &PublicKey, plaintext: &str) -> Result<
    String,
    nostr::nips::nip44::Error,
> {
    nostr::nips::nip44::encrypt(keys.secret_key(), peer, plaintext, nostr::nips::nip44::Version::default())
}

/// Trusted: `nip44::decrypt` decrypts what `peer` encrypted to these keys;
/// what it gives depends on the keys, the peer and the payload alone.
#[verifier::external_body]
pub(crate) fn nip44_decrypt(keys: &Keys, peer: &PublicKey, payload: &str) -> (r: Result<
    String,
    nostr::nips::nip44::Error,
>)
    ensures
        match r {
            Ok(text) => nip44_opened(*keys, *peer, payload@) == Some(text@),
            Err(_) => nip44_opened(*keys, *peer, payload@) is None,
        },
{
    nostr::nips::nip44::decrypt(keys.secret_key(), peer, payload)
}

/// Trusted: `Tag::parse` makes a tag of a list of strings, which it keeps
/// as they are, and refuses exactly the empty list.
#[verifier::external_body]
pub(crate) fn parse_tag(fields: &Vec<String>) -> (r: Result<Tag, nostr::event::tag::Error>)
    ensures
        r is Ok == (fields@.len() > 0),
        r matches Ok(tag) ==> tag_fields(tag) == fields.deep_view(),
{
    Tag::parse(fields)
}

/// Trusted: `EventBuilder::sign_with_keys` builds an event of the kind,
/// content, tags and creation time of the draft, and signs it with a
/// random auxiliary value. With `allow_self_tagging` the builder keeps the
/// tags that name the signer.
#[verifier::external_body]
pub(crate) fn sign_event(keys: &Keys, draft: Draft) -> Result<Event, nostr::event::builder::Error> {
    nostr::EventBuilder::new(nostr::Kind::from(draft.kind), draft.content)
        .tags(draft.tags)
        .allow_self_tagging()
        .custom_created_at(nostr::Timestamp::from(draft.created_at))
        .sign_with_keys(keys)
}

/// Trusted: `JsonUtil::try_as_json` writes a signed event as JSON.
#[verifier::external_body]
pub(crate) fn event_json(event: &Event) -> (r: Result<String, nostr::event::Error>)
    ensures
        r matches Ok(text) ==> text@ == event_text(*event),
{
    nostr::JsonUtil::try_as_json(event)
}

/// Trusted: the signature of a signed event, in hex, by its `Display`.
#[verifier::external_body]
pub(crate) fn event_signature(event: &Event) -> (hex: String)
    ensures
        hex@ == event_signature_hex(*event),
{
    event.sig.to_string()
}

/// Trusted: `Event::from_json` reads a signed event from JSON, without
/// checking its signature; what it gives depends on the text alone.
#[verifier::external_body]
pub(crate) fn event_from_json(text: &str) -> (r: Result<Event, nostr::event::Error>)
    ensures
        match r {
            Ok(event) => event_read(text@) == Some(event),
            Err(_) => event_read(text@) is None,
        },
{
    <Event as nostr::JsonUtil>::from_json(text)
}

/// Trusted: `Tags::public_keys` walks the public keys that an event's `p`
/// tags name; this gives the first of them.
#[verifier::external_body]
pub(crate) fn first_tagged_key(event: &Event) -> (key: Option<PublicKey>)
    ensures
        key == event_first_key(*event),
{
    event.tags.public_keys().next().copied()
}

/// Trusted: the content of a signed event.
#[verifier::external_body]
pub(crate) fn event_content(event: &Event) -> (content: String)
    ensures
        content@ == event_body(*event),
{
    event.content.clone()
}

/// Trusted: `Timestamp::now` reads the wall clock, in seconds since the Unix
/// epoch.
#[verifier::external_body]
pub(crate) fn unix_now() -> u64 {
    nostr::Timestamp::now().as_secs()
}

} // verus!
