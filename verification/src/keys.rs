//! The signing identities: what is known of each key, which one is active,
//! and the secret of the active one while the signer is unlocked.
//!
//! The secrets themselves live in the system's keyring, which this crate
//! does not touch. The functions here decide and record; the caller stores,
//! fetches and deletes the secrets in between.

use vstd::prelude::*;
use nostr::Keys;
use crate::error::{Result, SignerError};
use crate::primitives;
use crate::primitives::{
    keys_public_hex, keys_public_npub, keys_secret_nsec, mnemonic_keys, sealed_key_opened, sealed_key_read,
    secret_key_read, text_of, KeyCare,
};
use crate::text::{owned, str_eq};
use crate::time::Timestamp;

verus! {

/// Metadata about a stored key (public info only)
#[derive(Debug, Clone)]
pub struct KeyMetadata {
    /// Unique name/label for this key
    pub name: String,
    /// Public key in npub format
    pub npub: String,
    /// Public key in hex format
    pub pubkey_hex: String,
    /// When this key was added
    pub created_at: Timestamp,
    /// Whether this is the active/default key
    pub is_active: bool,
}

/// Stored key metadata (persisted to disk)
#[derive(Debug, Clone)]
pub struct KeysMetadata {
    /// The keys, in the order they were added
    pub keys: Vec<KeyMetadata>,
    /// Currently active key name
    pub active_key: Option<String>,
}

/// Whether some key in `keys` goes by `name`.
pub open spec fn has_name(keys: Seq<KeyMetadata>, name: Seq<char>) -> bool {
    exists|i: int| 0 <= i < keys.len() && (#[trigger] keys[i]).name@ == name
}

/// Whether no name occurs twice in `keys`.
pub open spec fn names_distinct(keys: Seq<KeyMetadata>) -> bool {
    forall|i: int, j: int| 0 <= i < j < keys.len() ==> (#[trigger] keys[i]).name@ != (#[trigger] keys[j]).name@
}

/// Whether `name` is the active name.
pub open spec fn is_active_name(active: Option<String>, name: Seq<char>) -> bool {
    active matches Some(a) && a@ == name
}

/// Whether each key is flagged active exactly when it goes by the active
/// name.
pub open spec fn flags_follow(keys: Seq<KeyMetadata>, active: Option<String>) -> bool {
    forall|i: int| 0 <= i < keys.len() ==> (#[trigger] keys[i]).is_active == is_active_name(active, keys[i].name@)
}

/// Whether two lists hold the same keys, flags aside.
pub open spec fn same_but_flags(a: Seq<KeyMetadata>, b: Seq<KeyMetadata>) -> bool {
    &&& a.len() == b.len()
    &&& forall|i: int|
        0 <= i < a.len() ==> {
            &&& (#[trigger] a[i]).name == b[i].name
            &&& a[i].npub == b[i].npub
            &&& a[i].pubkey_hex == b[i].pubkey_hex
            &&& a[i].created_at == b[i].created_at
        }
}

impl KeysMetadata {
    /// Whether the metadata is consistent: every key has its own name, the
    /// active name belongs to one of them, and that one alone is flagged
    /// active.
    pub open spec fn wf(self) -> bool {
        &&& names_distinct(self.keys@)
        &&& self.active_key matches Some(a) ==> has_name(self.keys@, a@)
        &&& flags_follow(self.keys@, self.active_key)
    }

    /// No keys, none active.
    pub fn empty() -> (m: KeysMetadata)
        ensures
            m.wf(),
            m.keys@.len() == 0,
            m.active_key is None,
    {
        KeysMetadata { keys: Vec::new(), active_key: None }
    }
}

impl Default for KeysMetadata {
    fn default() -> (m: KeysMetadata)
        ensures
            m.wf(),
            m.keys@.len() == 0,
            m.active_key is None,
    {
        KeysMetadata::empty()
    }
}

/// Where the key named `name` sits, if there is one.
fn position(keys: &Vec<KeyMetadata>, name: &str) -> (found: Option<usize>)
    ensures
        match found {
            Some(k) => k < keys@.len() && keys@[k as int].name@ == name@,
            None => !has_name(keys@, name@),
        },
{
    let mut i: usize = 0;
    while i < keys.len()
        invariant
            i <= keys@.len(),
            forall|j: int| 0 <= j < i ==> (#[trigger] keys@[j]).name@ != name@,
        decreases keys@.len() - i,
    {
        if str_eq(keys[i].name.as_str(), name) {
            return Some(i);
        }
        i += 1;
    }
    None
}

/// Whether no name occurs twice.
fn all_distinct(keys: &Vec<KeyMetadata>) -> (distinct: bool)
    ensures
        distinct == names_distinct(keys@),
{
    let mut j: usize = 0;
    while j < keys.len()
        invariant
            j <= keys@.len(),
            forall|a: int, b: int| 0 <= a < b < j ==> (#[trigger] keys@[a]).name@ != (#[trigger] keys@[b]).name@,
        decreases keys@.len() - j,
    {
        let mut i: usize = 0;
        while i < j
            invariant
                i <= j < keys@.len(),
                forall|a: int| 0 <= a < i ==> (#[trigger] keys@[a]).name@ != keys@[j as int].name@,
            decreases j - i,
        {
            if str_eq(keys[i].name.as_str(), keys[j].name.as_str()) {
                return false;
            }
            i += 1;
        }
        j += 1;
    }
    true
}

/// Flags each key active exactly when it goes by the active name.
fn set_flags(keys: &mut Vec<KeyMetadata>, active: &Option<String>)
    ensures
        same_but_flags(final(keys)@, old(keys)@),
        flags_follow(final(keys)@, *active),
{
    let mut i: usize = 0;
    while i < keys.len()
        invariant
            i <= keys@.len(),
            keys@.len() == old(keys)@.len(),
            same_but_flags(keys@, old(keys)@),
            forall|j: int| 0 <= j < i ==> (#[trigger] keys@[j]).is_active == is_active_name(*active, keys@[j].name@),
        decreases keys@.len() - i,
    {
        let flag = match active {
            Some(a) => str_eq(a.as_str(), keys[i].name.as_str()),
            None => false,
        };
        let ghost before = keys@;
        keys[i].is_active = flag;
        assert forall|j: int| 0 <= j < keys@.len() implies {
            &&& (#[trigger] keys@[j]).name == old(keys)@[j].name
            &&& keys@[j].npub == old(keys)@[j].npub
            &&& keys@[j].pubkey_hex == old(keys)@[j].pubkey_hex
            &&& keys@[j].created_at == old(keys)@[j].created_at
        } by {
            assert(before[j].name == old(keys)@[j].name);
            if j != i {
                assert(keys@[j] == before[j]);
            }
        }
        assert forall|j: int| 0 <= j < i + 1 implies (#[trigger] keys@[j]).is_active == is_active_name(
            *active,
            keys@[j].name@,
        ) by {
            if j != i {
                assert(keys@[j] == before[j]);
            }
        }
        i += 1;
    }
}

proof fn lemma_same_names(a: Seq<KeyMetadata>, b: Seq<KeyMetadata>)
    requires
        same_but_flags(a, b),
    ensures
        names_distinct(b) ==> names_distinct(a),
        forall|name: Seq<char>| has_name(b, name) ==> #[trigger] has_name(a, name),
{
    if names_distinct(b) {
        assert forall|i: int, j: int| 0 <= i < j < a.len() implies (#[trigger] a[i]).name@ != (#[trigger] a[j]).name@ by {
            assert(a[i].name == b[i].name && a[j].name == b[j].name);
        }
    }
    assert forall|name: Seq<char>| has_name(b, name) implies #[trigger] has_name(a, name) by {
        let k = choose|k: int| 0 <= k < b.len() && (#[trigger] b[k]).name@ == name;
        assert(a[k].name == b[k].name);
    }
}

/// The identities of the signer.
pub struct KeyManager {
    metadata: KeysMetadata,
    /// The active key's secret, held while the signer is unlocked
    cached_keys: Option<Keys>,
}

/// Whether `secret` is read as keys with the public key of `keys`.
pub open spec fn reads_as(secret: Seq<char>, keys: Keys) -> bool {
    secret_key_read(secret) matches Some(read) && keys_public_hex(read) == keys_public_hex(keys)
}

impl KeyManager {
    #[verifier::type_invariant]
    spec fn consistent(&self) -> bool {
        self.metadata.wf()
    }

    /// What is known of the keys.
    pub closed spec fn view(&self) -> KeysMetadata {
        self.metadata
    }

    /// The keys whose secret is at hand, if any is.
    pub closed spec fn held(&self) -> Option<Keys> {
        self.cached_keys
    }

    /// Whether the secret of the active key is at hand.
    pub open spec fn unlocked(&self) -> bool {
        self.held() is Some
    }

    /// Create a new key manager
    pub fn new() -> (km: KeyManager)
        ensures
            km@.keys@.len() == 0,
            km@.active_key is None,
            !km.unlocked(),
    {
        KeyManager { metadata: KeysMetadata::empty(), cached_keys: None }
    }

    /// Takes over metadata read from disk. Metadata in which a name occurs
    /// twice, or whose active name belongs to no key, is refused and nothing
    /// changes. The flags are set anew from the active name.
    pub fn load(&mut self, metadata: KeysMetadata) -> (r: Result<()>)
        ensures
            final(self).unlocked() == old(self).unlocked(),
            match r {
                Ok(_) => {
                    &&& names_distinct(metadata.keys@)
                    &&& metadata.active_key matches Some(a) ==> has_name(metadata.keys@, a@)
                    &&& same_but_flags(final(self)@.keys@, metadata.keys@)
                    &&& final(self)@.active_key == metadata.active_key
                    &&& final(self)@.wf()
                },
                Err(e) => {
                    &&& e is ConfigError
                    &&& !(names_distinct(metadata.keys@) && (metadata.active_key matches Some(a) ==> has_name(
                        metadata.keys@,
                        a@,
                    )))
                    &&& final(self)@ == old(self)@
                },
            },
    {
        proof {
            use_type_invariant(&*self);
        }
        if !all_distinct(&metadata.keys) {
            return Err(SignerError::ConfigError(owned("a key name occurs twice")));
        }
        let known = match &metadata.active_key {
            Some(a) => position(&metadata.keys, a.as_str()).is_some(),
            None => true,
        };
        if !known {
            return Err(SignerError::ConfigError(owned("the active key is not among the keys")));
        }
        let mut keys = metadata.keys;
        let active = metadata.active_key;
        set_flags(&mut keys, &active);
        proof {
            lemma_same_names(keys@, metadata.keys@);
        }
        self.metadata = KeysMetadata { keys, active_key: active };
        Ok(())
    }

    /// Check if any keys exist
    pub fn has_keys(&self) -> (any: bool)
        ensures
            any == (self@.keys@.len() > 0),
    {
        self.metadata.keys.len() > 0
    }

    /// Whether a key goes by `name`.
    pub fn contains_key(&self, name: &str) -> (found: bool)
        ensures
            found == has_name(self@.keys@, name@),
    {
        match position(&self.metadata.keys, name) {
            Some(k) => {
                assert(self.metadata.keys@[k as int].name@ == name@);
                true
            },
            None => false,
        }
    }

    /// Get list of all keys (metadata only)
    pub fn list_keys(&self) -> (keys: &Vec<KeyMetadata>)
        ensures
            *keys == self@.keys,
    {
        &self.metadata.keys
    }

    /// What is known of the keys, to be written to disk.
    pub fn metadata(&self) -> (m: &KeysMetadata)
        ensures
            *m == self@,
            m.wf(),
    {
        proof {
            use_type_invariant(self);
        }
        &self.metadata
    }

    /// Get the active key's public key, in its npub form.
    pub fn get_active_pubkey(&self) -> (npub: Option<&str>)
        ensures
            match npub {
                Some(s) => exists|k: int|
                    0 <= k < self@.keys@.len() && is_active_name(self@.active_key, (#[trigger] self@.keys@[k]).name@)
                        && s@ == self@.keys@[k].npub@,
                None => self@.active_key is None,
            },
    {
        proof {
            use_type_invariant(self);
        }
        match &self.metadata.active_key {
            Some(name) => match position(&self.metadata.keys, name.as_str()) {
                Some(k) => Some(self.metadata.keys[k].npub.as_str()),
                None => None,
            },
            None => None,
        }
    }

    /// Get the active key's public key, in hex.
    pub fn get_active_pubkey_hex(&self) -> (hex: Option<&str>)
        ensures
            match hex {
                Some(s) => exists|k: int|
                    0 <= k < self@.keys@.len() && is_active_name(self@.active_key, (#[trigger] self@.keys@[k]).name@)
                        && s@ == self@.keys@[k].pubkey_hex@,
                None => self@.active_key is None,
            },
    {
        proof {
            use_type_invariant(self);
        }
        match &self.metadata.active_key {
            Some(name) => match position(&self.metadata.keys, name.as_str()) {
                Some(k) => Some(self.metadata.keys[k].pubkey_hex.as_str()),
                None => None,
            },
            None => None,
        }
    }

    /// Get the active key name
    pub fn get_active_key_name(&self) -> (name: Option<&str>)
        ensures
            match name {
                Some(s) => is_active_name(self@.active_key, s@),
                None => self@.active_key is None,
            },
    {
        match &self.metadata.active_key {
            Some(name) => Some(name.as_str()),
            None => None,
        }
    }

    /// Set the active key by name. The secret that was at hand belonged to
    /// the key that was active before, and is dropped.
    pub fn set_active_key(&mut self, name: &str) -> (r: Result<()>)
        ensures
            match r {
                Ok(_) => {
                    &&& has_name(old(self)@.keys@, name@)
                    &&& is_active_name(final(self)@.active_key, name@)
                    &&& same_but_flags(final(self)@.keys@, old(self)@.keys@)
                    &&& final(self)@.wf()
                    &&& !final(self).unlocked()
                },
                Err(e) => {
                    &&& !has_name(old(self)@.keys@, name@)
                    &&& e matches SignerError::KeyNotFound(n) && n@ == name@
                    &&& final(self)@ == old(self)@
                    &&& final(self).unlocked() == old(self).unlocked()
                },
            },
    {
        proof {
            use_type_invariant(&*self);
        }
        match position(&self.metadata.keys, name) {
            Some(k) => {
                assert(self.metadata.keys@[k as int].name@ == name@);
            },
            None => {
                return Err(SignerError::KeyNotFound(owned(name)));
            },
        }
        let ghost before = self.metadata.keys@;
        let mut metadata = KeysMetadata::empty();
        std::mem::swap(&mut self.metadata, &mut metadata);
        let mut keys = metadata.keys;
        let active = Some(owned(name));
        set_flags(&mut keys, &active);
        proof {
            lemma_same_names(keys@, before);
        }
        self.metadata = KeysMetadata { keys, active_key: active };
        self.cached_keys = None;
        Ok(())
    }

    /// Refuses a name that is taken.
    pub fn check_name_free(&self, name: &str) -> (r: Result<()>)
        ensures
            match r {
                Ok(_) => !has_name(self@.keys@, name@),
                Err(e) => has_name(self@.keys@, name@) && (e matches SignerError::KeyAlreadyExists(n) && n@
                    == name@),
            },
    {
        if self.contains_key(name) {
            Err(SignerError::KeyAlreadyExists(owned(name)))
        } else {
            Ok(())
        }
    }

    /// Generate a new key to be stored under `name`.
    pub fn generate_key(&self, name: &str) -> (r: Result<Keys>)
        ensures
            match r {
                Ok(_) => !has_name(self@.keys@, name@),
                Err(e) => has_name(self@.keys@, name@) && e is KeyAlreadyExists,
            },
    {
        match self.check_name_free(name) {
            Ok(_) => Ok(primitives::generate_keys()),
            Err(e) => Err(e),
        }
    }

    /// Import a key from nsec or hex, to be stored under `name`.
    pub fn import_key(&self, name: &str, secret: &str) -> (r: Result<Keys>)
        ensures
            match r {
                Ok(keys) => !has_name(self@.keys@, name@) && secret_key_read(secret@) == Some(keys),
                Err(e) => if has_name(self@.keys@, name@) {
                    e is KeyAlreadyExists
                } else {
                    secret_key_read(secret@) is None && e is InvalidKeyFormat
                },
            },
    {
        match self.check_name_free(name) {
            Ok(_) => {},
            Err(e) => {
                return Err(e);
            },
        }
        match primitives::parse_keys(secret) {
            Ok(keys) => Ok(keys),
            Err(e) => Err(SignerError::InvalidKeyFormat(e.to_string())),
        }
    }

    /// Import a key from mnemonic (NIP-06), to be stored under `name`.
    pub fn import_from_mnemonic(&self, name: &str, mnemonic: &str, passphrase: Option<&str>) -> (r: Result<
        Keys,
    >)
        ensures
            match r {
                Ok(keys) => !has_name(self@.keys@, name@) && mnemonic_keys(mnemonic@, text_of(passphrase))
                    == Some(keys),
                Err(e) => if has_name(self@.keys@, name@) {
                    e is KeyAlreadyExists
                } else {
                    mnemonic_keys(mnemonic@, text_of(passphrase)) is None && e is InvalidKeyFormat
                },
            },
    {
        match self.check_name_free(name) {
            Ok(_) => {},
            Err(e) => {
                return Err(e);
            },
        }
        match primitives::keys_from_mnemonic(mnemonic, passphrase) {
            Ok(keys) => Ok(keys),
            Err(e) => Err(SignerError::InvalidKeyFormat(e.to_string())),
        }
    }

    /// Import from NIP-49 encrypted format, to be stored under `name`.
    pub fn import_encrypted(&self, name: &str, ncryptsec: &str, password: &str) -> (r: Result<Keys>)
        ensures
            match r {
                Ok(keys) => !has_name(self@.keys@, name@) && (sealed_key_read(ncryptsec@) matches Some(sealed)
                    && sealed_key_opened(sealed, password@) == Some(keys)),
                Err(e) => if has_name(self@.keys@, name@) {
                    e is KeyAlreadyExists
                } else {
                    match sealed_key_read(ncryptsec@) {
                        Some(sealed) => sealed_key_opened(sealed, password@) is None && e is InvalidPassword,
                        None => e is InvalidKeyFormat,
                    }
                },
            },
    {
        match self.check_name_free(name) {
            Ok(_) => {},
            Err(e) => {
                return Err(e);
            },
        }
        let sealed = match primitives::sealed_from_bech32(ncryptsec) {
            Ok(sealed) => sealed,
            Err(e) => {
                return Err(SignerError::InvalidKeyFormat(e.to_string()));
            },
        };
        match primitives::unseal(&sealed, password) {
            Ok(keys) => Ok(keys),
            Err(_) => Err(SignerError::InvalidPassword),
        }
    }

    /// Records a key whose secret the caller has stored under `name`, as
    /// added now. The first key to be recorded becomes the active one.
    pub fn store_key(&mut self, name: &str, keys: &Keys) -> (r: Result<KeyMetadata>)
        ensures
            final(self).unlocked() == old(self).unlocked(),
            match r {
                Ok(meta) => {
                    &&& !has_name(old(self)@.keys@, name@)
                    &&& meta.name@ == name@
                    &&& meta.pubkey_hex@ == keys_public_hex(*keys)
                    &&& meta.npub@ == keys_public_npub(*keys)
                    &&& meta.is_active == (old(self)@.keys@.len() == 0)
                    &&& final(self)@.keys@ == old(self)@.keys@.push(meta)
                    &&& if old(self)@.keys@.len() == 0 {
                        is_active_name(final(self)@.active_key, name@)
                    } else {
                        final(self)@.active_key == old(self)@.active_key
                    }
                    &&& final(self)@.wf()
                },
                Err(e) => {
                    &&& has_name(old(self)@.keys@, name@)
                    &&& e is KeyAlreadyExists
                    &&& final(self)@ == old(self)@
                },
            },
    {
        self.store_key_at(name, keys, crate::time::wall_clock())
    }

    /// Records a key whose secret the caller has stored under `name`, as
    /// added at `created_at`. The first key to be recorded becomes the
    /// active one.
    pub fn store_key_at(&mut self, name: &str, keys: &Keys, created_at: Timestamp) -> (r: Result<KeyMetadata>)
        ensures
            final(self).unlocked() == old(self).unlocked(),
            match r {
                Ok(meta) => {
                    &&& !has_name(old(self)@.keys@, name@)
                    &&& meta.name@ == name@
                    &&& meta.pubkey_hex@ == keys_public_hex(*keys)
                    &&& meta.npub@ == keys_public_npub(*keys)
                    &&& meta.created_at == created_at
                    &&& meta.is_active == (old(self)@.keys@.len() == 0)
                    &&& final(self)@.keys@ == old(self)@.keys@.push(meta)
                    &&& if old(self)@.keys@.len() == 0 {
                        is_active_name(final(self)@.active_key, name@)
                    } else {
                        final(self)@.active_key == old(self)@.active_key
                    }
                    &&& final(self)@.wf()
                },
                Err(e) => {
                    &&& has_name(old(self)@.keys@, name@)
                    &&& e is KeyAlreadyExists
                    &&& final(self)@ == old(self)@
                },
            },
    {
        proof {
            use_type_invariant(&*self);
        }
        if self.contains_key(name) {
            return Err(SignerError::KeyAlreadyExists(owned(name)));
        }
        let first = self.metadata.keys.len() == 0;
        let meta = KeyMetadata {
            name: owned(name),
            npub: primitives::public_npub(keys),
            pubkey_hex: primitives::public_hex(keys),
            created_at,
            is_active: first,
        };
        let recorded = KeyMetadata {
            name: meta.name.clone(),
            npub: meta.npub.clone(),
            pubkey_hex: meta.pubkey_hex.clone(),
            created_at,
            is_active: first,
        };
        let ghost before = self.metadata;
        let mut metadata = KeysMetadata::empty();
        std::mem::swap(&mut self.metadata, &mut metadata);
        let mut list = metadata.keys;
        let active = if first {
            Some(owned(name))
        } else {
            metadata.active_key
        };
        list.push(recorded);
        proof {
            let after = list@;
            assert(recorded == meta);
            assert forall|i: int, j: int| 0 <= i < j < after.len() implies (#[trigger] after[i]).name@ != (#[trigger] after[j]).name@ by {
                assert(after[i] == before.keys@[i]);
                if j < before.keys@.len() {
                    assert(after[j] == before.keys@[j]);
                }
            }
            assert(after[after.len() - 1].name@ == name@);
            if !first {
                if before.active_key is Some {
                    let a = before.active_key->0;
                    let k = choose|k: int| 0 <= k < before.keys@.len() && (#[trigger] before.keys@[k]).name@ == a@;
                    assert(after[k] == before.keys@[k]);
                }
            }
            assert forall|i: int| 0 <= i < after.len() implies (#[trigger] after[i]).is_active == is_active_name(
                active,
                after[i].name@,
            ) by {
                if i < before.keys@.len() {
                    assert(after[i] == before.keys@[i]);
                }
            }
        }
        self.metadata = KeysMetadata { keys: list, active_key: active };
        Ok(meta)
    }

    /// Forgets a key whose secret the caller has deleted. If it was the
    /// active one, the first of the remaining keys becomes active and the
    /// secret at hand is dropped.
    pub fn delete_key(&mut self, name: &str) -> (r: Result<()>)
        ensures
            match r {
                Ok(_) => {
                    &&& has_name(old(self)@.keys@, name@)
                    &&& !has_name(final(self)@.keys@, name@)
                    &&& final(self)@.keys@.len() == old(self)@.keys@.len() - 1
                    &&& forall|other: Seq<char>|
                        other != name@ ==> (#[trigger] has_name(final(self)@.keys@, other) <==> has_name(
                            old(self)@.keys@,
                            other,
                        ))
                    &&& if is_active_name(old(self)@.active_key, name@) {
                        &&& !final(self).unlocked()
                        &&& if final(self)@.keys@.len() == 0 {
                            final(self)@.active_key is None
                        } else {
                            is_active_name(final(self)@.active_key, final(self)@.keys@[0].name@)
                        }
                    } else {
                        &&& final(self).unlocked() == old(self).unlocked()
                        &&& final(self)@.active_key == old(self)@.active_key
                    }
                    &&& final(self)@.wf()
                },
                Err(e) => {
                    &&& !has_name(old(self)@.keys@, name@)
                    &&& e matches SignerError::KeyNotFound(n) && n@ == name@
                    &&& final(self)@ == old(self)@
                    &&& final(self).unlocked() == old(self).unlocked()
                },
            },
    {
        proof {
            use_type_invariant(&*self);
        }
        let k = match position(&self.metadata.keys, name) {
            Some(k) => k,
            None => {
                return Err(SignerError::KeyNotFound(owned(name)));
            },
        };
        let ghost before = self.metadata;
        assert(before.keys@[k as int].name@ == name@);
        let was_active = match &self.metadata.active_key {
            Some(a) => str_eq(a.as_str(), name),
            None => false,
        };
        let mut metadata = KeysMetadata::empty();
        std::mem::swap(&mut self.metadata, &mut metadata);
        let mut list = metadata.keys;
        list.remove(k);
        let ghost rest = list@;
        proof {
            assert forall|i: int| 0 <= i < rest.len() implies #[trigger] rest[i] == before.keys@[if i < k {
                i
            } else {
                i + 1
            }] by {}
            assert forall|i: int| 0 <= i < rest.len() implies (#[trigger] rest[i]).name@ != name@ by {
                let a = if i < k { i } else { i + 1 };
                assert(rest[i] == before.keys@[a]);
                if a < k {
                    assert(before.keys@[a].name@ != before.keys@[k as int].name@);
                } else {
                    assert(before.keys@[k as int].name@ != before.keys@[a].name@);
                }
            }
            assert forall|i: int, j: int| 0 <= i < j < rest.len() implies (#[trigger] rest[i]).name@ != (#[trigger] rest[j]).name@ by {
                let a = if i < k { i } else { i + 1 };
                let b = if j < k { j } else { j + 1 };
                assert(rest[i] == before.keys@[a] && rest[j] == before.keys@[b]);
            }
            assert forall|other: Seq<char>| other != name@ implies (#[trigger] has_name(rest, other) <==> has_name(
                before.keys@,
                other,
            )) by {
                if has_name(rest, other) {
                    let i = choose|i: int| 0 <= i < rest.len() && (#[trigger] rest[i]).name@ == other;
                    let a = if i < k { i } else { i + 1 };
                    assert(before.keys@[a].name@ == other);
                }
                if has_name(before.keys@, other) {
                    let a = choose|a: int| 0 <= a < before.keys@.len() && (#[trigger] before.keys@[a]).name@ == other;
                    let i = if a < k { a } else { a - 1 };
                    assert(rest[i] == before.keys@[a]);
                }
            }
        }
        let active = if was_active {
            if list.len() > 0 {
                Some(list[0].name.clone())
            } else {
                None
            }
        } else {
            metadata.active_key
        };
        proof {
            if was_active {
                if rest.len() > 0 {
                    assert(rest[0].name@ == active->0@);
                }
            } else if before.active_key is Some {
                assert(has_name(rest, before.active_key->0@));
            }
        }
        set_flags(&mut list, &active);
        proof {
            lemma_same_names(list@, rest);
            assert forall|other: Seq<char>| other != name@ implies (#[trigger] has_name(list@, other) <==> has_name(
                before.keys@,
                other,
            )) by {
                lemma_same_names(rest, list@);
            }
            if has_name(list@, name@) {
                let i = choose|i: int| 0 <= i < list@.len() && (#[trigger] list@[i]).name@ == name@;
                assert(list@[i].name == rest[i].name);
            }
            if list@.len() > 0 {
                assert(list@[0].name == rest[0].name);
            }
        }
        self.metadata = KeysMetadata { keys: list, active_key: active };
        if was_active {
            self.cached_keys = None;
        }
        Ok(())
    }

    /// Get the active signing keys. `Ok(None)` says that there is an active
    /// key whose secret is not at hand: the caller fetches it from the
    /// keyring and hands it to [`KeyManager::unlock`].
    pub fn get_signing_keys(&self) -> (r: Result<Option<&Keys>>)
        ensures
            match r {
                Ok(Some(keys)) => self.held() == Some(*keys),
                Ok(None) => !self.unlocked() && self@.active_key is Some,
                Err(e) => !self.unlocked() && self@.active_key is None && e is NoActiveKey,
            },
    {
        match &self.cached_keys {
            Some(keys) => Ok(Some(keys)),
            None => match &self.metadata.active_key {
                Some(_) => Ok(None),
                None => Err(SignerError::NoActiveKey),
            },
        }
    }

    /// Keeps the secret of the active key at hand. Keys whose public key
    /// is not the one on record for the active key are refused, and so are
    /// any keys while no key is active; nothing changes then.
    pub fn unlock(&mut self, keys: Keys) -> (r: Result<()>)
        ensures
            final(self)@ == old(self)@,
            match r {
                Ok(_) => {
                    &&& final(self).held() == Some(keys)
                    &&& exists|k: int|
                        0 <= k < old(self)@.keys@.len() && is_active_name(
                            old(self)@.active_key,
                            (#[trigger] old(self)@.keys@[k]).name@,
                        ) && old(self)@.keys@[k].pubkey_hex@ == keys_public_hex(keys)
                },
                Err(e) => {
                    &&& final(self).held() == old(self).held()
                    &&& if old(self)@.active_key is None {
                        e is NoActiveKey
                    } else {
                        e is InvalidKeyFormat
                    }
                },
            },
    {
        proof {
            use_type_invariant(&*self);
        }
        let matches = match self.get_active_pubkey_hex() {
            Some(hex) => str_eq(hex, primitives::public_hex(&keys).as_str()),
            None => {
                return Err(SignerError::NoActiveKey);
            },
        };
        if !matches {
            return Err(SignerError::InvalidKeyFormat(owned("the secret does not belong to the active key")));
        }
        self.cached_keys = Some(keys);
        Ok(())
    }

    /// Refuses a name that no key goes by: the check that comes before a
    /// secret is fetched from the keyring.
    pub fn get_keys_by_name(&self, name: &str) -> (r: Result<()>)
        ensures
            match r {
                Ok(_) => has_name(self@.keys@, name@),
                Err(e) => !has_name(self@.keys@, name@) && (e matches SignerError::KeyNotFound(n) && n@
                    == name@),
            },
    {
        if self.contains_key(name) {
            Ok(())
        } else {
            Err(SignerError::KeyNotFound(owned(name)))
        }
    }

    /// Export key as nsec (bech32). The text is read again before it is
    /// handed out: what would not be imported again as keys with the same
    /// public key is withheld.
    pub fn export_nsec(keys: &Keys) -> (r: Result<String>)
        ensures
            match r {
                Ok(nsec) => nsec@ == keys_secret_nsec(*keys) && reads_as(nsec@, *keys),
                Err(e) => e is NostrError && !reads_as(keys_secret_nsec(*keys), *keys),
            },
    {
        let nsec = primitives::secret_nsec(keys);
        match primitives::parse_keys(nsec.as_str()) {
            Ok(read) => {
                if str_eq(primitives::public_hex(&read).as_str(), primitives::public_hex(keys).as_str()) {
                    Ok(nsec)
                } else {
                    Err(SignerError::NostrError(owned("the exported key does not read back")))
                }
            },
            Err(e) => Err(SignerError::NostrError(e.to_string())),
        }
    }

    /// Export key as NIP-49 encrypted format (ncryptsec), sealed under
    /// `password`. The text is read and opened again before it is handed
    /// out: what would not be imported again, under the same password, as
    /// keys with the same public key is withheld.
    pub fn export_encrypted(keys: &Keys, password: &str) -> (r: Result<String>)
        ensures
            match r {
                Ok(ncryptsec) => sealed_key_read(ncryptsec@) matches Some(sealed) && (sealed_key_opened(
                    sealed,
                    password@,
                ) matches Some(read) && keys_public_hex(read) == keys_public_hex(*keys)),
                Err(e) => e is EncryptionError || e is NostrError,
            },
    {
        let sealed = match primitives::seal_secret(keys, password, 16, KeyCare::Medium) {
            Ok(sealed) => sealed,
            Err(e) => {
                return Err(SignerError::EncryptionError(e.to_string()));
            },
        };
        let ncryptsec = match primitives::sealed_to_bech32(&sealed) {
            Ok(text) => text,
            Err(e) => {
                return Err(SignerError::NostrError(e.to_string()));
            },
        };
        let read = match primitives::sealed_from_bech32(ncryptsec.as_str()) {
            Ok(read) => read,
            Err(e) => {
                return Err(SignerError::NostrError(e.to_string()));
            },
        };
        match primitives::unseal(&read, password) {
            Ok(opened) => {
                if str_eq(primitives::public_hex(&opened).as_str(), primitives::public_hex(keys).as_str()) {
                    Ok(ncryptsec)
                } else {
                    Err(SignerError::EncryptionError(owned("the sealed key does not open to the key")))
                }
            },
            Err(e) => Err(SignerError::EncryptionError(e.to_string())),
        }
    }

    /// Clear cached keys (for locking)
    pub fn lock(&mut self)
        ensures
            !final(self).unlocked(),
            final(self)@ == old(self)@,
    {
        proof {
            use_type_invariant(&*self);
        }
        self.cached_keys = None;
    }

    /// Check if keys are cached (unlocked)
    pub fn is_unlocked(&self) -> (unlocked: bool)
        ensures
            unlocked == self.unlocked(),
    {
        self.cached_keys.is_some()
    }
}

impl Default for KeyManager {
    fn default() -> (km: KeyManager)
        ensures
            km@.keys@.len() == 0,
            km@.active_key is None,
            !km.unlocked(),
    {
        KeyManager::new()
    }
}

} // verus!
