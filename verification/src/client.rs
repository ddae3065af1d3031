//! What a client of the local transport reads out of the signer's answers.

use vstd::prelude::*;
use vstd::string::*;
use crate::json;
use crate::json::{json_array_len, json_flag, json_string, json_valid};
use crate::text::{decimal, join2, owned, radix_digits};

verus! {

/// Response from the signer
#[derive(Debug, Clone)]
pub struct SignerResponse {
    pub success: bool,
    pub id: String,
    pub result: Option<String>,
    pub error: Option<String>,
}

/// Public key response
#[derive(Debug, Clone)]
pub struct PublicKeyResult {
    pub pubkey_hex: String,
    pub npub: String,
}

/// Signed event response
#[derive(Debug, Clone)]
pub struct SignedEventResult {
    pub event_json: String,
    pub signature: String,
    pub event_id: String,
}

/// Encryption result
#[derive(Debug, Clone)]
pub struct EncryptResult {
    pub ciphertext: String,
}

/// Decryption result
#[derive(Debug, Clone)]
pub struct DecryptResult {
    pub plaintext: String,
}

/// Key info
#[derive(Debug, Clone)]
pub struct KeyInfo {
    pub id: String,
    pub name: String,
    pub pubkey_hex: String,
    pub npub: String,
    pub is_default: bool,
}

/// The text of an optional string.
pub open spec fn opt_view(s: Option<String>) -> Option<Seq<char>> {
    match s {
        Some(s) => Some(s@),
        None => None,
    }
}

/// Whether `text` is an answer of the signer: JSON that says whether the
/// call succeeded and under which identifier.
pub open spec fn is_response(text: Seq<char>) -> bool {
    json_valid(text) && json_flag(text, "/success"@) is Some && json_string(text, "/id"@) is Some
}

impl SignerResponse {
    /// Reads an answer of the signer. The result and the error are taken
    /// where they are strings.
    pub fn from_json(text: &str) -> (r: Option<SignerResponse>)
        ensures
            match r {
                Some(response) => {
                    &&& is_response(text@)
                    &&& Some(response.success) == json_flag(text@, "/success"@)
                    &&& Some(response.id@) == json_string(text@, "/id"@)
                    &&& opt_view(response.result) == json_string(text@, "/result"@)
                    &&& opt_view(response.error) == json_string(text@, "/error"@)
                },
                None => !is_response(text@),
            },
    {
        if !json::is_valid(text) {
            return None;
        }
        let success = match json::flag_at(text, "/success") {
            Some(success) => success,
            None => {
                return None;
            },
        };
        let id = match json::string_at(text, "/id") {
            Some(id) => id,
            None => {
                return None;
            },
        };
        let result = json::string_at(text, "/result");
        let error = json::string_at(text, "/error");
        Some(SignerResponse { success, id, result, error })
    }

    /// What the answer amounts to: the result of a call that succeeded,
    /// empty if none was sent, or the error of one that failed,
    /// `Unknown error` if none was sent.
    pub fn into_result(self) -> (r: Result<String, String>)
        ensures
            match r {
                Ok(result) => self.success && result@ == match self.result {
                    Some(s) => s@,
                    None => Seq::empty(),
                },
                Err(error) => !self.success && error@ == match self.error {
                    Some(s) => s@,
                    None => "Unknown error"@,
                },
            },
    {
        if self.success {
            match self.result {
                Some(result) => Ok(result),
                None => Ok(String::new()),
            }
        } else {
            match self.error {
                Some(error) => Err(error),
                None => Err(owned("Unknown error")),
            }
        }
    }
}

impl PublicKeyResult {
    /// Reads the result of `get_public_key`: an object with the key in hex
    /// under `hex` and in its npub form under `npub`.
    pub fn from_json(text: &str) -> (r: Option<PublicKeyResult>)
        ensures
            match r {
                Some(key) => Some(key.pubkey_hex@) == json_string(text@, "/hex"@) && Some(key.npub@)
                    == json_string(text@, "/npub"@),
                None => json_string(text@, "/hex"@) is None || json_string(text@, "/npub"@) is None,
            },
    {
        let pubkey_hex = match json::string_at(text, "/hex") {
            Some(s) => s,
            None => {
                return None;
            },
        };
        let npub = match json::string_at(text, "/npub") {
            Some(s) => s,
            None => {
                return None;
            },
        };
        Some(PublicKeyResult { pubkey_hex, npub })
    }
}

impl SignedEventResult {
    /// Reads the result of `sign_event`: an object with the signed event
    /// as JSON text under `event_json` and its signature under
    /// `signature`. The event's identifier is read out of the event.
    pub fn from_json(text: &str) -> (r: Option<SignedEventResult>)
        ensures
            match r {
                Some(signed) => {
                    &&& Some(signed.event_json@) == json_string(text@, "/event_json"@)
                    &&& Some(signed.signature@) == json_string(text@, "/signature"@)
                    &&& Some(signed.event_id@) == json_string(signed.event_json@, "/id"@)
                },
                None => json_string(text@, "/event_json"@) matches Some(event) ==> json_string(
                    text@,
                    "/signature"@,
                ) is None || json_string(event, "/id"@) is None,
            },
    {
        let event_json = match json::string_at(text, "/event_json") {
            Some(s) => s,
            None => {
                return None;
            },
        };
        let signature = match json::string_at(text, "/signature") {
            Some(s) => s,
            None => {
                return None;
            },
        };
        let event_id = match json::string_at(event_json.as_str(), "/id") {
            Some(s) => s,
            None => {
                return None;
            },
        };
        Some(SignedEventResult { event_json, signature, event_id })
    }
}

impl EncryptResult {
    /// Reads the result of an encryption: an object with the ciphertext
    /// under `ciphertext`.
    pub fn from_json(text: &str) -> (r: Option<EncryptResult>)
        ensures
            match r {
                Some(result) => Some(result.ciphertext@) == json_string(text@, "/ciphertext"@),
                None => json_string(text@, "/ciphertext"@) is None,
            },
    {
        match json::string_at(text, "/ciphertext") {
            Some(ciphertext) => Some(EncryptResult { ciphertext }),
            None => None,
        }
    }
}

impl DecryptResult {
    /// Reads the result of a decryption: an object with the plaintext
    /// under `plaintext`.
    pub fn from_json(text: &str) -> (r: Option<DecryptResult>)
        ensures
            match r {
                Some(result) => Some(result.plaintext@) == json_string(text@, "/plaintext"@),
                None => json_string(text@, "/plaintext"@) is None,
            },
    {
        match json::string_at(text, "/plaintext") {
            Some(plaintext) => Some(DecryptResult { plaintext }),
            None => None,
        }
    }
}

/// The JSON Pointer to the member `field` of the item at `index` of an
/// array.
pub open spec fn item_pointer(index: nat, field: Seq<char>) -> Seq<char> {
    "/"@ + radix_digits(index, 10) + field
}

/// Whether `text` holds at `index` what is known of a key: its name, both
/// forms of its public key, and whether it is the active one.
pub open spec fn is_key_at(text: Seq<char>, index: nat) -> bool {
    &&& json_string(text, item_pointer(index, "/name"@)) is Some
    &&& json_string(text, item_pointer(index, "/pubkey_hex"@)) is Some
    &&& json_string(text, item_pointer(index, "/npub"@)) is Some
    &&& json_flag(text, item_pointer(index, "/is_active"@)) is Some
}

/// Whether `key` is what `text` holds at `index`. A key is identified by
/// its name, and the active key is the default.
pub open spec fn key_matches(key: KeyInfo, text: Seq<char>, index: nat) -> bool {
    &&& Some(key.name@) == json_string(text, item_pointer(index, "/name"@))
    &&& key.id@ == key.name@
    &&& Some(key.pubkey_hex@) == json_string(text, item_pointer(index, "/pubkey_hex"@))
    &&& Some(key.npub@) == json_string(text, item_pointer(index, "/npub"@))
    &&& Some(key.is_default) == json_flag(text, item_pointer(index, "/is_active"@))
}

impl KeyInfo {
    fn at(text: &str, index: usize) -> (r: Option<KeyInfo>)
        ensures
            match r {
                Some(key) => key_matches(key, text@, index as nat),
                None => !is_key_at(text@, index as nat),
            },
    {
        let prefix = join2("/", decimal(index as u64).as_str());
        let name = match json::string_at(text, join2(prefix.as_str(), "/name").as_str()) {
            Some(s) => s,
            None => {
                return None;
            },
        };
        let pubkey_hex = match json::string_at(text, join2(prefix.as_str(), "/pubkey_hex").as_str()) {
            Some(s) => s,
            None => {
                return None;
            },
        };
        let npub = match json::string_at(text, join2(prefix.as_str(), "/npub").as_str()) {
            Some(s) => s,
            None => {
                return None;
            },
        };
        let is_default = match json::flag_at(text, join2(prefix.as_str(), "/is_active").as_str()) {
            Some(b) => b,
            None => {
                return None;
            },
        };
        Some(KeyInfo { id: name.clone(), name, pubkey_hex, npub, is_default })
    }

    /// Reads the answer to `list_keys`: an array of what is known of each
    /// key. An answer that is no array, or holds an item that is not a
    /// key, is refused whole.
    pub fn list_from_json(text: &str) -> (r: Option<Vec<KeyInfo>>)
        ensures
            match r {
                Some(keys) => {
                    &&& json_array_len(text@, Seq::empty()) == Some(keys@.len() as usize)
                    &&& forall|i: int| 0 <= i < keys@.len() ==> key_matches(#[trigger] keys@[i], text@, i as nat)
                },
                None => json_array_len(text@, Seq::empty()) matches Some(len) ==> exists|i: int|
                    0 <= i < len && !#[trigger] is_key_at(text@, i as nat),
            },
    {
        let len = match json::array_len_at(text, "") {
            Some(len) => len,
            None => {
                assert(""@ =~= Seq::<char>::empty()) by {
                    reveal_strlit("");
                }
                return None;
            },
        };
        assert(""@ =~= Seq::<char>::empty()) by {
            reveal_strlit("");
        }
        let mut keys: Vec<KeyInfo> = Vec::new();
        let mut i: usize = 0;
        while i < len
            invariant
                i <= len,
                keys@.len() == i,
                json_array_len(text@, Seq::empty()) == Some(len),
                forall|j: int| 0 <= j < i ==> key_matches(#[trigger] keys@[j], text@, j as nat),
            decreases len - i,
        {
            match KeyInfo::at(text, i) {
                Some(key) => {
                    keys.push(key);
                },
                None => {
                    let ghost k = i as int;
                    assert(!is_key_at(text@, k as nat));
                    return None;
                },
            }
            i += 1;
        }
        Some(keys)
    }
}

} // verus!
