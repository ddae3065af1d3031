//! The permission gate and the rate limiter.

use vstd::prelude::*;
use std::time::{Duration, Instant};
use crate::config::{find_app, AppPermissions, AuthorizedApp, Config};
use crate::text::{str_eq, join2, owned};

verus! {

/// The operations an application can ask for.
#[derive(Debug, Clone, Copy, PartialEq, Eq, Structural, Hash)]
pub enum RequestType {
    GetPublicKey,
    SignEvent,
    Nip04Encrypt,
    Nip04Decrypt,
    Nip44Encrypt,
    Nip44Decrypt,
    DecryptZapEvent,
}

impl RequestType {
    /// The wire name of the operation.
    pub open spec fn name(self) -> Seq<char> {
        match self {
            RequestType::GetPublicKey => "get_public_key"@,
            RequestType::SignEvent => "sign_event"@,
            RequestType::Nip04Encrypt => "nip04_encrypt"@,
            RequestType::Nip04Decrypt => "nip04_decrypt"@,
            RequestType::Nip44Encrypt => "nip44_encrypt"@,
            RequestType::Nip44Decrypt => "nip44_decrypt"@,
            RequestType::DecryptZapEvent => "decrypt_zap_event"@,
        }
    }

    /// The operation with the given wire name, if there is one.
    pub open spec fn named(s: Seq<char>) -> Option<RequestType> {
        if s == "get_public_key"@ {
            Some(RequestType::GetPublicKey)
        } else if s == "sign_event"@ {
            Some(RequestType::SignEvent)
        } else if s == "nip04_encrypt"@ {
            Some(RequestType::Nip04Encrypt)
        } else if s == "nip04_decrypt"@ {
            Some(RequestType::Nip04Decrypt)
        } else if s == "nip44_encrypt"@ {
            Some(RequestType::Nip44Encrypt)
        } else if s == "nip44_decrypt"@ {
            Some(RequestType::Nip44Decrypt)
        } else if s == "decrypt_zap_event"@ {
            Some(RequestType::DecryptZapEvent)
        } else {
            None
        }
    }

    pub fn as_str(&self) -> (s: &'static str)
        ensures
            s@ == self.name(),
    {
        match self {
            RequestType::GetPublicKey => "get_public_key",
            RequestType::SignEvent => "sign_event",
            RequestType::Nip04Encrypt => "nip04_encrypt",
            RequestType::Nip04Decrypt => "nip04_decrypt",
            RequestType::Nip44Encrypt => "nip44_encrypt",
            RequestType::Nip44Decrypt => "nip44_decrypt",
            RequestType::DecryptZapEvent => "decrypt_zap_event",
        }
    }

    /// The name shown to the user.
    pub open spec fn title(self) -> Seq<char> {
        match self {
            RequestType::GetPublicKey => "Get Public Key"@,
            RequestType::SignEvent => "Sign Event"@,
            RequestType::Nip04Encrypt => "NIP-04 Encrypt"@,
            RequestType::Nip04Decrypt => "NIP-04 Decrypt"@,
            RequestType::Nip44Encrypt => "NIP-44 Encrypt"@,
            RequestType::Nip44Decrypt => "NIP-44 Decrypt"@,
            RequestType::DecryptZapEvent => "Decrypt Zap Event"@,
        }
    }

    pub fn display_name(&self) -> (s: &'static str)
        ensures
            s@ == self.title(),
    {
        match self {
            RequestType::GetPublicKey => "Get Public Key",
            RequestType::SignEvent => "Sign Event",
            RequestType::Nip04Encrypt => "NIP-04 Encrypt",
            RequestType::Nip04Decrypt => "NIP-04 Decrypt",
            RequestType::Nip44Encrypt => "NIP-44 Encrypt",
            RequestType::Nip44Decrypt => "NIP-44 Decrypt",
            RequestType::DecryptZapEvent => "Decrypt Zap Event",
        }
    }

    /// The sentence that explains the operation to the user.
    pub open spec fn summary(self) -> Seq<char> {
        match self {
            RequestType::GetPublicKey => "Access your public key (npub)"@,
            RequestType::SignEvent => "Sign a Nostr event with your private key"@,
            RequestType::Nip04Encrypt => "Encrypt a message using NIP-04"@,
            RequestType::Nip04Decrypt => "Decrypt a message using NIP-04"@,
            RequestType::Nip44Encrypt => "Encrypt a message using NIP-44"@,
            RequestType::Nip44Decrypt => "Decrypt a message using NIP-44"@,
            RequestType::DecryptZapEvent => "Decrypt a zap event"@,
        }
    }

    pub fn description(&self) -> (s: &'static str)
        ensures
            s@ == self.summary(),
    {
        match self {
            RequestType::GetPublicKey => "Access your public key (npub)",
            RequestType::SignEvent => "Sign a Nostr event with your private key",
            RequestType::Nip04Encrypt => "Encrypt a message using NIP-04",
            RequestType::Nip04Decrypt => "Decrypt a message using NIP-04",
            RequestType::Nip44Encrypt => "Encrypt a message using NIP-44",
            RequestType::Nip44Decrypt => "Decrypt a message using NIP-44",
            RequestType::DecryptZapEvent => "Decrypt a zap event",
        }
    }

    /// Every operation but reading the public key touches the secret key.
    pub fn is_sensitive(&self) -> (b: bool)
        ensures
            b == (*self != RequestType::GetPublicKey),
    {
        match self {
            RequestType::GetPublicKey => false,
            _ => true,
        }
    }

    /// Reads a wire name. An unknown name is answered with a message that
    /// quotes it.
    pub fn from_name(s: &str) -> (r: Result<RequestType, String>)
        ensures
            match RequestType::named(s@) {
                Some(t) => r == Ok::<RequestType, String>(t),
                None => r matches Err(msg) && msg@ == "Unknown request type: "@ + s@,
            },
    {
        if str_eq(s, "get_public_key") {
            Ok(RequestType::GetPublicKey)
        } else if str_eq(s, "sign_event") {
            Ok(RequestType::SignEvent)
        } else if str_eq(s, "nip04_encrypt") {
            Ok(RequestType::Nip04Encrypt)
        } else if str_eq(s, "nip04_decrypt") {
            Ok(RequestType::Nip04Decrypt)
        } else if str_eq(s, "nip44_encrypt") {
            Ok(RequestType::Nip44Encrypt)
        } else if str_eq(s, "nip44_decrypt") {
            Ok(RequestType::Nip44Decrypt)
        } else if str_eq(s, "decrypt_zap_event") {
            Ok(RequestType::DecryptZapEvent)
        } else {
            Err(join2("Unknown request type: ", s))
        }
    }
}

impl std::str::FromStr for RequestType {
    type Err = String;

    fn from_str(s: &str) -> (r: Result<RequestType, String>)
        ensures
            match RequestType::named(s@) {
                Some(t) => r == Ok::<RequestType, String>(t),
                None => r matches Err(msg) && msg@ == "Unknown request type: "@ + s@,
            },
    {
        RequestType::from_name(s)
    }
}

/// Reading back the wire name of an operation gives that operation.
pub proof fn lemma_name_round_trip(t: RequestType)
    ensures
        RequestType::named(t.name()) == Some(t),
{
    reveal_strlit("get_public_key");
    reveal_strlit("sign_event");
    reveal_strlit("nip04_encrypt");
    reveal_strlit("nip04_decrypt");
    reveal_strlit("nip44_encrypt");
    reveal_strlit("nip44_decrypt");
    reveal_strlit("decrypt_zap_event");
    assert("get_public_key"@.len() == 14);
    assert("sign_event"@.len() == 10);
    assert("decrypt_zap_event"@.len() == 17);
    assert("nip04_encrypt"@.len() == 13 && "nip04_encrypt"@[3] == '0' && "nip04_encrypt"@[6] == 'e');
    assert("nip04_decrypt"@.len() == 13 && "nip04_decrypt"@[3] == '0' && "nip04_decrypt"@[6] == 'd');
    assert("nip44_encrypt"@.len() == 13 && "nip44_encrypt"@[3] == '4' && "nip44_encrypt"@[6] == 'e');
    assert("nip44_decrypt"@.len() == 13 && "nip44_decrypt"@[3] == '4' && "nip44_decrypt"@[6] == 'd');
}

/// Whether a capability record allows an operation.
///
/// Signing is allowed when no list of kinds is set, or when the event's kind
/// is on the list. Every other operation goes by its own flag.
pub open spec fn permits(p: AppPermissions, request_type: RequestType, event_kind: Option<u16>) -> bool {
    match request_type {
        RequestType::GetPublicKey => p.get_public_key,
        RequestType::SignEvent => match p.sign_event {
            None => true,
            Some(kinds) => event_kind matches Some(k) && kinds@.contains(k),
        },
        RequestType::Nip04Encrypt => p.nip04_encrypt,
        RequestType::Nip04Decrypt => p.nip04_decrypt,
        RequestType::Nip44Encrypt => p.nip44_encrypt,
        RequestType::Nip44Decrypt => p.nip44_decrypt,
        RequestType::DecryptZapEvent => p.decrypt_zap_event,
    }
}

/// Whether `k` occurs in `kinds`.
pub fn kind_listed(kinds: &Vec<u16>, k: u16) -> (found: bool)
    ensures
        found == kinds@.contains(k),
{
    let mut i: usize = 0;
    while i < kinds.len()
        invariant
            i <= kinds.len(),
            forall|j: int| 0 <= j < i ==> kinds@[j] != k,
        decreases kinds.len() - i,
    {
        if kinds[i] == k {
            return true;
        }
        i += 1;
    }
    false
}

/// The permission gate.
pub struct PermissionChecker;

impl PermissionChecker {
    /// Decides from the stored capabilities alone; nothing is read or changed.
    pub fn check_permission(
        permissions: &AppPermissions,
        request_type: RequestType,
        event_kind: Option<u16>,
    ) -> (allowed: bool)
        ensures
            allowed == permits(*permissions, request_type, event_kind),
    {
        match request_type {
            RequestType::GetPublicKey => permissions.get_public_key,
            RequestType::SignEvent => match &permissions.sign_event {
                None => true,
                Some(kinds) => match event_kind {
                    Some(k) => kind_listed(kinds, k),
                    None => false,
                },
            },
            RequestType::Nip04Encrypt => permissions.nip04_encrypt,
            RequestType::Nip04Decrypt => permissions.nip04_decrypt,
            RequestType::Nip44Encrypt => permissions.nip44_encrypt,
            RequestType::Nip44Decrypt => permissions.nip44_decrypt,
            RequestType::DecryptZapEvent => permissions.decrypt_zap_event,
        }
    }
}

/// With a list of kinds set, signing kind `k` is allowed exactly when `k` is
/// on the list; with none set, every kind is allowed; with an empty list,
/// none is.
pub proof fn lemma_sign_event_allowlist(p: AppPermissions, k: u16)
    ensures
        p.sign_event matches Some(kinds) ==> (permits(p, RequestType::SignEvent, Some(k))
            <==> kinds@.contains(k)),
        p.sign_event is None ==> permits(p, RequestType::SignEvent, Some(k)),
        p.sign_event matches Some(kinds) && kinds@.len() == 0 ==> !permits(
            p,
            RequestType::SignEvent,
            Some(k),
        ),
{
}

/// The length of the sliding window, in milliseconds.
pub const WINDOW_MILLIS: u64 = 60_000;

/// Whether a request recorded at `t` still counts at `now`: it does while
/// fewer than sixty seconds have passed since.
pub open spec fn live(t: u64, now: u64) -> bool {
    t + WINDOW_MILLIS > now
}

/// The recorded times that still count at `now`, in their order.
pub open spec fn prune(stamps: Seq<u64>, now: u64) -> Seq<u64> {
    stamps.filter(|t: u64| live(t, now))
}

/// Whether a request at `now` is let through, given what was recorded before.
pub open spec fn admits(stamps: Seq<u64>, now: u64, max: u32) -> bool {
    prune(stamps, now).len() < max
}

/// What is on record after a request at `now`: the times that still count,
/// and `now` itself if the request was let through.
pub open spec fn after_call(stamps: Seq<u64>, now: u64, max: u32) -> Seq<u64> {
    if admits(stamps, now, max) {
        prune(stamps, now).push(now)
    } else {
        prune(stamps, now)
    }
}

/// What is on record after requests at each of `times`, in order.
pub open spec fn replay(stamps: Seq<u64>, times: Seq<u64>, max: u32) -> Seq<u64>
    decreases times.len(),
{
    if times.len() == 0 {
        stamps
    } else {
        after_call(replay(stamps, times.drop_last(), max), times.last(), max)
    }
}

proof fn lemma_prune_empty(now: u64)
    ensures
        prune(Seq::<u64>::empty(), now) == Seq::<u64>::empty(),
{
    reveal(Seq::filter);
}

proof fn lemma_prune_push(stamps: Seq<u64>, t: u64, now: u64)
    ensures
        prune(stamps.push(t), now) == if live(t, now) {
            prune(stamps, now).push(t)
        } else {
            prune(stamps, now)
        },
{
    stamps.lemma_filter_push(t, |x: u64| live(x, now));
}

proof fn lemma_prune_all_live(stamps: Seq<u64>, now: u64)
    requires
        forall|i: int| 0 <= i < stamps.len() ==> live(#[trigger] stamps[i], now),
    ensures
        prune(stamps, now) == stamps,
    decreases stamps.len(),
{
    if stamps.len() == 0 {
        lemma_prune_empty(now);
        assert(stamps == Seq::<u64>::empty());
    } else {
        lemma_prune_all_live(stamps.drop_last(), now);
        lemma_prune_push(stamps.drop_last(), stamps.last(), now);
        assert(stamps.drop_last().push(stamps.last()) == stamps);
    }
}

proof fn lemma_prune_none_live(stamps: Seq<u64>, now: u64)
    requires
        forall|i: int| 0 <= i < stamps.len() ==> !live(#[trigger] stamps[i], now),
    ensures
        prune(stamps, now) == Seq::<u64>::empty(),
    decreases stamps.len(),
{
    if stamps.len() == 0 {
        lemma_prune_empty(now);
        assert(stamps == Seq::<u64>::empty());
    } else {
        lemma_prune_none_live(stamps.drop_last(), now);
        lemma_prune_push(stamps.drop_last(), stamps.last(), now);
        assert(stamps.drop_last().push(stamps.last()) == stamps);
    }
}

/// Starting with nothing that still counts, requests that all fall within
/// one window are let through until the ceiling is reached: the first `max`
/// of them are recorded, and every later one is refused and leaves the
/// record as it was.
pub proof fn lemma_window_fills(stamps: Seq<u64>, times: Seq<u64>, max: u32, n: int)
    requires
        1 <= n <= times.len(),
        prune(stamps, times[0]).len() == 0,
        forall|i: int, j: int| 0 <= i <= j < times.len() ==> times[i] <= times[j],
        forall|i: int| 0 <= i < times.len() ==> (#[trigger] times[i]) < times[0] + WINDOW_MILLIS,
    ensures
        admits(replay(stamps, times.take(n - 1), max), times[n - 1], max) == (n <= max),
        replay(stamps, times.take(n), max) == times.take(if n <= max { n } else { max as int }),
    decreases n,
{
    let before = replay(stamps, times.take(n - 1), max);
    let now = times[n - 1];
    assert(times.take(n).drop_last() == times.take(n - 1));
    assert(times.take(n).last() == now);
    if n == 1 {
        assert(times.take(0).len() == 0);
        assert(before == stamps);
        assert(prune(stamps, now) == Seq::<u64>::empty());
        if max > 0 {
            assert(Seq::<u64>::empty().push(now) == times.take(1));
        } else {
            assert(times.take(0) == Seq::<u64>::empty());
        }
    } else {
        lemma_window_fills(stamps, times, max, n - 1);
        let kept = if n - 1 <= max { n - 1 } else { max as int };
        assert(before == times.take(kept));
        assert forall|i: int| 0 <= i < before.len() implies live(#[trigger] before[i], now) by {
            assert(before[i] == times[i]);
        }
        lemma_prune_all_live(before, now);
        if n <= max {
            assert(times.take(n - 1).push(now) == times.take(n));
        }
    }
}

/// Whatever the times of the requests, a record that began empty never
/// holds more of them than the ceiling allows.
pub proof fn lemma_record_is_bounded(times: Seq<u64>, max: u32)
    ensures
        replay(Seq::empty(), times, max).len() <= max,
    decreases times.len(),
{
    if times.len() > 0 {
        lemma_record_is_bounded(times.drop_last(), max);
        let before = replay(Seq::empty(), times.drop_last(), max);
        before.lemma_filter_len(|t: u64| live(t, times.last()));
    }
}

/// Once every recorded request is sixty seconds old or older, the count
/// starts again: nothing of the record is kept, and a new request is let
/// through whenever the ceiling is above zero.
pub proof fn lemma_window_resets(stamps: Seq<u64>, now: u64, max: u32)
    requires
        forall|i: int| 0 <= i < stamps.len() ==> (#[trigger] stamps[i]) + WINDOW_MILLIS <= now,
    ensures
        prune(stamps, now).len() == 0,
        admits(stamps, now, max) == (max > 0),
        max > 0 ==> after_call(stamps, now, max) == seq![now],
{
    lemma_prune_none_live(stamps, now);
    assert(Seq::<u64>::empty().push(now) == seq![now]);
}

/// The requests of one application for one operation that are on record.
pub struct LedgerEntry {
    app_id: String,
    request_type: RequestType,
    stamps: Vec<u64>,
}

impl LedgerEntry {
    pub closed spec fn is_for(self, app: Seq<char>, request_type: RequestType) -> bool {
        self.app_id@ == app && self.request_type == request_type
    }
}

spec fn keys_distinct(entries: Seq<LedgerEntry>) -> bool {
    forall|i: int, j: int|
        0 <= i < j < entries.len() ==> !(#[trigger] entries[i]).is_for(
            (#[trigger] entries[j]).app_id@,
            entries[j].request_type,
        )
}

spec fn has_entry(entries: Seq<LedgerEntry>, app: Seq<char>, request_type: RequestType) -> bool {
    exists|i: int| 0 <= i < entries.len() && (#[trigger] entries[i]).is_for(app, request_type)
}

spec fn history_in(entries: Seq<LedgerEntry>, app: Seq<char>, request_type: RequestType) -> Seq<u64>
    decreases entries.len(),
{
    if entries.len() == 0 {
        Seq::empty()
    } else if entries.last().is_for(app, request_type) {
        entries.last().stamps@
    } else {
        history_in(entries.drop_last(), app, request_type)
    }
}

proof fn lemma_history_absent(entries: Seq<LedgerEntry>, app: Seq<char>, request_type: RequestType)
    requires
        !has_entry(entries, app, request_type),
    ensures
        history_in(entries, app, request_type) == Seq::<u64>::empty(),
    decreases entries.len(),
{
    if entries.len() > 0 {
        assert(!entries[entries.len() - 1].is_for(app, request_type));
        assert forall|i: int| 0 <= i < entries.drop_last().len() implies !(#[trigger] entries.drop_last()[i]).is_for(app, request_type) by {
            assert(entries.drop_last()[i] == entries[i]);
        }
        lemma_history_absent(entries.drop_last(), app, request_type);
    }
}

proof fn lemma_history_at(entries: Seq<LedgerEntry>, k: int, app: Seq<char>, request_type: RequestType)
    requires
        keys_distinct(entries),
        0 <= k < entries.len(),
        entries[k].is_for(app, request_type),
    ensures
        history_in(entries, app, request_type) == entries[k].stamps@,
    decreases entries.len(),
{
    if k < entries.len() - 1 {
        assert(!entries[k].is_for(entries[entries.len() - 1].app_id@, entries[entries.len() - 1].request_type));
        assert forall|i: int, j: int| 0 <= i < j < entries.drop_last().len() implies !(#[trigger] entries.drop_last()[i]).is_for(
            (#[trigger] entries.drop_last()[j]).app_id@,
            entries.drop_last()[j].request_type,
        ) by {
            assert(entries.drop_last()[i] == entries[i]);
            assert(entries.drop_last()[j] == entries[j]);
        }
        assert(entries.drop_last()[k] == entries[k]);
        lemma_history_at(entries.drop_last(), k, app, request_type);
    }
}

proof fn lemma_history_remove(entries: Seq<LedgerEntry>, k: int, app: Seq<char>, request_type: RequestType)
    requires
        keys_distinct(entries),
        0 <= k < entries.len(),
    ensures
        keys_distinct(entries.remove(k)),
        entries[k].is_for(app, request_type) ==> !has_entry(entries.remove(k), app, request_type),
        !entries[k].is_for(app, request_type) ==> history_in(entries.remove(k), app, request_type)
            == history_in(entries, app, request_type),
        !entries[k].is_for(app, request_type) ==> (has_entry(entries.remove(k), app, request_type)
            <==> has_entry(entries, app, request_type)),
{
    let rest = entries.remove(k);
    assert forall|i: int| 0 <= i < rest.len() implies #[trigger] rest[i] == entries[if i < k { i } else { i + 1 }] by {}
    assert forall|i: int, j: int| 0 <= i < j < rest.len() implies !(#[trigger] rest[i]).is_for(
        (#[trigger] rest[j]).app_id@,
        rest[j].request_type,
    ) by {
        let a = if i < k { i } else { i + 1 };
        let b = if j < k { j } else { j + 1 };
        assert(rest[i] == entries[a] && rest[j] == entries[b]);
    }
    if entries[k].is_for(app, request_type) {
        assert forall|i: int| 0 <= i < rest.len() implies !(#[trigger] rest[i]).is_for(app, request_type) by {
            let a = if i < k { i } else { i + 1 };
            assert(rest[i] == entries[a]);
            if a < k {
                assert(!entries[a].is_for(entries[k].app_id@, entries[k].request_type));
            } else {
                assert(!entries[k].is_for(entries[a].app_id@, entries[a].request_type));
            }
        }
    } else {
        if has_entry(entries, app, request_type) {
            let w = choose|i: int| 0 <= i < entries.len() && (#[trigger] entries[i]).is_for(app, request_type);
            let w2 = if w < k { w } else { w - 1 };
            assert(rest[w2] == entries[w]);
            assert(has_entry(rest, app, request_type));
            lemma_history_at(entries, w, app, request_type);
            lemma_history_at(rest, w2, app, request_type);
        } else {
            assert forall|i: int| 0 <= i < rest.len() implies !(#[trigger] rest[i]).is_for(app, request_type) by {
                let a = if i < k { i } else { i + 1 };
                assert(rest[i] == entries[a]);
            }
            lemma_history_absent(entries, app, request_type);
            lemma_history_absent(rest, app, request_type);
        }
    }
}

proof fn lemma_history_push(entries: Seq<LedgerEntry>, e: LedgerEntry, app: Seq<char>, request_type: RequestType)
    requires
        keys_distinct(entries),
        !has_entry(entries, e.app_id@, e.request_type),
    ensures
        keys_distinct(entries.push(e)),
        history_in(entries.push(e), app, request_type) == if e.is_for(app, request_type) {
            e.stamps@
        } else {
            history_in(entries, app, request_type)
        },
        has_entry(entries.push(e), app, request_type) <==> (e.is_for(app, request_type) || has_entry(
            entries,
            app,
            request_type,
        )),
{
    let more = entries.push(e);
    assert(more.drop_last() == entries);
    assert(more.last() == e);
    assert forall|i: int, j: int| 0 <= i < j < more.len() implies !(#[trigger] more[i]).is_for(
        (#[trigger] more[j]).app_id@,
        more[j].request_type,
    ) by {
        if j < entries.len() {
            assert(more[i] == entries[i] && more[j] == entries[j]);
        } else {
            assert(more[i] == entries[i]);
        }
    }
    if has_entry(entries, app, request_type) {
        let w = choose|i: int| 0 <= i < entries.len() && (#[trigger] entries[i]).is_for(app, request_type);
        assert(more[w].is_for(app, request_type));
    }
    if e.is_for(app, request_type) {
        assert(more[more.len() - 1].is_for(app, request_type));
    }
    if has_entry(more, app, request_type) && !e.is_for(app, request_type) {
        let w = choose|i: int| 0 <= i < more.len() && (#[trigger] more[i]).is_for(app, request_type);
        assert(entries[w].is_for(app, request_type));
    }
}

/// Trusted: `std::time::Instant`, a reading of the monotonic clock.
#[verifier::external_type_specification]
#[verifier::external_body]
pub struct ExInstant(Instant);

/// Trusted: `Instant::now` reads the monotonic clock. Nothing is claimed of
/// the reading.
pub assume_specification[ Instant::now ]() -> Instant;

/// Trusted: `Instant::elapsed` measures the time since the reading was
/// taken. Nothing is claimed of the span.
pub assume_specification[ Instant::elapsed ](origin: &Instant) -> Duration;

/// Trusted: `Duration::as_millis` gives the span in whole milliseconds.
/// Nothing is claimed of the number.
pub assume_specification[ Duration::as_millis ](span: &Duration) -> u128;

/// Keeps the times that still count at `now`.
fn retain_live(stamps: &Vec<u64>, now: u64) -> (kept: Vec<u64>)
    ensures
        kept@ == prune(stamps@, now),
{
    let mut kept: Vec<u64> = Vec::new();
    let mut i: usize = 0;
    proof {
        lemma_prune_empty(now);
        assert(stamps@.take(0) == Seq::<u64>::empty());
    }
    while i < stamps.len()
        invariant
            i <= stamps.len(),
            kept@ == prune(stamps@.take(i as int), now),
        decreases stamps.len() - i,
    {
        let t = stamps[i];
        proof {
            lemma_prune_push(stamps@.take(i as int), t, now);
            assert(stamps@.take(i as int).push(t) == stamps@.take(i + 1));
        }
        let counts = if t >= now {
            true
        } else {
            now - t < WINDOW_MILLIS
        };
        if counts {
            kept.push(t);
        }
        i += 1;
    }
    proof {
        assert(stamps@.take(stamps.len() as int) == stamps@);
    }
    kept
}

/// Where the entry for an application and an operation sits, if there is one.
fn position(entries: &Vec<LedgerEntry>, app_id: &str, request_type: RequestType) -> (found: Option<usize>)
    ensures
        match found {
            Some(k) => k < entries@.len() && entries@[k as int].is_for(app_id@, request_type),
            None => !has_entry(entries@, app_id@, request_type),
        },
{
    let mut i: usize = 0;
    while i < entries.len()
        invariant
            i <= entries@.len(),
            forall|j: int| 0 <= j < i ==> !(#[trigger] entries@[j]).is_for(app_id@, request_type),
        decreases entries@.len() - i,
    {
        if entries[i].request_type == request_type && str_eq(entries[i].app_id.as_str(), app_id) {
            return Some(i);
        }
        i += 1;
    }
    None
}

/// Throttles requests that are approved without asking the user: for each
/// application and operation at most a fixed number within any sixty seconds.
///
/// Times are milliseconds on the limiter's own monotonic clock, which starts
/// when the limiter is made.
pub struct RateLimiter {
    entries: Vec<LedgerEntry>,
    max_per_minute: u32,
    origin: Instant,
}

impl RateLimiter {
    #[verifier::type_invariant]
    spec fn one_entry_per_key(&self) -> bool {
        keys_distinct(self.entries@)
    }

    /// The times on record for an application and an operation, oldest first.
    pub closed spec fn history(&self, app: Seq<char>, request_type: RequestType) -> Seq<u64> {
        history_in(self.entries@, app, request_type)
    }

    /// Whether the ledger holds an entry for an application and an operation.
    pub closed spec fn tracks(&self, app: Seq<char>, request_type: RequestType) -> bool {
        has_entry(self.entries@, app, request_type)
    }

    /// The ceiling: how many requests are let through within sixty seconds.
    pub closed spec fn limit(&self) -> u32 {
        self.max_per_minute
    }

    /// Whether `self` is what `before` becomes by a request of `app` for
    /// `request_type` at `now`, answered with `allowed`.
    pub open spec fn served_from(
        self,
        before: RateLimiter,
        app: Seq<char>,
        request_type: RequestType,
        now: u64,
        allowed: bool,
    ) -> bool {
        &&& allowed == admits(before.history(app, request_type), now, before.limit())
        &&& self.history(app, request_type) == after_call(
            before.history(app, request_type),
            now,
            before.limit(),
        )
        &&& forall|other: Seq<char>, rt: RequestType|
            !(other == app && rt == request_type) ==> #[trigger] self.history(other, rt)
                == before.history(other, rt)
        &&& self.limit() == before.limit()
    }

    /// Whether `self` is what `before` becomes by a sweep at `now`.
    pub open spec fn swept_from(self, before: RateLimiter, now: u64) -> bool {
        &&& forall|app: Seq<char>, rt: RequestType|
            #![trigger self.history(app, rt)]
            self.history(app, rt) == prune(before.history(app, rt), now)
        &&& forall|app: Seq<char>, rt: RequestType|
            #![trigger self.tracks(app, rt)]
            self.tracks(app, rt) <==> prune(before.history(app, rt), now).len() > 0
        &&& self.limit() == before.limit()
    }

    pub fn new(max_per_minute: u32) -> (limiter: Self)
        ensures
            limiter.limit() == max_per_minute,
            forall|app: Seq<char>, request_type: RequestType|
                limiter.history(app, request_type) == Seq::<u64>::empty() && !limiter.tracks(
                    app,
                    request_type,
                ),
    {
        RateLimiter { entries: Vec::new(), max_per_minute, origin: Instant::now() }
    }

    /// The ceiling this limiter was made with.
    pub fn max_per_minute(&self) -> (max: u32)
        ensures
            max == self.limit(),
    {
        self.max_per_minute
    }

    /// The time on the limiter's clock, in milliseconds since it was made.
    pub fn now(&self) -> u64 {
        let millis: u128 = self.origin.elapsed().as_millis();
        if millis > u64::MAX as u128 {
            u64::MAX
        } else {
            millis as u64
        }
    }

    /// Decides on a request at the time `now`: drops what is older than
    /// sixty seconds, lets the request through if fewer than the ceiling
    /// remain, and records it only then. No other application or operation
    /// is touched.
    pub fn check_and_record_at(&mut self, app_id: &str, request_type: RequestType, now: u64) -> (allowed: bool)
        ensures
            final(self).served_from(*old(self), app_id@, request_type, now, allowed),
    {
        proof {
            use_type_invariant(&*self);
        }
        let ghost before = self.entries@;
        let mut entries: Vec<LedgerEntry> = Vec::new();
        std::mem::swap(&mut self.entries, &mut entries);
        let found = position(&entries, app_id, request_type);
        let recorded: Vec<u64> = match found {
            Some(k) => {
                proof {
                    lemma_history_at(before, k as int, app_id@, request_type);
                    lemma_history_remove(before, k as int, app_id@, request_type);
                    assert forall|app: Seq<char>, rt: RequestType| !(app == app_id@ && rt == request_type) implies history_in(
                        before.remove(k as int),
                        app,
                        rt,
                    ) == history_in(before, app, rt) by {
                        lemma_history_remove(before, k as int, app, rt);
                    }
                }
                let entry = entries.remove(k);
                entry.stamps
            },
            None => {
                proof {
                    lemma_history_absent(before, app_id@, request_type);
                }
                Vec::new()
            },
        };
        let ghost rest = entries@;
        let mut kept = retain_live(&recorded, now);
        let allowed = kept.len() < self.max_per_minute as usize;
        if allowed {
            kept.push(now);
        }
        let entry = LedgerEntry { app_id: owned(app_id), request_type, stamps: kept };
        proof {
            lemma_history_push(rest, entry, app_id@, request_type);
            assert forall|app: Seq<char>, rt: RequestType| !(app == app_id@ && rt == request_type) implies history_in(
                rest.push(entry),
                app,
                rt,
            ) == history_in(before, app, rt) by {
                lemma_history_push(rest, entry, app, rt);
            }
        }
        entries.push(entry);
        self.entries = entries;
        allowed
    }

    /// Check if a request is allowed and record it, at the time the
    /// limiter's clock shows.
    pub fn check_and_record(&mut self, app_id: &str, request_type: RequestType) -> (allowed: bool)
        ensures
            exists|now: u64| #[trigger] final(self).served_from(*old(self), app_id@, request_type, now, allowed),
    {
        let now = self.now();
        self.check_and_record_at(app_id, request_type, now)
    }

    /// Sweeps the ledger at the time `now`: every record keeps only the
    /// times that still count, and an entry whose record became empty leaves
    /// the ledger.
    pub fn cleanup_at(&mut self, now: u64)
        ensures
            final(self).swept_from(*old(self), now),
    {
        proof {
            use_type_invariant(&*self);
        }
        let mut entries: Vec<LedgerEntry> = Vec::new();
        std::mem::swap(&mut self.entries, &mut entries);
        let mut out: Vec<LedgerEntry> = Vec::new();
        let mut i: usize = 0;
        proof {
            lemma_prune_empty(now);
            assert(entries@.take(0).len() == 0);
        }
        while i < entries.len()
            invariant
                i <= entries@.len(),
                keys_distinct(entries@),
                keys_distinct(out@),
                forall|app: Seq<char>, rt: RequestType|
                    #![trigger history_in(out@, app, rt)]
                    history_in(out@, app, rt) == prune(history_in(entries@.take(i as int), app, rt), now),
                forall|app: Seq<char>, rt: RequestType|
                    #![trigger has_entry(out@, app, rt)]
                    has_entry(out@, app, rt) <==> prune(
                        history_in(entries@.take(i as int), app, rt),
                        now,
                    ).len() > 0,
            decreases entries@.len() - i,
        {
            let ghost seen = entries@.take(i as int);
            let ghost cur = entries@[i as int];
            let ghost done = out@;
            let kept = retain_live(&entries[i].stamps, now);
            proof {
                assert(entries@.take(i + 1) == seen.push(cur));
                assert(seen.push(cur).drop_last() == seen);
                assert forall|j: int| 0 <= j < seen.len() implies !(#[trigger] seen[j]).is_for(
                    cur.app_id@,
                    cur.request_type,
                ) by {
                    assert(seen[j] == entries@[j]);
                }
                lemma_history_absent(seen, cur.app_id@, cur.request_type);
                assert(!has_entry(done, cur.app_id@, cur.request_type));
            }
            if kept.len() > 0 {
                let entry = LedgerEntry {
                    app_id: entries[i].app_id.clone(),
                    request_type: entries[i].request_type,
                    stamps: kept,
                };
                proof {
                    assert forall|app: Seq<char>, rt: RequestType| #[trigger]
                        history_in(done.push(entry), app, rt) == prune(
                            history_in(seen.push(cur), app, rt),
                            now,
                        ) by {
                        lemma_history_push(done, entry, app, rt);
                        assert(history_in(done, app, rt) == prune(history_in(seen, app, rt), now));
                    }
                    assert forall|app: Seq<char>, rt: RequestType| #[trigger]
                        has_entry(done.push(entry), app, rt) <==> prune(
                            history_in(seen.push(cur), app, rt),
                            now,
                        ).len() > 0 by {
                        lemma_history_push(done, entry, app, rt);
                        assert(has_entry(done, app, rt) <==> prune(history_in(seen, app, rt), now).len() > 0);
                    }
                    lemma_history_push(done, entry, cur.app_id@, cur.request_type);
                }
                out.push(entry);
            } else {
                proof {
                    assert forall|app: Seq<char>, rt: RequestType| #[trigger]
                        history_in(done, app, rt) == prune(history_in(seen.push(cur), app, rt), now) by {
                        if cur.is_for(app, rt) {
                            lemma_history_absent(done, app, rt);
                        }
                    }
                    assert forall|app: Seq<char>, rt: RequestType| #[trigger]
                        has_entry(done, app, rt) <==> prune(history_in(seen.push(cur), app, rt), now).len()
                            > 0 by {
                        assert(has_entry(done, app, rt) <==> prune(history_in(seen, app, rt), now).len() > 0);
                    }
                }
            }
            i += 1;
        }
        proof {
            assert(entries@.take(entries@.len() as int) == entries@);
        }
        self.entries = out;
    }

    /// Clear old entries periodically, at the time the limiter's clock shows.
    pub fn cleanup(&mut self)
        ensures
            exists|now: u64| #[trigger] final(self).swept_from(*old(self), now),
    {
        let now = self.now();
        self.cleanup_at(now);
    }
}

/// What the two gates say of a request.
#[derive(Debug, Clone, Copy, PartialEq, Eq, Structural)]
pub enum Verdict {
    /// The request goes on to the keys
    Allowed,
    /// The application is not on the list
    NotAuthorized,
    /// The application lacks the capability
    PermissionDenied,
    /// The application has used up its allowance for the minute
    RateLimited,
}

/// Whether requests of `app` are approved without asking the user: the
/// signer allows it and the application is set up for it. Only such
/// requests are throttled.
pub open spec fn auto_approved(config: Config, app: AuthorizedApp) -> bool {
    config.security.allow_auto_approve && app.auto_approve
}

/// Whether a request gets as far as the rate limiter: its application is
/// listed, holds the capability, and is approved without asking.
pub open spec fn reaches_limiter(
    config: Config,
    app_id: Seq<char>,
    request_type: RequestType,
    event_kind: Option<u16>,
) -> bool {
    find_app(config.authorized_apps@, app_id) matches Some(app) && permits(
        app.permissions,
        request_type,
        event_kind,
    ) && auto_approved(config, app)
}

/// The verdict on a request, given what the limiter has on record for it.
/// Permission is looked at first; the limiter has a say only in what
/// permission lets through.
pub open spec fn verdict(
    config: Config,
    recorded: Seq<u64>,
    limit: u32,
    app_id: Seq<char>,
    request_type: RequestType,
    event_kind: Option<u16>,
    now: u64,
) -> Verdict {
    match find_app(config.authorized_apps@, app_id) {
        None => Verdict::NotAuthorized,
        Some(app) => if !permits(app.permissions, request_type, event_kind) {
            Verdict::PermissionDenied
        } else if auto_approved(config, app) && !admits(recorded, now, limit) {
            Verdict::RateLimited
        } else {
            Verdict::Allowed
        },
    }
}

impl PermissionChecker {
    /// Whether the application `app_id` is listed and holds the capability
    /// for the operation. Nothing is read but the list, and nothing changes.
    pub fn check(config: &Config, app_id: &str, request_type: RequestType, event_kind: Option<u16>) -> (allowed:
        bool)
        ensures
            allowed == (find_app(config.authorized_apps@, app_id@) matches Some(app) && permits(
                app.permissions,
                request_type,
                event_kind,
            )),
    {
        match config.get_authorized_app(app_id) {
            Some(app) => PermissionChecker::check_permission(&app.permissions, request_type, event_kind),
            None => false,
        }
    }
}

/// Both gates, in their order. The limiter is asked, and records, only if
/// permission has let the request through and the request is approved
/// without asking; in every other case the limiter is left exactly as it
/// was.
pub fn authorize(
    config: &Config,
    limiter: &mut RateLimiter,
    app_id: &str,
    request_type: RequestType,
    event_kind: Option<u16>,
    now: u64,
) -> (v: Verdict)
    ensures
        v == verdict(
            *config,
            old(limiter).history(app_id@, request_type),
            old(limiter).limit(),
            app_id@,
            request_type,
            event_kind,
            now,
        ),
        if reaches_limiter(*config, app_id@, request_type, event_kind) {
            final(limiter).served_from(*old(limiter), app_id@, request_type, now, v is Allowed)
        } else {
            *final(limiter) == *old(limiter)
        },
{
    let app = match config.get_authorized_app(app_id) {
        Some(app) => app,
        None => {
            return Verdict::NotAuthorized;
        },
    };
    if !PermissionChecker::check_permission(&app.permissions, request_type, event_kind) {
        return Verdict::PermissionDenied;
    }
    if config.security.allow_auto_approve && app.auto_approve {
        if limiter.check_and_record_at(app_id, request_type, now) {
            Verdict::Allowed
        } else {
            Verdict::RateLimited
        }
    } else {
        Verdict::Allowed
    }
}

/// A request that permission refuses costs nothing of the allowance: the
/// verdict does not depend on the limiter's record, and the record stays.
pub proof fn lemma_denied_is_free(
    config: Config,
    recorded: Seq<u64>,
    other: Seq<u64>,
    limit: u32,
    app_id: Seq<char>,
    request_type: RequestType,
    event_kind: Option<u16>,
    now: u64,
)
    requires
        verdict(config, recorded, limit, app_id, request_type, event_kind, now) is PermissionDenied || verdict(
            config,
            recorded,
            limit,
            app_id,
            request_type,
            event_kind,
            now,
        ) is NotAuthorized,
    ensures
        !reaches_limiter(config, app_id, request_type, event_kind),
        verdict(config, other, limit, app_id, request_type, event_kind, now) == verdict(
            config,
            recorded,
            limit,
            app_id,
            request_type,
            event_kind,
            now,
        ),
{
}

} // verus!
