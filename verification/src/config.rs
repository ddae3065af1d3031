//! Settings and the list of authorized applications.

use vstd::prelude::*;
use std::path::PathBuf;
use crate::text::{owned, str_eq};
use crate::time::Timestamp;

verus! {

/// Trusted: `std::path::PathBuf`, carried through unread.
#[verifier::external_type_specification]
#[verifier::external_body]
pub struct ExPathBuf(PathBuf);

/// Trusted: `PathBuf::new` makes an empty path. Nothing is claimed of it.
pub assume_specification[ PathBuf::new ]() -> PathBuf;

/// Trusted: `PathBuf::clone` copies a path. Nothing is claimed of the copy.
pub assume_specification[ <PathBuf as Clone>::clone ](path: &PathBuf) -> PathBuf;

pub fn default_true() -> (b: bool)
    ensures
        b,
{
    true
}

pub fn default_timeout() -> (secs: u64)
    ensures
        secs == 60,
{
    60
}

pub fn default_lock_timeout() -> (mins: u64)
    ensures
        mins == 15,
{
    15
}

pub fn default_rate_limit() -> (per_minute: u32)
    ensures
        per_minute == 10,
{
    10
}

pub fn default_theme() -> (theme: String)
    ensures
        theme@ == "system"@,
{
    owned("system")
}

/// Full opacity, in thousandths.
pub fn default_opacity() -> (thousandths: u16)
    ensures
        thousandths == 1000,
{
    1000
}

#[derive(Debug, Clone)]
pub struct GeneralConfig {
    /// Start minimized to tray
    pub start_minimized: bool,
    /// Auto-start on login
    pub auto_start: bool,
    /// Show notifications for signing requests
    pub show_notifications: bool,
    /// Default timeout for signing requests (seconds)
    pub request_timeout_secs: u64,
}

impl Default for GeneralConfig {
    fn default() -> (c: GeneralConfig)
        ensures
            c.start_minimized,
            !c.auto_start,
            c.show_notifications,
            c.request_timeout_secs == 60,
    {
        GeneralConfig {
            start_minimized: true,
            auto_start: false,
            show_notifications: true,
            request_timeout_secs: 60,
        }
    }
}

#[derive(Debug, Clone)]
pub struct SecurityConfig {
    /// Require password on startup
    pub require_password_on_start: bool,
    /// Lock after inactivity (minutes, 0 = never)
    pub lock_timeout_mins: u64,
    /// Require confirmation for all signing requests
    pub always_confirm: bool,
    /// Allow auto-approval for trusted apps and specific event kinds
    pub allow_auto_approve: bool,
    /// Maximum number of auto-approvals per minute (rate limiting)
    pub max_auto_approvals_per_min: u32,
    /// Whether a liveness probe is answered for a sender that is not on the
    /// list of authorized applications
    pub ping_without_authorization: bool,
}

impl Default for SecurityConfig {
    fn default() -> (c: SecurityConfig)
        ensures
            c.require_password_on_start,
            c.lock_timeout_mins == 15,
            c.always_confirm,
            !c.allow_auto_approve,
            c.max_auto_approvals_per_min == 10,
            c.ping_without_authorization,
    {
        SecurityConfig {
            require_password_on_start: true,
            lock_timeout_mins: 15,
            always_confirm: true,
            allow_auto_approve: false,
            max_auto_approvals_per_min: 10,
            ping_without_authorization: true,
        }
    }
}

#[derive(Debug, Clone)]
pub struct UiConfig {
    /// Theme (light, dark, system)
    pub theme: String,
    /// Show event content in approval dialog
    pub show_event_content: bool,
    /// Compact mode for approval dialogs
    pub compact_mode: bool,
    /// Window opacity in thousandths, from 0 (clear) to 1000 (solid)
    pub window_opacity: u16,
}

impl Default for UiConfig {
    fn default() -> (c: UiConfig)
        ensures
            c.theme@ == "system"@,
            c.show_event_content,
            !c.compact_mode,
            c.window_opacity == 1000,
    {
        UiConfig {
            theme: owned("system"),
            show_event_content: true,
            compact_mode: false,
            window_opacity: 1000,
        }
    }
}

/// What one application may ask the signer to do.
///
/// `sign_event` is `None` when every event kind may be signed, and otherwise
/// lists the kinds that may; an empty list allows none.
#[derive(Debug, Clone)]
pub struct AppPermissions {
    pub get_public_key: bool,
    pub sign_event: Option<Vec<u16>>,
    pub nip04_encrypt: bool,
    pub nip04_decrypt: bool,
    pub nip44_encrypt: bool,
    pub nip44_decrypt: bool,
    pub decrypt_zap_event: bool,
}

impl Default for AppPermissions {
    /// Nothing is granted but signing, which is unrestricted until a list of
    /// kinds is set.
    fn default() -> (p: AppPermissions)
        ensures
            !p.get_public_key,
            p.sign_event is None,
            !p.nip04_encrypt,
            !p.nip04_decrypt,
            !p.nip44_encrypt,
            !p.nip44_decrypt,
            !p.decrypt_zap_event,
    {
        AppPermissions {
            get_public_key: false,
            sign_event: None,
            nip04_encrypt: false,
            nip04_decrypt: false,
            nip44_encrypt: false,
            nip44_decrypt: false,
            decrypt_zap_event: false,
        }
    }
}

/// Represents an authorized application
#[derive(Debug, Clone)]
pub struct AuthorizedApp {
    /// Application identifier: a process name, a bus sender, or a remote
    /// peer's public key in hex
    pub app_id: String,
    /// Human-readable name
    pub name: String,
    /// When the app was first authorized
    pub authorized_at: Timestamp,
    /// Permissions granted to this app
    pub permissions: AppPermissions,
    /// Whether auto-approval is enabled for this app
    pub auto_approve: bool,
}

/// Whether `k` is the first place in `apps` that holds the identifier `id`.
pub open spec fn first_with_id(apps: Seq<AuthorizedApp>, id: Seq<char>, k: int) -> bool {
    &&& 0 <= k < apps.len()
    &&& apps[k].app_id@ == id
    &&& forall|j: int| 0 <= j < k ==> (#[trigger] apps[j]).app_id@ != id
}

/// Whether some application in `apps` has the identifier `id`.
pub open spec fn listed(apps: Seq<AuthorizedApp>, id: Seq<char>) -> bool {
    exists|k: int| 0 <= k < apps.len() && (#[trigger] apps[k]).app_id@ == id
}

/// The first application in `apps` that has the identifier `id`.
pub open spec fn find_app(apps: Seq<AuthorizedApp>, id: Seq<char>) -> Option<AuthorizedApp>
    decreases apps.len(),
{
    if apps.len() == 0 {
        None
    } else if apps[0].app_id@ == id {
        Some(apps[0])
    } else {
        find_app(apps.drop_first(), id)
    }
}

/// [`find_app`] finds the application at the first place that holds the
/// identifier, and nothing where no place holds it.
pub proof fn lemma_find_app(apps: Seq<AuthorizedApp>, id: Seq<char>)
    ensures
        listed(apps, id) <==> find_app(apps, id) is Some,
        forall|k: int| first_with_id(apps, id, k) ==> find_app(apps, id) == Some(apps[k]),
        find_app(apps, id) matches Some(app) ==> app.app_id@ == id,
    decreases apps.len(),
{
    if apps.len() == 0 {
    } else if apps[0].app_id@ == id {
        assert forall|k: int| first_with_id(apps, id, k) implies find_app(apps, id) == Some(apps[k]) by {
            if k > 0 {
                assert(apps[0].app_id@ != id);
            }
        }
    } else {
        let rest = apps.drop_first();
        lemma_find_app(rest, id);
        if listed(apps, id) {
            let k = choose|k: int| 0 <= k < apps.len() && (#[trigger] apps[k]).app_id@ == id;
            assert(rest[k - 1] == apps[k]);
        }
        if listed(rest, id) {
            let k = choose|k: int| 0 <= k < rest.len() && (#[trigger] rest[k]).app_id@ == id;
            assert(apps[k + 1] == rest[k]);
        }
        assert forall|k: int| first_with_id(apps, id, k) implies find_app(apps, id) == Some(apps[k]) by {
            assert(k > 0);
            assert(rest[k - 1] == apps[k]);
            assert forall|j: int| 0 <= j < k - 1 implies (#[trigger] rest[j]).app_id@ != id by {
                assert(rest[j] == apps[j + 1]);
            }
            assert(first_with_id(rest, id, k - 1));
        }
    }
}

/// Whether no identifier occurs twice in `apps`.
pub open spec fn ids_distinct(apps: Seq<AuthorizedApp>) -> bool {
    forall|i: int, j: int|
        0 <= i < j < apps.len() ==> (#[trigger] apps[i]).app_id@ != (#[trigger] apps[j]).app_id@
}

/// Whether an application goes by another identifier than `id`.
pub open spec fn has_other_id(app: AuthorizedApp, id: Seq<char>) -> bool {
    app.app_id@ != id
}

/// `apps` without the applications that have the identifier `id`.
pub open spec fn without_id(apps: Seq<AuthorizedApp>, id: Seq<char>) -> Seq<AuthorizedApp> {
    apps.filter(|a: AuthorizedApp| has_other_id(a, id))
}

proof fn lemma_without_push(apps: Seq<AuthorizedApp>, a: AuthorizedApp, id: Seq<char>)
    ensures
        without_id(apps.push(a), id) == if a.app_id@ != id {
            without_id(apps, id).push(a)
        } else {
            without_id(apps, id)
        },
{
    apps.lemma_filter_push(a, |x: AuthorizedApp| has_other_id(x, id));
}

/// Removing an identifier leaves none of it behind, keeps every other
/// application, and keeps identifiers distinct.
pub proof fn lemma_without_id(apps: Seq<AuthorizedApp>, id: Seq<char>)
    ensures
        !listed(without_id(apps, id), id),
        forall|other: Seq<char>| other != id ==> (#[trigger] listed(without_id(apps, id), other) <==> listed(apps, other)),
        ids_distinct(apps) ==> ids_distinct(without_id(apps, id)),
        without_id(apps, id).len() <= apps.len(),
    decreases apps.len(),
{
    let p = |a: AuthorizedApp| has_other_id(a, id);
    let kept = without_id(apps, id);
    broadcast use vstd::seq_lib::group_filter_ensures;
    assert forall|k: int| 0 <= k < kept.len() implies (#[trigger] kept[k]).app_id@ != id by {
        assert(p(kept[k]));
    }
    assert forall|other: Seq<char>| other != id implies (#[trigger] listed(kept, other) <==> listed(apps, other)) by {
        if listed(kept, other) {
            let k = choose|k: int| 0 <= k < kept.len() && (#[trigger] kept[k]).app_id@ == other;
            assert(kept.contains(kept[k]));
            apps.lemma_filter_contains_rev(p, kept[k]);
            let i = choose|i: int| 0 <= i < apps.len() && apps[i] == kept[k];
            assert(apps[i].app_id@ == other);
        }
        if listed(apps, other) {
            let i = choose|i: int| 0 <= i < apps.len() && (#[trigger] apps[i]).app_id@ == other;
            assert(p(apps[i]));
            assert(kept.contains(apps[i]));
            let k = choose|k: int| 0 <= k < kept.len() && kept[k] == apps[i];
            assert(kept[k].app_id@ == other);
        }
    }
    if ids_distinct(apps) {
        lemma_without_distinct(apps, id);
    }
}

proof fn lemma_without_distinct(apps: Seq<AuthorizedApp>, id: Seq<char>)
    requires
        ids_distinct(apps),
    ensures
        ids_distinct(without_id(apps, id)),
        forall|k: int| 0 <= k < without_id(apps, id).len() ==> listed(apps, (#[trigger] without_id(apps, id)[k]).app_id@),
    decreases apps.len(),
{
    if apps.len() == 0 {
        reveal(Seq::filter);
    } else {
        let front = apps.drop_last();
        let last = apps.last();
        assert(front.push(last) == apps);
        assert forall|i: int, j: int| 0 <= i < j < front.len() implies (#[trigger] front[i]).app_id@ != (#[trigger] front[j]).app_id@ by {
            assert(front[i] == apps[i] && front[j] == apps[j]);
        }
        lemma_without_distinct(front, id);
        lemma_without_push(front, last, id);
        let kept_front = without_id(front, id);
        let kept = without_id(apps, id);
        assert forall|k: int| 0 <= k < kept_front.len() implies listed(apps, (#[trigger] kept_front[k]).app_id@) && kept_front[k].app_id@ != last.app_id@ by {
            assert(listed(front, kept_front[k].app_id@));
            let i = choose|i: int| 0 <= i < front.len() && (#[trigger] front[i]).app_id@ == kept_front[k].app_id@;
            assert(apps[i] == front[i]);
            assert(apps[i].app_id@ != apps[apps.len() - 1].app_id@);
        }
        if last.app_id@ != id {
            assert forall|k: int| 0 <= k < kept.len() implies listed(apps, (#[trigger] kept[k]).app_id@) by {
                if k < kept_front.len() {
                    assert(kept[k] == kept_front[k]);
                } else {
                    assert(kept[k] == apps[apps.len() - 1]);
                }
            }
            assert forall|i: int, j: int| 0 <= i < j < kept.len() implies (#[trigger] kept[i]).app_id@ != (#[trigger] kept[j]).app_id@ by {
                assert(kept[i] == kept_front[i]);
                if j < kept_front.len() {
                    assert(kept[j] == kept_front[j]);
                }
            }
        }
    }
}

/// Main configuration structure
#[derive(Debug, Clone)]
pub struct Config {
    /// Path to the configuration file
    pub config_path: PathBuf,
    /// General settings
    pub general: GeneralConfig,
    /// Security settings
    pub security: SecurityConfig,
    /// UI settings
    pub ui: UiConfig,
    /// List of authorized applications
    pub authorized_apps: Vec<AuthorizedApp>,
}

impl Config {
    /// Whether the settings are in range and no application is listed twice.
    pub open spec fn wf(&self) -> bool {
        &&& ids_distinct(self.authorized_apps@)
        &&& self.ui.window_opacity <= 1000
    }

    /// Create a default configuration (for use before loading)
    pub fn default_config() -> (c: Config)
        ensures
            c.wf(),
            c.authorized_apps@.len() == 0,
            c.general.start_minimized && !c.general.auto_start && c.general.show_notifications,
            c.general.request_timeout_secs == 60,
            c.security.require_password_on_start && c.security.always_confirm,
            !c.security.allow_auto_approve,
            c.security.lock_timeout_mins == 15,
            c.security.max_auto_approvals_per_min == 10,
            c.security.ping_without_authorization,
            c.ui.theme@ == "system"@ && c.ui.show_event_content && !c.ui.compact_mode,
            c.ui.window_opacity == 1000,
    {
        Config {
            config_path: PathBuf::new(),
            general: GeneralConfig::default(),
            security: SecurityConfig::default(),
            ui: UiConfig::default(),
            authorized_apps: Vec::new(),
        }
    }

    /// The same settings, to be kept in the file at `path`.
    pub fn with_path(self, path: PathBuf) -> (c: Config)
        ensures
            c.config_path == path,
            c.general == self.general,
            c.security == self.security,
            c.ui == self.ui,
            c.authorized_apps == self.authorized_apps,
    {
        Config {
            config_path: path,
            general: self.general,
            security: self.security,
            ui: self.ui,
            authorized_apps: self.authorized_apps,
        }
    }

    /// Get the configuration file path
    pub fn config_path(&self) -> (path: &PathBuf)
        ensures
            *path == self.config_path,
    {
        &self.config_path
    }

    /// Where the first application with the identifier `app_id` sits.
    fn position(&self, app_id: &str) -> (found: Option<usize>)
        ensures
            match found {
                Some(k) => first_with_id(self.authorized_apps@, app_id@, k as int),
                None => !listed(self.authorized_apps@, app_id@),
            },
    {
        let mut i: usize = 0;
        while i < self.authorized_apps.len()
            invariant
                i <= self.authorized_apps@.len(),
                forall|j: int| 0 <= j < i ==> (#[trigger] self.authorized_apps@[j]).app_id@ != app_id@,
            decreases self.authorized_apps@.len() - i,
        {
            if str_eq(self.authorized_apps[i].app_id.as_str(), app_id) {
                return Some(i);
            }
            i += 1;
        }
        None
    }

    /// Add or update an authorized application: the first application with
    /// the same identifier is replaced where it stands; if there is none, the
    /// new one goes to the end.
    pub fn authorize_app(&mut self, app: AuthorizedApp)
        ensures
            listed(old(self).authorized_apps@, app.app_id@) ==> exists|k: int|
                first_with_id(old(self).authorized_apps@, app.app_id@, k) && final(self).authorized_apps@
                    == old(self).authorized_apps@.update(k, app),
            !listed(old(self).authorized_apps@, app.app_id@) ==> final(self).authorized_apps@ == old(
                self,
            ).authorized_apps@.push(app),
            ids_distinct(old(self).authorized_apps@) ==> ids_distinct(final(self).authorized_apps@),
            listed(final(self).authorized_apps@, app.app_id@),
            final(self).general == old(self).general,
            final(self).security == old(self).security,
            final(self).ui == old(self).ui,
    {
        let ghost before = self.authorized_apps@;
        match self.position(app.app_id.as_str()) {
            Some(k) => {
                self.authorized_apps[k] = app;
                proof {
                    let after = self.authorized_apps@;
                    assert(after == before.update(k as int, app));
                    assert(after[k as int].app_id@ == app.app_id@);
                    if ids_distinct(before) {
                        assert forall|i: int, j: int| 0 <= i < j < after.len() implies (#[trigger] after[i]).app_id@ != (#[trigger] after[j]).app_id@ by {
                            assert(after[i].app_id@ == before[i].app_id@);
                            assert(after[j].app_id@ == before[j].app_id@);
                        }
                    }
                }
            },
            None => {
                self.authorized_apps.push(app);
                proof {
                    let after = self.authorized_apps@;
                    assert(after[after.len() - 1].app_id@ == app.app_id@);
                    if ids_distinct(before) {
                        assert forall|i: int, j: int| 0 <= i < j < after.len() implies (#[trigger] after[i]).app_id@ != (#[trigger] after[j]).app_id@ by {
                            assert(after[i] == before[i]);
                            if j < before.len() {
                                assert(after[j] == before[j]);
                            }
                        }
                    }
                }
            },
        }
    }

    /// Remove an authorized application: every entry with the identifier
    /// leaves, the others stay in their order.
    pub fn revoke_app(&mut self, app_id: &str)
        ensures
            final(self).authorized_apps@ == without_id(old(self).authorized_apps@, app_id@),
            final(self).general == old(self).general,
            final(self).security == old(self).security,
            final(self).ui == old(self).ui,
    {
        let ghost before = self.authorized_apps@;
        let ghost mut done: int = 0;
        let mut i: usize = 0;
        proof {
            reveal(Seq::filter);
            assert(before.take(0) == Seq::<AuthorizedApp>::empty());
            assert(self.authorized_apps@.take(0) == Seq::<AuthorizedApp>::empty());
            assert(before.skip(0) == before);
        }
        while i < self.authorized_apps.len()
            invariant
                i <= self.authorized_apps@.len(),
                0 <= done <= before.len(),
                self.authorized_apps@.take(i as int) == without_id(before.take(done), app_id@),
                self.authorized_apps@.skip(i as int) == before.skip(done),
                self.general == old(self).general,
                self.security == old(self).security,
                self.ui == old(self).ui,
            decreases self.authorized_apps@.len() - i,
        {
            let ghost apps = self.authorized_apps@;
            proof {
                assert(apps.skip(i as int)[0] == before.skip(done)[0]);
                assert(apps.skip(i as int).len() == before.skip(done).len());
                assert(before.take(done).push(before[done]) == before.take(done + 1));
                lemma_without_push(before.take(done), before[done], app_id@);
            }
            if str_eq(self.authorized_apps[i].app_id.as_str(), app_id) {
                self.authorized_apps.remove(i);
                proof {
                    assert(self.authorized_apps@.take(i as int) == apps.take(i as int));
                    assert(self.authorized_apps@.skip(i as int) == apps.skip(i as int).skip(1));
                    assert(before.skip(done).skip(1) == before.skip(done + 1));
                }
            } else {
                proof {
                    assert(apps.take(i as int).push(apps[i as int]) == apps.take(i + 1));
                    assert(apps.skip(i as int).skip(1) == apps.skip(i + 1));
                    assert(before.skip(done).skip(1) == before.skip(done + 1));
                }
                i += 1;
            }
            proof {
                done = done + 1;
            }
        }
        proof {
            assert(self.authorized_apps@.take(i as int) == self.authorized_apps@);
            assert(before.skip(done).len() == 0);
            assert(before.take(done) == before);
        }
    }

    /// Check if an app is authorized
    pub fn is_app_authorized(&self, app_id: &str) -> (authorized: bool)
        ensures
            authorized == listed(self.authorized_apps@, app_id@),
    {
        match self.position(app_id) {
            Some(k) => {
                assert(self.authorized_apps@[k as int].app_id@ == app_id@);
                true
            },
            None => false,
        }
    }

    /// Get an authorized app by ID: the first one with that identifier.
    pub fn get_authorized_app(&self, app_id: &str) -> (found: Option<&AuthorizedApp>)
        ensures
            match found {
                Some(app) => find_app(self.authorized_apps@, app_id@) == Some(*app),
                None => find_app(self.authorized_apps@, app_id@) is None,
            },
    {
        proof {
            lemma_find_app(self.authorized_apps@, app_id@);
        }
        match self.position(app_id) {
            Some(k) => Some(&self.authorized_apps[k]),
            None => None,
        }
    }
}

} // verus!
