//! The app's settings and last readings, and every decision that changes
//! them: storing keys and credentials, choosing the endpoint and the refresh
//! interval, and turning a quota reply into the tray title.

use vstd::prelude::*;
use vstd::utf8::encode_utf8;
use crate::endpoint::{
    canonical_endpoint, is_known_endpoint, is_ocg_endpoint, normalize_endpoint, restored_endpoint,
    select_api_key, selected_api_key, endpoint_from_persisted,
};
use crate::keychain::{endpoint_keyring, ocg_cookie_keyring, ocg_ws_keyring, KeychainWrite};
use crate::request::{dashboard_request, dashboard_request_outcome, DashboardRequest};
use crate::redact::{redaction_safe, reveal_or_redact, shown_secret};
use crate::text::{has_prefix, starts_with, str_eq, trim, trimmed};
use crate::title::{format_minimax_title, format_ocg_title, minimax_title, ocg_title};

verus! {

/// The Minimax `.com` quota endpoint.
pub const API_URL_COM: &'static str = "https://api.minimaxi.com/v1/api/openplatform/coding_plan/remains";

/// The Minimax `.io` quota endpoint.
pub const API_URL_IO: &'static str = "https://api.minimax.io/v1/api/openplatform/coding_plan/remains";

/// The error when a Minimax refresh finds no stored key.
pub const NO_API_KEY_ERROR: &'static str = "No API key set";

/// The refresh interval a fresh start uses, in seconds.
pub const DEFAULT_REFRESH_SECS: u64 = 300;

/// The shortest refresh interval, in seconds.
pub const MIN_REFRESH_SECS: u64 = 10;

/// The longest refresh interval (a day), in seconds.
pub const MAX_REFRESH_SECS: u64 = 86400;

/// The mathematical content of `Settings`.
pub struct SettingsView {
    pub api_key_com: Seq<char>,
    pub api_key_io: Seq<char>,
    pub ocg_workspace_id: Seq<char>,
    pub ocg_auth_cookie: Seq<char>,
    pub endpoint: Seq<char>,
    pub refresh_interval_secs: u64,
    pub last_used_5h: u32,
    pub last_used_week: u32,
    pub last_used_month: u32,
}

/// The stored keys and credentials, the endpoint the tray follows, the
/// refresh interval, and the last used percentages shown.
pub struct Settings {
    api_key_com: String,
    api_key_io: String,
    ocg_workspace_id: String,
    ocg_auth_cookie: String,
    endpoint: String,
    refresh_interval_secs: u64,
    last_used_5h: u32,
    last_used_week: u32,
    last_used_month: u32,
}

impl View for Settings {
    type V = SettingsView;

    closed spec fn view(&self) -> SettingsView {
        SettingsView {
            api_key_com: self.api_key_com@,
            api_key_io: self.api_key_io@,
            ocg_workspace_id: self.ocg_workspace_id@,
            ocg_auth_cookie: self.ocg_auth_cookie@,
            endpoint: self.endpoint@,
            refresh_interval_secs: self.refresh_interval_secs,
            last_used_5h: self.last_used_5h,
            last_used_week: self.last_used_week,
            last_used_month: self.last_used_month,
        }
    }
}

/// The OpenCode Go credentials as handed to the settings view.
pub struct OcgCredentials {
    pub workspace_id: String,
    pub auth_cookie: String,
    pub has_credentials: bool,
}

/// The next step of a quota refresh.
pub enum QuotaStep {
    /// The endpoint is OpenCode Go: refresh through the dashboard instead.
    Ocg,
    /// No Minimax key is stored: show `MINIMAX_NO_KEY_TITLE`, fail with
    /// `NO_API_KEY_ERROR`.
    MissingKey,
    /// Ask `url` with the bearer `key`.
    Fetch { url: &'static str, key: String },
}

/// One entry of a Minimax quota reply's `model_remains`: the model's name and
/// the used percentages derived from its remaining ones.
pub struct ModelUsage {
    pub model_name: Option<String>,
    pub used_5h: u32,
    pub used_week: u32,
}

/// What the tray reads of a Minimax quota reply: the `base_resp` status code
/// (when `base_resp` is present), and the `model_remains` list (when it is a
/// list).
pub struct MinimaxReply {
    pub base_status: Option<i64>,
    pub model_remains: Option<Vec<ModelUsage>>,
}

/// A model entry as a value: name, 5 h used, weekly used.
pub type ModelUsageView = (Option<Seq<char>>, u32, u32);

/// The model entries of a reply as values.
pub open spec fn model_views(items: Seq<ModelUsage>) -> Seq<ModelUsageView> {
    items.map_values(|m: ModelUsage| (m.model_name.deep_view(), m.used_5h, m.used_week))
}

/// A `base_resp` status that reports a refused key.
pub open spec fn minimax_auth_failed(base_status: Option<i64>) -> bool {
    base_status matches Some(c) && c != 0
}

/// `after` holds the readings of the first `general` model of `items`, and
/// `title` shows them.
pub open spec fn general_reading_taken(
    items: Seq<ModelUsageView>,
    before: SettingsView,
    after: SettingsView,
    title: Seq<char>,
) -> bool {
    exists|i: int|
        0 <= i < items.len() && is_general(#[trigger] items[i]) && (forall|j: int|
            0 <= j < i ==> !is_general(#[trigger] items[j])) && after == (SettingsView {
            last_used_5h: items[i].1,
            last_used_week: items[i].2,
            ..before
        }) && title == minimax_title(items[i].1 as nat, items[i].2 as nat, false)
}

/// What an OpenCode Go refresh does after a failed fetch.
pub enum OcgFailureStep {
    /// Try once more after this many milliseconds.
    RetryAfterMillis(u64),
    /// Give up: show this tray title and report the failure.
    ShowTitle(&'static str),
}

/// The step after `failed_attempts` failed OpenCode Go fetches in a row: one
/// retry after 400 ms, then the `unauth` title.
pub fn ocg_fetch_failed(failed_attempts: u32) -> (step: OcgFailureStep)
    ensures
        failed_attempts < 2 ==> step == OcgFailureStep::RetryAfterMillis(400),
        failed_attempts >= 2 ==> (step matches OcgFailureStep::ShowTitle(t) && t@ == "unauth"@),
{
    if failed_attempts < 2 {
        OcgFailureStep::RetryAfterMillis(400)
    } else {
        OcgFailureStep::ShowTitle(crate::title::OCG_NO_AUTH_TITLE)
    }
}

/// The used percentage of one OpenCode Go bar, by bar id.
pub struct BarUse {
    pub id: String,
    pub used: u32,
}

/// An API key the settings accept: empty (to clear it), or `sk-` followed by
/// more, 4 to 256 bytes long.
pub open spec fn api_key_acceptable(key: Seq<char>) -> bool {
    key.len() == 0 || (has_prefix(key, "sk-"@) && 4 <= encode_utf8(key).len() <= 256)
}

/// The key `set_api_key` accepts for `endpoint`: a Minimax endpoint and an
/// acceptable key once trimmed.
pub open spec fn api_key_accepted(key: Seq<char>, endpoint: Seq<char>) -> bool {
    endpoint != "ocg"@ && api_key_acceptable(trimmed(key)) && (endpoint == "com"@ || endpoint
        == "io"@)
}

/// The keychain service holding the key of a Minimax endpoint.
pub open spec fn api_key_item(endpoint: Seq<char>) -> Seq<char> {
    if endpoint == "io"@ {
        "subbar-minimaxi"@
    } else {
        "subbar-minimax"@
    }
}

/// The settings after `set_api_key(key, endpoint)`: unchanged when the key is
/// refused; otherwise the endpoint's key is the trimmed key and the endpoint
/// is current.
pub open spec fn after_set_api_key(before: SettingsView, key: Seq<char>, endpoint: Seq<char>) -> SettingsView {
    if !api_key_accepted(key, endpoint) {
        before
    } else if endpoint == "io"@ {
        SettingsView { api_key_io: trimmed(key), endpoint, ..before }
    } else {
        SettingsView { api_key_com: trimmed(key), endpoint, ..before }
    }
}

/// The settings after `set_ocg_credentials(workspace_id, auth_cookie)`.
pub open spec fn after_set_ocg_credentials(
    before: SettingsView,
    workspace_id: Seq<char>,
    auth_cookie: Seq<char>,
) -> SettingsView {
    SettingsView {
        ocg_workspace_id: trimmed(workspace_id),
        ocg_auth_cookie: trimmed(auth_cookie),
        ..before
    }
}

/// `interval` clamped into `[MIN_REFRESH_SECS, MAX_REFRESH_SECS]`.
pub open spec fn clamped_interval(interval: u64) -> u64 {
    if interval < 10 {
        10
    } else if interval > 86400 {
        86400
    } else {
        interval
    }
}

/// The entry is the `general` model.
pub open spec fn is_general(m: ModelUsageView) -> bool {
    m.0 == Some("general"@)
}

/// The value of the last bar with id `id`, or zero when there is none.
pub open spec fn last_use_of(bars: Seq<(Seq<char>, u32)>, id: Seq<char>) -> u32
    decreases bars.len(),
{
    if bars.len() == 0 {
        0
    } else if bars.last().0 == id {
        bars.last().1
    } else {
        last_use_of(bars.drop_last(), id)
    }
}

impl Settings {
    /// What every `Settings` keeps: the refresh interval lies in
    /// `[MIN_REFRESH_SECS, MAX_REFRESH_SECS]`, and the endpoint is unset or
    /// a known one.
    #[verifier::type_invariant]
    spec fn wf(self) -> bool {
        &&& 10 <= self.refresh_interval_secs <= 86400
        &&& self.endpoint@.len() == 0 || is_known_endpoint(self.endpoint@)
    }

    /// Nothing stored, no endpoint yet, the default refresh interval, no
    /// readings.
    pub fn new() -> (s: Self)
        ensures
            s@ == (SettingsView {
                api_key_com: Seq::empty(),
                api_key_io: Seq::empty(),
                ocg_workspace_id: Seq::empty(),
                ocg_auth_cookie: Seq::empty(),
                endpoint: Seq::empty(),
                refresh_interval_secs: 300,
                last_used_5h: 0,
                last_used_week: 0,
                last_used_month: 0,
            }),
    {
        Settings {
            api_key_com: String::new(),
            api_key_io: String::new(),
            ocg_workspace_id: String::new(),
            ocg_auth_cookie: String::new(),
            endpoint: String::new(),
            refresh_interval_secs: DEFAULT_REFRESH_SECS,
            last_used_5h: 0,
            last_used_week: 0,
            last_used_month: 0,
        }
    }

    /// Takes over what a start finds: the stored keys and credentials, and the
    /// endpoint restored from its persisted form; the refresh interval goes
    /// back to the default.
    pub fn restore(
        &mut self,
        api_key_com: String,
        api_key_io: String,
        ocg_workspace_id: String,
        ocg_auth_cookie: String,
        persisted_endpoint: Option<&str>,
    )
        ensures
            final(self)@ == (SettingsView {
                api_key_com: api_key_com@,
                api_key_io: api_key_io@,
                ocg_workspace_id: ocg_workspace_id@,
                ocg_auth_cookie: ocg_auth_cookie@,
                endpoint: restored_endpoint(
                    match persisted_endpoint {
                        Some(c) => Some(c@),
                        None => None,
                    },
                ),
                refresh_interval_secs: 300,
                ..old(self)@
            }),
    {
        proof {
            use_type_invariant(&*self);
        }
        let endpoint = endpoint_from_persisted(persisted_endpoint);
        proof {
            reveal_strlit("com");
        }
        self.api_key_com = api_key_com;
        self.api_key_io = api_key_io;
        self.ocg_workspace_id = ocg_workspace_id;
        self.ocg_auth_cookie = ocg_auth_cookie;
        self.endpoint = endpoint;
        self.refresh_interval_secs = DEFAULT_REFRESH_SECS;
    }

    /// The endpoint the tray follows.
    pub fn endpoint(&self) -> (e: String)
        ensures
            e@ == self@.endpoint,
            e@.len() == 0 || is_known_endpoint(e@),
    {
        proof {
            use_type_invariant(self);
        }
        self.endpoint.clone()
    }

    /// The refresh interval, in seconds; always within
    /// `[MIN_REFRESH_SECS, MAX_REFRESH_SECS]`.
    pub fn refresh_interval_secs(&self) -> (secs: u64)
        ensures
            secs == self@.refresh_interval_secs,
            10 <= secs <= 86400,
    {
        proof {
            use_type_invariant(self);
        }
        self.refresh_interval_secs
    }

    /// The stored OpenCode Go workspace ID and auth cookie, in plaintext, for
    /// the dashboard request.
    pub fn ocg_credentials(&self) -> (c: (String, String))
        ensures
            c.0@ == self@.ocg_workspace_id,
            c.1@ == self@.ocg_auth_cookie,
    {
        (self.ocg_workspace_id.clone(), self.ocg_auth_cookie.clone())
    }

    /// The OpenCode Go dashboard request built from the stored workspace ID and
    /// auth cookie, and from nothing else.
    pub fn ocg_dashboard_request(&self) -> (r: Result<DashboardRequest, String>)
        ensures
            dashboard_request_outcome(self@.ocg_workspace_id, self@.ocg_auth_cookie, r),
    {
        dashboard_request(self.ocg_workspace_id.as_str(), self.ocg_auth_cookie.as_str())
    }

    /// The API key of `endpoint` as the settings view shows it: plaintext
    /// only when `reveal` is `Some(true)`, masked otherwise.
    pub fn get_api_key(&self, endpoint: &str, reveal: Option<bool>) -> (key: String)
        requires
            reveal != Some(true) ==> redaction_safe(
                encode_utf8(selected_api_key(endpoint@, self@.api_key_com, self@.api_key_io)),
            ),
        ensures
            key@ == shown_secret(
                selected_api_key(endpoint@, self@.api_key_com, self@.api_key_io),
                reveal == Some(true),
            ),
    {
        let key = select_api_key(endpoint, self.api_key_com.as_str(), self.api_key_io.as_str());
        let reveal = match reveal {
            Some(r) => r,
            None => false,
        };
        reveal_or_redact(key.as_str(), reveal)
    }

    /// Stores a Minimax API key for `endpoint` (`com` or `io`), trimmed, and
    /// makes that endpoint current. `ocg` has no key; a key that is not empty
    /// and not `sk-...` of 4 to 256 bytes, and an unknown endpoint, are refused
    /// and change nothing. Returns the keychain write to make.
    pub fn set_api_key(&mut self, key: &str, endpoint: &str) -> (write: Option<KeychainWrite>)
        ensures
            final(self)@ == after_set_api_key(old(self)@, key@, endpoint@),
            !api_key_accepted(key@, endpoint@) ==> write is None,
            api_key_accepted(key@, endpoint@) ==> (write matches Some(w) && w@ == (
                api_key_item(endpoint@),
                "subbar"@,
                trimmed(key@),
            )),
    {
        proof {
            use_type_invariant(&*self);
            reveal_strlit("com");
            reveal_strlit("io");
            reveal_strlit("ocg");
            assert("com"@.len() != "io"@.len());
        }
        if is_ocg_endpoint(endpoint) {
            return None;
        }
        let key = trim(key);
        let len = key.as_bytes().len();
        if !key.is_empty() && (!starts_with(key, "sk-") || len < 4 || len > 256) {
            return None;
        }
        let (service, user) = match endpoint_keyring(endpoint) {
            Some(item) => item,
            None => return None,
        };
        let write = KeychainWrite { service, user, value: String::from_str(key) };
        if str_eq(endpoint, "io") {
            self.api_key_io = String::from_str(key);
            self.endpoint = String::from_str("io");
        } else {
            self.api_key_com = String::from_str(key);
            self.endpoint = String::from_str("com");
        }
        Some(write)
    }

    /// The OpenCode Go credentials as the settings view shows them: plaintext
    /// only when `reveal` is `Some(true)`, masked otherwise; and whether both
    /// are stored.
    pub fn get_ocg_credentials(&self, reveal: Option<bool>) -> (c: OcgCredentials)
        requires
            reveal != Some(true) ==> redaction_safe(encode_utf8(self@.ocg_workspace_id))
                && redaction_safe(encode_utf8(self@.ocg_auth_cookie)),
        ensures
            c.workspace_id@ == shown_secret(self@.ocg_workspace_id, reveal == Some(true)),
            c.auth_cookie@ == shown_secret(self@.ocg_auth_cookie, reveal == Some(true)),
            c.has_credentials == (self@.ocg_workspace_id.len() > 0 && self@.ocg_auth_cookie.len()
                > 0),
    {
        let reveal = match reveal {
            Some(r) => r,
            None => false,
        };
        let auth_cookie = reveal_or_redact(self.ocg_auth_cookie.as_str(), reveal);
        let workspace_id = reveal_or_redact(self.ocg_workspace_id.as_str(), reveal);
        let has_credentials = !self.ocg_workspace_id.as_str().is_empty()
            && !self.ocg_auth_cookie.as_str().is_empty();
        OcgCredentials { workspace_id, auth_cookie, has_credentials }
    }

    /// Stores the OpenCode Go workspace ID and auth cookie, each trimmed (an
    /// empty one clears it). Returns the two keychain writes to make.
    pub fn set_ocg_credentials(&mut self, workspace_id: &str, auth_cookie: &str) -> (writes: (
        KeychainWrite,
        KeychainWrite,
    ))
        ensures
            writes.0@ == ("subbar-ocg-ws"@, "subbar"@, trimmed(workspace_id@)),
            writes.1@ == ("subbar-ocg-cookie"@, "subbar"@, trimmed(auth_cookie@)),
            final(self)@ == after_set_ocg_credentials(old(self)@, workspace_id@, auth_cookie@),
    {
        proof {
            use_type_invariant(&*self);
        }
        let ws = trim(workspace_id);
        let cookie = trim(auth_cookie);
        let (ws_service, ws_user) = ocg_ws_keyring();
        let (cookie_service, cookie_user) = ocg_cookie_keyring();
        let writes = (
            KeychainWrite { service: ws_service, user: ws_user, value: String::from_str(ws) },
            KeychainWrite {
                service: cookie_service,
                user: cookie_user,
                value: String::from_str(cookie),
            },
        );
        self.ocg_workspace_id = String::from_str(ws);
        self.ocg_auth_cookie = String::from_str(cookie);
        writes
    }

    /// Sets the refresh interval, clamped to `[MIN_REFRESH_SECS,
    /// MAX_REFRESH_SECS]` so the refresh loop can neither spin nor stall.
    pub fn set_refresh_interval(&mut self, interval: u64)
        ensures
            final(self)@ == (SettingsView {
                refresh_interval_secs: clamped_interval(interval),
                ..old(self)@
            }),
    {
        proof {
            use_type_invariant(&*self);
        }
        let interval = if interval < MIN_REFRESH_SECS {
            MIN_REFRESH_SECS
        } else if interval > MAX_REFRESH_SECS {
            MAX_REFRESH_SECS
        } else {
            interval
        };
        self.refresh_interval_secs = interval;
    }

    /// Follows the endpoint the front end chose, when it is a known one (in
    /// any case, with surrounding blanks); returns the canonical name to
    /// persist. An unknown name changes nothing.
    pub fn set_endpoint(&mut self, ep: &str) -> (persist: Option<String>)
        ensures
            match persist {
                Some(e) => is_known_endpoint(canonical_endpoint(ep@)) && e@ == canonical_endpoint(
                    ep@,
                ) && final(self)@ == (SettingsView { endpoint: e@, ..old(self)@ }),
                None => !is_known_endpoint(canonical_endpoint(ep@)) && final(self)@ == old(self)@,
            },
    {
        proof {
            use_type_invariant(&*self);
        }
        match normalize_endpoint(ep) {
            Some(e) => {
                self.endpoint = e.clone();
                Some(e)
            },
            None => None,
        }
    }

    /// What a quota refresh does next: the OpenCode Go path for `ocg`;
    /// otherwise the `.io` endpoint and key for `io` and the `.com` ones for
    /// anything else, unless that key is empty.
    pub fn quota_step(&self) -> (step: QuotaStep)
        ensures
            self@.endpoint == "ocg"@ ==> step is Ocg,
            self@.endpoint != "ocg"@ ==> ({
                let io = self@.endpoint == "io"@;
                let key = if io {
                    self@.api_key_io
                } else {
                    self@.api_key_com
                };
                &&& key.len() == 0 ==> step is MissingKey
                &&& key.len() > 0 ==> (step matches QuotaStep::Fetch { url, key: k } && k@ == key
                    && url@ == (if io {
                    API_URL_IO@
                } else {
                    API_URL_COM@
                }))
            }),
    {
        if is_ocg_endpoint(self.endpoint.as_str()) {
            return QuotaStep::Ocg;
        }
        let io = str_eq(self.endpoint.as_str(), "io");
        let key = if io {
            self.api_key_io.clone()
        } else {
            self.api_key_com.clone()
        };
        if key.as_str().is_empty() {
            QuotaStep::MissingKey
        } else if io {
            QuotaStep::Fetch { url: API_URL_IO, key }
        } else {
            QuotaStep::Fetch { url: API_URL_COM, key }
        }
    }

    /// The Minimax title that keeps the last known readings, marked with `?`
    /// (after a failed or unexpected reply).
    pub fn stale_title(&self) -> (title: String)
        ensures
            title@ == minimax_title(self@.last_used_5h as nat, self@.last_used_week as nat, true),
    {
        format_minimax_title(self.last_used_5h, self.last_used_week, true)
    }

    /// Takes in a Minimax quota reply. A non-zero `base_resp` status shows
    /// `MINIMAX_AUTH_TITLE`; a `model_remains` list takes the first `general`
    /// model's readings and shows them (no title when there is none); a reply
    /// without that list keeps the last readings and shows them stale.
    /// Returns the title to show, if any.
    pub fn apply_minimax_reply(&mut self, reply: &MinimaxReply) -> (title: Option<String>)
        ensures
            minimax_auth_failed(reply.base_status) ==> (title matches Some(t) && t@ == "AUTH!"@
                && final(self)@ == old(self)@),
            !minimax_auth_failed(reply.base_status) && reply.model_remains is None ==> (
            title matches Some(t) && t@ == minimax_title(
                old(self)@.last_used_5h as nat,
                old(self)@.last_used_week as nat,
                true,
            ) && final(self)@ == old(self)@),
            !minimax_auth_failed(reply.base_status) && reply.model_remains is Some && (forall|j: int|
                0 <= j < reply.model_remains->0@.len() ==> !is_general(
                    #[trigger] model_views(reply.model_remains->0@)[j],
                )) ==> title is None && final(self)@ == old(self)@,
            !minimax_auth_failed(reply.base_status) && reply.model_remains is Some && (exists|i: int|
                0 <= i < reply.model_remains->0@.len() && is_general(
                    #[trigger] model_views(reply.model_remains->0@)[i],
                )) ==> title is Some,
            !minimax_auth_failed(reply.base_status) && reply.model_remains is Some && title is Some
                ==> general_reading_taken(
                model_views(reply.model_remains->0@),
                old(self)@,
                final(self)@,
                title->0@,
            ),
    {
        proof {
            use_type_invariant(&*self);
        }
        if let Some(code) = reply.base_status {
            if code != 0 {
                return Some(String::from_str(crate::title::MINIMAX_AUTH_TITLE));
            }
        }
        match &reply.model_remains {
            None => Some(self.stale_title()),
            Some(items) => {
                let ghost views = model_views(items@);
                let mut i: usize = 0;
                while i < items.len()
                    invariant
                        i <= items.len(),
                        views == model_views(items@),
                        forall|j: int| 0 <= j < i ==> !is_general(#[trigger] views[j]),
                        self@ == old(self)@,
                        !(reply.base_status matches Some(c) && c != 0),
                        reply.model_remains == Some(*items),
                    decreases items.len() - i,
                {
                    let item = &items[i];
                    let general = match &item.model_name {
                        Some(name) => str_eq(name.as_str(), "general"),
                        None => false,
                    };
                    assert(views[i as int] == (item.model_name.deep_view(), item.used_5h, item.used_week));
                    if general {
                        proof {
                            use_type_invariant(&*self);
                            assert(is_general(views[i as int]));
                        }
                        self.last_used_5h = item.used_5h;
                        self.last_used_week = item.used_week;
                        let t = format_minimax_title(item.used_5h, item.used_week, false);
                        proof {
                            let k = i as int;
                            assert(self@ == (SettingsView {
                                last_used_5h: views[k].1,
                                last_used_week: views[k].2,
                                ..old(self)@
                            }));
                            assert(0 <= k < views.len() && is_general(views[k]) && (forall|j: int|
                                0 <= j < k ==> !is_general(#[trigger] views[j])));
                            assert(general_reading_taken(views, old(self)@, self@, t@));
                            assert(reply.model_remains->0@ == items@);
                            assert(k < reply.model_remains->0@.len());
                            assert(is_general(model_views(reply.model_remains->0@)[k]));
                        }
                        return Some(t);
                    }
                    i = i + 1;
                }
                None
            },
        }
    }

    /// Takes in the OpenCode Go bars: the 5 h, weekly and monthly readings
    /// become the last bar with id `5h`, `week` and `month` (zero when there is
    /// none); returns the tray title showing them.
    pub fn apply_ocg_bars(&mut self, bars: &Vec<BarUse>) -> (title: String)
        ensures
            ({
                let uses = bars@.map_values(|b: BarUse| (b.id@, b.used));
                let u5 = last_use_of(uses, "5h"@);
                let uw = last_use_of(uses, "week"@);
                let um = last_use_of(uses, "month"@);
                &&& final(self)@ == (SettingsView {
                    last_used_5h: u5,
                    last_used_week: uw,
                    last_used_month: um,
                    ..old(self)@
                })
                &&& title@ == ocg_title(u5 as nat, uw as nat, um as nat)
            }),
    {
        proof {
            use_type_invariant(&*self);
        }
        let ghost uses = bars@.map_values(|b: BarUse| (b.id@, b.used));
        let mut u5: u32 = 0;
        let mut uw: u32 = 0;
        let mut um: u32 = 0;
        let mut i: usize = 0;
        while i < bars.len()
            invariant
                i <= bars.len(),
                uses == bars@.map_values(|b: BarUse| (b.id@, b.used)),
                u5 == last_use_of(uses.take(i as int), "5h"@),
                uw == last_use_of(uses.take(i as int), "week"@),
                um == last_use_of(uses.take(i as int), "month"@),
            decreases bars.len() - i,
        {
            let bar = &bars[i];
            proof {
                assert(uses.take(i + 1).drop_last() =~= uses.take(i as int));
                assert(uses.take(i + 1).last() == (bar.id@, bar.used));
            }
            proof {
                reveal_strlit("5h");
                reveal_strlit("week");
                reveal_strlit("month");
                assert("5h"@.len() != "week"@.len() && "5h"@.len() != "month"@.len() && "week"@.len()
                    != "month"@.len());
            }
            if str_eq(bar.id.as_str(), "5h") {
                u5 = bar.used;
            } else if str_eq(bar.id.as_str(), "week") {
                uw = bar.used;
            } else if str_eq(bar.id.as_str(), "month") {
                um = bar.used;
            }
            i = i + 1;
        }
        assert(uses.take(i as int) =~= uses);
        self.last_used_5h = u5;
        self.last_used_week = uw;
        self.last_used_month = um;
        format_ocg_title(u5, uw, um)
    }
}

/// A stored API key reads back: once `set_api_key` accepts a key for an
/// endpoint, asking for that endpoint's key in plaintext gives the trimmed
/// key, the endpoint is current, and the other endpoint's key is untouched.
pub proof fn lemma_api_key_reads_back(before: SettingsView, key: Seq<char>, endpoint: Seq<char>)
    requires
        api_key_accepted(key, endpoint),
    ensures
        ({
            let after = after_set_api_key(before, key, endpoint);
            &&& shown_secret(selected_api_key(endpoint, after.api_key_com, after.api_key_io), true)
                == trimmed(key)
            &&& after.endpoint == endpoint
            &&& endpoint == "io"@ ==> after.api_key_com == before.api_key_com
            &&& endpoint == "com"@ ==> after.api_key_io == before.api_key_io
        }),
{
    reveal_strlit("com");
    reveal_strlit("io");
    reveal_strlit("ocg");
    assert("com"@.len() != "io"@.len());
    assert("ocg"@.len() != "io"@.len());
    assert("ocg"@ != "com"@) by {
        assert("ocg"@[0] != "com"@[0]);
    }
}

/// A refused API key changes nothing.
pub proof fn lemma_refused_api_key_changes_nothing(before: SettingsView, key: Seq<char>, endpoint: Seq<char>)
    requires
        !api_key_accepted(key, endpoint),
    ensures
        after_set_api_key(before, key, endpoint) == before,
{
}

/// Stored OpenCode Go credentials read back: in plaintext they are the
/// trimmed inputs, and they count as present exactly when both are non-blank.
pub proof fn lemma_ocg_credentials_read_back(before: SettingsView, workspace_id: Seq<char>, auth_cookie: Seq<char>)
    ensures
        ({
            let after = after_set_ocg_credentials(before, workspace_id, auth_cookie);
            &&& shown_secret(after.ocg_workspace_id, true) == trimmed(workspace_id)
            &&& shown_secret(after.ocg_auth_cookie, true) == trimmed(auth_cookie)
            &&& (after.ocg_workspace_id.len() > 0 && after.ocg_auth_cookie.len() > 0) == (trimmed(
                workspace_id,
            ).len() > 0 && trimmed(auth_cookie).len() > 0)
            &&& after.api_key_com == before.api_key_com && after.api_key_io == before.api_key_io
        }),
{
}

} // verus!
