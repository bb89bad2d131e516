//! Reading the usage windows out of the OpenCode Go dashboard page.
//!
//! The page embeds `rolling` / `weekly` / `monthly` usage objects; each object
//! carries a `usagePercent` and a `resetInSec`. The three patterns that find
//! them are run by the `regex` crate; everything after the matches (which
//! windows count, how reset seconds are read, which key a window lands
//! under, when nothing was found) is verified here.

use vstd::prelude::*;
use crate::text::{all_digits, digits_value, lemma_digits_parse, parse_i64, parsed_i64, str_eq};

verus! {

/// Pattern of one usage window object and its name.
pub const WINDOW_BLOCK_PATTERN: &'static str =
    r#"(?:\"(rolling|weekly|monthly)\"|\"?(rolling|weekly|monthly)Usage\"?)\s*:\s*(?:\$R\[\d+\]\s*=\s*)?\{([^}]*)\}"#;

/// Pattern of the used percentage inside a window object.
pub const USAGE_PERCENT_PATTERN: &'static str = r#"\"?usagePercent\"?\s*:\s*(\d+(?:\.\d+)?)"#;

/// Pattern of the seconds until reset inside a window object.
pub const RESET_SECONDS_PATTERN: &'static str = r#"\"?resetInSec\"?\s*:\s*(\d+)"#;

/// The capture groups of one regex match, group 0 (the whole match) first;
/// each holds the matched text when the group took part.
pub type GroupsView = Seq<Option<Seq<char>>>;

/// All non-overlapping matches of `pattern` in `hay`, left to right, as
/// `Regex::captures_iter` yields them, each as its capture groups; none when
/// `pattern` does not compile.
pub uninterp spec fn regex_captures_all(pattern: Seq<char>, hay: Seq<char>) -> Seq<GroupsView>;

/// The capture groups of the first match of `pattern` in `hay`, as
/// `Regex::captures` gives them; `None` when nothing matches or `pattern`
/// does not compile.
pub uninterp spec fn regex_first_captures(pattern: Seq<char>, hay: Seq<char>) -> Option<GroupsView>;

/// One of the three window names that the window pattern accepts.
pub open spec fn is_window_name(n: Seq<char>) -> bool {
    n == "rolling"@ || n == "weekly"@ || n == "monthly"@
}

/// What every match of `WINDOW_BLOCK_PATTERN` holds: four groups; the quoted
/// name (group 1), or else the bare name (group 2), is one of the three
/// window names; and the object group (group 3) always takes part.
pub open spec fn window_match_well_formed(g: GroupsView) -> bool {
    &&& g.len() == 4
    &&& match g[1] {
        Some(n) => is_window_name(n),
        None => g[2] is Some && is_window_name(g[2]->0),
    }
    &&& g[3] is Some
}

/// `Regex::captures_iter`: every match of `pattern` in `hay`, each as its
/// capture groups (none when `pattern` does not compile). Of the window
/// pattern, the shape of the pattern gives `window_match_well_formed`.
#[verifier::external_body]
fn regex_captures_iter(pattern: &str, hay: &str) -> (caps: Vec<Vec<Option<String>>>)
    ensures
        caps.deep_view() == regex_captures_all(pattern@, hay@),
        pattern@ == WINDOW_BLOCK_PATTERN@ ==> forall|i: int|
            0 <= i < caps.len() ==> window_match_well_formed(#[trigger] caps.deep_view()[i]),
{
    let mut caps = Vec::new();
    if let Ok(re) = regex::Regex::new(pattern) {
        for c in re.captures_iter(hay) {
            caps.push(c.iter().map(|g| g.map(|m| m.as_str().to_string())).collect());
        }
    }
    caps
}

/// `Regex::captures`: the capture groups of the first match of `pattern` in
/// `hay` (`None` when nothing matches or `pattern` does not compile).
#[verifier::external_body]
fn regex_captures(pattern: &str, hay: &str) -> (groups: Option<Vec<Option<String>>>)
    ensures
        groups.deep_view() == regex_first_captures(pattern@, hay@),
{
    match regex::Regex::new(pattern) {
        Ok(re) => match re.captures(hay) {
            Some(c) => Some(c.iter().map(|g| g.map(|m| m.as_str().to_string())).collect()),
            None => None,
        },
        Err(_) => None,
    }
}

/// Group 1 of a first match, if there was a match and the group took part.
pub open spec fn first_group(groups: Option<GroupsView>) -> Option<Seq<char>> {
    match groups {
        Some(g) => if g.len() > 1 {
            g[1]
        } else {
            None
        },
        None => None,
    }
}

/// The number that `pattern` captures in `block` (its group 1), if it matches.
fn captured_number(pattern: &str, block: &str) -> (n: Option<String>)
    ensures
        n.deep_view() == first_group(regex_first_captures(pattern@, block@)),
{
    match regex_captures(pattern, block) {
        Some(mut groups) => if groups.len() > 1 {
            groups.remove(1)
        } else {
            None
        },
        None => None,
    }
}

/// The limit key under which a dashboard window is reported.
pub open spec fn window_key_of(name: Seq<char>) -> Seq<char> {
    if name == "rolling"@ {
        "five_hour"@
    } else if name == "weekly"@ {
        "seven_day"@
    } else if name == "monthly"@ {
        "monthly"@
    } else {
        "unknown"@
    }
}

/// Maps a dashboard window name to its limit key.
pub fn window_key(name: &str) -> (key: &'static str)
    ensures
        key@ == window_key_of(name@),
{
    if str_eq(name, "rolling") {
        "five_hour"
    } else if str_eq(name, "weekly") {
        "seven_day"
    } else if str_eq(name, "monthly") {
        "monthly"
    } else {
        "unknown"
    }
}

/// Maps a dashboard window name to its limit key (the tray's copy of
/// `window_key`).
pub fn ocg_window_key(name: &str) -> (key: &'static str)
    ensures
        key@ == window_key_of(name@),
{
    window_key(name)
}


/// One usage window: the used percentage exactly as the page wrote it, and
/// the seconds until the window resets (never negative).
pub struct Limit {
    pub used_percent: String,
    pub reset_in_secs: i64,
}

impl View for Limit {
    type V = (Seq<char>, i64);

    open spec fn view(&self) -> (Seq<char>, i64) {
        (self.used_percent@, self.reset_in_secs)
    }
}

/// The usage windows found on the dashboard, keyed by limit key
/// (`five_hour`, `seven_day`, `monthly`, or `unknown`).
pub struct UsageLimits {
    five_hour: Option<Limit>,
    seven_day: Option<Limit>,
    monthly: Option<Limit>,
    unknown: Option<Limit>,
}

/// `m` with `key` bound to the slot's limit, if the slot holds one.
pub open spec fn with_slot(m: Map<Seq<char>, (Seq<char>, i64)>, key: Seq<char>, slot: Option<Limit>) -> Map<
    Seq<char>,
    (Seq<char>, i64),
> {
    match slot {
        Some(l) => m.insert(key, l@),
        None => m,
    }
}

/// One of the four keys that `window_key_of` produces.
pub open spec fn is_limit_key(k: Seq<char>) -> bool {
    k == "five_hour"@ || k == "seven_day"@ || k == "monthly"@ || k == "unknown"@
}

impl View for UsageLimits {
    type V = Map<Seq<char>, (Seq<char>, i64)>;

    closed spec fn view(&self) -> Map<Seq<char>, (Seq<char>, i64)> {
        with_slot(
            with_slot(
                with_slot(with_slot(Map::empty(), "five_hour"@, self.five_hour), "seven_day"@, self.seven_day),
                "monthly"@,
                self.monthly,
            ),
            "unknown"@,
            self.unknown,
        )
    }
}

proof fn lemma_limit_keys_distinct()
    ensures
        "five_hour"@ != "seven_day"@,
        "five_hour"@ != "monthly"@,
        "five_hour"@ != "unknown"@,
        "seven_day"@ != "monthly"@,
        "seven_day"@ != "unknown"@,
        "monthly"@ != "unknown"@,
{
    reveal_strlit("five_hour");
    reveal_strlit("seven_day");
    reveal_strlit("monthly");
    reveal_strlit("unknown");
    assert("five_hour"@[0] != "seven_day"@[0]);
    assert("five_hour"@[0] != "monthly"@[0]);
    assert("five_hour"@[0] != "unknown"@[0]);
    assert("seven_day"@[0] != "monthly"@[0]);
    assert("seven_day"@[0] != "unknown"@[0]);
    assert("monthly"@[0] != "unknown"@[0]);
}

impl UsageLimits {
    /// No window at all.
    pub fn new() -> (l: Self)
        ensures
            l@ == Map::<Seq<char>, (Seq<char>, i64)>::empty(),
    {
        UsageLimits { five_hour: None, seven_day: None, monthly: None, unknown: None }
    }

    /// Binds `key` to `limit`, replacing what it held.
    pub fn insert(&mut self, key: &str, limit: Limit)
        requires
            is_limit_key(key@),
        ensures
            final(self)@ == old(self)@.insert(key@, limit@),
    {
        proof {
            lemma_limit_keys_distinct();
        }
        if str_eq(key, "five_hour") {
            self.five_hour = Some(limit);
        } else if str_eq(key, "seven_day") {
            self.seven_day = Some(limit);
        } else if str_eq(key, "monthly") {
            self.monthly = Some(limit);
        } else {
            self.unknown = Some(limit);
        }
        assert(self@ =~= old(self)@.insert(key@, limit@));
    }

    /// The window stored under `key`.
    pub fn get(&self, key: &str) -> (r: Option<&Limit>)
        ensures
            match r {
                Some(l) => self@.contains_key(key@) && self@[key@] == l@,
                None => !self@.contains_key(key@),
            },
    {
        proof {
            lemma_limit_keys_distinct();
        }
        if str_eq(key, "five_hour") {
            self.five_hour.as_ref()
        } else if str_eq(key, "seven_day") {
            self.seven_day.as_ref()
        } else if str_eq(key, "monthly") {
            self.monthly.as_ref()
        } else if str_eq(key, "unknown") {
            self.unknown.as_ref()
        } else {
            None
        }
    }

    /// No window is stored.
    pub fn is_empty(&self) -> (r: bool)
        ensures
            r == (self@ == Map::<Seq<char>, (Seq<char>, i64)>::empty()),
    {
        proof {
            lemma_limit_keys_distinct();
            if self.five_hour is Some {
                assert(self@.contains_key("five_hour"@));
            }
            if self.seven_day is Some {
                assert(self@.contains_key("seven_day"@));
            }
            if self.monthly is Some {
                assert(self@.contains_key("monthly"@));
            }
            if self.unknown is Some {
                assert(self@.contains_key("unknown"@));
            }
        }
        let r = self.five_hour.is_none() && self.seven_day.is_none() && self.monthly.is_none()
            && self.unknown.is_none();
        if r {
            assert(self@ =~= Map::<Seq<char>, (Seq<char>, i64)>::empty());
        }
        r
    }

    /// The number of windows stored.
    pub fn len(&self) -> (n: usize)
        ensures
            n == self@.dom().len(),
    {
        proof {
            lemma_limit_keys_distinct();
        }
        let mut n: usize = 0;
        if self.five_hour.is_some() {
            n = n + 1;
        }
        if self.seven_day.is_some() {
            n = n + 1;
        }
        if self.monthly.is_some() {
            n = n + 1;
        }
        if self.unknown.is_some() {
            n = n + 1;
        }
        n
    }
}


/// The fields read out of one window object: the window's name, and the
/// texts that the percentage and reset patterns captured, if they matched.
pub struct WindowFields {
    pub name: String,
    pub usage_percent: Option<String>,
    pub reset_in_sec: Option<String>,
}

/// View of `WindowFields`.
pub type FieldsView = (Seq<char>, Option<Seq<char>>, Option<Seq<char>>);

impl View for WindowFields {
    type V = FieldsView;

    open spec fn view(&self) -> FieldsView {
        (self.name@, self.usage_percent.deep_view(), self.reset_in_sec.deep_view())
    }
}

/// Seconds until reset as read from the captured text: the `i64` it parses
/// to, floored at zero, or zero where it does not parse.
pub open spec fn reset_value(text: Seq<char>) -> i64 {
    match parsed_i64(text) {
        Some(v) => if v < 0 {
            0
        } else {
            v
        },
        None => 0,
    }
}

/// The limits that a run of window objects yields, in page order: a window
/// counts when both its percentage and its reset matched, and a later window
/// replaces an earlier one under the same key.
pub open spec fn limits_of(ws: Seq<FieldsView>) -> Map<Seq<char>, (Seq<char>, i64)>
    decreases ws.len(),
{
    if ws.len() == 0 {
        Map::empty()
    } else {
        let m = limits_of(ws.drop_last());
        let w = ws.last();
        match (w.1, w.2) {
            (Some(p), Some(r)) => m.insert(window_key_of(w.0), (p, reset_value(r))),
            _ => m,
        }
    }
}

/// The name that a window match carries.
pub open spec fn capture_name(g: GroupsView) -> Seq<char> {
    match g[1] {
        Some(n) => n,
        None => g[2]->0,
    }
}

/// The window objects found in `body`: each match of `WINDOW_BLOCK_PATTERN`,
/// with the numbers that `USAGE_PERCENT_PATTERN` and `RESET_SECONDS_PATTERN`
/// capture inside its object.
pub open spec fn dashboard_windows(body: Seq<char>) -> Seq<FieldsView> {
    regex_captures_all(WINDOW_BLOCK_PATTERN@, body).map_values(
        |g: GroupsView|
            (
                capture_name(g),
                first_group(regex_first_captures(USAGE_PERCENT_PATTERN@, g[3]->0)),
                first_group(regex_first_captures(RESET_SECONDS_PATTERN@, g[3]->0)),
            ),
    )
}

/// The error returned when the page holds no usable window.
pub open spec fn no_window_error() -> Seq<char> {
    "opencodego: no usage window data found in dashboard response"@
}

proof fn lemma_limits_of_keys(ws: Seq<FieldsView>)
    ensures
        forall|k: Seq<char>| #[trigger] limits_of(ws).contains_key(k) ==> is_limit_key(k),
        forall|k: Seq<char>| #[trigger] limits_of(ws).contains_key(k) ==> limits_of(ws)[k].1 >= 0,
    decreases ws.len(),
{
    if ws.len() > 0 {
        lemma_limits_of_keys(ws.drop_last());
        let m = limits_of(ws.drop_last());
        let w = ws.last();
        assert forall|k: Seq<char>| #[trigger] limits_of(ws).contains_key(k) implies is_limit_key(k)
            && limits_of(ws)[k].1 >= 0 by {
            match (w.1, w.2) {
                (Some(p), Some(r)) => {
                    if k != window_key_of(w.0) {
                        assert(m.contains_key(k));
                    }
                },
                _ => {
                    assert(m.contains_key(k));
                },
            }
        }
    }
}

/// Reads the seconds until reset out of a captured text.
pub fn reset_seconds(text: &str) -> (secs: i64)
    ensures
        secs == reset_value(text@),
{
    match parse_i64(text) {
        Some(v) => if v < 0 {
            0
        } else {
            v
        },
        None => 0,
    }
}

/// Collects the limits of a run of window objects, in page order; fails when
/// none of them carries both a percentage and a reset.
pub fn limits_from_windows(windows: &Vec<WindowFields>) -> (r: Result<UsageLimits, String>)
    ensures
        match r {
            Ok(l) => l@ == limits_of(windows@.map_values(|w: WindowFields| w@)) && l@
                != Map::<Seq<char>, (Seq<char>, i64)>::empty(),
            Err(e) => limits_of(windows@.map_values(|w: WindowFields| w@)) == Map::<
                Seq<char>,
                (Seq<char>, i64),
            >::empty() && e@ == no_window_error(),
        },
{
    let ghost views = windows@.map_values(|w: WindowFields| w@);
    let mut limits = UsageLimits::new();
    let mut i: usize = 0;
    while i < windows.len()
        invariant
            i <= windows.len(),
            views == windows@.map_values(|w: WindowFields| w@),
            limits@ == limits_of(views.take(i as int)),
        decreases windows.len() - i,
    {
        let w = &windows[i];
        proof {
            assert(views.take(i + 1).drop_last() =~= views.take(i as int));
            assert(views.take(i + 1).last() == w@);
        }
        match (&w.usage_percent, &w.reset_in_sec) {
            (Some(p), Some(r)) => {
                let key = window_key(w.name.as_str());
                let limit = Limit { used_percent: p.clone(), reset_in_secs: reset_seconds(r.as_str()) };
                proof {
                    reveal_strlit("five_hour");
                    reveal_strlit("seven_day");
                    reveal_strlit("monthly");
                    reveal_strlit("unknown");
                }
                limits.insert(key, limit);
            },
            _ => {},
        }
        i = i + 1;
    }
    assert(views.take(i as int) =~= views);
    if limits.is_empty() {
        Err(String::from_str("opencodego: no usage window data found in dashboard response"))
    } else {
        Ok(limits)
    }
}

/// Reads the usage windows out of the dashboard page `body`.
///
/// Each match of `WINDOW_BLOCK_PATTERN` names a window; it counts when both
/// `usagePercent` and `resetInSec` match inside its object. The result maps
/// `five_hour` / `seven_day` / `monthly` to the used percentage (as written)
/// and the seconds until reset; it is an error when no window counts.
pub fn parse_dashboard(body: &str) -> (r: Result<UsageLimits, String>)
    ensures
        match r {
            Ok(l) => {
                &&& l@ == limits_of(dashboard_windows(body@))
                &&& l@ != Map::<Seq<char>, (Seq<char>, i64)>::empty()
                &&& forall|k: Seq<char>| #[trigger]
                    l@.contains_key(k) ==> k == "five_hour"@ || k == "seven_day"@ || k
                        == "monthly"@
                &&& forall|k: Seq<char>| #[trigger] l@.contains_key(k) ==> l@[k].1 >= 0
            },
            Err(e) => limits_of(dashboard_windows(body@)) == Map::<
                Seq<char>,
                (Seq<char>, i64),
            >::empty() && e@ == no_window_error(),
        },
{
    let caps = regex_captures_iter(WINDOW_BLOCK_PATTERN, body);
    let ghost wanted = dashboard_windows(body@);
    let mut windows: Vec<WindowFields> = Vec::new();
    let mut i: usize = 0;
    while i < caps.len()
        invariant
            i <= caps.len(),
            caps.deep_view() == regex_captures_all(WINDOW_BLOCK_PATTERN@, body@),
            forall|j: int|
                0 <= j < caps.len() ==> window_match_well_formed(#[trigger] caps.deep_view()[j]),
            wanted == dashboard_windows(body@),
            windows@.map_values(|w: WindowFields| w@) =~= wanted.take(i as int),
        decreases caps.len() - i,
    {
        let ghost g = caps.deep_view()[i as int];
        assert(window_match_well_formed(g));
        assert(caps[i as int].deep_view() == g);
        let groups = &caps[i];
        assert(groups@.len() == 4);
        let name = match &groups[1] {
            Some(n) => n.clone(),
            None => match &groups[2] {
                Some(n) => n.clone(),
                None => String::new(),
            },
        };
        let (usage_percent, reset_in_sec) = match &groups[3] {
            Some(block) => (
                captured_number(USAGE_PERCENT_PATTERN, block.as_str()),
                captured_number(RESET_SECONDS_PATTERN, block.as_str()),
            ),
            None => (None, None),
        };
        let w = WindowFields { name, usage_percent, reset_in_sec };
        assert(w@ == wanted[i as int]);
        let ghost prev = windows@;
        windows.push(w);
        proof {
            assert(windows@ =~= prev.push(w));
            assert(windows@.map_values(|w: WindowFields| w@) =~= prev.map_values(
                |w: WindowFields| w@,
            ).push(w@));
            assert(wanted.take(i + 1) =~= wanted.take(i as int).push(wanted[i as int]));
        }
        i = i + 1;
    }
    assert(wanted.take(i as int) =~= wanted);
    proof {
        assert forall|j: int| 0 <= j < wanted.len() implies is_window_name(#[trigger] wanted[j].0) by {
            assert(window_match_well_formed(caps.deep_view()[j]));
        }
        lemma_limits_of_keys(wanted);
        lemma_names_give_window_keys(wanted);
    }
    limits_from_windows(&windows)
}

/// Windows named `rolling` / `weekly` / `monthly` land under `five_hour`,
/// `seven_day` and `monthly` only.
proof fn lemma_names_give_window_keys(ws: Seq<FieldsView>)
    requires
        forall|j: int| 0 <= j < ws.len() ==> is_window_name(#[trigger] ws[j].0),
    ensures
        forall|k: Seq<char>| #[trigger]
            limits_of(ws).contains_key(k) ==> k == "five_hour"@ || k == "seven_day"@ || k
                == "monthly"@,
    decreases ws.len(),
{
    if ws.len() > 0 {
        assert forall|j: int| 0 <= j < ws.drop_last().len() implies is_window_name(
            #[trigger] ws.drop_last()[j].0,
        ) by {
            assert(ws.drop_last()[j] == ws[j]);
        }
        lemma_names_give_window_keys(ws.drop_last());
        let m = limits_of(ws.drop_last());
        let w = ws.last();
        assert(is_window_name(ws[ws.len() - 1].0));
        assert forall|k: Seq<char>| #[trigger] limits_of(ws).contains_key(k) implies k
            == "five_hour"@ || k == "seven_day"@ || k == "monthly"@ by {
            match (w.1, w.2) {
                (Some(p), Some(r)) => {
                    if k != window_key_of(w.0) {
                        assert(m.contains_key(k));
                    }
                },
                _ => {
                    assert(m.contains_key(k));
                },
            }
        }
    }
}

/// The window counts: it has both a used percentage and a reset text.
pub open spec fn is_counted(w: FieldsView) -> bool {
    w.1 is Some && w.2 is Some
}

/// A counted window's reading is kept as read. When window `i` has a used
/// percentage `p` and a reset text `r`, and no later counted window lands
/// under the same key, the limits map its key to `p` and to the `i64` that
/// `r` parses to, floored at zero (zero when `r` does not parse); in
/// particular a run of digits keeps its full value, however far ahead the
/// reset lies.
pub proof fn lemma_counted_window_kept(ws: Seq<FieldsView>, i: int)
    requires
        0 <= i < ws.len(),
        is_counted(ws[i]),
        forall|j: int|
            i < j < ws.len() && is_counted(#[trigger] ws[j]) ==> window_key_of(ws[j].0)
                != window_key_of(ws[i].0),
    ensures
        ({
            let key = window_key_of(ws[i].0);
            let r = ws[i].2->0;
            &&& limits_of(ws).contains_key(key)
            &&& limits_of(ws)[key].0 == ws[i].1->0
            &&& limits_of(ws)[key].1 == match parsed_i64(r) {
                Some(v) => if v < 0 {
                    0
                } else {
                    v
                },
                None => 0,
            }
            &&& r.len() >= 1 && all_digits(r) && digits_value(r) <= i64::MAX ==> limits_of(ws)[key].1
                == digits_value(r)
        }),
    decreases ws.len(),
{
    let r = ws[i].2->0;
    if r.len() >= 1 && all_digits(r) && digits_value(r) <= i64::MAX {
        lemma_digits_parse(r);
    }
    if i < ws.len() - 1 {
        let prefix = ws.drop_last();
        assert forall|j: int|
            i < j < prefix.len() && is_counted(#[trigger] prefix[j]) implies window_key_of(prefix[j].0)
            != window_key_of(prefix[i].0) by {
            assert(prefix[j] == ws[j]);
        }
        assert(prefix[i] == ws[i]);
        lemma_counted_window_kept(prefix, i);
        assert(ws.last() == ws[ws.len() - 1]);
    }
}

/// Every key in the limits comes from a counted window.
pub proof fn lemma_limits_come_from_windows(ws: Seq<FieldsView>, k: Seq<char>)
    requires
        limits_of(ws).contains_key(k),
    ensures
        exists|j: int| 0 <= j < ws.len() && is_counted(#[trigger] ws[j]) && window_key_of(ws[j].0) == k,
    decreases ws.len(),
{
    let w = ws.last();
    if is_counted(w) && window_key_of(w.0) == k {
        assert(is_counted(ws[ws.len() - 1]));
    } else {
        lemma_limits_come_from_windows(ws.drop_last(), k);
        let j = choose|j: int|
            0 <= j < ws.drop_last().len() && is_counted(#[trigger] ws.drop_last()[j])
                && window_key_of(ws.drop_last()[j].0) == k;
        assert(ws[j] == ws.drop_last()[j]);
    }
}

} // verus!
