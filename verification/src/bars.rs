//! The three quota bars of the OpenCode Go view.

use vstd::prelude::*;
use crate::dashboard::UsageLimits;

verus! {

/// One bar: its id (`5h`, `week`, `month`), the used percentage as the
/// dashboard wrote it, and the seconds until it resets.
pub struct Bar {
    pub id: String,
    pub used_percent: String,
    pub reset_in_secs: i64,
}

impl View for Bar {
    type V = (Seq<char>, Seq<char>, i64);

    open spec fn view(&self) -> (Seq<char>, Seq<char>, i64) {
        (self.id@, self.used_percent@, self.reset_in_secs)
    }
}

/// The bar ids and the limit keys they read, in display order.
pub open spec fn bar_slots() -> Seq<(Seq<char>, Seq<char>)> {
    seq![("5h"@, "five_hour"@), ("week"@, "seven_day"@), ("month"@, "monthly"@)]
}

/// The bars of `limits`: one per slot, in order, when every slot's key is
/// present.
pub open spec fn bars_of(limits: Map<Seq<char>, (Seq<char>, i64)>) -> Seq<(Seq<char>, Seq<char>, i64)> {
    bar_slots().map_values(
        |s: (Seq<char>, Seq<char>)| (s.0, limits[s.1].0, limits[s.1].1),
    )
}

/// The first slot whose key `limits` lacks, if any.
pub open spec fn first_missing_key(limits: Map<Seq<char>, (Seq<char>, i64)>) -> Option<Seq<char>> {
    if !limits.contains_key("five_hour"@) {
        Some("five_hour"@)
    } else if !limits.contains_key("seven_day"@) {
        Some("seven_day"@)
    } else if !limits.contains_key("monthly"@) {
        Some("monthly"@)
    } else {
        None
    }
}

fn bar_from(id: &str, key: &str, limits: &UsageLimits) -> (r: Result<Bar, String>)
    ensures
        match r {
            Ok(b) => limits@.contains_key(key@) && b@ == (id@, limits@[key@].0, limits@[key@].1),
            Err(e) => !limits@.contains_key(key@) && e@ == "agent-limits: missing limits."@ + key@,
        },
{
    match limits.get(key) {
        Some(entry) => Ok(
            Bar {
                id: String::from_str(id),
                used_percent: entry.used_percent.clone(),
                reset_in_secs: entry.reset_in_secs,
            },
        ),
        None => {
            let mut e = String::from_str("agent-limits: missing limits.");
            e.append(key);
            Err(e)
        },
    }
}

/// Lays out the `5h`, `week` and `month` bars from the `five_hour`,
/// `seven_day` and `monthly` windows; fails on the first window missing.
pub fn parse_ocg_bars(limits: &UsageLimits) -> (r: Result<Vec<Bar>, String>)
    ensures
        match r {
            Ok(bars) => first_missing_key(limits@) is None && bars@.map_values(|b: Bar| b@)
                == bars_of(limits@),
            Err(e) => first_missing_key(limits@) matches Some(k) && e@
                == "agent-limits: missing limits."@ + k,
        },
{
    let five = bar_from("5h", "five_hour", limits);
    let five = match five {
        Ok(b) => b,
        Err(e) => return Err(e),
    };
    let week = match bar_from("week", "seven_day", limits) {
        Ok(b) => b,
        Err(e) => return Err(e),
    };
    let month = match bar_from("month", "monthly", limits) {
        Ok(b) => b,
        Err(e) => return Err(e),
    };
    let mut bars = Vec::new();
    bars.push(five);
    bars.push(week);
    bars.push(month);
    assert(bars@.map_values(|b: Bar| b@) =~= bars_of(limits@));
    Ok(bars)
}

/// What the dashboard scrape yields is what the bars read: limits that hold
/// all three windows give the `5h`, `week` and `month` bars, in that order,
/// with those windows' readings.
pub proof fn lemma_full_limits_give_bars(limits: Map<Seq<char>, (Seq<char>, i64)>)
    requires
        limits.contains_key("five_hour"@),
        limits.contains_key("seven_day"@),
        limits.contains_key("monthly"@),
    ensures
        first_missing_key(limits) is None,
        bars_of(limits).len() == 3,
        bars_of(limits)[0] == ("5h"@, limits["five_hour"@].0, limits["five_hour"@].1),
        bars_of(limits)[1] == ("week"@, limits["seven_day"@].0, limits["seven_day"@].1),
        bars_of(limits)[2] == ("month"@, limits["monthly"@].0, limits["monthly"@].1),
{
}

} // verus!
