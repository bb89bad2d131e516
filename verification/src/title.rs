//! Tray titles.

use vstd::prelude::*;
use crate::text::{all_digits, decimal, decimal_string, digits_value, lemma_decimal_reads_back};

verus! {

/// The tray title while OpenCode Go cannot be read (no or rejected
/// credentials): a clear status rather than a raw error.
pub const OCG_NO_AUTH_TITLE: &'static str = "unauth";

/// The tray title while no Minimax API key is stored.
pub const MINIMAX_NO_KEY_TITLE: &'static str = "KEY?";

/// The tray title when Minimax refuses the key.
pub const MINIMAX_AUTH_TITLE: &'static str = "AUTH!";

/// The Minimax tray title: `"{u5}% {uw}%"`, with a trailing `?` when the
/// values are the last known ones rather than fresh.
pub open spec fn minimax_title(u5: nat, uw: nat, stale: bool) -> Seq<char> {
    decimal(u5) + "% "@ + decimal(uw) + if stale {
        "%?"@
    } else {
        "%"@
    }
}

/// Formats the 5 h and weekly used percentages for the Minimax tray.
pub fn format_minimax_title(u5: u32, uw: u32, stale: bool) -> (title: String)
    ensures
        title@ == minimax_title(u5 as nat, uw as nat, stale),
{
    let mut title = decimal_string(u5);
    title.append("% ");
    let w = decimal_string(uw);
    title.append(w.as_str());
    if stale {
        title.append("%?");
    } else {
        title.append("%");
    }
    title
}

/// The tray title that shows the three OpenCode Go windows:
/// `"{u5}% {uw}% {um}%"`.
pub open spec fn ocg_title(u5: nat, uw: nat, um: nat) -> Seq<char> {
    decimal(u5) + "% "@ + decimal(uw) + "% "@ + decimal(um) + "%"@
}

/// Formats the three used percentages (5 h, week, month) for the tray.
pub fn format_ocg_title(u5: u32, uw: u32, um: u32) -> (title: String)
    ensures
        title@ == ocg_title(u5 as nat, uw as nat, um as nat),
{
    let mut title = decimal_string(u5);
    title.append("% ");
    let w = decimal_string(uw);
    title.append(w.as_str());
    title.append("% ");
    let m = decimal_string(um);
    title.append(m.as_str());
    title.append("%");
    title
}

/// A Minimax title reads back in order: it starts with the digits of the 5 h
/// reading up to the first `%`, then `% `, then the digits of the weekly
/// reading and a `%`, whichever reading is larger.
pub proof fn lemma_minimax_title_reads_back(u5: nat, uw: nat, stale: bool)
    ensures
        ({
            let t = minimax_title(u5, uw, stale);
            let k = decimal(u5).len() as int;
            let m = decimal(uw).len() as int;
            &&& k >= 1 && m >= 1 && t.len() > k + 2 + m
            &&& all_digits(t.take(k)) && digits_value(t.take(k)) == u5
            &&& t[k] == '%' && t[k + 1] == ' '
            &&& all_digits(t.subrange(k + 2, k + 2 + m)) && digits_value(t.subrange(k + 2, k + 2 + m))
                == uw
            &&& t[k + 2 + m] == '%'
        }),
{
    lemma_decimal_reads_back(u5);
    lemma_decimal_reads_back(uw);
    reveal_strlit("% ");
    reveal_strlit("%?");
    reveal_strlit("%");
    let a = decimal(u5);
    let b = decimal(uw);
    let tail: Seq<char> = if stale {
        "%?"@
    } else {
        "%"@
    };
    let t = minimax_title(u5, uw, stale);
    assert(t == a + "% "@ + b + tail);
    let k = a.len() as int;
    let m = b.len() as int;
    assert(t.take(k) =~= a);
    assert(t.subrange(k + 2, k + 2 + m) =~= b);
}

/// An OpenCode Go title reads back in order: the 5 h, weekly and monthly
/// readings, each as its digits followed by `%`, separated by spaces.
pub proof fn lemma_ocg_title_reads_back(u5: nat, uw: nat, um: nat)
    ensures
        ({
            let t = ocg_title(u5, uw, um);
            let k = decimal(u5).len() as int;
            let m = decimal(uw).len() as int;
            let n = decimal(um).len() as int;
            &&& t.len() == k + 2 + m + 2 + n + 1
            &&& all_digits(t.take(k)) && digits_value(t.take(k)) == u5
            &&& t[k] == '%' && t[k + 1] == ' '
            &&& all_digits(t.subrange(k + 2, k + 2 + m)) && digits_value(t.subrange(k + 2, k + 2 + m))
                == uw
            &&& t[k + 2 + m] == '%' && t[k + 3 + m] == ' '
            &&& all_digits(t.subrange(k + 4 + m, k + 4 + m + n)) && digits_value(
                t.subrange(k + 4 + m, k + 4 + m + n),
            ) == um
            &&& t[k + 4 + m + n] == '%'
        }),
{
    lemma_decimal_reads_back(u5);
    lemma_decimal_reads_back(uw);
    lemma_decimal_reads_back(um);
    reveal_strlit("% ");
    reveal_strlit("%");
    let a = decimal(u5);
    let b = decimal(uw);
    let c = decimal(um);
    let t = ocg_title(u5, uw, um);
    assert(t == a + "% "@ + b + "% "@ + c + "%"@);
    let k = a.len() as int;
    let m = b.len() as int;
    assert(t.take(k) =~= a);
    assert(t.subrange(k + 2, k + 2 + m) =~= b);
    assert(t.subrange(k + 4 + m, k + 4 + m + c.len()) =~= c);
}

} // verus!
