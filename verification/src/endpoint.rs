//! Which quota source the tray follows.

use vstd::prelude::*;
use crate::text::{lowercase, str_eq, to_lowercase, trim, trimmed, trim_start, trim_end};

verus! {

/// One of the three endpoints the app knows: Minimax `.com`, Minimax `.io`,
/// OpenCode Go.
pub open spec fn is_known_endpoint(e: Seq<char>) -> bool {
    e == "com"@ || e == "io"@ || e == "ocg"@
}

/// The canonical form of an endpoint name: trimmed and lower-cased.
pub open spec fn canonical_endpoint(ep: Seq<char>) -> Seq<char> {
    lowercase(trimmed(ep))
}

/// Accepts an endpoint name when, trimmed and lower-cased, it is `com`, `io`
/// or `ocg`; returns that canonical form.
pub fn normalize_endpoint(ep: &str) -> (r: Option<String>)
    ensures
        match r {
            Some(e) => is_known_endpoint(canonical_endpoint(ep@)) && e@ == canonical_endpoint(ep@),
            None => !is_known_endpoint(canonical_endpoint(ep@)),
        },
{
    let lowered = to_lowercase(trim(ep));
    if str_eq(lowered.as_str(), "com") || str_eq(lowered.as_str(), "io") || str_eq(
        lowered.as_str(),
        "ocg",
    ) {
        Some(lowered)
    } else {
        None
    }
}

/// A known endpoint is its own canonical form.
pub proof fn lemma_known_endpoint_canonical(e: Seq<char>)
    requires
        is_known_endpoint(e),
    ensures
        canonical_endpoint(e) == e,
{
    reveal_strlit("com");
    reveal_strlit("io");
    reveal_strlit("ocg");
    assert(trim_start(e) == e);
    assert(trim_end(e) == e);
    assert(e.map_values(|c: char| crate::text::ascii_lower(c)) =~= e);
}

/// Normalising is idempotent: a name that normalises to `e` has `e` normalise
/// to itself.
pub proof fn lemma_normalize_idempotent(ep: Seq<char>)
    requires
        is_known_endpoint(canonical_endpoint(ep)),
    ensures
        is_known_endpoint(canonical_endpoint(canonical_endpoint(ep))),
        canonical_endpoint(canonical_endpoint(ep)) == canonical_endpoint(ep),
{
    lemma_known_endpoint_canonical(canonical_endpoint(ep));
}

/// The endpoint restored from what was persisted: its canonical form when it
/// is known, `com` when it is not or when nothing was persisted.
pub open spec fn restored_endpoint(persisted: Option<Seq<char>>) -> Seq<char> {
    match persisted {
        Some(c) => if is_known_endpoint(canonical_endpoint(c)) {
            canonical_endpoint(c)
        } else {
            "com"@
        },
        None => "com"@,
    }
}

/// Turns the persisted endpoint file's content (if it could be read) into the
/// endpoint to start on.
pub fn endpoint_from_persisted(persisted: Option<&str>) -> (e: String)
    ensures
        e@ == restored_endpoint(
            match persisted {
                Some(c) => Some(c@),
                None => None,
            },
        ),
{
    match persisted {
        Some(c) => match normalize_endpoint(c) {
            Some(e) => e,
            None => String::from_str("com"),
        },
        None => String::from_str("com"),
    }
}

/// What is persisted round-trips: restoring a known endpoint gives it back.
pub proof fn lemma_persisted_endpoint_round_trip(e: Seq<char>)
    requires
        is_known_endpoint(e),
    ensures
        restored_endpoint(Some(e)) == e,
{
    lemma_known_endpoint_canonical(e);
}

/// The tray follows OpenCode Go.
pub fn is_ocg_endpoint(endpoint: &str) -> (r: bool)
    ensures
        r == (endpoint@ == "ocg"@),
{
    str_eq(endpoint, "ocg")
}

/// The stored API key for an endpoint: none for `ocg`, the `.io` key for
/// `io`, the `.com` key for anything else.
pub open spec fn selected_api_key(endpoint: Seq<char>, com_key: Seq<char>, io_key: Seq<char>) -> Seq<char> {
    if endpoint == "ocg"@ {
        Seq::empty()
    } else if endpoint == "io"@ {
        io_key
    } else {
        com_key
    }
}

/// Picks the stored API key for the given endpoint.
pub fn select_api_key(endpoint: &str, com_key: &str, io_key: &str) -> (key: String)
    ensures
        key@ == selected_api_key(endpoint@, com_key@, io_key@),
{
    if str_eq(endpoint, "ocg") {
        String::new()
    } else if str_eq(endpoint, "io") {
        String::from_str(io_key)
    } else {
        String::from_str(com_key)
    }
}

} // verus!
