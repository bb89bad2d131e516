//! Where credentials live in the OS credential store, and the reads and
//! writes of them.
//!
//! Each Minimax endpoint has its own item (`subbar-minimax` for `.com`,
//! `subbar-minimaxi` for `.io`); the OpenCode Go workspace ID and auth cookie
//! have one each. All share the account name `subbar`.

use vstd::prelude::*;
use crate::text::str_eq;

verus! {

/// The account name of every keychain item of the app.
pub open spec fn keyring_user() -> Seq<char> {
    "subbar"@
}

/// Keychain item of the Minimax `.com` API key.
pub fn com_keyring() -> (item: (&'static str, &'static str))
    ensures
        item.0@ == "subbar-minimax"@,
        item.1@ == keyring_user(),
{
    ("subbar-minimax", "subbar")
}

/// Keychain item of the Minimax `.io` API key.
pub fn io_keyring() -> (item: (&'static str, &'static str))
    ensures
        item.0@ == "subbar-minimaxi"@,
        item.1@ == keyring_user(),
{
    ("subbar-minimaxi", "subbar")
}

/// Keychain item of the OpenCode Go workspace ID.
pub fn ocg_ws_keyring() -> (item: (&'static str, &'static str))
    ensures
        item.0@ == "subbar-ocg-ws"@,
        item.1@ == keyring_user(),
{
    ("subbar-ocg-ws", "subbar")
}

/// Keychain item of the OpenCode Go auth cookie.
pub fn ocg_cookie_keyring() -> (item: (&'static str, &'static str))
    ensures
        item.0@ == "subbar-ocg-cookie"@,
        item.1@ == keyring_user(),
{
    ("subbar-ocg-cookie", "subbar")
}

/// The keychain item that holds the API key of a Minimax endpoint; `ocg` and
/// unknown endpoints have none.
pub fn endpoint_keyring(endpoint: &str) -> (item: Option<(&'static str, &'static str)>)
    ensures
        match item {
            Some(p) => {
                &&& endpoint@ == "com"@ ==> p.0@ == "subbar-minimax"@
                &&& endpoint@ == "io"@ ==> p.0@ == "subbar-minimaxi"@
                &&& endpoint@ == "com"@ || endpoint@ == "io"@
                &&& p.1@ == keyring_user()
            },
            None => endpoint@ != "com"@ && endpoint@ != "io"@,
        },
{
    proof {
        reveal_strlit("com");
        reveal_strlit("io");
        assert("com"@.len() != "io"@.len());
    }
    if str_eq(endpoint, "com") {
        Some(com_keyring())
    } else if str_eq(endpoint, "io") {
        Some(io_keyring())
    } else {
        None
    }
}

/// The four keychain items are distinct, so no credential overwrites another.
pub proof fn lemma_keyring_items_distinct()
    ensures
        "subbar-minimax"@ != "subbar-minimaxi"@,
        "subbar-minimax"@ != "subbar-ocg-ws"@,
        "subbar-minimax"@ != "subbar-ocg-cookie"@,
        "subbar-minimaxi"@ != "subbar-ocg-ws"@,
        "subbar-minimaxi"@ != "subbar-ocg-cookie"@,
        "subbar-ocg-ws"@ != "subbar-ocg-cookie"@,
{
    reveal_strlit("subbar-minimax");
    reveal_strlit("subbar-minimaxi");
    reveal_strlit("subbar-ocg-ws");
    reveal_strlit("subbar-ocg-cookie");
    assert("subbar-minimax"@.len() != "subbar-minimaxi"@.len());
    assert("subbar-minimax"@[7] != "subbar-ocg-ws"@[7]);
    assert("subbar-minimax"@[7] != "subbar-ocg-cookie"@[7]);
    assert("subbar-minimaxi"@[7] != "subbar-ocg-ws"@[7]);
    assert("subbar-minimaxi"@[7] != "subbar-ocg-cookie"@[7]);
    assert("subbar-ocg-ws"@[11] != "subbar-ocg-cookie"@[11]);
}

/// A write to the credential store that a settings change calls for.
pub struct KeychainWrite {
    pub service: &'static str,
    pub user: &'static str,
    pub value: String,
}

impl View for KeychainWrite {
    type V = (Seq<char>, Seq<char>, Seq<char>);

    open spec fn view(&self) -> (Seq<char>, Seq<char>, Seq<char>) {
        (self.service@, self.user@, self.value@)
    }
}

/// An optional string as an optional value.
pub open spec fn opt_view(s: Option<&str>) -> Option<Seq<char>> {
    match s {
        Some(k) => Some(k@),
        None => None,
    }
}

/// The writes that carry legacy keys over: the `.com` key (`api_key_com`,
/// else `api_key`) then the `.io` key (`api_key_io`), each only when present
/// and not empty.
pub open spec fn legacy_writes(
    api_key_com: Option<Seq<char>>,
    api_key: Option<Seq<char>>,
    api_key_io: Option<Seq<char>>,
) -> Seq<(Seq<char>, Seq<char>, Seq<char>)> {
    let com = match api_key_com {
        Some(k) => k,
        None => match api_key {
            Some(k) => k,
            None => Seq::empty(),
        },
    };
    let io = match api_key_io {
        Some(k) => k,
        None => Seq::empty(),
    };
    (if com.len() > 0 {
        seq![("subbar-minimax"@, "subbar"@, com)]
    } else {
        Seq::empty()
    }) + (if io.len() > 0 {
        seq![("subbar-minimaxi"@, "subbar"@, io)]
    } else {
        Seq::empty()
    })
}

/// The keychain writes that carry the keys of a legacy `config.json` over:
/// the `.com` key (`api_key_com`, else the older `api_key`) and the `.io` key
/// (`api_key_io`), each only when present and not empty.
pub fn legacy_key_writes(api_key_com: Option<&str>, api_key: Option<&str>, api_key_io: Option<&str>) -> (writes: Vec<KeychainWrite>)
    ensures
        writes@.map_values(|w: KeychainWrite| w@) == legacy_writes(
            opt_view(api_key_com),
            opt_view(api_key),
            opt_view(api_key_io),
        ),
{
    let com = match api_key_com {
        Some(k) => k,
        None => match api_key {
            Some(k) => k,
            None => "",
        },
    };
    let io = match api_key_io {
        Some(k) => k,
        None => "",
    };
    proof {
        reveal_strlit("");
    }
    let mut writes: Vec<KeychainWrite> = Vec::new();
    if !com.is_empty() {
        let (service, user) = com_keyring();
        writes.push(KeychainWrite { service, user, value: String::from_str(com) });
    }
    if !io.is_empty() {
        let (service, user) = io_keyring();
        writes.push(KeychainWrite { service, user, value: String::from_str(io) });
    }
    proof {
        assert(writes@.map_values(|w: KeychainWrite| w@) =~= (if com@.len() > 0 {
            seq![("subbar-minimax"@, "subbar"@, com@)]
        } else {
            Seq::empty()
        }) + (if io@.len() > 0 {
            seq![("subbar-minimaxi"@, "subbar"@, io@)]
        } else {
            Seq::empty()
        }));
    }
    writes
}

/// The string value of the top-level field `name` of the JSON document
/// `content`, as `serde_json` reads it; `None` when `content` is not JSON, is
/// not an object, or has no such field holding a string.
pub uninterp spec fn json_string_field_of(content: Seq<char>, name: Seq<char>) -> Option<Seq<char>>;

/// `serde_json::from_str::<Value>` then `Value::get(name)`: the string held by
/// the field `name` of the document, if any.
#[verifier::external_body]
fn json_string_field(content: &str, name: &str) -> (r: Option<String>)
    ensures
        r.deep_view() == json_string_field_of(content@, name@),
{
    match serde_json::from_str::<serde_json::Value>(content) {
        Ok(v) => match v.get(name) {
            Some(serde_json::Value::String(s)) => Some(s.clone()),
            _ => None,
        },
        Err(_) => None,
    }
}

/// The keychain writes that carry the keys of a legacy `config.json` with
/// text `content` over (none when it is not JSON).
pub fn legacy_config_writes(content: &str) -> (writes: Vec<KeychainWrite>)
    ensures
        writes@.map_values(|w: KeychainWrite| w@) == legacy_writes(
            json_string_field_of(content@, "api_key_com"@),
            json_string_field_of(content@, "api_key"@),
            json_string_field_of(content@, "api_key_io"@),
        ),
{
    let com = json_string_field(content, "api_key_com");
    let legacy = json_string_field(content, "api_key");
    let io = json_string_field(content, "api_key_io");
    let com_ref = match &com {
        Some(k) => Some(k.as_str()),
        None => None,
    };
    let legacy_ref = match &legacy {
        Some(k) => Some(k.as_str()),
        None => None,
    };
    let io_ref = match &io {
        Some(k) => Some(k.as_str()),
        None => None,
    };
    legacy_key_writes(com_ref, legacy_ref, io_ref)
}

/// What a save does to a keychain item.
pub enum KeychainOp {
    /// Delete the item (the key is empty).
    Delete,
    /// Store the key in the item.
    Store,
}

/// The operation that saving `key` calls for: delete when it is empty, store
/// otherwise.
pub fn keychain_op(key: &str) -> (op: KeychainOp)
    ensures
        op is Delete <==> key@.len() == 0,
        op is Store <==> key@.len() > 0,
{
    if key.is_empty() {
        KeychainOp::Delete
    } else {
        KeychainOp::Store
    }
}

/// `keyring::Entry`, a handle on one item of the platform credential store.
#[verifier::external_type_specification]
#[verifier::external_body]
pub struct ExEntry(keyring::Entry);

/// `keyring::Error`.
#[verifier::external_type_specification]
#[verifier::external_body]
pub struct ExKeyringError(keyring::Error);

/// `keyring::Entry::new`: whether the platform store accepts the service and
/// user names is not stated.
pub assume_specification[ keyring::Entry::new ](service: &str, user: &str) -> keyring::Result<
    keyring::Entry,
>;

/// `keyring::Entry::get_password`: what the store holds is not stated.
pub assume_specification[ keyring::Entry::get_password ](entry: &keyring::Entry) -> keyring::Result<
    String,
>;

/// `keyring::Entry::set_password`: whether the store accepts the write is not
/// stated.
pub assume_specification[ keyring::Entry::set_password ](
    entry: &keyring::Entry,
    password: &str,
) -> keyring::Result<()>;

/// `keyring::Entry::delete_credential`: whether the store held the item is
/// not stated.
pub assume_specification[ keyring::Entry::delete_credential ](
    entry: &keyring::Entry,
) -> keyring::Result<()>;

/// A handle on the keychain item `(service, user)`, if the store accepts the
/// names.
fn keyring_entry(service: &str, user: &str) -> Option<keyring::Entry> {
    match keyring::Entry::new(service, user) {
        Ok(entry) => Some(entry),
        Err(_) => None,
    }
}

/// The key that a read of the store yields: the password when a handle was
/// had (`Some`) and the read succeeded, the empty string otherwise.
pub open spec fn read_key(read: Option<Result<String, keyring::Error>>) -> Seq<char> {
    match read {
        Some(Ok(password)) => password@,
        _ => Seq::empty(),
    }
}

/// Turns the outcome of reading a keychain item into the stored key: the
/// password read, or the empty string when there was no handle or the read
/// failed.
pub fn stored_key(read: Option<Result<String, keyring::Error>>) -> (key: String)
    ensures
        key@ == read_key(read),
{
    match read {
        Some(Ok(password)) => password,
        _ => String::new(),
    }
}

/// Reads the secret stored under `(service, user)`; the empty string when
/// there is none or the store cannot be reached (see `stored_key`). What the
/// store holds is outside this library, so the result is not stated.
pub fn load_key_from_service(service: &str, user: &str) -> String {
    let read = match keyring_entry(service, user) {
        Some(entry) => Some(entry.get_password()),
        None => None,
    };
    stored_key(read)
}

/// Reads the secret stored under `(service, user)` (see
/// `load_key_from_service`).
pub fn load_key_from_keyring(service: &str, user: &str) -> String {
    load_key_from_service(service, user)
}

/// Stores `key` under `(service, user)`, or deletes the item when `key` is
/// empty (the choice is `keychain_op`). Failures of the store are dropped;
/// what the store then holds is outside this library.
pub fn save_key_to_keyring(service: &str, user: &str, key: &str) {
    match keychain_op(key) {
        KeychainOp::Delete => {
            if let Some(entry) = keyring_entry(service, user) {
                let _ = entry.delete_credential();
            }
        },
        KeychainOp::Store => {
            if let Some(entry) = keyring_entry(service, user) {
                let _ = entry.set_password(key);
            }
        },
    }
}

/// What the carry-over of legacy keys writes, by item: the `.io` item
/// exactly when `api_key_io` is a non-empty string, whatever the `.com` keys
/// are, holding that key; the `.com` item exactly when `api_key_com` is a
/// non-empty string, or is absent and `api_key` is one, holding that key; no
/// other item, and each item at most once.
pub proof fn lemma_legacy_writes_by_item(
    api_key_com: Option<Seq<char>>,
    api_key: Option<Seq<char>>,
    api_key_io: Option<Seq<char>>,
)
    ensures
        ({
            let w = legacy_writes(api_key_com, api_key, api_key_io);
            &&& w.len() <= 2
            &&& (exists|i: int| 0 <= i < w.len() && (#[trigger] w[i]).0 == "subbar-minimaxi"@) <==> (
            api_key_io matches Some(k) && k.len() > 0)
            &&& forall|i: int|
                0 <= i < w.len() && (#[trigger] w[i]).0 == "subbar-minimaxi"@ ==> w[i] == (
                    "subbar-minimaxi"@,
                    "subbar"@,
                    api_key_io->0,
                )
            &&& (exists|i: int| 0 <= i < w.len() && (#[trigger] w[i]).0 == "subbar-minimax"@) <==> (
            (api_key_com matches Some(k) && k.len() > 0) || (api_key_com is None && (api_key matches Some(
                k,
            ) && k.len() > 0)))
            &&& forall|i: int|
                0 <= i < w.len() && (#[trigger] w[i]).0 == "subbar-minimax"@ ==> w[i] == (
                    "subbar-minimax"@,
                    "subbar"@,
                    if api_key_com is Some {
                        api_key_com->0
                    } else {
                        api_key->0
                    },
                )
            &&& forall|i: int|
                0 <= i < w.len() ==> (#[trigger] w[i]).0 == "subbar-minimax"@ || w[i].0
                    == "subbar-minimaxi"@
        }),
{
    lemma_keyring_items_distinct();
    let w = legacy_writes(api_key_com, api_key, api_key_io);
    let com = match api_key_com {
        Some(k) => k,
        None => match api_key {
            Some(k) => k,
            None => Seq::empty(),
        },
    };
    let io = match api_key_io {
        Some(k) => k,
        None => Seq::empty(),
    };
    let cw: Seq<(Seq<char>, Seq<char>, Seq<char>)> = if com.len() > 0 {
        seq![("subbar-minimax"@, "subbar"@, com)]
    } else {
        Seq::empty()
    };
    let iw: Seq<(Seq<char>, Seq<char>, Seq<char>)> = if io.len() > 0 {
        seq![("subbar-minimaxi"@, "subbar"@, io)]
    } else {
        Seq::empty()
    };
    assert(w == cw + iw);
    if io.len() > 0 {
        assert(w[cw.len() as int] == ("subbar-minimaxi"@, "subbar"@, io));
    }
    if com.len() > 0 {
        assert(w[0] == ("subbar-minimax"@, "subbar"@, com));
    }
}

} // verus!
