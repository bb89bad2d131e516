# subbar

The verified core of SubBar, a macOS menu-bar app that shows the quota usage
of Minimax (`.com` / `.io`) and OpenCode Go.

`src/` is a Verus library. Its functions carry contracts that Verus proves,
except where a result rests on something outside it: the few calls into `std`,
`regex`, `serde_json` and `keyring` go through small trusted wrappers whose contracts say
only what those sources show, and the keychain reads and writes, whose results
depend on the OS credential store, state no result.

- `endpoint` — which quota source the tray follows; endpoint names are
  trimmed and lower-cased, only `com`, `io` and `ocg` are accepted.
- `keychain` — the keychain items of each credential, the reads and writes of
  them through the `keyring` crate, and the carry-over of the keys of a legacy
  `config.json` (read with `serde_json`).
- `redact` — masking secrets before they reach the web view.
- `settings` — the app state and every decision that changes it: storing keys
  (validated), credentials (trimmed), the refresh interval (clamped), the
  endpoint, and turning a quota reply into the tray title.
- `dashboard` — reading the usage windows out of the OpenCode Go dashboard
  page (the matching is done by the `regex` crate, everything after it is
  verified); `request` — the dashboard request and its error messages;
  `bars` — the three quota bars.
- `schedule` — the steps of the refresh loop and of the launch placement.
- `title` and `text` — tray titles and small string helpers with exact
  specifications.

`app/` is the Tauri program around it: commands, HTTP, files, the tray, the
window, the refresh loop, and the floating-point parts (percentages, window
geometry). `tests/` exercises the library at run time.
