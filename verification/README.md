# tb_core

The core of a usage monitor that lives in the menu bar, with its behaviour stated in contracts and
proved by Verus.

- `src/agent_grokbot/` selects the login that the weekly Grok Bot quota is asked for with, builds
  the request, and maps the answer to a quota card. A login that is sealed in the Keychain is not
  opened without the user's consent, and no other account ever stands in for it.
- `src/agent_warp/` keeps the one active Warp source: what a bearer, an external file, a refresh or
  a failure does to it, how remote and external usage is normalized, and how it is cached.
  `keyed.rs` says what is digested under the installation key, and `laws.rs` states what holds of
  every sequence of changes and of the steps that a failure takes.
- `src/warp_usage.rs` validates normalized usage and turns it into report rows.
- `src/reports.rs` keeps the cached graphs, the live tail and the generation of the usage data.
- `src/keychain_consent.rs`, `src/safe_storage.rs` and `src/envelope.rs` hold the consent registry,
  the framing of stored secrets, and the texts that cross the C boundary.
- The remaining modules are text, numbers, doubles, timestamps, JSON, Base64 and paths as plain
  values.

`app/` is ordinary Rust around the library: the C entry points, HTTP, SQLite, files, the Keychain
and the JSON forms of the library's types. `app/host.rs` names what the surrounding application
supplies.
