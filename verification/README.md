# meowify

The core of the Meowify media client, written in Verus: every function in
`src/` carries a contract that Verus proves, except four small wrappers
around outside crates (`digest::sha256`, `digest::base64_url_no_pad`,
`config::project_dirs`, `config::cache_dir_bytes`), whose contracts are
trusted as their crates document them.

- `src/` — the verified library
  - `rbac`, `model`, `protocol`, `room`: party rooms — roles and
    permissions, invite codes, join requests, the shared queue and the
    synchronised playback state. `room_laws` proves properties that span
    the room's operations (a refused request changes nothing, only an
    approval adds a member, sequence numbers advance by one, …).
  - `playback`: the local playback queue and its repeat modes.
  - `discovery`: what LAN discovery remembers and reports as peers come,
    go and announce rooms.
  - `youtube`, `auth`, `request`: the YouTube Data API and SoundCloud
    OAuth requests, built as plain values; `digest` holds the SHA-256 and
    Base64 calls (into `sha2` and `base64`) that invite codes and PKCE use.
  - `config`, `library`: settings and the local library's records.
  - `cli`, `tui`, `gtk_shell`, `demo`, `labels`: what the front ends print
    and decide.
  - `text`, `keyed`: string order and sorted keyed tables.
- `tests/` — tests run against the compiled library.
- `app/` — the command line (`clap`), JSON output (`serde`), HTTP
  (`reqwest`), the SQLite library store (`rusqlite`) and mDNS discovery
  (`libp2p`), all driving the library.
