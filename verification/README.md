# resilissh

The decision core of a tool that moves one large file over SFTP, up or down,
across a network that keeps breaking. It decides what to do next and what to
tell the user; connections and files are handled by the application round it.

The library is written in Verus. Every function states what it returns, and
what holds of a transfer as a whole is proved in `src/transfer/laws.rs`: a
transfer, strict or fast, succeeds only if the SHA-256 digests of the two whole
files were found equal at its end; it copies whole chunks in order; it repeats
every failure to connect, and every failure of the server up to that comparison
unless the server's own message says that a repetition will not help; it waits
from one to fifteen seconds between attempts; and it keeps its progress when it
stops.

| Where | What |
|-------|------|
| `src/text.rs`, `src/number.rs`, `src/path.rs`, `src/order.rs` | text, numbers, paths, sorting |
| `src/chunk.rs`, `src/hashing.rs`, `src/retry.rs` | chunks, digests, waiting times |
| `src/checkpoint.rs`, `src/download_checkpoint.rs`, `src/storage.rs` | what is remembered of a transfer, and where |
| `src/sftp/` | logging in, browsing, remote paths, errors |
| `src/transfer/` | the transfer: its model, its program, its laws |
| `src/stall.rs` | noticing a transfer that stands still |
| `src/session/` | requests, plans, forecasts, messages |
| `src/history.rs`, `src/profiles.rs`, `src/ssh_config.rs` | history, saved connections, the SSH configuration |
| `app/` | the desktop application: SSH sessions, files, the window |

A saved connection never holds a password, and passwords that an older store
holds are dropped when it is written.

Only chunks whose digests were compared count as verified. A strict transfer
that has verified all that it has moved keeps to that, and goes on exactly where
it was when it breaks. A fast transfer compares only the whole files: before it
moves chunks it sets what was verified aside, and when it breaks it goes on at
the edge of the last whole chunk that it has moved.
