# app_iced — a light Telegram desktop client, its logic verified

The library (`src/`) holds the client's logic with Verus contracts and
proofs; `app/` is the ordinary Rust shell around it.

## Library

- `bridge` — the request and message types exchanged between the
  interface and the network side, and the row types they carry.
- `state` (with `state/machine.rs`) — the interface state: every user
  action and every network message as a transition with its exact effect,
  the requests it queues, and what it leaves for the shell (files to open,
  voice notes to play, persisted preferences).
- `login` — the network side of the phone sign-in (code, then password).
- `remote` — which Telegram operation each request needs on a real account,
  and what a failed or finished operation reports.
- `rows` — display rows from reported messages and dialogs, live updates,
  the download cache, notifications.
- `demo` — the offline demo backend: canned chats and histories, and its
  answer to every request.
- `links`, `emoji`, `text` — message text: URLs, code spans, emoji runs,
  trimming and line splitting.
- `format`, `theme`, `qr`, `network` — numbers and sizes, palettes and
  clock labels, the sign-in QR image, `.env` configuration, the data
  directory rule and the files inside it, request ordering and search coalescing.

Calls into qrcodegen, tiny-skia and chrono sit behind small trusted
wrappers whose contracts say what those crates document.

## Shell

`app/` reads the command line, the `.env` file and the persisted files,
draws the demo pictures, and runs the state against the demo backend
(`--demo`). The window toolkit, the Telegram runtime, the tray and the
audio decoder are not part of this build.
