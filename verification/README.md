# cohub_desktop

A desktop companion for Cohub: it logs in with the OAuth device flow, follows
the realtime events of every space of the account, and reports finished
conversations by system notification, in-app toast and a tray badge.

The decisions are a verified library (`src/`):

- `json` — the JSON model the protocol reads (parsed by serde_json).
- `events`, `subscription` — the gateway events, the per-turn live state
  (distinct message ordinals and tool ids), the session-to-space map, and the
  subscription as a state machine from frames to reactions.
- `signal` — the single-space client and its two signals.
- `auth` — device-flow requests, token answers, freshness, polling.
- `api` — API endpoints and status checks.
- `settings` — listening and notification settings and how they load.
- `ui` — event routing by settings, notifications, tray badge, statuses.
- `table`, `text`, `errors` — text-keyed maps, text helpers, error messages.
  The maps keyed by session and turn ids are `StrTable`s, not `HashMap<String, _>`:
  vstd specifies `HashMap` lookups only for key types known to obey its key
  model (integers, `bool`, boxed integers), and `String` is not among them, so
  nothing could be proved of a `String`-keyed `HashMap`. The ordinals of a turn,
  keyed by `u64`, stay in a `HashSet<u64>`; the tool ids of a turn, being
  texts, are a `Vec<String>` kept free of duplicates, for the same reason.
- `laws` — properties that span calls.

`app/` is the Tauri program around it: HTTP, WebSocket, files, tray, windows.
