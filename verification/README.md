# vps_telegram_bot

Three Telegram bots for a media VPS, with their logic as a verified library.

- `src/media_control/`: the media control panel — settings, the exclusive task slot and
  upload pool (`state`), path guarding and listings (`storage`), callback data and the
  state changes it triggers (`callback`), keyboards, selector and texts, and the jobs
  (merge, conversion, streaming, deletion, upload) as state machines that say what work
  to do next (`jobs`, `tasks`).
- `src/vpsupload/`: the upload bot — per-user sessions and their store, the task board,
  menus and selector, chunked-upload bookkeeping and messages.
- `src/bilive.rs`: the recorder control bot — settings, views, routing and recording alerts.
- `src/text.rs`, `src/paths.rs`, `src/patterns.rs`: text, path and regular-expression helpers.
- `app/`: the programs around the library (Telegram, FFmpeg, the file system, HTTP); run
  with `media` (default), `vpsupload` or `bilive`.

## Collections

The library keeps its collections in forms whose contents Verus can state exactly:

- the media bot's upload pool is a `Vec` of entries with distinct task ids, and its
  per-action selections a struct with one list per action, so that "each other action's
  choices stay as they were" is a plain field equality;
- the upload bot's sessions are a `Vec` of `(user id, session)` pairs with distinct keys.
  vstd's `HashMap<i64, _>` contracts, its entry API included, hold only under its
  key-model and hasher assumptions; the store's own loop proves its lookups without
  them, at the cost of a linear search over a handful of users;
- the recorder bot's per-room recording flags are a `Vec` of `(room id, flag)` pairs, as
  its rooms are keyed by strings.

## Dependencies

`takecell` is pinned to `0.1.1` only so that `teloxide-core` builds with the toolchain
here; nothing in this crate uses it.
