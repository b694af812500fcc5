# to_podcast

A personal podcast server. Videos submitted by URL are turned into audio
episodes (with `yt-dlp` and `ffprobe`), stored in SQLite, and published as an
RSS feed with iTunes extensions. The feed is protected by HTTP basic
authentication; submissions need a session token obtained by logging in with a
passkey (WebAuthn).

## Layout

- `src/` — the library, verified with Verus:
  - `auth.rs`: basic-auth header checking (prefix, trimming, base64, UTF-8,
    split at the first `:`) and the session store with its one-hour expiry;
  - `feed.rs`: episodes, `HH:MM:SS` durations and the RSS channel built from them;
  - `media.rs`: URL validation, file names and stems of paths, audio URLs,
    media paths, and what a run of the downloader yields;
  - `storage.rs`: how episodes map to rows of the `episodes` table, the
    newest-first listing order, and the
    rows of new users and passkey credentials;
  - `routes/`: the decisions of the HTTP handlers (feed access, bearer tokens,
    new episodes, usernames, and the passkey registration and login
    ceremonies, which call `webauthn-rs` on JSON text);
  - `config.rs`, `timestamp.rs`, `ids.rs`: settings with their defaults, UTC
    moments and UUIDs;
  - `text.rs`, `strmap.rs`: Unicode trimming, UTF-8 decoding, decimal text, and
    a map keyed by strings.
- `app/` — the server around the library: environment, SQLite queries,
  external processes, JSON and the HTTP routes.
- `tests/` — tests of the library.
