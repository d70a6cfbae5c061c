# fogpub

A social network for vouching for people you've lived with. This crate holds the
sign-in logic, verified with Verus; `app/` is the web server around it.

Sign-in works by e-mail: a visitor asks for a six-digit code, the code is kept for
15 minutes and mailed (or printed when no mail service is set up), and a correct code
opens a session that lasts two years, carried in the `session_token` cookie. At most
three unused codes per address are issued within an hour. New users pick a name before
their first session is opened.

Layout of `src/`:

- `handlers.rs` — the sign-in, code check and name registration requests as state
  machines (state and outcome in, next state and action out), and what every run of
  them keeps.
- `pages.rs` — the responses, their messages, and the pages for the other requests.
- `session.rs` — sessions, session tokens, reading the `Cookie` header, the
  session cookie; round-trip laws between the cookie that is set and the one read.
- `services.rs` — sign-in codes.
- `email.rs` — mail configuration from the environment and the sign-in message.
- `database.rs` — the store's rules: code lifetime, the rate limit window, session
  lifetime.
- `text.rs` — character-level text handling (trimming, decimal notation).
- `random.rs`, and the header value wrappers in `session.rs` — the calls into `rand`
  and `http` whose contracts are trusted.

`app/` runs the state machines against SQLite (`sqlx`), sends mail (`lettre`),
renders pages (`askama`) and serves them (`axum`).
