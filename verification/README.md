# jinn

Subscription authentication and the OpenAI Codex transport for the jinn
terminal assistant, written in Verus.

- `src/` is the verified library: provider identity and login methods, the
  credential document and its store operations, access-token planning and
  refresh bookkeeping, the OAuth building blocks (PKCE, the local callback's
  request handling, the device-code polling schedule), the Codex login and
  refresh decisions, the authentication modal's state machines and intents,
  provider backends and their configurations, the Codex request items and
  event-stream parser, key bindings and scopes, clipboard decisions, match
  highlighting, and the application's file locations. Calls into outside
  crates (base64, sha2, url, serde_json, rand, jiff) sit behind small trusted
  functions in `src/codecs.rs` and `src/credential.rs`.
- `app/` performs the I/O the library decides on: the credential file, the
  TCP callback listener, HTTP requests, the polling and login tasks, browser
  launching, the platform clipboard, and popup geometry.
- `tests/` exercises the library on concrete values.
