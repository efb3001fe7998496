# pebble_web

The notification, rule and configuration logic of the Pebble Web mail server, verified with Verus.

## Layout

- `src/` — the verified library:
  - `text.rs`: character-level string helpers (trim, ASCII case, prefix/suffix/infix search,
    decimal formatting and parsing) with specifications over `Seq<char>`;
  - `json.rs`: a JSON document model with its mathematical view; serde_json reads and writes
    the text;
  - `encoding.rs`: percent-encoding, base64 and HMAC-SHA256 (computed by `urlencoding`,
    `base64`, `hmac` and `sha2`);
  - `config.rs`: the checks applied to the environment and the derived paths and URLs;
  - `model.rs`: messages, webhook endpoints, providers;
  - `notifications.rs`: provider configuration checks, notification text, DingTalk and Feishu
    signatures, and the exact HTTP request each provider receives;
  - `webhooks.rs`: the decisions of the webhook handlers, in the order they check (name,
    lookup, submitted configuration, merging with the stored one, provider requirements);
  - `store.rs`: provider names and the conversion of table rows;
  - `rules_engine.rs`: reading rule documents, matching conditions, planning actions;
  - `oauth.rs`: offered providers, callback redirects, the store of pending sign-ins.
- `tests/` — tests of the library.
- `app/` — the server around the library: environment, HTTP delivery with `reqwest`, the SQLite
  table with `rusqlite`, the `axum` handlers and the rule runner.
