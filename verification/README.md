# authservice-sdk

Rust SDK for backend (BFF) integrations with AuthService: OIDC discovery,
OAuth2 `/oauth2/token` flows (authorization code + PKCE, refresh, embedded
session, password, client credentials), userinfo / introspect / revoke, and
the tenant-scoped service user admin API.

## Layout

- `src/` — the verified core (Verus). Configuration parsing and validation,
  client authentication (`none` / `client_secret_basic` / `client_secret_post`),
  PKCE generation and the authorize URL, every token-endpoint form body,
  response classification into `SdkError`, the discovery cache policy, the
  user-admin URLs and `Authorization` value, and the PKCE verifier store.
  Calls into `url`, `base64`, `sha2`, `rand`, `uuid`, `serde_json` and the
  `http` header check go through small trusted wrappers whose contracts are
  stated next to them.
- `app/` — the transport: environment variables, `reqwest` requests,
  `serde` (de)serialization, `tokio` locks, `secrecy` for the client secret,
  and the async `OAuth2Client`, `DiscoveryClient`, `ServiceUserAdminClient`
  and PKCE store trait built on the core.
- `tests/` — tests of the core on concrete values.
