# Grafter

A portal in front of Keycloak. Operators propose changes to accounts, admins approve or
reject them or apply their own, and every change leaves an entry in an audit log. Proposals
and audit entries are kept in a bucket, sessions and locks in Redis.

The decisions are a library that is verified with [Verus](https://github.com/verus-lang/verus).
It does no I/O: a request is a conversation, in which the library says what it needs next and
is told what came of it.

```
respond(config, request, replies so far)  →  Perform(effect)  or  Finish(outcome)
```

## Layout

| Path | What it holds |
|---|---|
| `src/portal.rs` | all requests, and the function that takes one a step further |
| `src/effects.rs`, `src/script.rs`, `src/asks.rs` | effects, replies, outcomes, and how a step reads the replies |
| `src/routes/` | one function per request, with what it asks for as a spec function |
| `src/service/` | direct and proposed edits, and how an approved change is applied |
| `src/provider/` | the calls to an identity provider, and Keycloak's Admin API |
| `src/storage/` | the calls to the storage, and the layout of the bucket |
| `src/auth.rs`, `src/session.rs`, `src/config.rs` | signing in, sessions, settings |
| `src/error.rs`, `src/pages.rs` | what a browser is shown |
| `src/laws/` | what holds of whole requests: who may do what, that changes are resolved once, that nothing changes unrecorded |
| `src/outside.rs` | what is taken on trust of other crates and of std |
| `src/test_support.rs` | an identity provider and a storage in memory |
| `tests/` | tests, most of them against the in-memory world |
| `app/` | the server: axum, Redis, S3, HTTP and templates around the library |

## Settings

The server reads its settings from the environment.

| Variable | |
|---|---|
| `OIDC_ISSUER`, `OIDC_CLIENT_ID`, `OIDC_CLIENT_SECRET`, `OIDC_REDIRECT_URI` | the realm in which users sign in; required |
| `KC_ADMIN_URL`, `KC_ADMIN_REALM`, `KC_ADMIN_CLIENT_ID`, `KC_ADMIN_CLIENT_SECRET` | the service account for the Admin API; required |
| `IAM_ROLE_ADMIN`, `IAM_ROLE_OPERATOR` | the realm roles that make an admin and an operator; required |
| `S3_ENDPOINT`, `S3_BUCKET`, `S3_ACCESS_KEY`, `S3_SECRET_KEY` | the bucket; required |
| `SESSION_SECRET` | at least 32 bytes; required |
| `REDIS_URL` | required |
| `HOST`, `PORT` | where to listen; `0.0.0.0` and `3000` |
| `TEAMS_GROUP` | the group that new teams are made under; `teams` |
| `EMERGENCY_TOKEN` | lets its holder make a user an admin; without it nobody can |
