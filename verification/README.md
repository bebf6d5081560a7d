# unifi-scoped-proxy

A scoped permission gateway for the UniFi Network and Protect APIs. Clients
talk to the gateway; it holds the controller's master API key, checks each
request against a set of permission scopes and, if the request is allowed,
forwards it to the controller with the key injected.

The decisions are a library verified with Verus:

- `src/scopes.rs`: the permission scopes, the endpoint families and the rule
  that lets a request through or refuses it (403 for a disabled scope or
  an endpoint that no scope covers, 405 for a method the endpoint does not
  permit).
- `src/env.rs`: boolean settings and the scopes read from a snapshot of the
  environment.
- `src/gateway.rs`: configuration, client authentication, the plan for one
  request (answer it or forward it, and where), the headers passed on in
  each direction and the gateway's own error replies.
- `src/text.rs`: character-level operations on paths and header values.
- `src/laws.rs`: properties proved of all requests and configurations, such
  as deny-by-default, read-only defaults, monotonicity in the scopes, and
  that credentials for the gateway never reach the controller.

`app/main.rs` is the HTTP server (axum, reqwest, tokio): it reads the
environment, runs the listener and performs the upstream requests that the
library plans.
