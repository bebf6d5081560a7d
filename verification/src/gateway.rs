//! What the gateway does with one incoming request before anything is sent
//! upstream, and the replies it gives on its own.

use vstd::prelude::*;
use vstd::string::StringSliceAdditionalSpecFns;

use crate::env::{env_value, env_var, env_bool, scopes_from_env, setting_flag};
use crate::scopes::{
    check_scope_permission, denial_of, denial_status, denial_text, Method, PermissionScopes,
    StatusCode,
};
use crate::text::{ascii_lowercase, ascii_lowercased, chars_of, same_chars, starts_with};

verus! {

/// The gateway's settings.
#[derive(Clone, Debug)]
pub struct ProxyConfig {
    /// The controller's base URL, without a trailing path.
    pub unifi_base_url: String,
    /// The controller's master API key, injected into every forwarded request.
    pub api_key: String,
    /// The address the gateway listens on.
    pub listen_addr: String,
    /// Whether the controller's TLS certificate goes unchecked.
    pub accept_invalid_certs: bool,
    /// The token that clients must present, if client authentication is on.
    pub proxy_auth_token: Option<String>,
    /// The enabled permission scopes.
    pub scopes: PermissionScopes,
}

/// Why the environment gives no usable configuration.
#[derive(Clone, Copy, Debug, PartialEq, Eq, Structural)]
pub enum ConfigError {
    /// `UNIFI_API_KEY` is not set.
    MissingApiKey,
}

/// The characters of an optional string.
pub open spec fn opt_chars(o: Option<String>) -> Option<Seq<char>> {
    match o {
        Some(s) => Some(s@),
        None => None,
    }
}

/// The characters of an optional string slice.
pub open spec fn opt_str_chars(o: Option<&str>) -> Option<Seq<char>> {
    match o {
        Some(s) => Some(s@),
        None => None,
    }
}

/// A setting with a fallback: its value when set, `default` otherwise.
pub open spec fn setting_or(value: Option<Seq<char>>, default: Seq<char>) -> Seq<char> {
    match value {
        Some(v) => v,
        None => default,
    }
}

/// The client token setting: an empty value turns authentication off.
pub open spec fn auth_token_setting(value: Option<Seq<char>>) -> Option<Seq<char>> {
    match value {
        Some(v) => if v.len() > 0 {
            Some(v)
        } else {
            None
        },
        None => None,
    }
}

/// The configuration that the environment `env` gives.
pub open spec fn config_matches_env(c: ProxyConfig, env: Seq<(String, String)>) -> bool {
    &&& c.unifi_base_url@ == setting_or(env_value(env, "UNIFI_BASE_URL"@), "https://192.168.1.1"@)
    &&& Some(c.api_key@) == env_value(env, "UNIFI_API_KEY"@)
    &&& c.listen_addr@ == setting_or(env_value(env, "LISTEN_ADDR"@), "127.0.0.1:8080"@)
    &&& c.accept_invalid_certs == setting_flag(env_value(env, "ACCEPT_INVALID_CERTS"@), false)
    &&& opt_chars(c.proxy_auth_token) == auth_token_setting(env_value(env, "PROXY_AUTH_TOKEN"@))
    &&& c.scopes == scopes_from_env(env)
}

fn setting_or_default(env: &[(String, String)], name: &str, default: &str) -> (s: String)
    ensures
        s@ == setting_or(env_value(env@, name@), default@),
{
    match env_var(env, name) {
        Some(v) => v.clone(),
        None => default.to_owned(),
    }
}

impl ProxyConfig {
    /// The configuration that the environment snapshot `env` gives; fails
    /// exactly when `UNIFI_API_KEY` is unset.
    pub fn from_env(env: &[(String, String)]) -> (r: Result<ProxyConfig, ConfigError>)
        ensures
            match r {
                Ok(c) => config_matches_env(c, env@),
                Err(e) => e == ConfigError::MissingApiKey && env_value(env@, "UNIFI_API_KEY"@)
                    is None,
            },
    {
        let api_key = match env_var(env, "UNIFI_API_KEY") {
            Some(k) => k.clone(),
            None => return Err(ConfigError::MissingApiKey),
        };
        let proxy_auth_token = match env_var(env, "PROXY_AUTH_TOKEN") {
            Some(t) => if t.as_str().is_empty() {
                None
            } else {
                Some(t.clone())
            },
            None => None,
        };
        Ok(
            ProxyConfig {
                unifi_base_url: setting_or_default(env, "UNIFI_BASE_URL", "https://192.168.1.1"),
                api_key,
                listen_addr: setting_or_default(env, "LISTEN_ADDR", "127.0.0.1:8080"),
                accept_invalid_certs: env_bool(env, "ACCEPT_INVALID_CERTS", false),
                proxy_auth_token,
                scopes: PermissionScopes::from_env(env),
            },
        )
    }
}

/// A reply that the gateway gives itself, with a JSON body.
#[derive(Clone, Debug)]
pub struct Reply {
    pub status: StatusCode,
    pub body: String,
}

/// What to do with an incoming request.
#[derive(Clone, Debug)]
pub enum RequestPlan {
    /// Answer the client directly.
    Respond(Reply),
    /// Forward the request to this controller URL.
    Forward(String),
}

/// The health endpoints.
pub open spec fn is_health_path(p: Seq<char>) -> bool {
    p == "/healthz"@ || p == "/health"@
}

/// The body of a health reply.
pub open spec fn health_text() -> Seq<char> {
    "{\"status\":\"ok\"}"@
}

/// The body sent to a client without a valid token.
pub open spec fn unauthorized_text() -> Seq<char> {
    "{\"error\":\"Unauthorized\",\"message\":\"Invalid or missing proxy authentication token.\"}"@
}

/// The scheme word that precedes a token in an `Authorization` header.
pub open spec fn bearer_prefix() -> Seq<char> {
    "Bearer "@
}

/// The token that a client presents: the `X-Proxy-Token` header if it is
/// readable, else the rest of an `Authorization` header that starts with
/// `Bearer `.
pub open spec fn presented_token(x_proxy_token: Option<Seq<char>>, authorization: Option<
    Seq<char>,
>) -> Option<Seq<char>> {
    match x_proxy_token {
        Some(t) => Some(t),
        None => match authorization {
            Some(a) => if bearer_prefix().is_prefix_of(a) {
                Some(a.skip(bearer_prefix().len() as int))
            } else {
                None
            },
            None => None,
        },
    }
}

/// A client is let in when no token is configured, or when it presents
/// exactly the configured token.
pub open spec fn is_authorized(expected: Option<Seq<char>>, presented: Option<Seq<char>>) -> bool {
    match expected {
        None => true,
        Some(t) => presented == Some(t),
    }
}

/// The controller URL a request is forwarded to: the base URL, the path, and
/// the query string after `?` when there is one.
pub open spec fn target_text(base: Seq<char>, path: Seq<char>, query: Option<Seq<char>>) -> Seq<
    char,
> {
    match query {
        Some(q) => base + path + "?"@ + q,
        None => base + path,
    }
}

/// Headers that are never passed on to the controller: the client's `Host`,
/// its credentials for the gateway, its cookies and forwarding trail, and any
/// API key of its own (the gateway injects the master key itself). Header
/// names are compared without regard to ASCII case.
pub open spec fn is_stripped_header(name: Seq<char>) -> bool {
    let n = ascii_lowercase(name);
    ||| n == "host"@
    ||| n == "authorization"@
    ||| n == "x-proxy-token"@
    ||| n == "cookie"@
    ||| n == "x-forwarded-for"@
    ||| n == api_key_header()
}

/// The token that a client presents (see `presented_token`).
pub fn provided_token<'a>(x_proxy_token: Option<&'a str>, authorization: Option<&'a str>) -> (r:
    Option<&'a str>)
    ensures
        opt_str_chars(r) == presented_token(opt_str_chars(x_proxy_token), opt_str_chars(authorization)),
{
    match x_proxy_token {
        Some(t) => Some(t),
        None => match authorization {
            Some(a) => {
                let chars = chars_of(a);
                let prefix = chars_of("Bearer ");
                if starts_with(&chars, &prefix) {
                    Some(a.substring_char(prefix.len(), chars.len()))
                } else {
                    None
                }
            },
            None => None,
        },
    }
}

/// Whether two tokens are equal. Every character position of `expected` is
/// compared, whatever the outcome, so the time taken does not depend on
/// where the tokens first differ.
pub fn tokens_match(provided: &str, expected: &str) -> (b: bool)
    ensures
        b == (provided@ == expected@),
{
    let a = chars_of(provided);
    let e = chars_of(expected);
    let same_len = a.len() == e.len();
    let mut mismatches: usize = 0;
    let mut i: usize = 0;
    while i < e.len()
        invariant
            i <= e@.len(),
            mismatches <= i,
            same_len == (a@.len() == e@.len()),
            same_len ==> ((mismatches == 0) == forall|j: int| 0 <= j < i ==> a@[j] == e@[j]),
        decreases e@.len() - i,
    {
        let c = if i < a.len() {
            a[i]
        } else {
            '\0'
        };
        let d: usize = if c == e[i] {
            0
        } else {
            1
        };
        proof {
            if same_len && d == 1 {
                assert(a@[i as int] != e@[i as int]);
            }
        }
        mismatches = mismatches + d;
        i = i + 1;
    }
    let same = same_len && mismatches == 0;
    proof {
        if same {
            assert(a@ =~= e@);
        }
    }
    same
}

/// Whether a request header with this name is passed on to the controller.
pub fn should_forward_header(name: &str) -> (b: bool)
    ensures
        b == !is_stripped_header(name@),
{
    let n = ascii_lowercased(&chars_of(name));
    !(same_chars(&n, &chars_of("host")) || same_chars(&n, &chars_of("authorization"))
        || same_chars(&n, &chars_of("x-proxy-token")) || same_chars(&n, &chars_of("cookie"))
        || same_chars(&n, &chars_of("x-forwarded-for")) || same_chars(&n, &chars_of("x-api-key")))
}

/// The name and value of a header, as characters and bytes.
pub open spec fn header_view(h: (String, Vec<u8>)) -> (Seq<char>, Seq<u8>) {
    (h.0@, h.1@)
}

/// The headers of a client request that are passed on, in their order, each
/// with its value.
pub open spec fn kept_headers(incoming: Seq<(String, Vec<u8>)>) -> Seq<(Seq<char>, Seq<u8>)>
    decreases incoming.len(),
{
    if incoming.len() == 0 {
        Seq::empty()
    } else {
        let rest = kept_headers(incoming.drop_last());
        if is_stripped_header(incoming.last().0@) {
            rest
        } else {
            rest.push(header_view(incoming.last()))
        }
    }
}

/// The name of the header that carries the controller's master API key.
pub open spec fn api_key_header() -> Seq<char> {
    "x-api-key"@
}

/// The headers of the upstream request: the client's headers (one entry per
/// value) without the stripped ones, followed by the master API key, which
/// is then the only API key header.
pub fn forwarded_headers(incoming: &[(String, Vec<u8>)], api_key: &str) -> (out: Vec<(String, Vec<u8>)>)
    ensures
        out@.map_values(|h: (String, Vec<u8>)| header_view(h)) == kept_headers(incoming@).push(
            (api_key_header(), api_key.spec_bytes()),
        ),
{
    let mut out: Vec<(String, Vec<u8>)> = Vec::new();
    let mut i: usize = 0;
    while i < incoming.len()
        invariant
            i <= incoming@.len(),
            out@.map_values(|h: (String, Vec<u8>)| header_view(h)) == kept_headers(
                incoming@.take(i as int),
            ),
        decreases incoming@.len() - i,
    {
        assert(incoming@.take(i + 1).drop_last() =~= incoming@.take(i as int));
        let (name, value) = &incoming[i];
        if should_forward_header(name.as_str()) {
            out.push((name.clone(), value.clone()));
        }
        assert(out@.map_values(|h: (String, Vec<u8>)| header_view(h)) =~= kept_headers(
            incoming@.take(i + 1),
        ));
        i = i + 1;
    }
    assert(incoming@.take(incoming@.len() as int) =~= incoming@);
    out.push((String::from_str("x-api-key"), api_key.as_bytes_vec()));
    assert(out@.map_values(|h: (String, Vec<u8>)| header_view(h)) =~= kept_headers(incoming@).push(
        (api_key_header(), api_key.spec_bytes()),
    ));
    out
}

/// The response header that is relayed from the controller to the client:
/// its first `Content-Type` header, if it sent one.
pub open spec fn relayed_header(upstream: Seq<(String, Vec<u8>)>) -> Option<(Seq<char>, Seq<u8>)>
    decreases upstream.len(),
{
    if upstream.len() == 0 {
        None
    } else if ascii_lowercase(upstream[0].0@) == "content-type"@ {
        Some(header_view(upstream[0]))
    } else {
        relayed_header(upstream.drop_first())
    }
}

/// The headers of the controller's response that are passed on to the
/// client: its first `Content-Type` header, and no other.
pub fn relayed_headers(upstream: &[(String, Vec<u8>)]) -> (out: Vec<(String, Vec<u8>)>)
    ensures
        out@.map_values(|h: (String, Vec<u8>)| header_view(h)) == match relayed_header(upstream@) {
            Some(h) => seq![h],
            None => Seq::empty(),
        },
{
    let content_type = chars_of("content-type");
    let mut i: usize = 0;
    assert(upstream@.skip(0) =~= upstream@);
    while i < upstream.len()
        invariant
            i <= upstream@.len(),
            content_type@ == "content-type"@,
            relayed_header(upstream@) == relayed_header(upstream@.skip(i as int)),
        decreases upstream@.len() - i,
    {
        assert(upstream@.skip(i as int).drop_first() =~= upstream@.skip(i + 1));
        let (name, value) = &upstream[i];
        if same_chars(&ascii_lowercased(&chars_of(name.as_str())), &content_type) {
            let mut out: Vec<(String, Vec<u8>)> = Vec::new();
            out.push((name.clone(), value.clone()));
            assert(out@.map_values(|h: (String, Vec<u8>)| header_view(h)) =~= seq![
                header_view(upstream@[i as int]),
            ]);
            return out;
        }
        i = i + 1;
    }
    let out: Vec<(String, Vec<u8>)> = Vec::new();
    assert(out@.map_values(|h: (String, Vec<u8>)| header_view(h)) =~= Seq::empty());
    out
}

/// The controller URL for a request on `path` with an optional query string.
pub fn target_url(base_url: &str, path: &str, query: Option<&str>) -> (url: String)
    ensures
        url@ == target_text(base_url@, path@, opt_str_chars(query)),
{
    let mut url = String::from_str(base_url);
    url.append(path);
    match query {
        Some(q) => {
            url.append("?");
            url.append(q);
        },
        None => {},
    }
    url
}

/// The plan for a request: the reply, or the controller URL to forward to.
pub open spec fn plan_matches(
    plan: RequestPlan,
    method: Method,
    path: Seq<char>,
    query: Option<Seq<char>>,
    x_proxy_token: Option<Seq<char>>,
    authorization: Option<Seq<char>>,
    config: ProxyConfig,
) -> bool {
    if is_health_path(path) {
        plan matches RequestPlan::Respond(r) && r.status == StatusCode::OK && r.body@
            == health_text()
    } else if !is_authorized(
        opt_chars(config.proxy_auth_token),
        presented_token(x_proxy_token, authorization),
    ) {
        plan matches RequestPlan::Respond(r) && r.status == StatusCode::UNAUTHORIZED && r.body@
            == unauthorized_text()
    } else {
        match denial_of(method, path, config.scopes) {
            Some(d) => plan matches RequestPlan::Respond(r) && r.status == denial_status(d)
                && r.body@ == denial_text(d),
            None => plan matches RequestPlan::Forward(url) && url@ == target_text(
                config.unifi_base_url@,
                path,
                query,
            ),
        }
    }
}

/// Decides what to do with a request: health checks are answered at once;
/// then a client without the configured token is refused (401); then the
/// scope rule may refuse the request (403 or 405); otherwise the request is
/// forwarded to the controller.
pub fn plan_request(
    method: &Method,
    path: &str,
    query: Option<&str>,
    x_proxy_token: Option<&str>,
    authorization: Option<&str>,
    config: &ProxyConfig,
) -> (plan: RequestPlan)
    ensures
        plan_matches(
            plan,
            *method,
            path@,
            opt_str_chars(query),
            opt_str_chars(x_proxy_token),
            opt_str_chars(authorization),
            *config,
        ),
{
    let p = chars_of(path);
    if same_chars(&p, &chars_of("/healthz")) || same_chars(&p, &chars_of("/health")) {
        return RequestPlan::Respond(
            Reply { status: StatusCode::OK, body: String::from_str("{\"status\":\"ok\"}") },
        );
    }
    match &config.proxy_auth_token {
        Some(expected) => {
            let accepted = match provided_token(x_proxy_token, authorization) {
                Some(t) => tokens_match(t, expected.as_str()),
                None => false,
            };
            if !accepted {
                return RequestPlan::Respond(
                    Reply {
                        status: StatusCode::UNAUTHORIZED,
                        body: String::from_str(
                            "{\"error\":\"Unauthorized\",\"message\":\"Invalid or missing proxy authentication token.\"}",
                        ),
                    },
                );
            }
        },
        None => {},
    }
    match check_scope_permission(method, path, &config.scopes) {
        Err((status, body)) => RequestPlan::Respond(Reply { status, body }),
        Ok(()) => RequestPlan::Forward(target_url(config.unifi_base_url.as_str(), path, query)),
    }
}

/// A failure in the course of forwarding a request.
#[derive(Clone, Copy, Debug, PartialEq, Eq, Structural)]
pub enum Failure {
    /// The request method cannot be used for the upstream request.
    InvalidMethod,
    /// The request body is over the size limit.
    RequestBodyTooLarge,
    /// The request body could not be read from the client.
    RequestBodyUnreadable,
    /// The controller could not be reached.
    UpstreamUnreachable,
    /// The controller's response body could not be read.
    UpstreamBodyUnreadable,
    /// The response to the client could not be built.
    ResponseBuildFailed,
}

/// The status of the reply to a failure.
pub open spec fn failure_status(f: Failure) -> StatusCode {
    match f {
        Failure::InvalidMethod => StatusCode::BAD_REQUEST,
        Failure::RequestBodyTooLarge => StatusCode::PAYLOAD_TOO_LARGE,
        Failure::RequestBodyUnreadable => StatusCode::BAD_REQUEST,
        Failure::UpstreamUnreachable => StatusCode::BAD_GATEWAY,
        Failure::UpstreamBodyUnreadable => StatusCode::BAD_GATEWAY,
        Failure::ResponseBuildFailed => StatusCode::INTERNAL_SERVER_ERROR,
    }
}

/// The JSON body of the reply to a failure.
pub open spec fn failure_text(f: Failure) -> Seq<char> {
    match f {
        Failure::InvalidMethod => "{\"error\":\"Bad Request\",\"message\":\"Invalid HTTP method.\"}"@,
        Failure::RequestBodyTooLarge => "{\"error\":\"Payload Too Large\",\"message\":\"Request body exceeds the 1 MB limit.\"}"@,
        Failure::RequestBodyUnreadable => "{\"error\":\"Bad Request\",\"message\":\"Failed to read the request body.\"}"@,
        Failure::UpstreamUnreachable => "{\"error\":\"Bad Gateway\",\"message\":\"Failed to connect to the UniFi Controller.\"}"@,
        Failure::UpstreamBodyUnreadable => "{\"error\":\"Bad Gateway\",\"message\":\"Failed to read response from UniFi Controller.\"}"@,
        Failure::ResponseBuildFailed => "{\"error\":\"Internal Error\",\"message\":\"Failed to build response.\"}"@,
    }
}

/// The reply to the client after a failure.
pub fn failure_reply(f: Failure) -> (r: Reply)
    ensures
        r.status == failure_status(f),
        r.body@ == failure_text(f),
{
    match f {
        Failure::InvalidMethod => Reply {
            status: StatusCode::BAD_REQUEST,
            body: String::from_str("{\"error\":\"Bad Request\",\"message\":\"Invalid HTTP method.\"}"),
        },
        Failure::RequestBodyTooLarge => Reply {
            status: StatusCode::PAYLOAD_TOO_LARGE,
            body: String::from_str(
                "{\"error\":\"Payload Too Large\",\"message\":\"Request body exceeds the 1 MB limit.\"}",
            ),
        },
        Failure::RequestBodyUnreadable => Reply {
            status: StatusCode::BAD_REQUEST,
            body: String::from_str(
                "{\"error\":\"Bad Request\",\"message\":\"Failed to read the request body.\"}",
            ),
        },
        Failure::UpstreamUnreachable => Reply {
            status: StatusCode::BAD_GATEWAY,
            body: String::from_str(
                "{\"error\":\"Bad Gateway\",\"message\":\"Failed to connect to the UniFi Controller.\"}",
            ),
        },
        Failure::UpstreamBodyUnreadable => Reply {
            status: StatusCode::BAD_GATEWAY,
            body: String::from_str(
                "{\"error\":\"Bad Gateway\",\"message\":\"Failed to read response from UniFi Controller.\"}",
            ),
        },
        Failure::ResponseBuildFailed => Reply {
            status: StatusCode::INTERNAL_SERVER_ERROR,
            body: String::from_str(
                "{\"error\":\"Internal Error\",\"message\":\"Failed to build response.\"}",
            ),
        },
    }
}

} // verus!
