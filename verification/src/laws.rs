//! Properties of the scope rule and of request handling that hold for every
//! request, every path and every configuration.

use vstd::prelude::*;

use crate::env::{env_value, scopes_from_env, setting_flag};
use crate::text::{ascii_lower, ascii_lowercase, has_infix};
use vstd::utf8::is_ascii_chars;
use crate::gateway::{
    config_matches_env, failure_status, Failure, relayed_header, header_view, api_key_header, is_stripped_header, kept_headers, is_authorized, is_health_path, opt_chars, plan_matches, presented_token, unauthorized_text,
    ProxyConfig, RequestPlan,
};
use crate::scopes::{
    denial_text, status_number, is_single_segment_under, scope_var_name, denial_of, denial_status, requirement_of, route_of, site_prefix, Denial, Method, PermissionScopes, Requirement, Route,
    Scope, StatusCode,
};

verus! {

/// A request passes exactly when the scope it needs is enabled: no request
/// passes without an enabled scope behind it.
pub proof fn allowed_iff_needed_scope_enabled(m: Method, p: Seq<char>, scopes: PermissionScopes)
    ensures
        denial_of(m, p, scopes) is None <==> (requirement_of(m, p) matches Requirement::Needs(s)
            && scopes.grants(s)),
{
}

/// Enabling more scopes never refuses a request that was let through.
pub proof fn more_scopes_never_deny_more(
    m: Method,
    p: Seq<char>,
    fewer: PermissionScopes,
    more: PermissionScopes,
)
    requires
        forall|s: Scope| fewer.grants(s) ==> more.grants(s),
    ensures
        denial_of(m, p, fewer) is None ==> denial_of(m, p, more) is None,
{
    match requirement_of(m, p) {
        Requirement::Needs(s) => {
            assert(fewer.grants(s) ==> more.grants(s));
        },
        Requirement::MethodNotAllowed => {},
        Requirement::Unmapped => {},
    }
}

/// Whether a request is refused for its method does not depend on the scopes.
pub proof fn method_refusal_ignores_scopes(
    m: Method,
    p: Seq<char>,
    a: PermissionScopes,
    b: PermissionScopes,
)
    ensures
        (denial_of(m, p, a) == Some(Denial::MethodNotAllowed)) == (denial_of(m, p, b) == Some(
            Denial::MethodNotAllowed,
        )),
{
}

/// Only GET and POST can ever pass: every other method is refused whatever
/// the scopes, as not allowed on an endpoint that a rule names, and as an
/// unknown endpoint elsewhere.
pub proof fn only_get_and_post_pass(m: Method, p: Seq<char>, scopes: PermissionScopes)
    requires
        !(m is GET),
        !(m is POST),
    ensures
        denial_of(m, p, scopes) == if route_of(p) == Route::Other {
            Some(Denial::UnknownEndpoint)
        } else {
            Some(Denial::MethodNotAllowed)
        },
{
}

/// A POST passes only as a device action, a device adoption or a client
/// action, with that control scope enabled.
pub proof fn post_needs_control_scope(m: Method, p: Seq<char>, scopes: PermissionScopes)
    requires
        m is POST,
        denial_of(m, p, scopes) is None,
    ensures
        requirement_of(m, p) == Requirement::Needs(Scope::DevicesControl) && scopes.devices_control
            || requirement_of(m, p) == Requirement::Needs(Scope::DevicesAdopt)
            && scopes.devices_adopt || requirement_of(m, p) == Requirement::Needs(
            Scope::ClientsControl,
        ) && scopes.clients_control,
{
}

/// With the control and adoption scopes off, the gateway is read-only: only
/// GET requests pass.
pub proof fn read_only_without_control_scopes(m: Method, p: Seq<char>, scopes: PermissionScopes)
    requires
        !scopes.devices_control,
        !scopes.devices_adopt,
        !scopes.clients_control,
        denial_of(m, p, scopes) is None,
    ensures
        m is GET,
{
}

/// Deny by default: a path that no rule names is refused as an unknown
/// endpoint (403), whatever the method and whatever the scopes.
pub proof fn unknown_paths_denied_by_default(m: Method, p: Seq<char>, scopes: PermissionScopes)
    requires
        route_of(p) == Route::Other,
    ensures
        denial_of(m, p, scopes) == Some(Denial::UnknownEndpoint),
        denial_status(Denial::UnknownEndpoint) == StatusCode::FORBIDDEN,
{
}

/// With no scope variable set, only the info and sites reads are on; the
/// gateway then lets only GET requests through.
pub proof fn unset_scopes_take_defaults(env: Seq<(String, String)>, m: Method, p: Seq<char>)
    requires
        env_value(env, "SCOPE_INFO_READ"@) is None,
        env_value(env, "SCOPE_SITES_READ"@) is None,
        env_value(env, "SCOPE_DEVICES_READ"@) is None,
        env_value(env, "SCOPE_DEVICES_CONTROL"@) is None,
        env_value(env, "SCOPE_DEVICES_ADOPT"@) is None,
        env_value(env, "SCOPE_CLIENTS_READ"@) is None,
        env_value(env, "SCOPE_CLIENTS_CONTROL"@) is None,
        env_value(env, "SCOPE_WLAN_READ"@) is None,
        env_value(env, "SCOPE_PROTECT_READ"@) is None,
    ensures
        scopes_from_env(env).info_read,
        scopes_from_env(env).sites_read,
        !scopes_from_env(env).devices_read,
        !scopes_from_env(env).devices_control,
        !scopes_from_env(env).devices_adopt,
        !scopes_from_env(env).clients_read,
        !scopes_from_env(env).clients_control,
        !scopes_from_env(env).wlan_read,
        !scopes_from_env(env).protect_read,
        denial_of(m, p, scopes_from_env(env)) is None ==> m is GET,
{
}

/// The health endpoints are answered with 200 whatever the method, the
/// token presented and the scopes.
pub proof fn health_always_answered(
    plan: RequestPlan,
    m: Method,
    p: Seq<char>,
    query: Option<Seq<char>>,
    x_proxy_token: Option<Seq<char>>,
    authorization: Option<Seq<char>>,
    config: ProxyConfig,
)
    requires
        plan_matches(plan, m, p, query, x_proxy_token, authorization, config),
        is_health_path(p),
    ensures
        plan matches RequestPlan::Respond(r) && r.status == StatusCode::OK,
{
}

/// A request is forwarded only if it is not a health check, its client is
/// authorized, and the scope rule lets it pass.
pub proof fn forwarded_only_when_authorized_and_permitted(
    plan: RequestPlan,
    m: Method,
    p: Seq<char>,
    query: Option<Seq<char>>,
    x_proxy_token: Option<Seq<char>>,
    authorization: Option<Seq<char>>,
    config: ProxyConfig,
)
    requires
        plan_matches(plan, m, p, query, x_proxy_token, authorization, config),
        plan is Forward,
    ensures
        !is_health_path(p),
        is_authorized(opt_chars(config.proxy_auth_token), presented_token(x_proxy_token, authorization)),
        denial_of(m, p, config.scopes) is None,
{
}

/// With a token configured, a client that presents no token, or another one,
/// is refused with 401 on every path but the health endpoints.
pub proof fn wrong_token_refused(
    plan: RequestPlan,
    m: Method,
    p: Seq<char>,
    query: Option<Seq<char>>,
    x_proxy_token: Option<Seq<char>>,
    authorization: Option<Seq<char>>,
    config: ProxyConfig,
)
    requires
        plan_matches(plan, m, p, query, x_proxy_token, authorization, config),
        !is_health_path(p),
        config.proxy_auth_token is Some,
        presented_token(x_proxy_token, authorization) != opt_chars(config.proxy_auth_token),
    ensures
        plan matches RequestPlan::Respond(r) && r.status == StatusCode::UNAUTHORIZED && r.body@
            == unauthorized_text(),
{
}

/// Every path under one site's device list, `/v1/sites/<id>/devices...`, is
/// a device endpoint.
pub proof fn site_device_paths_are_device_routes(id: Seq<char>, rest: Seq<char>)
    requires
        !id.contains('/'),
    ensures
        route_of(site_prefix() + id + "/devices"@ + rest) == Route::Devices,
{
    let p = site_prefix() + id + "/devices"@ + rest;
    reveal_strlit("/devices");
    reveal_strlit("/v1/sites/");
    reveal_strlit("/v1/info");
    reveal_strlit("/proxy/network/v1/info");
    reveal_strlit("/proxy/network/integration/v1/info");
    reveal_strlit("/v1/sites");
    reveal_strlit("/proxy/network/v1/sites");
    reveal_strlit("/proxy/network/integration/v1/sites");
    reveal_strlit("/proxy/network/v1/sites/");
    reveal_strlit("/proxy/network/integration/v1/sites/");
    assert(p[1] == 'v');
    assert("/proxy/network/v1/info"@[1] == 'p');
    assert("/proxy/network/integration/v1/info"@[1] == 'p');
    assert("/proxy/network/v1/sites"@[1] == 'p');
    assert("/proxy/network/integration/v1/sites"@[1] == 'p');
    assert("/proxy/network/v1/sites/"@[1] == 'p');
    assert("/proxy/network/integration/v1/sites/"@[1] == 'p');
    assert(!"/proxy/network/v1/sites/"@.is_prefix_of(p)) by {
        if "/proxy/network/v1/sites/"@.is_prefix_of(p) {
            assert(p.subrange(0, 24)[1] == p[1]);
        }
    }
    assert(!"/proxy/network/integration/v1/sites/"@.is_prefix_of(p)) by {
        if "/proxy/network/integration/v1/sites/"@.is_prefix_of(p) {
            assert(p.subrange(0, 36)[1] == p[1]);
        }
    }
    assert(p != "/v1/info"@) by {
        assert(p.len() >= 18);
    }
    assert(p != "/v1/sites"@) by {
        assert(p.len() >= 18);
    }
    assert(p.skip(10)[id.len() as int] == '/');
    assert(p.subrange(10 + id.len() as int, 18 + id.len() as int) =~= "/devices"@);
}

/// A path that names one site, `/v1/sites/<id>`, is a sites endpoint.
pub proof fn single_site_paths_are_site_routes(id: Seq<char>)
    requires
        !id.contains('/'),
    ensures
        route_of(site_prefix() + id) == Route::Sites,
{
    let p = site_prefix() + id;
    reveal_strlit("/v1/sites/");
    reveal_strlit("/v1/info");
    reveal_strlit("/proxy/network/v1/info");
    reveal_strlit("/proxy/network/integration/v1/info");
    reveal_strlit("/v1/sites");
    reveal_strlit("/proxy/network/v1/sites");
    reveal_strlit("/proxy/network/integration/v1/sites");
    reveal_strlit("/proxy/network/v1/sites/");
    reveal_strlit("/proxy/network/integration/v1/sites/");
    assert(p[1] == 'v');
    assert("/proxy/network/v1/info"@[1] == 'p');
    assert("/proxy/network/integration/v1/info"@[1] == 'p');
    assert("/proxy/network/v1/sites"@[1] == 'p');
    assert("/proxy/network/integration/v1/sites"@[1] == 'p');
    assert("/proxy/network/v1/sites/"@[1] == 'p');
    assert("/proxy/network/integration/v1/sites/"@[1] == 'p');
    assert(!"/proxy/network/v1/sites/"@.is_prefix_of(p)) by {
        if "/proxy/network/v1/sites/"@.is_prefix_of(p) {
            assert(p.subrange(0, 24)[1] == p[1]);
        }
    }
    assert(!"/proxy/network/integration/v1/sites/"@.is_prefix_of(p)) by {
        if "/proxy/network/integration/v1/sites/"@.is_prefix_of(p) {
            assert(p.subrange(0, 36)[1] == p[1]);
        }
    }
    assert(p != "/v1/info"@) by {
        assert(p.len() >= 10);
    }
    assert(site_prefix().is_prefix_of(p)) by {
        assert(p.subrange(0, 10) =~= site_prefix());
    }
    assert(p.skip(10) =~= id);
}

/// Every header that is kept from a client request is one that may pass.
proof fn kept_headers_are_not_stripped(incoming: Seq<(String, Vec<u8>)>)
    ensures
        forall|i: int|
            0 <= i < kept_headers(incoming).len() ==> !is_stripped_header(
                #[trigger] kept_headers(incoming)[i].0,
            ),
    decreases incoming.len(),
{
    if incoming.len() > 0 {
        let rest = kept_headers(incoming.drop_last());
        kept_headers_are_not_stripped(incoming.drop_last());
        assert forall|i: int| 0 <= i < kept_headers(incoming).len() implies !is_stripped_header(
            #[trigger] kept_headers(incoming)[i].0,
        ) by {
            if i < rest.len() {
                assert(kept_headers(incoming)[i] == rest[i]);
            }
        }
    }
}

/// The upstream request never carries the client's `Host`, `Authorization`,
/// `X-Proxy-Token`, `Cookie`, `X-Forwarded-For` or `X-API-KEY` headers, and
/// its last header is the master API key.
pub proof fn upstream_headers_are_sanitized(
    incoming: Seq<(String, Vec<u8>)>,
    api_key: Seq<u8>,
    upstream: Seq<(Seq<char>, Seq<u8>)>,
)
    requires
        upstream == kept_headers(incoming).push((api_key_header(), api_key)),
    ensures
        forall|i: int| 0 <= i < upstream.len() - 1 ==> !is_stripped_header(#[trigger] upstream[i].0),
        upstream.last() == (api_key_header(), api_key),
{
    kept_headers_are_not_stripped(incoming);
    assert forall|i: int| 0 <= i < upstream.len() - 1 implies !is_stripped_header(
        #[trigger] upstream[i].0,
    ) by {
        assert(upstream[i] == kept_headers(incoming)[i]);
    }
}

/// Boolean settings ignore ASCII case: an ASCII value gives the same flag as
/// the same value in small letters (so `TRUE`, `Yes` and `true` all turn a
/// setting on).
pub proof fn settings_ignore_ascii_case(v: Seq<char>, default: bool)
    requires
        is_ascii_chars(v),
    ensures
        setting_flag(Some(v), default) == setting_flag(Some(ascii_lowercase(v)), default),
{
    let l = ascii_lowercase(v);
    assert forall|i: int| 0 <= i < l.len() implies '\0' <= #[trigger] l[i] <= '\u{7f}' by {
        assert(l[i] == ascii_lower(v[i]));
        assert('\0' <= v[i] <= '\u{7f}');
    }
    assert(ascii_lowercase(l) =~= l) by {
        assert forall|i: int| 0 <= i < l.len() implies ascii_lowercase(l)[i] == l[i] by {
            assert(l[i] == ascii_lower(v[i]));
        }
    }
}

/// The master API key is the only API key the controller receives: exactly
/// one upstream header is named `X-API-KEY` (in any ASCII case), the last,
/// and its value is the master key, whatever API key headers the client sent.
pub proof fn master_key_is_the_only_api_key(
    incoming: Seq<(String, Vec<u8>)>,
    api_key: Seq<u8>,
    upstream: Seq<(Seq<char>, Seq<u8>)>,
)
    requires
        upstream == kept_headers(incoming).push((api_key_header(), api_key)),
    ensures
        forall|i: int|
            0 <= i < upstream.len() && ascii_lowercase(#[trigger] upstream[i].0) == api_key_header()
                ==> i == upstream.len() - 1 && upstream[i].1 == api_key,
{
    upstream_headers_are_sanitized(incoming, api_key, upstream);
}

/// Camera, NVR and Protect metadata paths need the Protect read scope: a
/// path that holds `/protect`, `/cameras` or `/v1/meta/` and that none of the
/// earlier rules (system information, sites, devices, clients, Wi-Fi) names
/// is a Protect endpoint, and a request on it passes exactly when it is a GET
/// and the Protect read scope is on, whatever the other scopes.
pub proof fn protect_paths_need_protect_read(m: Method, p: Seq<char>, scopes: PermissionScopes)
    requires
        has_infix(p, "/protect"@) || has_infix(p, "/cameras"@) || has_infix(p, "/v1/meta/"@),
        p != "/v1/info"@,
        p != "/proxy/network/v1/info"@,
        p != "/proxy/network/integration/v1/info"@,
        p != "/v1/sites"@,
        p != "/proxy/network/v1/sites"@,
        p != "/proxy/network/integration/v1/sites"@,
        !is_single_segment_under("/v1/sites/"@, p),
        !is_single_segment_under("/proxy/network/v1/sites/"@, p),
        !is_single_segment_under("/proxy/network/integration/v1/sites/"@, p),
        !has_infix(p, "/devices"@),
        !has_infix(p, "/clients"@),
        !has_infix(p, "/wlans"@),
        !has_infix(p, "/wifi-broadcasts"@),
    ensures
        route_of(p) == Route::Protect,
        requirement_of(m, p) == if m is GET {
            Requirement::Needs(Scope::ProtectRead)
        } else {
            Requirement::MethodNotAllowed
        },
        denial_of(m, p, scopes) is None <==> (m is GET && scopes.protect_read),
{
}

/// A request that is not a health check, whose client is authorized (no
/// token is configured, or it presents the configured one) and that the
/// scope rule lets pass is forwarded, whatever its method, to the base URL
/// followed by the path and, when there is one, `?` and the query string.
pub proof fn permitted_requests_are_forwarded(
    plan: RequestPlan,
    m: Method,
    p: Seq<char>,
    query: Option<Seq<char>>,
    x_proxy_token: Option<Seq<char>>,
    authorization: Option<Seq<char>>,
    config: ProxyConfig,
)
    requires
        plan_matches(plan, m, p, query, x_proxy_token, authorization, config),
        p != "/healthz"@,
        p != "/health"@,
        config.proxy_auth_token is None || presented_token(x_proxy_token, authorization) == Some(
            config.proxy_auth_token->0@,
        ),
        denial_of(m, p, config.scopes) is None,
    ensures
        plan matches RequestPlan::Forward(url) && url@ == match query {
            Some(q) => config.unifi_base_url@ + p + "?"@ + q,
            None => config.unifi_base_url@ + p,
        },
{
}

/// Every header of a client request that is not stripped reaches the
/// controller, with its value.
pub proof fn unstripped_headers_are_kept(incoming: Seq<(String, Vec<u8>)>, i: int)
    requires
        0 <= i < incoming.len(),
        !is_stripped_header(incoming[i].0@),
    ensures
        kept_headers(incoming).contains(header_view(incoming[i])),
    decreases incoming.len(),
{
    let k = kept_headers(incoming);
    if i == incoming.len() - 1 {
        assert(k[k.len() - 1] == header_view(incoming[i]));
    } else {
        let rest = incoming.drop_last();
        assert(rest[i] == incoming[i]);
        unstripped_headers_are_kept(rest, i);
        let r = kept_headers(rest);
        let j = choose|j: int| 0 <= j < r.len() && r[j] == header_view(incoming[i]);
        assert(k[j] == r[j]);
    }
}

/// A client request without any stripped header reaches the controller with
/// all its headers, in their order.
pub proof fn clean_requests_keep_all_headers(incoming: Seq<(String, Vec<u8>)>)
    requires
        forall|i: int| 0 <= i < incoming.len() ==> !is_stripped_header(#[trigger] incoming[i].0@),
    ensures
        kept_headers(incoming) == incoming.map_values(|h: (String, Vec<u8>)| header_view(h)),
    decreases incoming.len(),
{
    if incoming.len() > 0 {
        let rest = incoming.drop_last();
        assert forall|i: int| 0 <= i < rest.len() implies !is_stripped_header(
            #[trigger] rest[i].0@,
        ) by {
            assert(rest[i] == incoming[i]);
        }
        clean_requests_keep_all_headers(rest);
        assert(!is_stripped_header(incoming[incoming.len() - 1].0@));
        assert(kept_headers(incoming) =~= incoming.map_values(
            |h: (String, Vec<u8>)| header_view(h),
        ));
    }
}

/// Whether a scope is on when its variable is unset.
pub open spec fn scope_enabled_by_default(s: Scope) -> bool {
    s == Scope::InfoRead || s == Scope::SitesRead
}

/// Each scope is set by its own variable (`SCOPE_INFO_READ` and so on) and by
/// no other: a scope is on exactly when its variable reads as on, or is unset
/// and the scope is on by default.
pub proof fn each_scope_set_by_its_own_variable(env: Seq<(String, String)>, s: Scope)
    ensures
        scopes_from_env(env).grants(s) == setting_flag(
            env_value(env, scope_var_name(s)),
            scope_enabled_by_default(s),
        ),
{
}

/// Setting a scope's variable to `true`, `1` or `yes`, in any ASCII case,
/// turns the scope on; `false`, `0` or `no` turns it off.
pub proof fn scope_variable_words(env: Seq<(String, String)>, s: Scope, v: Seq<char>)
    requires
        env_value(env, scope_var_name(s)) == Some(v),
        is_ascii_chars(v),
    ensures
        (ascii_lowercase(v) == "true"@ || ascii_lowercase(v) == "1"@ || ascii_lowercase(v)
            == "yes"@) ==> scopes_from_env(env).grants(s),
        (ascii_lowercase(v) == "false"@ || ascii_lowercase(v) == "0"@ || ascii_lowercase(v)
            == "no"@) ==> !scopes_from_env(env).grants(s),
{
    each_scope_set_by_its_own_variable(env, s);
    reveal_strlit("true");
    reveal_strlit("1");
    reveal_strlit("yes");
    reveal_strlit("false");
    reveal_strlit("0");
    reveal_strlit("no");
    assert("0"@ != "1"@) by {
        assert("0"@[0] != "1"@[0]);
    }
    assert("false"@ != "true"@ && "false"@ != "1"@ && "false"@ != "yes"@) by {
        assert("false"@.len() == 5);
    }
    assert("no"@ != "true"@ && "no"@ != "1"@ && "no"@ != "yes"@) by {
        assert("no"@.len() == 2);
    }
    assert("0"@ != "true"@ && "0"@ != "yes"@) by {
        assert("0"@.len() == 1);
        assert("true"@.len() == 4);
        assert("yes"@.len() == 3);
    }
}

/// The system information endpoint, under each API root, needs the info
/// read scope on GET and permits no other method.
pub proof fn info_paths_need_info_read(m: Method, p: Seq<char>, scopes: PermissionScopes)
    requires
        p == "/v1/info"@ || p == "/proxy/network/v1/info"@ || p == "/proxy/network/integration/v1/info"@,
    ensures
        route_of(p) == Route::Info,
        denial_of(m, p, scopes) == if !(m is GET) {
            Some(Denial::MethodNotAllowed)
        } else if scopes.info_read {
            None
        } else {
            Some(Denial::ScopeDisabled(Scope::InfoRead))
        },
{
}

/// The site list and a single site, under each API root, need the sites
/// read scope on GET and permit no other method.
pub proof fn site_paths_need_sites_read(m: Method, p: Seq<char>, scopes: PermissionScopes)
    requires
        p != "/v1/info"@,
        p != "/proxy/network/v1/info"@,
        p != "/proxy/network/integration/v1/info"@,
        p == "/v1/sites"@ || p == "/proxy/network/v1/sites"@ || p
            == "/proxy/network/integration/v1/sites"@ || is_single_segment_under("/v1/sites/"@, p)
            || is_single_segment_under("/proxy/network/v1/sites/"@, p) || is_single_segment_under(
            "/proxy/network/integration/v1/sites/"@,
            p,
        ),
    ensures
        route_of(p) == Route::Sites,
        denial_of(m, p, scopes) == if !(m is GET) {
            Some(Denial::MethodNotAllowed)
        } else if scopes.sites_read {
            None
        } else {
            Some(Denial::ScopeDisabled(Scope::SitesRead))
        },
{
}

/// Device endpoints: a POST to a path ending in `/actions` needs the device
/// control scope, a POST to a path ending in `/devices` needs the adoption
/// scope, any other GET needs the device read scope, and nothing else passes.
pub proof fn device_paths_need_device_scopes(m: Method, p: Seq<char>)
    requires
        has_infix(p, "/devices"@),
        p != "/v1/info"@,
        p != "/proxy/network/v1/info"@,
        p != "/proxy/network/integration/v1/info"@,
        p != "/v1/sites"@,
        p != "/proxy/network/v1/sites"@,
        p != "/proxy/network/integration/v1/sites"@,
        !is_single_segment_under("/v1/sites/"@, p),
        !is_single_segment_under("/proxy/network/v1/sites/"@, p),
        !is_single_segment_under("/proxy/network/integration/v1/sites/"@, p),
    ensures
        route_of(p) == Route::Devices,
        requirement_of(m, p) == if "/actions"@.is_suffix_of(p) {
            if m is POST {
                Requirement::Needs(Scope::DevicesControl)
            } else {
                Requirement::MethodNotAllowed
            }
        } else if m is POST && "/devices"@.is_suffix_of(p) {
            Requirement::Needs(Scope::DevicesAdopt)
        } else if m is GET {
            Requirement::Needs(Scope::DevicesRead)
        } else {
            Requirement::MethodNotAllowed
        },
{
}

/// Client endpoints: a POST to a path ending in `/actions` needs the client
/// control scope, any other GET needs the client read scope, and nothing else
/// passes.
pub proof fn client_paths_need_client_scopes(m: Method, p: Seq<char>)
    requires
        has_infix(p, "/clients"@),
        !has_infix(p, "/devices"@),
        p != "/v1/info"@,
        p != "/proxy/network/v1/info"@,
        p != "/proxy/network/integration/v1/info"@,
        p != "/v1/sites"@,
        p != "/proxy/network/v1/sites"@,
        p != "/proxy/network/integration/v1/sites"@,
        !is_single_segment_under("/v1/sites/"@, p),
        !is_single_segment_under("/proxy/network/v1/sites/"@, p),
        !is_single_segment_under("/proxy/network/integration/v1/sites/"@, p),
    ensures
        route_of(p) == Route::Clients,
        requirement_of(m, p) == if "/actions"@.is_suffix_of(p) {
            if m is POST {
                Requirement::Needs(Scope::ClientsControl)
            } else {
                Requirement::MethodNotAllowed
            }
        } else if m is GET {
            Requirement::Needs(Scope::ClientsRead)
        } else {
            Requirement::MethodNotAllowed
        },
{
}

/// Wi-Fi endpoints need the WLAN read scope on GET and permit no other
/// method.
pub proof fn wlan_paths_need_wlan_read(m: Method, p: Seq<char>)
    requires
        has_infix(p, "/wlans"@) || has_infix(p, "/wifi-broadcasts"@),
        !has_infix(p, "/devices"@),
        !has_infix(p, "/clients"@),
        p != "/v1/info"@,
        p != "/proxy/network/v1/info"@,
        p != "/proxy/network/integration/v1/info"@,
        p != "/v1/sites"@,
        p != "/proxy/network/v1/sites"@,
        p != "/proxy/network/integration/v1/sites"@,
        !is_single_segment_under("/v1/sites/"@, p),
        !is_single_segment_under("/proxy/network/v1/sites/"@, p),
        !is_single_segment_under("/proxy/network/integration/v1/sites/"@, p),
    ensures
        route_of(p) == Route::Wlan,
        requirement_of(m, p) == if m is GET {
            Requirement::Needs(Scope::WlanRead)
        } else {
            Requirement::MethodNotAllowed
        },
{
}

/// A variable's value is that of its first entry in the environment, and an
/// unset variable has none.
pub proof fn first_entry_gives_the_value(env: Seq<(String, String)>, name: Seq<char>, i: int)
    requires
        0 <= i < env.len(),
        env[i].0@ == name,
        forall|j: int| 0 <= j < i ==> #[trigger] env[j].0@ != name,
    ensures
        env_value(env, name) == Some(env[i].1@),
    decreases i,
{
    if i > 0 {
        let rest = env.drop_first();
        assert forall|j: int| 0 <= j < i - 1 implies #[trigger] rest[j].0@ != name by {
            assert(rest[j] == env[j + 1]);
        }
        first_entry_gives_the_value(rest, name, i - 1);
    }
}

/// A variable with no entry in the environment is unset.
pub proof fn missing_variable_is_unset(env: Seq<(String, String)>, name: Seq<char>)
    requires
        forall|j: int| 0 <= j < env.len() ==> #[trigger] env[j].0@ != name,
    ensures
        env_value(env, name) is None,
    decreases env.len(),
{
    if env.len() > 0 {
        let rest = env.drop_first();
        assert forall|j: int| 0 <= j < rest.len() implies #[trigger] rest[j].0@ != name by {
            assert(rest[j] == env[j + 1]);
        }
        missing_variable_is_unset(rest, name);
    }
}

/// The token a client presents: its `X-Proxy-Token` header when it sent
/// one; otherwise what follows `Bearer ` in its `Authorization` header; and
/// none otherwise.
pub proof fn presented_token_sources(x: Option<Seq<char>>, a: Option<Seq<char>>, t: Seq<char>)
    ensures
        x == Some(t) ==> presented_token(x, a) == Some(t),
        x is None && a == Some("Bearer "@ + t) ==> presented_token(x, a) == Some(t),
        x is None && (a is None || !("Bearer "@.is_prefix_of(a->0))) ==> presented_token(x, a)
            is None,
{
    if x is None && a == Some("Bearer "@ + t) {
        let full = "Bearer "@ + t;
        assert(full.subrange(0, "Bearer "@.len() as int) =~= "Bearer "@);
        assert(full.skip("Bearer "@.len() as int) =~= t);
    }
}

/// The header relayed back to the client is the controller's first header
/// named `Content-Type` (in any ASCII case), and there is none when the
/// controller sent no such header.
pub proof fn relayed_header_is_first_content_type(upstream: Seq<(String, Vec<u8>)>)
    ensures
        relayed_header(upstream) is None <==> forall|j: int|
            0 <= j < upstream.len() ==> ascii_lowercase(#[trigger] upstream[j].0@)
                != "content-type"@,
        relayed_header(upstream) is Some ==> exists|i: int|
            0 <= i < upstream.len() && ascii_lowercase(#[trigger] upstream[i].0@)
                == "content-type"@ && relayed_header(upstream) == Some(header_view(upstream[i]))
                && forall|j: int|
                0 <= j < i ==> ascii_lowercase(#[trigger] upstream[j].0@) != "content-type"@,
    decreases upstream.len(),
{
    if upstream.len() > 0 {
        let rest = upstream.drop_first();
        relayed_header_is_first_content_type(rest);
        if ascii_lowercase(upstream[0].0@) == "content-type"@ {
            assert(relayed_header(upstream) == Some(header_view(upstream[0])));
        } else {
            assert forall|j: int|
                0 <= j < rest.len() implies #[trigger] rest[j] == upstream[j + 1] by {}
            if relayed_header(rest) is Some {
                let i = choose|i: int|
                    0 <= i < rest.len() && ascii_lowercase(#[trigger] rest[i].0@) == "content-type"@
                        && relayed_header(rest) == Some(header_view(rest[i])) && forall|j: int|
                        0 <= j < i ==> ascii_lowercase(#[trigger] rest[j].0@) != "content-type"@;
                assert(upstream[i + 1] == rest[i]);
                assert forall|j: int| 0 <= j < i + 1 implies ascii_lowercase(
                    #[trigger] upstream[j].0@,
                ) != "content-type"@ by {
                    if j > 0 {
                        assert(upstream[j] == rest[j - 1]);
                    }
                }
            } else {
                assert forall|j: int| 0 <= j < upstream.len() implies ascii_lowercase(
                    #[trigger] upstream[j].0@,
                ) != "content-type"@ by {
                    if j > 0 {
                        assert(upstream[j] == rest[j - 1]);
                    }
                }
            }
        }
    }
}

/// Refusals answer 403 when a scope is off or no scope covers the endpoint,
/// and 405 when the method is not permitted; the body of a refusal for a
/// disabled scope names that scope's variable.
pub proof fn refusal_statuses(d: Denial)
    ensures
        status_number(denial_status(d)) == match d {
            Denial::MethodNotAllowed => 405u16,
            _ => 403u16,
        },
        d matches Denial::ScopeDisabled(s) ==> has_infix(denial_text(d), scope_var_name(s)),
{
    if let Denial::ScopeDisabled(s) = d {
        let pre = "{\"error\":\"Forbidden\",\"message\":\"Scope '"@;
        let t = denial_text(d);
        let n = scope_var_name(s);
        assert(t.subrange(pre.len() as int, (pre.len() + n.len()) as int) =~= n);
    }
}

/// The gateway's own failure replies: 400 for an unusable method or an
/// unreadable request body, 413 for an over-size body, 502 when the
/// controller cannot be reached or its reply cannot be read, and 500 when
/// the reply to the client cannot be built.
pub proof fn failure_statuses(f: Failure)
    ensures
        status_number(failure_status(f)) == match f {
            Failure::InvalidMethod => 400u16,
            Failure::RequestBodyUnreadable => 400u16,
            Failure::RequestBodyTooLarge => 413u16,
            Failure::UpstreamUnreachable => 502u16,
            Failure::UpstreamBodyUnreadable => 502u16,
            Failure::ResponseBuildFailed => 500u16,
        },
{
}

/// Each setting comes from its own variable: the base URL from
/// `UNIFI_BASE_URL` (default `https://192.168.1.1`), the key from
/// `UNIFI_API_KEY`, the listen address from `LISTEN_ADDR` (default
/// `127.0.0.1:8080`), certificate checking from `ACCEPT_INVALID_CERTS`
/// (default off), the client token from a non-empty `PROXY_AUTH_TOKEN`, and
/// each scope from its own variable.
pub proof fn config_settings_from_their_variables(c: ProxyConfig, env: Seq<(String, String)>, s: Scope)
    requires
        config_matches_env(c, env),
    ensures
        c.unifi_base_url@ == match env_value(env, "UNIFI_BASE_URL"@) {
            Some(v) => v,
            None => "https://192.168.1.1"@,
        },
        env_value(env, "UNIFI_API_KEY"@) == Some(c.api_key@),
        c.listen_addr@ == match env_value(env, "LISTEN_ADDR"@) {
            Some(v) => v,
            None => "127.0.0.1:8080"@,
        },
        c.accept_invalid_certs == setting_flag(env_value(env, "ACCEPT_INVALID_CERTS"@), false),
        c.proxy_auth_token matches Some(t) ==> env_value(env, "PROXY_AUTH_TOKEN"@) == Some(t@)
            && t@.len() > 0,
        c.proxy_auth_token is None ==> (env_value(env, "PROXY_AUTH_TOKEN"@) is None
            || env_value(env, "PROXY_AUTH_TOKEN"@) == Some(Seq::<char>::empty())),
        c.scopes.grants(s) == setting_flag(env_value(env, scope_var_name(s)), scope_enabled_by_default(s)),
{
    if c.proxy_auth_token is None {
        if let Some(v) = env_value(env, "PROXY_AUTH_TOKEN"@) {
            assert(v =~= Seq::<char>::empty());
        }
    }
}

} // verus!
