use unifi_scoped_proxy::{
    check_scope_permission, classify_route, env_bool, env_var, failure_reply, forbidden_body,
    forwarded_headers, relayed_headers, unknown_endpoint_body,
    method_not_allowed_body, parse_flag, plan_request, provided_token, required_scope,
    should_forward_header, target_url, tokens_match, ConfigError, Failure, Method,
    PermissionScopes, ProxyConfig, RequestPlan, Requirement, Route, Scope, StatusCode,
};

fn none_enabled() -> PermissionScopes {
    PermissionScopes {
        info_read: false,
        sites_read: false,
        devices_read: false,
        devices_control: false,
        devices_adopt: false,
        clients_read: false,
        clients_control: false,
        wlan_read: false,
        protect_read: false,
    }
}

fn all_enabled() -> PermissionScopes {
    PermissionScopes {
        info_read: true,
        sites_read: true,
        devices_read: true,
        devices_control: true,
        devices_adopt: true,
        clients_read: true,
        clients_control: true,
        wlan_read: true,
        protect_read: true,
    }
}

fn env(pairs: &[(&str, &str)]) -> Vec<(String, String)> {
    pairs.iter().map(|(k, v)| (k.to_string(), v.to_string())).collect()
}

fn config(token: Option<&str>, scopes: PermissionScopes) -> ProxyConfig {
    ProxyConfig {
        unifi_base_url: "https://10.0.0.1".to_string(),
        api_key: "master".to_string(),
        listen_addr: "127.0.0.1:8080".to_string(),
        accept_invalid_certs: false,
        proxy_auth_token: token.map(|t| t.to_string()),
        scopes,
    }
}

#[test]
fn forbidden_reply_names_the_scope() {
    let r = check_scope_permission(
        &Method::POST,
        "/proxy/network/integration/v1/sites/default/devices/dev_123/actions",
        &none_enabled(),
    );
    let (status, body) = r.unwrap_err();
    assert_eq!(status, StatusCode::FORBIDDEN);
    assert_eq!(status.as_u16(), 403);
    assert_eq!(
        body,
        "{\"error\":\"Forbidden\",\"message\":\"Scope 'SCOPE_DEVICES_CONTROL' is disabled on this proxy gateway.\",\"required_scope\":\"SCOPE_DEVICES_CONTROL\"}"
    );
}

#[test]
fn method_not_allowed_reply() {
    let (status, body) = check_scope_permission(&Method::PUT, "/v1/info", &all_enabled()).unwrap_err();
    assert_eq!(status, StatusCode::METHOD_NOT_ALLOWED);
    assert_eq!(status.as_u16(), 405);
    assert_eq!(
        body,
        "{\"error\":\"Method Not Allowed\",\"message\":\"This HTTP method is not permitted for the requested endpoint.\"}"
    );
    assert_eq!(body, method_not_allowed_body());
    assert_eq!(forbidden_body("X"), "{\"error\":\"Forbidden\",\"message\":\"Scope 'X' is disabled on this proxy gateway.\",\"required_scope\":\"X\"}");
}

#[test]
fn status_numbers() {
    assert_eq!(StatusCode::OK.as_u16(), 200);
    assert_eq!(StatusCode::BAD_REQUEST.as_u16(), 400);
    assert_eq!(StatusCode::UNAUTHORIZED.as_u16(), 401);
    assert_eq!(StatusCode::PAYLOAD_TOO_LARGE.as_u16(), 413);
    assert_eq!(StatusCode::INTERNAL_SERVER_ERROR.as_u16(), 500);
    assert_eq!(StatusCode::BAD_GATEWAY.as_u16(), 502);
}

#[test]
fn routes_are_classified_in_order() {
    assert_eq!(classify_route("/v1/info"), Route::Info);
    assert_eq!(classify_route("/proxy/network/v1/info"), Route::Info);
    assert_eq!(classify_route("/v1/sites"), Route::Sites);
    assert_eq!(classify_route("/v1/sites/default"), Route::Sites);
    assert_eq!(classify_route("/proxy/network/integration/v1/info"), Route::Info);
    assert_eq!(classify_route("/proxy/network/integration/v1/sites"), Route::Sites);
    assert_eq!(classify_route("/proxy/network/integration/v1/sites/x"), Route::Sites);
    assert_eq!(classify_route("/proxy/network/v1/sites/x"), Route::Sites);
    assert_eq!(classify_route("/proxy/network/v1/sites/x/y"), Route::Other);
    assert_eq!(classify_route("/v1/sites/"), Route::Sites);
    assert_eq!(classify_route("/v1/sites/default/devices"), Route::Devices);
    assert_eq!(classify_route("/v1/sites/default/clients/devices"), Route::Devices);
    assert_eq!(classify_route("/v1/sites/default/clients"), Route::Clients);
    assert_eq!(classify_route("/v1/sites/default/wifi-broadcasts"), Route::Wlan);
    assert_eq!(classify_route("/proxy/protect/integration/v1/meta/info"), Route::Protect);
    assert_eq!(classify_route("/v1/cameras/abc"), Route::Protect);
    assert_eq!(classify_route("/v1/meta/info"), Route::Protect);
    assert_eq!(classify_route("/v1/metadata"), Route::Other);
    assert_eq!(classify_route("/v1/sites/default/networks"), Route::Other);
    assert_eq!(classify_route(""), Route::Other);
    assert_eq!(classify_route("/v1/sités/ü/devices"), Route::Devices);
}

#[test]
fn requirements_per_endpoint() {
    assert_eq!(required_scope(&Method::POST, "/v1/sites/s/devices"), Requirement::Needs(Scope::DevicesAdopt));
    assert_eq!(required_scope(&Method::GET, "/v1/sites/s/devices/d/actions"), Requirement::MethodNotAllowed);
    assert_eq!(required_scope(&Method::POST, "/v1/sites/s/devices/d"), Requirement::MethodNotAllowed);
    assert_eq!(required_scope(&Method::POST, "/v1/sites/s/clients/c/actions"), Requirement::Needs(Scope::ClientsControl));
    assert_eq!(required_scope(&Method::POST, "/v1/sites/s/clients"), Requirement::MethodNotAllowed);
    assert_eq!(required_scope(&Method::GET, "/v1/sites/s/wlans"), Requirement::Needs(Scope::WlanRead));
    assert_eq!(required_scope(&Method::GET, "/anything"), Requirement::Unmapped);
    assert_eq!(Scope::ProtectRead.var_name(), "SCOPE_PROTECT_READ");
}

#[test]
fn unknown_paths_are_denied_by_default() {
    for scopes in [none_enabled(), all_enabled(), PermissionScopes::from_env(&[])] {
        for m in [Method::GET, Method::POST, Method::DELETE] {
            for p in ["/v1/sites/default/networks", "/v1/firewall/zones", "/unknown", ""] {
                let (status, body) = check_scope_permission(&m, p, &scopes).unwrap_err();
                assert_eq!(status, StatusCode::FORBIDDEN);
                assert_eq!(body, unknown_endpoint_body());
            }
        }
    }
    assert_eq!(
        unknown_endpoint_body(),
        "{\"error\":\"Forbidden\",\"message\":\"This endpoint is not covered by any permission scope on this proxy gateway.\"}"
    );
    assert_eq!(required_scope(&Method::GET, "/v1/firewall/zones"), Requirement::Unmapped);
}

#[test]
fn documented_reads_pass_under_default_scopes() {
    let defaults = PermissionScopes::from_env(&[]);
    for p in [
        "/proxy/network/integration/v1/sites",
        "/proxy/network/integration/v1/sites/default",
        "/proxy/network/integration/v1/info",
        "/v1/info",
        "/v1/sites",
        "/proxy/network/v1/sites/default",
    ] {
        assert!(check_scope_permission(&Method::GET, p, &defaults).is_ok(), "{}", p);
    }
    assert!(check_scope_permission(&Method::GET, "/proxy/network/integration/v1/sites/default/devices", &defaults).is_err());
}

#[test]
fn only_get_and_post_ever_pass() {
    let methods = [
        Method::PUT,
        Method::DELETE,
        Method::PATCH,
        Method::HEAD,
        Method::OPTIONS,
        Method::TRACE,
        Method::CONNECT,
        Method::Extension("PURGE".to_string()),
    ];
    for m in methods.iter() {
        for p in ["/v1/info", "/v1/sites", "/v1/sites/a/devices", "/v1/sites/a/devices/d/actions"] {
            let (status, _) = check_scope_permission(m, p, &all_enabled()).unwrap_err();
            assert_eq!(status, StatusCode::METHOD_NOT_ALLOWED);
        }
        let (status, _) = check_scope_permission(m, "/x", &all_enabled()).unwrap_err();
        assert_eq!(status, StatusCode::FORBIDDEN);
    }
}

#[test]
fn enabling_scopes_never_denies_more() {
    let paths = ["/v1/info", "/v1/sites/x", "/v1/sites/x/devices", "/v1/sites/x/clients/c/actions", "/v1/cameras", "/other"];
    let mut fewer = none_enabled();
    fewer.devices_read = true;
    let mut more = fewer.clone();
    more.info_read = true;
    more.clients_control = true;
    for p in paths {
        for m in [Method::GET, Method::POST] {
            if check_scope_permission(&m, p, &fewer).is_ok() {
                assert!(check_scope_permission(&m, p, &more).is_ok());
            }
        }
    }
}

#[test]
fn flag_words() {
    for w in ["true", "1", "yes"] {
        assert!(parse_flag(w, false));
    }
    for w in ["false", "0", "no"] {
        assert!(!parse_flag(w, true));
    }
    assert!(parse_flag("maybe", true));
    assert!(!parse_flag("maybe", false));
    assert!(!parse_flag("", false));
    assert!(parse_flag("", true));
    assert!(parse_flag("TRUE", true));
    assert!(!parse_flag("TRUE", false));
}

#[test]
fn boolean_settings_ignore_case() {
    let e = env(&[("A", "TRUE"), ("B", "No"), ("C", "YeS"), ("D", "off"), ("E", "")]);
    assert!(env_bool(&e, "A", false));
    assert!(!env_bool(&e, "B", true));
    assert!(env_bool(&e, "C", false));
    assert!(env_bool(&e, "D", true));
    assert!(!env_bool(&e, "D", false));
    assert!(env_bool(&e, "E", true));
    assert!(env_bool(&e, "MISSING", true));
    let e = env(&[("U", "TRUÉ"), ("V", "ÝES")]);
    assert!(!env_bool(&e, "U", false));
    assert!(!env_bool(&e, "V", false));
    assert!(!env_bool(&e, "MISSING", false));
}

#[test]
fn first_entry_of_a_name_wins() {
    let e = env(&[("X", "1"), ("X", "2")]);
    assert_eq!(env_var(&e, "X").map(|s| s.as_str()), Some("1"));
    assert_eq!(env_var(&e, "Y"), None);
    assert_eq!(env_var(&e, "x"), None);
}

#[test]
fn scopes_default_to_read_only() {
    let s = PermissionScopes::from_env(&[]);
    assert!(s.info_read && s.sites_read);
    assert!(!s.devices_read && !s.devices_control && !s.devices_adopt);
    assert!(!s.clients_read && !s.clients_control && !s.wlan_read && !s.protect_read);
    let s = PermissionScopes::from_env(&env(&[
        ("SCOPE_INFO_READ", "false"),
        ("SCOPE_DEVICES_CONTROL", "TRUE"),
        ("SCOPE_PROTECT_READ", "1"),
    ]));
    assert!(!s.info_read && s.sites_read && s.devices_control && s.protect_read);
    assert!(!s.clients_control);
}

#[test]
fn config_from_environment() {
    assert_eq!(ProxyConfig::from_env(&[]).unwrap_err(), ConfigError::MissingApiKey);
    let c = ProxyConfig::from_env(&env(&[("UNIFI_API_KEY", "k"), ("PROXY_AUTH_TOKEN", "")])).unwrap();
    assert_eq!(c.api_key, "k");
    assert_eq!(c.unifi_base_url, "https://192.168.1.1");
    assert_eq!(c.listen_addr, "127.0.0.1:8080");
    assert!(!c.accept_invalid_certs);
    assert_eq!(c.proxy_auth_token, None);
    assert!(c.scopes.info_read && c.scopes.sites_read && !c.scopes.devices_read);
    let c = ProxyConfig::from_env(&env(&[
        ("UNIFI_BASE_URL", "https://gw"),
        ("UNIFI_API_KEY", ""),
        ("LISTEN_ADDR", "0.0.0.0:9000"),
        ("ACCEPT_INVALID_CERTS", "Yes"),
        ("PROXY_AUTH_TOKEN", "secret"),
        ("SCOPE_WLAN_READ", "true"),
    ]))
    .unwrap();
    assert_eq!(c.unifi_base_url, "https://gw");
    assert_eq!(c.api_key, "");
    assert_eq!(c.listen_addr, "0.0.0.0:9000");
    assert!(c.accept_invalid_certs);
    assert_eq!(c.proxy_auth_token.as_deref(), Some("secret"));
    assert!(c.scopes.wlan_read);
}

#[test]
fn presented_tokens() {
    assert_eq!(provided_token(Some("a"), Some("Bearer b")), Some("a"));
    assert_eq!(provided_token(None, Some("Bearer b")), Some("b"));
    assert_eq!(provided_token(None, Some("Bearer ")), Some(""));
    assert_eq!(provided_token(None, Some("bearer b")), None);
    assert_eq!(provided_token(None, Some("Basic b")), None);
    assert_eq!(provided_token(None, None), None);
    assert_eq!(provided_token(None, Some("Bearer tökén")), Some("tökén"));
}

#[test]
fn token_comparison() {
    assert!(tokens_match("secret", "secret"));
    assert!(!tokens_match("secre", "secret"));
    assert!(!tokens_match("secrets", "secret"));
    assert!(!tokens_match("Secret", "secret"));
    assert!(tokens_match("", ""));
    assert!(!tokens_match("", "x"));
    assert!(!tokens_match("x", ""));
}

#[test]
fn sensitive_headers_are_stripped() {
    for h in ["host", "authorization", "x-proxy-token", "cookie", "x-forwarded-for", "x-api-key"] {
        assert!(!should_forward_header(h));
    }
    for h in ["Host", "AUTHORIZATION", "X-Proxy-Token", "Cookie", "X-Forwarded-For", "X-API-KEY"] {
        assert!(!should_forward_header(h));
    }
    for h in ["content-type", "Accept", "user-agent", "x-api-keys", "hosts", "authorizatio"] {
        assert!(should_forward_header(h));
    }
}

#[test]
fn upstream_urls() {
    assert_eq!(target_url("https://gw", "/v1/sites", None), "https://gw/v1/sites");
    assert_eq!(target_url("https://gw", "/v1/sites", Some("a=1&b=2")), "https://gw/v1/sites?a=1&b=2");
    assert_eq!(target_url("https://gw", "/x", Some("")), "https://gw/x?");
}

#[test]
fn health_is_always_answered() {
    for p in ["/healthz", "/health"] {
        match plan_request(&Method::DELETE, p, None, None, None, &config(Some("t"), none_enabled())) {
            RequestPlan::Respond(r) => {
                assert_eq!(r.status, StatusCode::OK);
                assert_eq!(r.body, "{\"status\":\"ok\"}");
            }
            RequestPlan::Forward(_) => panic!("health check forwarded"),
        }
    }
}

#[test]
fn authentication_before_scopes() {
    let c = config(Some("t0k"), all_enabled());
    match plan_request(&Method::GET, "/v1/info", None, None, Some("Bearer wrong"), &c) {
        RequestPlan::Respond(r) => {
            assert_eq!(r.status, StatusCode::UNAUTHORIZED);
            assert_eq!(r.body, "{\"error\":\"Unauthorized\",\"message\":\"Invalid or missing proxy authentication token.\"}");
        }
        RequestPlan::Forward(_) => panic!("unauthorized request forwarded"),
    }
    match plan_request(&Method::GET, "/v1/info", None, None, None, &c) {
        RequestPlan::Respond(r) => assert_eq!(r.status, StatusCode::UNAUTHORIZED),
        RequestPlan::Forward(_) => panic!("unauthenticated request forwarded"),
    }
    match plan_request(&Method::GET, "/v1/info", Some("q=1"), None, Some("Bearer t0k"), &c) {
        RequestPlan::Forward(url) => assert_eq!(url, "https://10.0.0.1/v1/info?q=1"),
        RequestPlan::Respond(_) => panic!("authorized request refused"),
    }
    match plan_request(&Method::GET, "/v1/info", None, Some("t0k"), Some("Bearer wrong"), &c) {
        RequestPlan::Forward(url) => assert_eq!(url, "https://10.0.0.1/v1/info"),
        RequestPlan::Respond(_) => panic!("authorized request refused"),
    }
}

#[test]
fn scope_refusals_are_relayed() {
    let c = config(None, none_enabled());
    match plan_request(&Method::GET, "/v1/sites", None, None, None, &c) {
        RequestPlan::Respond(r) => {
            assert_eq!(r.status, StatusCode::FORBIDDEN);
            assert!(r.body.contains("SCOPE_SITES_READ"));
        }
        RequestPlan::Forward(_) => panic!("forbidden request forwarded"),
    }
}

#[test]
fn failure_replies() {
    let r = failure_reply(Failure::InvalidMethod);
    assert_eq!(r.status, StatusCode::BAD_REQUEST);
    assert_eq!(r.body, "{\"error\":\"Bad Request\",\"message\":\"Invalid HTTP method.\"}");
    let r = failure_reply(Failure::UpstreamUnreachable);
    assert_eq!(r.status, StatusCode::BAD_GATEWAY);
    assert_eq!(r.body, "{\"error\":\"Bad Gateway\",\"message\":\"Failed to connect to the UniFi Controller.\"}");
    let r = failure_reply(Failure::UpstreamBodyUnreadable);
    assert_eq!(r.status, StatusCode::BAD_GATEWAY);
    assert_eq!(r.body, "{\"error\":\"Bad Gateway\",\"message\":\"Failed to read response from UniFi Controller.\"}");
    let r = failure_reply(Failure::ResponseBuildFailed);
    assert_eq!(r.status, StatusCode::INTERNAL_SERVER_ERROR);
    assert_eq!(r.body, "{\"error\":\"Internal Error\",\"message\":\"Failed to build response.\"}");
    let r = failure_reply(Failure::RequestBodyTooLarge);
    assert_eq!(r.status, StatusCode::PAYLOAD_TOO_LARGE);
    assert_eq!(r.body, "{\"error\":\"Payload Too Large\",\"message\":\"Request body exceeds the 1 MB limit.\"}");
    let r = failure_reply(Failure::RequestBodyUnreadable);
    assert_eq!(r.status, StatusCode::BAD_REQUEST);
    assert_eq!(r.body, "{\"error\":\"Bad Request\",\"message\":\"Failed to read the request body.\"}");
}

#[test]
fn site_device_paths_need_device_scopes() {
    for id in ["default", "x", ""] {
        let p = format!("/v1/sites/{}/devices/rest", id);
        assert_eq!(classify_route(&p), Route::Devices);
    }
}

#[test]
fn upstream_headers_drop_credentials_and_add_key() {
    let incoming: Vec<(String, Vec<u8>)> = [
        ("host", "proxy:8080"),
        ("accept", "application/json"),
        ("authorization", "Bearer t"),
        ("cookie", "a=b"),
        ("x-proxy-token", "t"),
        ("x-forwarded-for", "1.2.3.4"),
        ("accept", "text/plain"),
        ("x-api-key", "client-guess"),
        ("X-Api-Key", "another"),
    ]
    .iter()
    .map(|(n, v)| (n.to_string(), v.as_bytes().to_vec()))
    .collect();
    let out = forwarded_headers(&incoming, "master-key");
    let expected: Vec<(String, Vec<u8>)> = [
        ("accept", "application/json"),
        ("accept", "text/plain"),
        ("x-api-key", "master-key"),
    ]
    .iter()
    .map(|(n, v)| (n.to_string(), v.as_bytes().to_vec()))
    .collect();
    assert_eq!(out, expected);
    let out = forwarded_headers(&[], "k");
    assert_eq!(out, vec![("x-api-key".to_string(), b"k".to_vec())]);
}

#[test]
fn only_content_type_is_relayed() {
    let upstream: Vec<(String, Vec<u8>)> = [
        ("set-cookie", "a=b"),
        ("Content-Type", "application/json"),
        ("content-type", "text/plain"),
        ("x-api-key", "k"),
    ]
    .iter()
    .map(|(n, v)| (n.to_string(), v.as_bytes().to_vec()))
    .collect();
    assert_eq!(
        relayed_headers(&upstream),
        vec![("Content-Type".to_string(), b"application/json".to_vec())]
    );
    assert!(relayed_headers(&upstream[..1]).is_empty());
    assert!(relayed_headers(&[]).is_empty());
}
