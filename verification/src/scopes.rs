//! Permission scopes and the rule that decides whether a request on a given
//! method and path is let through to the controller.

use vstd::prelude::*;

use crate::text::{
    chars_of, contains_char_from, contains_infix, ends_with, has_infix, same_chars, starts_with,
};

verus! {

/// The HTTP request method of an incoming request.
#[allow(non_camel_case_types)]
#[derive(Clone, Debug)]
pub enum Method {
    OPTIONS,
    GET,
    POST,
    PUT,
    DELETE,
    HEAD,
    TRACE,
    CONNECT,
    PATCH,
    /// A method outside the standard set, by its name.
    Extension(String),
}

/// An HTTP status code that the gateway answers with itself.
#[allow(non_camel_case_types)]
#[derive(Clone, Copy, Debug, PartialEq, Eq, Structural)]
pub enum StatusCode {
    OK,
    BAD_REQUEST,
    UNAUTHORIZED,
    FORBIDDEN,
    METHOD_NOT_ALLOWED,
    PAYLOAD_TOO_LARGE,
    INTERNAL_SERVER_ERROR,
    BAD_GATEWAY,
}

/// The numeric value of a status code.
pub open spec fn status_number(s: StatusCode) -> u16 {
    match s {
        StatusCode::OK => 200,
        StatusCode::BAD_REQUEST => 400,
        StatusCode::UNAUTHORIZED => 401,
        StatusCode::FORBIDDEN => 403,
        StatusCode::METHOD_NOT_ALLOWED => 405,
        StatusCode::PAYLOAD_TOO_LARGE => 413,
        StatusCode::INTERNAL_SERVER_ERROR => 500,
        StatusCode::BAD_GATEWAY => 502,
    }
}

impl StatusCode {
    /// The numeric value of this status code.
    pub fn as_u16(&self) -> (n: u16)
        ensures
            n == status_number(*self),
    {
        match self {
            StatusCode::OK => 200,
            StatusCode::BAD_REQUEST => 400,
            StatusCode::UNAUTHORIZED => 401,
            StatusCode::FORBIDDEN => 403,
            StatusCode::METHOD_NOT_ALLOWED => 405,
            StatusCode::PAYLOAD_TOO_LARGE => 413,
            StatusCode::INTERNAL_SERVER_ERROR => 500,
            StatusCode::BAD_GATEWAY => 502,
        }
    }
}

/// One permission scope that the gateway can enable or disable.
#[derive(Clone, Copy, Debug, PartialEq, Eq, Structural)]
pub enum Scope {
    InfoRead,
    SitesRead,
    DevicesRead,
    DevicesControl,
    DevicesAdopt,
    ClientsRead,
    ClientsControl,
    WlanRead,
    ProtectRead,
}

/// The name of the environment variable that toggles a scope; it is also the
/// name by which a denial refers to the scope.
pub open spec fn scope_var_name(s: Scope) -> Seq<char> {
    match s {
        Scope::InfoRead => "SCOPE_INFO_READ"@,
        Scope::SitesRead => "SCOPE_SITES_READ"@,
        Scope::DevicesRead => "SCOPE_DEVICES_READ"@,
        Scope::DevicesControl => "SCOPE_DEVICES_CONTROL"@,
        Scope::DevicesAdopt => "SCOPE_DEVICES_ADOPT"@,
        Scope::ClientsRead => "SCOPE_CLIENTS_READ"@,
        Scope::ClientsControl => "SCOPE_CLIENTS_CONTROL"@,
        Scope::WlanRead => "SCOPE_WLAN_READ"@,
        Scope::ProtectRead => "SCOPE_PROTECT_READ"@,
    }
}

impl Scope {
    /// The name of the environment variable that toggles this scope.
    pub fn var_name(&self) -> (name: &'static str)
        ensures
            name@ == scope_var_name(*self),
    {
        match self {
            Scope::InfoRead => "SCOPE_INFO_READ",
            Scope::SitesRead => "SCOPE_SITES_READ",
            Scope::DevicesRead => "SCOPE_DEVICES_READ",
            Scope::DevicesControl => "SCOPE_DEVICES_CONTROL",
            Scope::DevicesAdopt => "SCOPE_DEVICES_ADOPT",
            Scope::ClientsRead => "SCOPE_CLIENTS_READ",
            Scope::ClientsControl => "SCOPE_CLIENTS_CONTROL",
            Scope::WlanRead => "SCOPE_WLAN_READ",
            Scope::ProtectRead => "SCOPE_PROTECT_READ",
        }
    }
}

/// Which scopes are enabled on this gateway.
#[derive(Clone, Copy, Debug)]
pub struct PermissionScopes {
    pub info_read: bool,
    pub sites_read: bool,
    pub devices_read: bool,
    pub devices_control: bool,
    pub devices_adopt: bool,
    pub clients_read: bool,
    pub clients_control: bool,
    pub wlan_read: bool,
    pub protect_read: bool,
}

impl PermissionScopes {
    /// Whether `scope` is enabled.
    pub open spec fn grants(self, scope: Scope) -> bool {
        match scope {
            Scope::InfoRead => self.info_read,
            Scope::SitesRead => self.sites_read,
            Scope::DevicesRead => self.devices_read,
            Scope::DevicesControl => self.devices_control,
            Scope::DevicesAdopt => self.devices_adopt,
            Scope::ClientsRead => self.clients_read,
            Scope::ClientsControl => self.clients_control,
            Scope::WlanRead => self.wlan_read,
            Scope::ProtectRead => self.protect_read,
        }
    }

    /// Whether `scope` is enabled.
    pub fn is_enabled(&self, scope: Scope) -> (b: bool)
        ensures
            b == self.grants(scope),
    {
        match scope {
            Scope::InfoRead => self.info_read,
            Scope::SitesRead => self.sites_read,
            Scope::DevicesRead => self.devices_read,
            Scope::DevicesControl => self.devices_control,
            Scope::DevicesAdopt => self.devices_adopt,
            Scope::ClientsRead => self.clients_read,
            Scope::ClientsControl => self.clients_control,
            Scope::WlanRead => self.wlan_read,
            Scope::ProtectRead => self.protect_read,
        }
    }
}

/// The family of endpoints that a request path belongs to.
#[derive(Clone, Copy, Debug, PartialEq, Eq, Structural)]
pub enum Route {
    Info,
    Sites,
    Devices,
    Clients,
    Wlan,
    Protect,
    /// Any path that no rule names.
    Other,
}

/// The prefix under which a single site's metadata lives.
pub open spec fn site_prefix() -> Seq<char> {
    "/v1/sites/"@
}

/// A path made of `prefix` and one further segment, which holds no `/`.
pub open spec fn is_single_segment_under(prefix: Seq<char>, p: Seq<char>) -> bool {
    prefix.is_prefix_of(p) && !p.skip(prefix.len() as int).contains('/')
}

/// The Network API's system information endpoint, under each of the roots
/// the API is served at (`/v1`, `/proxy/network/v1` and
/// `/proxy/network/integration/v1`).
pub open spec fn is_info_path(p: Seq<char>) -> bool {
    p == "/v1/info"@ || p == "/proxy/network/v1/info"@ || p == "/proxy/network/integration/v1/info"@
}

/// The Network API's site list, under each of its roots.
pub open spec fn is_site_list_path(p: Seq<char>) -> bool {
    p == "/v1/sites"@ || p == "/proxy/network/v1/sites"@ || p
        == "/proxy/network/integration/v1/sites"@
}

/// A path that names one site, `<root>/sites/<id>`, with no further segment.
pub open spec fn is_single_site_path(p: Seq<char>) -> bool {
    is_single_segment_under(site_prefix(), p) || is_single_segment_under(
        "/proxy/network/v1/sites/"@,
        p,
    ) || is_single_segment_under("/proxy/network/integration/v1/sites/"@, p)
}

/// The endpoint family of a path. The rules are tried in this order, and the
/// first that matches wins.
pub open spec fn route_of(p: Seq<char>) -> Route {
    if is_info_path(p) {
        Route::Info
    } else if is_site_list_path(p) || is_single_site_path(p) {
        Route::Sites
    } else if has_infix(p, "/devices"@) {
        Route::Devices
    } else if has_infix(p, "/clients"@) {
        Route::Clients
    } else if has_infix(p, "/wlans"@) || has_infix(p, "/wifi-broadcasts"@) {
        Route::Wlan
    } else if has_infix(p, "/protect"@) || has_infix(p, "/cameras"@) || has_infix(p, "/v1/meta/"@) {
        Route::Protect
    } else {
        Route::Other
    }
}

/// What a request needs before it may pass.
#[derive(Clone, Copy, Debug, PartialEq, Eq, Structural)]
pub enum Requirement {
    /// The request passes exactly when this scope is enabled.
    Needs(Scope),
    /// No scope lets this method through on this path.
    MethodNotAllowed,
    /// No scope covers this path: it is refused whatever the method.
    Unmapped,
}

/// A read: passes on GET with `scope`, and no other method passes.
pub open spec fn read_only(m: Method, scope: Scope) -> Requirement {
    if m is GET {
        Requirement::Needs(scope)
    } else {
        Requirement::MethodNotAllowed
    }
}

/// What a request with method `m` on path `p` needs.
pub open spec fn requirement_of(m: Method, p: Seq<char>) -> Requirement {
    match route_of(p) {
        Route::Info => read_only(m, Scope::InfoRead),
        Route::Sites => read_only(m, Scope::SitesRead),
        Route::Devices => if "/actions"@.is_suffix_of(p) {
            if m is POST {
                Requirement::Needs(Scope::DevicesControl)
            } else {
                Requirement::MethodNotAllowed
            }
        } else if "/devices"@.is_suffix_of(p) && m is POST {
            Requirement::Needs(Scope::DevicesAdopt)
        } else {
            read_only(m, Scope::DevicesRead)
        },
        Route::Clients => if "/actions"@.is_suffix_of(p) {
            if m is POST {
                Requirement::Needs(Scope::ClientsControl)
            } else {
                Requirement::MethodNotAllowed
            }
        } else {
            read_only(m, Scope::ClientsRead)
        },
        Route::Wlan => read_only(m, Scope::WlanRead),
        Route::Protect => read_only(m, Scope::ProtectRead),
        Route::Other => Requirement::Unmapped,
    }
}

/// Why a request was refused.
#[derive(Clone, Copy, Debug, PartialEq, Eq, Structural)]
pub enum Denial {
    /// The scope that the request needs is disabled.
    ScopeDisabled(Scope),
    /// The method is not permitted on the endpoint.
    MethodNotAllowed,
    /// No scope covers the endpoint.
    UnknownEndpoint,
}

/// The refusal, if any, of a request with method `m` on path `p` under `scopes`.
pub open spec fn denial_of(m: Method, p: Seq<char>, scopes: PermissionScopes) -> Option<Denial> {
    match requirement_of(m, p) {
        Requirement::Needs(s) => if scopes.grants(s) {
            None
        } else {
            Some(Denial::ScopeDisabled(s))
        },
        Requirement::MethodNotAllowed => Some(Denial::MethodNotAllowed),
        Requirement::Unmapped => Some(Denial::UnknownEndpoint),
    }
}

/// The JSON body sent when scope `name` is disabled.
pub open spec fn forbidden_text(name: Seq<char>) -> Seq<char> {
    "{\"error\":\"Forbidden\",\"message\":\"Scope '"@ + name
        + "' is disabled on this proxy gateway.\",\"required_scope\":\""@ + name + "\"}"@
}

/// The JSON body sent when the method is not permitted on the endpoint.
pub open spec fn method_not_allowed_text() -> Seq<char> {
    "{\"error\":\"Method Not Allowed\",\"message\":\"This HTTP method is not permitted for the requested endpoint.\"}"@
}

/// The JSON body sent for an endpoint that no scope covers.
pub open spec fn unknown_endpoint_text() -> Seq<char> {
    "{\"error\":\"Forbidden\",\"message\":\"This endpoint is not covered by any permission scope on this proxy gateway.\"}"@
}

/// The status of a refusal.
pub open spec fn denial_status(d: Denial) -> StatusCode {
    match d {
        Denial::ScopeDisabled(_) => StatusCode::FORBIDDEN,
        Denial::MethodNotAllowed => StatusCode::METHOD_NOT_ALLOWED,
        Denial::UnknownEndpoint => StatusCode::FORBIDDEN,
    }
}

/// The JSON body of a refusal.
pub open spec fn denial_text(d: Denial) -> Seq<char> {
    match d {
        Denial::ScopeDisabled(s) => forbidden_text(scope_var_name(s)),
        Denial::MethodNotAllowed => method_not_allowed_text(),
        Denial::UnknownEndpoint => unknown_endpoint_text(),
    }
}

fn is_get(m: &Method) -> (b: bool)
    ensures
        b == (*m is GET),
{
    match m {
        Method::GET => true,
        _ => false,
    }
}

fn is_post(m: &Method) -> (b: bool)
    ensures
        b == (*m is POST),
{
    match m {
        Method::POST => true,
        _ => false,
    }
}

fn single_segment_under(p: &[char], prefix: &str) -> (b: bool)
    ensures
        b == is_single_segment_under(prefix@, p@),
{
    let pre = chars_of(prefix);
    starts_with(p, &pre) && !contains_char_from(p, '/', pre.len())
}

/// The endpoint family of a path given by its characters.
fn route_of_chars(p: &[char]) -> (r: Route)
    ensures
        r == route_of(p@),
{
    if same_chars(p, &chars_of("/v1/info")) || same_chars(p, &chars_of("/proxy/network/v1/info"))
        || same_chars(p, &chars_of("/proxy/network/integration/v1/info")) {
        return Route::Info;
    }
    let single_site = single_segment_under(p, "/v1/sites/") || single_segment_under(
        p,
        "/proxy/network/v1/sites/",
    ) || single_segment_under(p, "/proxy/network/integration/v1/sites/");
    if same_chars(p, &chars_of("/v1/sites")) || same_chars(p, &chars_of("/proxy/network/v1/sites"))
        || same_chars(p, &chars_of("/proxy/network/integration/v1/sites")) || single_site {
        return Route::Sites;
    }
    if contains_infix(p, &chars_of("/devices")) {
        return Route::Devices;
    }
    if contains_infix(p, &chars_of("/clients")) {
        return Route::Clients;
    }
    if contains_infix(p, &chars_of("/wlans")) || contains_infix(p, &chars_of("/wifi-broadcasts")) {
        return Route::Wlan;
    }
    if contains_infix(p, &chars_of("/protect")) || contains_infix(p, &chars_of("/cameras"))
        || contains_infix(p, &chars_of("/v1/meta/")) {
        return Route::Protect;
    }
    Route::Other
}

/// The endpoint family of a request path.
pub fn classify_route(path: &str) -> (r: Route)
    ensures
        r == route_of(path@),
{
    route_of_chars(&chars_of(path))
}

fn read_only_exec(m: &Method, scope: Scope) -> (r: Requirement)
    ensures
        r == read_only(*m, scope),
{
    if is_get(m) {
        Requirement::Needs(scope)
    } else {
        Requirement::MethodNotAllowed
    }
}

/// What a request with `method` on `path` needs before it may pass.
pub fn required_scope(method: &Method, path: &str) -> (r: Requirement)
    ensures
        r == requirement_of(*method, path@),
{
    let p = chars_of(path);
    match route_of_chars(&p) {
        Route::Info => read_only_exec(method, Scope::InfoRead),
        Route::Sites => read_only_exec(method, Scope::SitesRead),
        Route::Devices => {
            if ends_with(&p, &chars_of("/actions")) {
                if is_post(method) {
                    Requirement::Needs(Scope::DevicesControl)
                } else {
                    Requirement::MethodNotAllowed
                }
            } else if ends_with(&p, &chars_of("/devices")) && is_post(method) {
                Requirement::Needs(Scope::DevicesAdopt)
            } else {
                read_only_exec(method, Scope::DevicesRead)
            }
        },
        Route::Clients => {
            if ends_with(&p, &chars_of("/actions")) {
                if is_post(method) {
                    Requirement::Needs(Scope::ClientsControl)
                } else {
                    Requirement::MethodNotAllowed
                }
            } else {
                read_only_exec(method, Scope::ClientsRead)
            }
        },
        Route::Wlan => read_only_exec(method, Scope::WlanRead),
        Route::Protect => read_only_exec(method, Scope::ProtectRead),
        Route::Other => Requirement::Unmapped,
    }
}

/// The JSON body sent when scope `name` is disabled.
pub fn forbidden_body(name: &str) -> (b: String)
    ensures
        b@ == forbidden_text(name@),
{
    let mut b = String::new();
    b.append("{\"error\":\"Forbidden\",\"message\":\"Scope '");
    b.append(name);
    b.append("' is disabled on this proxy gateway.\",\"required_scope\":\"");
    b.append(name);
    b.append("\"}");
    b
}

/// The JSON body sent when the method is not permitted on the endpoint.
pub fn method_not_allowed_body() -> (b: String)
    ensures
        b@ == method_not_allowed_text(),
{
    String::from_str(
        "{\"error\":\"Method Not Allowed\",\"message\":\"This HTTP method is not permitted for the requested endpoint.\"}",
    )
}

/// The JSON body sent for an endpoint that no scope covers.
pub fn unknown_endpoint_body() -> (b: String)
    ensures
        b@ == unknown_endpoint_text(),
{
    String::from_str(
        "{\"error\":\"Forbidden\",\"message\":\"This endpoint is not covered by any permission scope on this proxy gateway.\"}",
    )
}

/// Decides whether a request with `method` on `path` may pass under `scopes`.
/// A refusal carries its status (403 for a disabled scope or an endpoint that
/// no scope covers, 405 for a method that is not permitted on the endpoint)
/// and its JSON body.
pub fn check_scope_permission(method: &Method, path: &str, scopes: &PermissionScopes) -> (r:
    Result<(), (StatusCode, String)>)
    ensures
        match denial_of(*method, path@, *scopes) {
            None => r is Ok,
            Some(d) => r matches Err((status, body)) && status == denial_status(d) && body@
                == denial_text(d),
        },
{
    match required_scope(method, path) {
        Requirement::Needs(scope) => {
            if scopes.is_enabled(scope) {
                Ok(())
            } else {
                Err((StatusCode::FORBIDDEN, forbidden_body(scope.var_name())))
            }
        },
        Requirement::MethodNotAllowed => Err(
            (StatusCode::METHOD_NOT_ALLOWED, method_not_allowed_body()),
        ),
        Requirement::Unmapped => Err((StatusCode::FORBIDDEN, unknown_endpoint_body())),
    }
}

} // verus!
