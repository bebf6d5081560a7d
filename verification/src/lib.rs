//! Permission-scope gateway logic for a proxy in front of the UniFi Network
//! and Protect APIs.

pub mod text;
pub mod scopes;
pub mod env;
pub mod gateway;
pub mod laws;

pub use env::{env_bool, env_var, parse_flag};
pub use gateway::{
    failure_reply, forwarded_headers, plan_request, relayed_headers, provided_token, should_forward_header, target_url, tokens_match,
    ConfigError, Failure, ProxyConfig, Reply, RequestPlan,
};
pub use scopes::{
    check_scope_permission, classify_route, forbidden_body, method_not_allowed_body,
    unknown_endpoint_body,
    required_scope, Denial, Method, PermissionScopes, Requirement, Route, Scope, StatusCode,
};
