//! Configuration read from the process environment, taken as a snapshot of
//! name/value pairs.

use vstd::prelude::*;

use crate::scopes::PermissionScopes;
use crate::text::ascii_lowercase;
use vstd::utf8::is_ascii_chars;

verus! {

/// The value of the first variable named `name` in `env`, if any.
pub open spec fn env_value(env: Seq<(String, String)>, name: Seq<char>) -> Option<Seq<char>>
    decreases env.len(),
{
    if env.len() == 0 {
        None
    } else if env[0].0@ == name {
        Some(env[0].1@)
    } else {
        env_value(env.drop_first(), name)
    }
}

/// What `str::to_lowercase` returns for a string with the given characters.
pub uninterp spec fn lowercase_of(s: Seq<char>) -> Seq<char>;

/// Calls `str::to_lowercase`, which returns the lowercase equivalent of `s`
/// under Unicode's case rules (the Derived Core Property Lowercase). The
/// contract claims that the result is a function of `s`'s characters, named
/// `lowercase_of`, and that on an ASCII string it turns the capital letters
/// `A` to `Z` into `a` to `z` and leaves every other character as it is,
/// which is what Unicode's mappings give for ASCII. How non-ASCII characters
/// are mapped is left unsaid.
#[verifier::external_body]
fn to_lowercase(s: &str) -> (r: String)
    ensures
        r@ == lowercase_of(s@),
        is_ascii_chars(s@) ==> r@ == ascii_lowercase(s@),
{
    s.to_lowercase()
}

/// The flag that a lowercased setting stands for: `true`, `1` and `yes` turn it
/// on, `false`, `0` and `no` turn it off, and anything else leaves `default`.
pub open spec fn flag_value(lowered: Seq<char>, default: bool) -> bool {
    if lowered == "true"@ || lowered == "1"@ || lowered == "yes"@ {
        true
    } else if lowered == "false"@ || lowered == "0"@ || lowered == "no"@ {
        false
    } else {
        default
    }
}

/// A setting's value made lowercase: an ASCII value by its letters `A` to
/// `Z`, any other value by Unicode's case rules.
pub open spec fn lowered_setting(v: Seq<char>) -> Seq<char> {
    if is_ascii_chars(v) {
        ascii_lowercase(v)
    } else {
        lowercase_of(v)
    }
}

/// The flag that a boolean setting gives, its value unset or set. The value
/// is read without regard to case.
pub open spec fn setting_flag(value: Option<Seq<char>>, default: bool) -> bool {
    match value {
        None => default,
        Some(v) => flag_value(lowered_setting(v), default),
    }
}

fn str_eq(a: &str, b: &str) -> (r: bool)
    ensures
        r == (a@ == b@),
{
    a.to_owned() == b.to_owned()
}

/// Reads an already lowercased setting as a flag, falling back to
/// `default_value` for a value that is neither on nor off.
pub fn parse_flag(lowered: &str, default_value: bool) -> (b: bool)
    ensures
        b == flag_value(lowered@, default_value),
{
    if str_eq(lowered, "true") || str_eq(lowered, "1") || str_eq(lowered, "yes") {
        true
    } else if str_eq(lowered, "false") || str_eq(lowered, "0") || str_eq(lowered, "no") {
        false
    } else {
        default_value
    }
}

/// The value of the variable `name` in the snapshot `env`: that of its first
/// entry with that name.
pub fn env_var<'a>(env: &'a [(String, String)], name: &str) -> (r: Option<&'a String>)
    ensures
        match env_value(env@, name@) {
            None => r is None,
            Some(v) => r matches Some(s) && s@ == v,
        },
{
    let wanted = name.to_owned();
    let mut i: usize = 0;
    assert(env@.skip(0) =~= env@);
    while i < env.len()
        invariant
            i <= env@.len(),
            wanted@ == name@,
            env_value(env@, name@) == env_value(env@.skip(i as int), name@),
        decreases env@.len() - i,
    {
        assert(env@.skip(i as int).drop_first() =~= env@.skip(i + 1));
        if env[i].0 == wanted {
            return Some(&env[i].1);
        }
        i = i + 1;
    }
    None
}

/// A boolean setting from the environment: unset gives `default_value`;
/// set, its value is lowercased and read by `parse_flag`.
pub fn env_bool(env: &[(String, String)], var_name: &str, default_value: bool) -> (b: bool)
    ensures
        b == setting_flag(env_value(env@, var_name@), default_value),
{
    match env_var(env, var_name) {
        None => default_value,
        Some(v) => {
            let lowered = to_lowercase(v.as_str());
            parse_flag(lowered.as_str(), default_value)
        },
    }
}

/// The scopes that the environment `env` enables. Each scope has its own
/// variable; the info and sites reads default to on, every other scope to off.
pub open spec fn scopes_from_env(env: Seq<(String, String)>) -> PermissionScopes {
    PermissionScopes {
        info_read: setting_flag(env_value(env, "SCOPE_INFO_READ"@), true),
        sites_read: setting_flag(env_value(env, "SCOPE_SITES_READ"@), true),
        devices_read: setting_flag(env_value(env, "SCOPE_DEVICES_READ"@), false),
        devices_control: setting_flag(env_value(env, "SCOPE_DEVICES_CONTROL"@), false),
        devices_adopt: setting_flag(env_value(env, "SCOPE_DEVICES_ADOPT"@), false),
        clients_read: setting_flag(env_value(env, "SCOPE_CLIENTS_READ"@), false),
        clients_control: setting_flag(env_value(env, "SCOPE_CLIENTS_CONTROL"@), false),
        wlan_read: setting_flag(env_value(env, "SCOPE_WLAN_READ"@), false),
        protect_read: setting_flag(env_value(env, "SCOPE_PROTECT_READ"@), false),
    }
}

impl PermissionScopes {
    /// The scopes that the environment snapshot `env` enables.
    pub fn from_env(env: &[(String, String)]) -> (s: PermissionScopes)
        ensures
            s == scopes_from_env(env@),
    {
        PermissionScopes {
            info_read: env_bool(env, "SCOPE_INFO_READ", true),
            sites_read: env_bool(env, "SCOPE_SITES_READ", true),
            devices_read: env_bool(env, "SCOPE_DEVICES_READ", false),
            devices_control: env_bool(env, "SCOPE_DEVICES_CONTROL", false),
            devices_adopt: env_bool(env, "SCOPE_DEVICES_ADOPT", false),
            clients_read: env_bool(env, "SCOPE_CLIENTS_READ", false),
            clients_control: env_bool(env, "SCOPE_CLIENTS_CONTROL", false),
            wlan_read: env_bool(env, "SCOPE_WLAN_READ", false),
            protect_read: env_bool(env, "SCOPE_PROTECT_READ", false),
        }
    }
}

} // verus!
