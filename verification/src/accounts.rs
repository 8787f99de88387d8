//! Validation of the names people give to organizations, projects,
//! applications and credentials, the session cookie, and the platform values
//! agents report.

use vstd::prelude::*;

use crate::text::{append, chars_of, char_count, trim_whitespace, trim_ws, u64_text, decimal};
use crate::web_api::RequestId;

verus! {

/// Name of the cookie that carries a user session.
pub const SESSION_COOKIE: &'static str = "okoscope_session";

/// A character a slug may hold: a lower-case ASCII letter, a digit or `-`.
pub open spec fn slug_char(c: char) -> bool {
    ('a' <= c <= 'z') || ('0' <= c <= '9') || c == '-'
}

/// A slug: 1 to 63 lower-case letters, digits or single hyphens, neither
/// starting nor ending with a hyphen.
pub open spec fn slug_ok(s: Seq<char>) -> bool {
    &&& 1 <= s.len() <= 63
    &&& forall|i: int| 0 <= i < s.len() ==> slug_char(#[trigger] s[i])
    &&& s[0] != '-'
    &&& s[s.len() - 1] != '-'
    &&& forall|i: int| 0 <= i < s.len() - 1 ==> !(#[trigger] s[i] == '-' && s[i + 1] == '-')
}

pub fn valid_slug(value: &str) -> (r: bool)
    ensures
        r == slug_ok(value@),
{
    let chars = chars_of(value);
    let n = chars.len();
    if n < 1 || n > 63 {
        return false;
    }
    let mut i: usize = 0;
    while i < n
        invariant
            chars@ == value@,
            n == chars@.len(),
            1 <= n <= 63,
            i <= n,
            forall|j: int| 0 <= j < i ==> slug_char(#[trigger] value@[j]),
            forall|j: int| 0 <= j < i && j + 1 < n ==> !(#[trigger] value@[j] == '-' && value@[j
                + 1] == '-'),
        decreases n - i,
    {
        let c = chars[i];
        if !(('a' <= c && c <= 'z') || ('0' <= c && c <= '9') || c == '-') {
            return false;
        }
        if i + 1 < n && c == '-' && chars[i + 1] == '-' {
            assert(value@[i as int] == '-' && value@[i as int + 1] == '-');
            return false;
        }
        i = i + 1;
    }
    chars[0] != '-' && chars[n - 1] != '-'
}

/// The slug check of the provisioning API, with its message.
pub fn validate_slug(value: &str) -> (r: Result<(), &'static str>)
    ensures
        slug_ok(value@) ==> r is Ok,
        !slug_ok(value@) ==> r is Err && r->Err_0@
            == "slug must contain 1-63 lowercase letters, digits, or single hyphens"@,
{
    if valid_slug(value) {
        Ok(())
    } else {
        Err("slug must contain 1-63 lowercase letters, digits, or single hyphens")
    }
}

/// A display name: already trimmed, and of `min..=max` characters.
pub open spec fn name_ok(s: Seq<char>, max: nat) -> bool {
    trim_ws(s) == s && 1 <= s.len() <= max
}

fn trimmed_with_length(value: &str, max: usize) -> (r: bool)
    ensures
        r == name_ok(value@, max as nat),
{
    let t = trim_whitespace(value);
    let count = char_count(value);
    crate::text::same_text(t.as_str(), value) && 1 <= count && count <= max
}

pub fn valid_name(value: &str) -> (r: bool)
    ensures
        r == name_ok(value@, 120),
{
    trimmed_with_length(value, 120)
}

/// The name check of the provisioning API, with its message.
pub fn validate_name(value: &str) -> (r: Result<(), &'static str>)
    ensures
        name_ok(value@, 120) ==> r is Ok,
        !name_ok(value@, 120) ==> r is Err && r->Err_0@
            == "name must contain 1-120 characters without surrounding whitespace"@,
{
    if trimmed_with_length(value, 120) {
        Ok(())
    } else {
        Err("name must contain 1-120 characters without surrounding whitespace")
    }
}

/// The credential name check of the provisioning API, with its message.
pub fn validate_credential_name(value: &str) -> (r: Result<(), &'static str>)
    ensures
        name_ok(value@, 64) ==> r is Ok,
        !name_ok(value@, 64) ==> r is Err && r->Err_0@
            == "credential name must contain 1-64 characters without surrounding whitespace"@,
{
    if trimmed_with_length(value, 64) {
        Ok(())
    } else {
        Err("credential name must contain 1-64 characters without surrounding whitespace")
    }
}

pub open spec fn secure_attribute(secure: bool) -> Seq<char> {
    if secure {
        "; Secure"@
    } else {
        ""@
    }
}

/// The `Set-Cookie` value of a session: HTTP-only, `Secure` in production,
/// same-site lax, for the whole site, for `max_age_secs` seconds.
pub open spec fn session_cookie_text(token: Seq<char>, secure: bool, max_age_secs: u64) -> Seq<char> {
    SESSION_COOKIE@ + "="@ + token + "; HttpOnly"@ + secure_attribute(secure)
        + "; SameSite=Lax; Path=/; Max-Age="@ + decimal(max_age_secs as nat)
}

pub fn session_cookie(token: &str, secure: bool, max_age_secs: u64) -> (r: String)
    ensures
        r@ == session_cookie_text(token@, secure, max_age_secs),
{
    let mut s = String::from_str(SESSION_COOKIE);
    append(&mut s, "=");
    append(&mut s, token);
    append(&mut s, "; HttpOnly");
    append(&mut s, if secure {
        "; Secure"
    } else {
        ""
    });
    append(&mut s, "; SameSite=Lax; Path=/; Max-Age=");
    let age = u64_text(max_age_secs);
    append(&mut s, age.as_str());
    assert(s@ =~= session_cookie_text(token@, secure, max_age_secs));
    s
}

/// The `Set-Cookie` value that ends a session at once.
pub open spec fn expired_cookie_text(secure: bool) -> Seq<char> {
    SESSION_COOKIE@ + "=; HttpOnly"@ + secure_attribute(secure) + "; SameSite=Lax; Path=/; Max-Age=0"@
}

pub fn expired_cookie(secure: bool) -> (r: String)
    ensures
        r@ == expired_cookie_text(secure),
{
    let mut s = String::from_str(SESSION_COOKIE);
    append(&mut s, "=; HttpOnly");
    append(&mut s, if secure {
        "; Secure"
    } else {
        ""
    });
    append(&mut s, "; SameSite=Lax; Path=/; Max-Age=0");
    assert(s@ =~= expired_cookie_text(secure));
    s
}

/// An ASCII letter compared without case.
pub open spec fn fold_ascii(c: char) -> char {
    if 'A' <= c <= 'Z' {
        ((c as u32) + 32) as char
    } else {
        c
    }
}

/// `eq_ignore_ascii_case`: equal lengths, and equal characters once ASCII
/// letters are folded.
pub open spec fn eq_ignore_ascii_case(a: Seq<char>, b: Seq<char>) -> bool {
    a.len() == b.len() && forall|i: int| 0 <= i < a.len() ==> fold_ascii(#[trigger] a[i]) == fold_ascii(b[i])
}

fn fold(c: char) -> (r: char)
    ensures
        r == fold_ascii(c),
{
    if 'A' <= c && c <= 'Z' {
        ((c as u8) + 32) as char
    } else {
        c
    }
}

fn equals_ignoring_ascii_case(a: &str, b: &str) -> (r: bool)
    ensures
        r == eq_ignore_ascii_case(a@, b@),
{
    let x = chars_of(a);
    let y = chars_of(b);
    if x.len() != y.len() {
        return false;
    }
    let mut i: usize = 0;
    while i < x.len()
        invariant
            x@ == a@,
            y@ == b@,
            x@.len() == y@.len(),
            i <= x@.len(),
            forall|j: int| 0 <= j < i ==> fold_ascii(#[trigger] a@[j]) == fold_ascii(b@[j]),
        decreases x@.len() - i,
    {
        if fold(x[i]) != fold(y[i]) {
            return false;
        }
        i = i + 1;
    }
    true
}

/// A platform value an agent reports (architecture, kernel release): kept
/// trimmed when it is not empty, not `unknown` in any case, and at most
/// `max_len` characters; dropped otherwise.
pub open spec fn platform_value_of(value: Seq<char>, max_len: nat) -> Option<Seq<char>> {
    let t = trim_ws(value);
    if t.len() > 0 && !eq_ignore_ascii_case(t, "unknown"@) && t.len() <= max_len {
        Some(t)
    } else {
        None
    }
}

pub fn platform_value(value: &str, max_len: usize) -> (r: Option<String>)
    ensures
        match platform_value_of(value@, max_len as nat) {
            Some(t) => r is Some && r->0@ == t,
            None => r is None,
        },
{
    let t = trim_whitespace(value);
    let count = char_count(t.as_str());
    if count > 0 && !equals_ignoring_ascii_case(t.as_str(), "unknown") && count <= max_len {
        Some(t)
    } else {
        None
    }
}

// ------------------------------------------------------ user authentication

/// A refused authentication request, as the API answers it: an HTTP status,
/// a stable code, a message and the request's id.
#[derive(Clone, Debug, PartialEq, Eq)]
pub struct AuthError {
    pub status: u16,
    pub code: &'static str,
    pub message: &'static str,
    pub request_id: RequestId,
}

impl AuthError {
    /// A refusal of the request with the given id.
    pub fn new(status: u16, code: &'static str, message: &'static str, request_id: &RequestId) -> (r:
        Self)
        ensures
            r.status == status,
            r.code == code,
            r.message == message,
            r.request_id == *request_id,
    {
        AuthError { status, code, message, request_id: RequestId(request_id.0.clone()) }
    }

    /// A failure of the service itself, which says nothing of its cause.
    pub fn internal(request_id: &RequestId) -> (r: Self)
        ensures
            r.status == 500,
            r.code@ == "internal_error"@,
            r.message@ == "internal server error"@,
            r.request_id == *request_id,
    {
        proof {
            reveal_strlit("internal_error");
            reveal_strlit("internal server error");
        }
        AuthError::new(500, "internal_error", "internal server error", request_id)
    }
}

/// Users can reach the service when registration or setup is enabled, or
/// some organization has an owner.
pub fn verify_user_access(registration_enabled: bool, setup_enabled: bool, owner_count: i64) -> (r:
    Result<(), &'static str>)
    ensures
        (registration_enabled || setup_enabled || owner_count > 0) ==> r is Ok,
        !(registration_enabled || setup_enabled || owner_count > 0) ==> r is Err && r->Err_0@
            == "no Organization owner exists; configure setup authorization, run bootstrap-owner, or explicitly enable registration"@,
{
    proof {
        reveal_strlit(
            "no Organization owner exists; configure setup authorization, run bootstrap-owner, or explicitly enable registration",
        );
    }
    if registration_enabled || setup_enabled || owner_count > 0 {
        Ok(())
    } else {
        Err(
            "no Organization owner exists; configure setup authorization, run bootstrap-owner, or explicitly enable registration",
        )
    }
}

/// Why a registration is refused before anything is stored, in the order the
/// checks run: registration disabled, then the e-mail or password problem
/// reported for them, then an invalid organization slug or name.
pub open spec fn registration_fault(
    enabled: bool,
    identity_problem: Option<&'static str>,
    slug: Seq<char>,
    name: Seq<char>,
) -> Option<(u16, Seq<char>, Seq<char>)> {
    if !enabled {
        Some((404, "registration_disabled"@, "registration is disabled"@))
    } else if identity_problem is Some {
        Some((400, "validation_failed"@, identity_problem->0@))
    } else if !slug_ok(slug) || !name_ok(name, 120) {
        Some((400, "validation_failed"@, "organization slug or name is invalid"@))
    } else {
        None
    }
}

/// Checks a registration request. `identity_problem` is what the e-mail and
/// password checks reported, the first of them that failed.
pub fn check_registration(
    enabled: bool,
    identity_problem: Option<&'static str>,
    organization_slug: &str,
    organization_name: &str,
    request_id: &RequestId,
) -> (r: Result<(), AuthError>)
    ensures
        match registration_fault(enabled, identity_problem, organization_slug@, organization_name@) {
            None => r is Ok,
            Some((status, code, message)) => r is Err && r->Err_0.status == status
                && r->Err_0.code@ == code && r->Err_0.message@ == message
                && r->Err_0.request_id == *request_id,
        },
{
    proof {
        reveal_strlit("registration_disabled");
        reveal_strlit("registration is disabled");
        reveal_strlit("validation_failed");
        reveal_strlit("organization slug or name is invalid");
    }
    if !enabled {
        return Err(
            AuthError::new(404, "registration_disabled", "registration is disabled", request_id),
        );
    }
    match identity_problem {
        Some(message) => {
            return Err(AuthError::new(400, "validation_failed", message, request_id));
        },
        None => {},
    }
    if !valid_slug(organization_slug) || !valid_name(organization_name) {
        return Err(
            AuthError::new(
                400,
                "validation_failed",
                "organization slug or name is invalid",
                request_id,
            ),
        );
    }
    Ok(())
}

/// What a registration that failed to store is answered with: an identity
/// that already exists is a conflict; anything else is an internal failure.
pub fn registration_failure(unique_violation: bool, request_id: &RequestId) -> (r: AuthError)
    ensures
        unique_violation ==> r.status == 409 && r.code@ == "registration_conflict"@
            && r.message@ == "registration identity already exists"@,
        !unique_violation ==> r.status == 500 && r.code@ == "internal_error"@,
        r.request_id == *request_id,
{
    proof {
        reveal_strlit("registration_conflict");
        reveal_strlit("registration identity already exists");
    }
    if unique_violation {
        AuthError::new(409, "registration_conflict", "registration identity already exists", request_id)
    } else {
        AuthError::internal(request_id)
    }
}

/// A login succeeds only for a known, enabled user whose password matches
/// and whose role is known; every other case gets the same answer, so that
/// the answer does not tell which accounts exist.
pub fn check_login(
    user_found: bool,
    user_disabled: bool,
    password_matches: bool,
    role_known: bool,
    request_id: &RequestId,
) -> (r: Result<(), AuthError>)
    ensures
        (user_found && !user_disabled && password_matches && role_known) ==> r is Ok,
        !(user_found && !user_disabled && password_matches && role_known) ==> r is Err
            && r->Err_0.status == 401 && r->Err_0.code@ == "invalid_credentials"@
            && r->Err_0.message@ == "invalid email or password"@ && r->Err_0.request_id
            == *request_id,
{
    proof {
        reveal_strlit("invalid_credentials");
        reveal_strlit("invalid email or password");
    }
    if user_found && !user_disabled && password_matches && role_known {
        Ok(())
    } else {
        Err(AuthError::new(401, "invalid_credentials", "invalid email or password", request_id))
    }
}

// ------------------------------------------------------------ provisioning

/// A refused provisioning request, as the API answers it.
#[derive(Clone, Debug, PartialEq, Eq)]
pub struct ProvisioningError {
    pub status: u16,
    pub code: &'static str,
    pub message: String,
    pub request_id: RequestId,
}

impl ProvisioningError {
    /// The admin credential is missing or wrong.
    pub fn unauthorized(request_id: &RequestId) -> (r: Self)
        ensures
            r.status == 401 && r.code@ == "unauthorized"@ && r.message@
                == "invalid or missing admin bearer credential"@ && r.request_id == *request_id,
    {
        proof {
            reveal_strlit("unauthorized");
            reveal_strlit("invalid or missing admin bearer credential");
        }
        ProvisioningError {
            status: 401,
            code: "unauthorized",
            message: String::from_str("invalid or missing admin bearer credential"),
            request_id: RequestId(request_id.0.clone()),
        }
    }

    /// The request is invalid, for the given reason.
    pub fn invalid(message: &str, request_id: &RequestId) -> (r: Self)
        ensures
            r.status == 400 && r.code@ == "invalid_request"@ && r.message@ == message@
                && r.request_id == *request_id,
    {
        proof {
            reveal_strlit("invalid_request");
        }
        ProvisioningError {
            status: 400,
            code: "invalid_request",
            message: String::from_str(message),
            request_id: RequestId(request_id.0.clone()),
        }
    }

    /// The resource does not exist.
    pub fn not_found(request_id: &RequestId) -> (r: Self)
        ensures
            r.status == 404 && r.code@ == "not_found"@ && r.message@ == "resource not found"@
                && r.request_id == *request_id,
    {
        proof {
            reveal_strlit("not_found");
            reveal_strlit("resource not found");
        }
        ProvisioningError {
            status: 404,
            code: "not_found",
            message: String::from_str("resource not found"),
            request_id: RequestId(request_id.0.clone()),
        }
    }

    /// The resource already exists.
    pub fn conflict(request_id: &RequestId) -> (r: Self)
        ensures
            r.status == 409 && r.code@ == "conflict"@ && r.message@ == "resource already exists"@
                && r.request_id == *request_id,
    {
        proof {
            reveal_strlit("conflict");
            reveal_strlit("resource already exists");
        }
        ProvisioningError {
            status: 409,
            code: "conflict",
            message: String::from_str("resource already exists"),
            request_id: RequestId(request_id.0.clone()),
        }
    }

    /// A storage failure: a unique violation is a conflict; anything else is
    /// an internal error that says nothing of its cause.
    pub fn database(unique_violation: bool, request_id: &RequestId) -> (r: Self)
        ensures
            unique_violation ==> r.status == 409 && r.code@ == "conflict"@,
            !unique_violation ==> r.status == 500 && r.code@ == "internal_error"@ && r.message@
                == "internal server error"@,
            r.request_id == *request_id,
    {
        if unique_violation {
            return ProvisioningError::conflict(request_id);
        }
        proof {
            reveal_strlit("internal_error");
            reveal_strlit("internal server error");
        }
        ProvisioningError {
            status: 500,
            code: "internal_error",
            message: String::from_str("internal server error"),
            request_id: RequestId(request_id.0.clone()),
        }
    }
}

/// The admin credential a request presents: what follows `Bearer ` in its
/// `authorization` header.
pub fn presented_credential(authorization: Option<&str>) -> (r: Option<String>)
    ensures
        match authorization {
            None => r is None,
            Some(v) => if crate::text::has_prefix(v@, "Bearer "@) {
                r is Some && r->0@ == v@.skip(7)
            } else {
                r is None
            },
        },
{
    proof {
        reveal_strlit("Bearer ");
    }
    match authorization {
        None => None,
        Some(v) => crate::text::strip_prefix(v, "Bearer "),
    }
}

/// A provisioning request goes on only when an admin credential is
/// configured and the presented one is accepted by it.
pub fn authorize_admin(admin_accepts: Option<bool>, request_id: &RequestId) -> (r: Result<
    (),
    ProvisioningError,
>)
    ensures
        admin_accepts == Some(true) ==> r is Ok,
        admin_accepts != Some(true) ==> r is Err && r->Err_0.status == 401 && r->Err_0.request_id
            == *request_id,
{
    match admin_accepts {
        Some(true) => Ok(()),
        _ => Err(ProvisioningError::unauthorized(request_id)),
    }
}

} // verus!
