//! Conventions of the Web API: allowed CORS origins, request identifiers, the
//! error envelope and the build information.

use vstd::prelude::*;

use crate::database::REQUIRED_MIGRATION;
use crate::text::{append, chars_of, same_text, trim_whitespace, trim_ws};

verus! {

pub const API_VERSION: &'static str = "v1";

pub const REQUEST_ID_HEADER: &'static str = "x-request-id";

/// The version of this service.
pub const SERVICE_VERSION: &'static str = "0.1.0";

/// Most CORS origins a configuration may allow.
pub const MAX_CORS_ORIGINS: usize = 32;

/// The parts of a URL that the origin checks read.
#[derive(Clone, Debug, PartialEq, Eq)]
pub struct UrlParts {
    pub scheme: String,
    pub host: Option<String>,
    pub username: String,
    pub password: Option<String>,
    pub path: String,
    pub query: Option<String>,
    pub fragment: Option<String>,
    /// The origin's ASCII serialization.
    pub origin: String,
}

/// What `url::Url::parse` makes of a text: none when it is no URL.
pub uninterp spec fn spec_url_parse(text: Seq<char>) -> Option<UrlParts>;

/// `url::Url::parse`, read into its parts: scheme, host, user name, password,
/// path, query, fragment and the ASCII serialization of the origin; none where
/// the text does not parse.
#[verifier::external_body]
pub(crate) fn parse_url(text: &str) -> (r: Option<UrlParts>)
    ensures
        r == spec_url_parse(text@),
{
    let url = url::Url::parse(text).ok()?;
    Some(UrlParts {
        scheme: url.scheme().to_owned(),
        host: url.host_str().map(str::to_owned),
        username: url.username().to_owned(),
        password: url.password().map(str::to_owned),
        path: url.path().to_owned(),
        query: url.query().map(str::to_owned),
        fragment: url.fragment().map(str::to_owned),
        origin: url.origin().ascii_serialization(),
    })
}

/// The `Debug` text of a string: quoted, with special characters escaped.
pub uninterp spec fn spec_debug_str(text: Seq<char>) -> Seq<char>;

/// `format!("{:?}", text)`: the string's `Debug` form.
#[verifier::external_body]
pub(crate) fn debug_str(text: &str) -> (r: String)
    ensures
        r@ == spec_debug_str(text@),
{
    format!("{text:?}")
}

/// An origin that is exactly a scheme and a host (and port): http or https,
/// with a host, no credentials, the root path, no query or fragment, no
/// wildcard, and not the literal `null`.
pub open spec fn origin_allowed(value: Seq<char>, p: UrlParts) -> bool {
    &&& (p.scheme@ == "http"@ || p.scheme@ == "https"@)
    &&& p.host is Some
    &&& p.username@.len() == 0
    &&& p.password is None
    &&& p.path@ == "/"@
    &&& p.query is None
    &&& p.fragment is None
    &&& !value.contains('*')
    &&& value != "null"@
}

/// The normalized origin of a trimmed configured value with its parse, or the
/// error that refuses it.
pub open spec fn origin_check(value: Seq<char>, parsed: Option<UrlParts>) -> Result<Seq<char>, Seq<char>> {
    match parsed {
        None => Err("invalid CORS origin "@ + spec_debug_str(value)),
        Some(p) => if origin_allowed(value, p) {
            Ok(p.origin@)
        } else {
            Err("unsafe CORS origin "@ + spec_debug_str(value))
        },
    }
}

fn has_star(value: &str) -> (r: bool)
    ensures
        r == value@.contains('*'),
{
    let chars = chars_of(value);
    let mut i: usize = 0;
    while i < chars.len()
        invariant
            chars@ == value@,
            i <= chars@.len(),
            forall|j: int| 0 <= j < i ==> chars@[j] != '*',
        decreases chars@.len() - i,
    {
        if chars[i] == '*' {
            assert(value@[i as int] == '*');
            return true;
        }
        i = i + 1;
    }
    false
}

/// Checks one trimmed CORS origin against its parse.
pub fn check_origin(value: &str, parsed: Option<UrlParts>) -> (r: Result<String, String>)
    ensures
        match origin_check(value@, parsed) {
            Ok(o) => r is Ok && r->Ok_0@ == o,
            Err(e) => r is Err && r->Err_0@ == e,
        },
{
    let p = match parsed {
        None => {
            let mut message = String::from_str("invalid CORS origin ");
            let d = debug_str(value);
            append(&mut message, d.as_str());
            return Err(message);
        },
        Some(p) => p,
    };
    let allowed = (same_text(p.scheme.as_str(), "http") || same_text(p.scheme.as_str(), "https"))
        && p.host.is_some() && p.username.as_str().is_empty() && p.password.is_none() && same_text(
        p.path.as_str(),
        "/",
    ) && p.query.is_none() && p.fragment.is_none() && !has_star(value) && !same_text(
        value,
        "null",
    );
    if !allowed {
        let mut message = String::from_str("unsafe CORS origin ");
        let d = debug_str(value);
        append(&mut message, d.as_str());
        return Err(message);
    }
    Ok(p.origin)
}

/// The origins a list of configured values allows, in order and without
/// repeats, or the first error.
pub open spec fn origins_of(values: Seq<Seq<char>>) -> Result<Seq<Seq<char>>, Seq<char>>
    decreases values.len(),
{
    if values.len() == 0 {
        Ok(Seq::empty())
    } else {
        match origins_of(values.drop_last()) {
            Err(e) => Err(e),
            Ok(acc) => {
                let t = trim_ws(values.last());
                match origin_check(t, spec_url_parse(t)) {
                    Err(e) => Err(e),
                    Ok(o) => Ok(
                        if acc.contains(o) {
                            acc
                        } else {
                            acc.push(o)
                        },
                    ),
                }
            },
        }
    }
}

pub open spec fn texts(v: Seq<String>) -> Seq<Seq<char>> {
    v.map_values(|s: String| s@)
}

/// Once a prefix of the values is refused, so are all values, for the same
/// reason.
proof fn lemma_origins_error_stays(values: Seq<Seq<char>>, k: int)
    requires
        0 <= k <= values.len(),
        origins_of(values.take(k)) is Err,
    ensures
        origins_of(values) == origins_of(values.take(k)),
    decreases values.len() - k,
{
    if k == values.len() {
        assert(values.take(k) =~= values);
    } else {
        assert(values.drop_last().take(k) =~= values.take(k));
        lemma_origins_error_stays(values.drop_last(), k);
    }
}

/// The Web API's cross-origin settings.
#[derive(Clone, Debug, Default, PartialEq, Eq)]
pub struct WebApiConfig {
    pub cors_origins: Vec<String>,
}

fn contains_text(v: &Vec<String>, s: &str) -> (r: bool)
    ensures
        r == texts(v@).contains(s@),
{
    let mut i: usize = 0;
    while i < v.len()
        invariant
            i <= v@.len(),
            forall|j: int| 0 <= j < i ==> (#[trigger] v@[j])@ != s@,
        decreases v@.len() - i,
    {
        if same_text(v[i].as_str(), s) {
            assert(texts(v@)[i as int] == s@);
            return true;
        }
        i = i + 1;
    }
    proof {
        if texts(v@).contains(s@) {
            let k = choose|k: int| 0 <= k < texts(v@).len() && texts(v@)[k] == s@;
            assert(v@[k]@ == s@);
        }
    }
    false
}

impl WebApiConfig {
    /// Validates the allowed CORS origins: at most 32, each exactly an http
    /// or https origin once trimmed; each is kept in normalized form, once.
    pub fn new(origins: Vec<String>) -> (r: Result<Self, String>)
        ensures
            origins@.len() > MAX_CORS_ORIGINS ==> r is Err && r->Err_0@
                == "at most 32 CORS origins are allowed"@,
            origins@.len() <= MAX_CORS_ORIGINS ==> match origins_of(texts(origins@)) {
                Ok(o) => r is Ok && texts(r->Ok_0.cors_origins@) == o,
                Err(e) => r is Err && r->Err_0@ == e,
            },
    {
        if origins.len() > MAX_CORS_ORIGINS {
            return Err(String::from_str("at most 32 CORS origins are allowed"));
        }
        let ghost all = texts(origins@);
        let mut validated: Vec<String> = Vec::new();
        let mut i: usize = 0;
        proof {
            assert(all.take(0) =~= Seq::<Seq<char>>::empty());
            assert(texts(validated@) =~= Seq::<Seq<char>>::empty());
        }
        while i < origins.len()
            invariant
                origins@.len() <= MAX_CORS_ORIGINS,
                i <= origins@.len(),
                all == texts(origins@),
                origins_of(all.take(i as int)) == Ok::<Seq<Seq<char>>, Seq<char>>(
                    texts(validated@),
                ),
            decreases origins@.len() - i,
        {
            proof {
                assert(all.take(i as int + 1).drop_last() =~= all.take(i as int));
                assert(all.take(i as int + 1).last() == origins@[i as int]@);
            }
            let value = trim_whitespace(origins[i].as_str());
            let parsed = parse_url(value.as_str());
            let normalized = match check_origin(value.as_str(), parsed) {
                Ok(normalized) => normalized,
                Err(e) => {
                    proof {
                        lemma_origins_error_stays(all, i as int + 1);
                    }
                    return Err(e);
                },
            };
            let ghost before = validated@;
            if !contains_text(&validated, normalized.as_str()) {
                validated.push(normalized);
                proof {
                    assert(texts(validated@) =~= texts(before).push(validated@.last()@));
                }
            }
            i = i + 1;
        }
        proof {
            assert(all.take(i as int) =~= all);
        }
        Ok(WebApiConfig { cors_origins: validated })
    }
}

/// A request identifier that is echoed back: 1 to 128 characters, each an
/// ASCII letter or digit, `-`, `_` or `.`.
pub open spec fn request_id_char(c: char) -> bool {
    ('a' <= c <= 'z') || ('A' <= c <= 'Z') || ('0' <= c <= '9') || c == '-' || c == '_' || c
        == '.'
}

pub open spec fn request_id_ok(value: Seq<char>) -> bool {
    &&& 0 < value.len() <= 128
    &&& forall|i: int| 0 <= i < value.len() ==> request_id_char(#[trigger] value[i])
}

pub fn valid_request_id(value: &str) -> (r: bool)
    ensures
        r == request_id_ok(value@),
{
    let chars = chars_of(value);
    if chars.len() == 0 || chars.len() > 128 {
        return false;
    }
    let mut i: usize = 0;
    while i < chars.len()
        invariant
            chars@ == value@,
            i <= chars@.len(),
            forall|j: int| 0 <= j < i ==> request_id_char(#[trigger] value@[j]),
        decreases chars@.len() - i,
    {
        let c = chars[i];
        let ok = ('a' <= c && c <= 'z') || ('A' <= c && c <= 'Z') || ('0' <= c && c <= '9') || c
            == '-' || c == '_' || c == '.';
        if !ok {
            return false;
        }
        i = i + 1;
    }
    true
}

/// The identifier a request carries through the API.
#[derive(Clone, Debug, PartialEq, Eq)]
pub struct RequestId(pub String);

/// The body of every error response.
#[derive(Clone, Debug, PartialEq, Eq)]
pub struct ErrorEnvelope {
    pub error: &'static str,
    pub message: String,
    pub request_id: String,
}

/// Builds the error body for a request.
pub fn error_envelope(code: &'static str, message: String, request_id: &RequestId) -> (r: ErrorEnvelope)
    ensures
        r.error == code,
        r.message == message,
        r.request_id == request_id.0,
{
    ErrorEnvelope { error: code, message, request_id: request_id.0.clone() }
}

/// What the service reports about its build.
#[derive(Clone, Copy, Debug, PartialEq, Eq)]
pub struct BuildInfo {
    pub service_version: &'static str,
    pub git_commit: &'static str,
    pub api_version: &'static str,
    pub required_database_migration: i64,
}

/// The build information, with `unknown` for a commit that was not recorded.
pub fn build_info_value(git_commit: Option<&'static str>) -> (r: BuildInfo)
    ensures
        r.service_version == SERVICE_VERSION,
        r.api_version == API_VERSION,
        r.required_database_migration == REQUIRED_MIGRATION,
        git_commit matches Some(c) ==> r.git_commit == c,
        git_commit is None ==> r.git_commit@ == "unknown"@,
{
    BuildInfo {
        service_version: SERVICE_VERSION,
        git_commit: match git_commit {
            Some(c) => c,
            None => "unknown",
        },
        api_version: API_VERSION,
        required_database_migration: REQUIRED_MIGRATION,
    }
}

// ------------------------------------------------------- request handling

/// The id of a request: the one it supplied, where that is a valid id, or a
/// fresh random UUID in its hyphenated form.
pub fn request_id_of(header: Option<&str>) -> (r: RequestId)
    ensures
        (header matches Some(h) && request_id_ok(h@)) ==> r.0@ == header->0@,
        !(header matches Some(h) && request_id_ok(h@)) ==> exists|id: u128|
            r.0@ == #[trigger] crate::ids::spec_uuid_text(id),
{
    match header {
        Some(h) => {
            if valid_request_id(h) {
                return RequestId(String::from_str(h));
            }
        },
        None => {},
    }
    let id = crate::ids::new_v4();
    RequestId(crate::ids::uuid_text(id))
}

/// Whether a request's origin is one the API does not allow (a request
/// without an origin is not cross-origin).
pub fn origin_denied(cors_origins: &Vec<String>, origin: Option<&str>) -> (r: bool)
    ensures
        r == (origin matches Some(o) && !(exists|i: int|
            0 <= i < cors_origins@.len() && (#[trigger] cors_origins@[i])@ == o@)),
{
    let o = match origin {
        None => {
            return false;
        },
        Some(o) => o,
    };
    let mut i: usize = 0;
    while i < cors_origins.len()
        invariant
            origin == Some(o),
            i <= cors_origins@.len(),
            forall|j: int| 0 <= j < i ==> (#[trigger] cors_origins@[j])@ != o@,
        decreases cors_origins@.len() - i,
    {
        if same_text(cors_origins[i].as_str(), o) {
            assert(cors_origins@[i as int]@ == o@);
            return false;
        }
        i = i + 1;
    }
    true
}

/// A response status that reports a failure (client or server error).
pub fn is_error_status(status: u16) -> (r: bool)
    ensures
        r == (400 <= status <= 599),
{
    400 <= status && status <= 599
}

/// A reason phrase as an error code: ASCII letters lower-cased, spaces as
/// underscores.
pub open spec fn code_char(c: char) -> char {
    if 'A' <= c <= 'Z' {
        ((c as u8) + 32) as char
    } else if c == ' ' {
        '_'
    } else {
        c
    }
}

/// The error code of a failed response without a JSON body: its status's
/// reason phrase as a code, or `request_failed` for a status without one.
pub fn reason_code(reason: Option<&str>) -> (r: String)
    ensures
        reason is None ==> r@ == "request_failed"@,
        reason matches Some(t) ==> r@ == t@.map_values(|c: char| code_char(c)),
{
    let text = match reason {
        None => {
            return String::from_str("request_failed");
        },
        Some(t) => t,
    };
    let chars = chars_of(text);
    let mut out: Vec<char> = Vec::new();
    let mut i: usize = 0;
    while i < chars.len()
        invariant
            chars@ == text@,
            i <= chars@.len(),
            out@ == text@.take(i as int).map_values(|c: char| code_char(c)),
        decreases chars@.len() - i,
    {
        let c = chars[i];
        let mapped = if 'A' <= c && c <= 'Z' {
            ((c as u8) + 32) as char
        } else if c == ' ' {
            '_'
        } else {
            c
        };
        out.push(mapped);
        i = i + 1;
        assert(out@ =~= text@.take(i as int).map_values(|c: char| code_char(c)));
    }
    assert(text@.take(i as int) =~= text@);
    crate::text::string_of(out.as_slice())
}

/// The message of a failed response without a JSON body: its status's reason
/// phrase, or `request failed`.
pub fn reason_message(reason: Option<&str>) -> (r: String)
    ensures
        reason is None ==> r@ == "request failed"@,
        reason matches Some(t) ==> r@ == t@,
{
    match reason {
        None => String::from_str("request failed"),
        Some(t) => String::from_str(t),
    }
}

} // verus!
