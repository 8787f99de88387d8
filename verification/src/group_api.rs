//! Rules of the runtime groups API: what a listing may ask for, and how its
//! failures are answered.

use vstd::prelude::*;

use crate::text::same_text;

verus! {

/// A failed runtime groups request.
#[derive(Clone, Debug, PartialEq, Eq)]
pub enum ApiError {
    Unauthorized,
    Invalid(&'static str),
    NotFound,
    Database,
}

/// The status, code and message a failure is answered with.
pub open spec fn api_error_response(e: ApiError) -> (u16, Seq<char>, Seq<char>) {
    match e {
        ApiError::Unauthorized => (401, "unauthorized"@, "invalid or missing bearer credential"@),
        ApiError::Invalid(m) => (400, "invalid_request"@, m@),
        ApiError::NotFound => (404, "not_found"@, "runtime group not found"@),
        ApiError::Database => (500, "internal_error"@, "internal server error"@),
    }
}

impl ApiError {
    /// The status, code and message of the failure's response.
    pub fn response(&self) -> (r: (u16, &'static str, &'static str))
        ensures
            (r.0, r.1@, r.2@) == api_error_response(*self),
    {
        match self {
            ApiError::Unauthorized => (401, "unauthorized", "invalid or missing bearer credential"),
            ApiError::Invalid(m) => (400, "invalid_request", m),
            ApiError::NotFound => (404, "not_found", "runtime group not found"),
            ApiError::Database => (500, "internal_error", "internal server error"),
        }
    }
}

/// Default number of groups a page lists.
pub const DEFAULT_GROUP_PAGE: i64 = 50;

/// The page size of a group listing: 50 unless given, and between 1 and 200.
/// Only open groups can be asked for by status.
pub open spec fn group_query_of(limit: Option<i64>, status: Option<Seq<char>>) -> Result<i64, ApiError> {
    let l = match limit {
        Some(l) => l,
        None => DEFAULT_GROUP_PAGE,
    };
    if !(1 <= l <= 200) {
        Err(ApiError::Invalid("limit must be between 1 and 200"))
    } else if status matches Some(s) && s != "open"@ {
        Err(ApiError::Invalid("unsupported status"))
    } else {
        Ok(l)
    }
}

/// Checks a group listing's page size and status filter.
pub fn check_group_query(limit: Option<i64>, status: Option<&str>) -> (r: Result<i64, ApiError>)
    ensures
        r == group_query_of(
            limit,
            match status {
                Some(s) => Some(s@),
                None => None,
            },
        ),
{
    let l = match limit {
        Some(l) => l,
        None => DEFAULT_GROUP_PAGE,
    };
    if !(1 <= l && l <= 200) {
        return Err(ApiError::Invalid("limit must be between 1 and 200"));
    }
    match status {
        Some(s) => {
            if !same_text(s, "open") {
                return Err(ApiError::Invalid("unsupported status"));
            }
        },
        None => {},
    }
    Ok(l)
}

} // verus!
