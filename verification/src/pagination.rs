//! Pagination query resolution.
//!
//! `offset` and `limit` arrive as raw query-string values; a missing,
//! unparsable or negative value falls back to its default rather than
//! erroring.

use vstd::prelude::*;
use crate::constants::DEFAULT_POSTS_PAGINATION_LIMIT;
use crate::text::parse_i64;
use crate::text::spec_parse_i64;

verus! {

/// The resolved pagination window of a listing request.
pub struct PaginationQuery {
    pub offset: i64,
    pub limit: i64,
}

/// What a raw query-string value resolves to: its parsed value when that
/// is a non-negative integer, the default otherwise.
pub open spec fn spec_resolve_param(raw: Option<Seq<char>>, default: i64) -> i64 {
    match raw {
        Some(s) => match spec_parse_i64(s) {
            Some(v) => if v < 0 {
                default
            } else {
                v
            },
            None => default,
        },
        None => default,
    }
}

/// The default offset: the start of the listing.
pub fn default_offset() -> (r: i64)
    ensures
        r == 0,
{
    0
}

/// The default limit.
pub fn default_limit() -> (r: i64)
    ensures
        r == DEFAULT_POSTS_PAGINATION_LIMIT as i64,
{
    DEFAULT_POSTS_PAGINATION_LIMIT as i64
}

fn resolve_param(raw: Option<&str>, default: i64) -> (r: i64)
    ensures
        r == spec_resolve_param(
            match raw {
                Some(s) => Some(s@),
                None => None,
            },
            default,
        ),
{
    match raw {
        Some(s) => match parse_i64(s) {
            Some(v) => if v < 0 {
                default
            } else {
                v
            },
            None => default,
        },
        None => default,
    }
}

impl PaginationQuery {
    /// Resolves the raw `offset` and `limit` query values, falling back to
    /// the defaults for anything missing, unparsable or negative.
    pub fn from_params(offset: Option<&str>, limit: Option<&str>) -> (r: PaginationQuery)
        ensures
            r.offset == spec_resolve_param(
                match offset {
                    Some(s) => Some(s@),
                    None => None,
                },
                0,
            ),
            r.limit == spec_resolve_param(
                match limit {
                    Some(s) => Some(s@),
                    None => None,
                },
                DEFAULT_POSTS_PAGINATION_LIMIT as i64,
            ),
            r.offset >= 0,
            r.limit >= 0,
    {
        let offset = resolve_param(offset, default_offset());
        let limit = resolve_param(limit, default_limit());
        PaginationQuery { offset, limit }
    }
}

} // verus!
