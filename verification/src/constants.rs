//! Fixed parameters of the service.

use vstd::prelude::*;

verus! {

/// How many posts a listing returns when the caller names no limit.
pub const DEFAULT_POSTS_PAGINATION_LIMIT: i32 = 20;

/// How long a verification pin lives, in seconds.
pub const VERIFICATION_PIN_EXPIRATION_TIME: u64 = 60 * 5;

/// The smallest pin value that can be drawn.
pub const PIN_MIN: u32 = 1000000;

/// The first value above the drawable pin range.
pub const PIN_MAX: u32 = 9999999;

} // verus!
