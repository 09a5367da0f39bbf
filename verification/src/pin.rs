//! Verification pin generation.

use vstd::prelude::*;
use crate::constants::PIN_MAX;
use crate::constants::PIN_MIN;
use crate::text::spec_dec;
use crate::text::u64_to_string;

verus! {

/// Relies on `rand::random_range` over a half-open integer range: the
/// result lies in `[lo, hi)`.  The call panics on an empty range, which the
/// precondition excludes.
#[verifier::external_body]
fn random_in(lo: u32, hi: u32) -> (r: u32)
    requires
        lo < hi,
    ensures
        lo <= r < hi,
{
    rand::random_range(lo..hi)
}

/// The count of decimal digits of a natural number.
pub open spec fn spec_num_digits(n: nat) -> nat
    decreases n,
{
    if n < 10 {
        1
    } else {
        1 + spec_num_digits(n / 10)
    }
}

proof fn lemma_dec_len(n: nat)
    ensures
        spec_dec(n).len() == spec_num_digits(n),
    decreases n,
{
    if n >= 10 {
        lemma_dec_len(n / 10);
    }
}

/// Draws a fresh verification pin: the decimal rendering of a value in the
/// pin range, always seven digits.
pub fn generate_pin() -> (r: String)
    ensures
        exists|n: u32| PIN_MIN <= n < PIN_MAX && r@ == spec_dec(n as nat),
        r@.len() == 7,
{
    let n = random_in(PIN_MIN, PIN_MAX);
    let s = u64_to_string(n as u64);
    proof {
        lemma_dec_len(n as nat);
        assert(spec_num_digits(n as nat) == 7) by {
            reveal_with_fuel(spec_num_digits, 8);
        }
        assert(PIN_MIN <= n < PIN_MAX && s@ == spec_dec(n as nat));
    }
    s
}

} // verus!
