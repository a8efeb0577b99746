//! The metric data model and the rate calculator.
//!
//! Metrics are carried as plain integers: byte counts, whole seconds or
//! milliseconds, and usage percentages in tenths of a percent. The
//! platform layer that reads them from the operating system stays outside
//! the library and hands these values in.

use vstd::prelude::*;
use vstd::arithmetic::div_mod::lemma_div_is_ordered;
use vstd::arithmetic::div_mod::lemma_div_multiples_vanish;
use vstd::arithmetic::mul::lemma_mul_inequality;

pub mod cpu;
pub mod disk;
pub mod memory;
pub mod network;
pub mod process;
pub mod system;

verus! {

/// The share of `whole` that `part` is, in whole percent, rounded down;
/// zero when the whole is zero.
pub open spec fn percent_spec(part: u64, whole: u64) -> int {
    if whole == 0 {
        0
    } else {
        part * 100 / (whole as int)
    }
}

/// Compute the whole-percent share of `part` in `whole`, rounded down.
pub fn percent_of(part: u64, whole: u64) -> (r: u64)
    requires
        part <= whole,
    ensures
        r == percent_spec(part, whole),
        r <= 100,
{
    if whole == 0 {
        0
    } else {
        let wide: u128 = (part as u128) * 100 / (whole as u128);
        proof {
            lemma_mul_inequality(part as int, whole as int, 100);
            lemma_div_is_ordered(part * 100, whole * 100, whole as int);
            lemma_div_multiples_vanish(100, whole as int);
        }
        wide as u64
    }
}

} // verus!
