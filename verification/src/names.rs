//! Synthetic identifier names for the two allocator spaces: per-assertion
//! runner bindings and per-argument recorder bindings.

use vstd::prelude::*;
use crate::text::{dec_str, u64_to_dec};

verus! {

/// The runner binding name for allocation number `n`.
pub open spec fn g_runner_name(n: int) -> Seq<char> {
    "_pasrt"@ + dec_str(n)
}

/// The recorder binding name for allocation number `n`.
pub open spec fn g_argrec_name(n: int) -> Seq<char> {
    "_parg"@ + dec_str(n)
}

/// Allocating from a counter: the next counter value and the name issued.
pub open spec fn g_next_argrec(c: int) -> (int, Seq<char>) {
    (c + 1, g_argrec_name(c + 1))
}

/// Retracting the most recent unused allocation.
pub open spec fn g_unset_argrec(c: int) -> int {
    c - 1
}

/// Retracting an unused recorder allocation makes the next allocation reissue
/// the same name at the same counter value, so numbering stays contiguous.
pub proof fn lemma_recorder_counter_round_trip(c: int)
    ensures
        g_next_argrec(g_unset_argrec(g_next_argrec(c).0)).0 == g_next_argrec(c).0,
        g_next_argrec(g_unset_argrec(g_next_argrec(c).0)).1 == g_next_argrec(c).1,
{
}

/// Build the runner name for allocation `n`.
pub fn runner_name(n: usize) -> (r: String)
    ensures
        r@ == g_runner_name(n as int),
{
    let digits = u64_to_dec(n as u64);
    let prefix = "_pasrt".to_owned();
    prefix.concat(digits.as_str())
}

/// Build the recorder name for allocation `n`.
pub fn argrec_name(n: usize) -> (r: String)
    ensures
        r@ == g_argrec_name(n as int),
{
    let digits = u64_to_dec(n as u64);
    let prefix = "_parg".to_owned();
    prefix.concat(digits.as_str())
}

} // verus!
