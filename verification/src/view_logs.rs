//! Trimming a list of log lines to what a view keeps.

use vstd::prelude::*;
use crate::shell_output::keep_last;

verus! {

/// Keeps the last `max` lines, or all of them where there are no more.
pub fn _normalize_lines(lines: Vec<String>, max: usize) -> (r: Vec<String>)
    ensures
        r@ == keep_last(lines@, max as nat),
{
    let mut lines = lines;
    if lines.len() > max {
        let ghost all = lines@;
        let extra = lines.len() - max;
        let kept = lines.split_off(extra);
        assert(kept@ =~= keep_last(all, max as nat));
        kept
    } else {
        lines
    }
}

/// Trimming twice to the same size is trimming once.
pub proof fn law_normalize_idempotent<T>(lines: Seq<T>, max: nat)
    ensures
        keep_last(keep_last(lines, max), max) == keep_last(lines, max),
        keep_last(lines, max).len() <= max,
        keep_last(lines, max).len() == (if lines.len() > max { max } else { lines.len() }),
{
}

/// The lines kept are the last ones, in order.
pub proof fn law_normalize_keeps_tail<T>(lines: Seq<T>, max: nat, i: int)
    requires
        0 <= i < keep_last(lines, max).len(),
    ensures
        keep_last(lines, max)[i] == lines[lines.len() - keep_last(lines, max).len() + i],
{
}

} // verus!
