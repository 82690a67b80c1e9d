//! Choosing which log entries to show.

use vstd::prelude::*;

verus! {

/// The last `count` of `lines`, newest first.
pub fn latest_entries(lines: &Vec<String>, count: usize) -> (r: Vec<String>)
    ensures
        r@.len() == if count < lines@.len() {
            count as int
        } else {
            lines@.len() as int
        },
        forall|i: int| 0 <= i < r@.len() ==> #[trigger] r@[i] == lines@[lines@.len() - 1 - i],
{
    let n: usize = lines.len();
    let mut out: Vec<String> = Vec::new();
    let mut i: usize = 0;
    while i < n && i < count
        invariant
            i <= n,
            i <= count,
            n == lines@.len(),
            out@.len() == i,
            forall|k: int| 0 <= k < i ==> #[trigger] out@[k] == lines@[n - 1 - k],
        decreases n - i,
    {
        out.push(lines[n - 1 - i].clone());
        i = i + 1;
    }
    out
}

} // verus!
