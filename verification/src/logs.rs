//! Which log files are kept: the newest ones, by modification time.
use vstd::prelude::*;

verus! {

/// Whether a file modified at `a` sorts before one modified at `b`: an
/// unknown time sorts before every known one, as `Option`'s order puts
/// `None` first.
pub open spec fn time_before(a: Option<i128>, b: Option<i128>) -> bool {
    match (a, b) {
        (None, Some(_)) => true,
        (Some(x), Some(y)) => x < y,
        _ => false,
    }
}

/// Whether file `j` comes before file `i` once the files are sorted stably
/// by modification time: it is older, or as old and listed earlier.
pub open spec fn sorts_before(times: Seq<Option<i128>>, j: int, i: int) -> bool {
    time_before(times[j], times[i]) || (times[j] == times[i] && j < i)
}

/// How many of the first `n` files come before file `i`.
pub open spec fn count_before(times: Seq<Option<i128>>, i: int, n: int) -> nat
    decreases n,
{
    if n <= 0 {
        0
    } else {
        count_before(times, i, n - 1) + if sorts_before(times, n - 1, i) {
            1nat
        } else {
            0nat
        }
    }
}

/// The place of file `i` once the files are sorted stably by modification
/// time, oldest first.
pub open spec fn rank(times: Seq<Option<i128>>, i: int) -> nat {
    count_before(times, i, times.len() as int)
}

pub proof fn lemma_count_before_bounded(times: Seq<Option<i128>>, i: int, n: int)
    ensures
        count_before(times, i, n) <= if n < 0 {
            0
        } else {
            n
        },
    decreases n,
{
    if n > 0 {
        lemma_count_before_bounded(times, i, n - 1);
    }
}

fn is_before(a: Option<i128>, b: Option<i128>) -> (r: bool)
    ensures
        r == time_before(a, b),
{
    match (a, b) {
        (None, Some(_)) => true,
        (Some(x), Some(y)) => x < y,
        _ => false,
    }
}

/// The log files to remove so that only the newest `keep` stay: with the
/// files sorted stably by modification time, oldest first, every file but
/// the last `keep`. `r[i]` says whether file `i` goes.
pub fn files_to_remove(times: &Vec<Option<i128>>, keep: usize) -> (r: Vec<bool>)
    ensures
        r@.len() == times@.len(),
        forall|i: int| 0 <= i < times@.len() ==> r@[i] == (rank(times@, i) + keep < times@.len()),
{
    let n = times.len();
    let mut r: Vec<bool> = Vec::new();
    let mut i: usize = 0;
    while i < n
        invariant
            n == times@.len(),
            i <= n,
            r@.len() == i,
            forall|k: int| 0 <= k < i ==> r@[k] == (rank(times@, k) + keep < n),
        decreases n - i,
    {
        let mut count: usize = 0;
        let mut j: usize = 0;
        while j < n
            invariant
                n == times@.len(),
                i < n,
                j <= n,
                count == count_before(times@, i as int, j as int),
            decreases n - j,
        {
            proof {
                lemma_count_before_bounded(times@, i as int, j as int);
            }
            let before = is_before(times[j], times[i]) || (times[j] == times[i] && j < i);
            if before {
                count = count + 1;
            }
            j += 1;
        }
        let goes = n > keep && count < n - keep;
        r.push(goes);
        i += 1;
    }
    r
}

} // verus!
