//! The split of a log's lines among a fixed number of workers.
use vstd::prelude::*;

verus! {

/// The lines per chunk: the line count divided by the worker count, rounded up.
pub open spec fn chunk_size(total: nat, workers: nat) -> nat
    recommends
        workers > 0,
{
    ((total + workers - 1) as nat) / workers
}

/// Splits `total` lines into contiguous half-open ranges of `chunk_size`
/// lines each (the last may be shorter), one per non-empty chunk, in order.
pub fn partition(total: usize, workers: usize) -> (r: Vec<(usize, usize)>)
    requires
        workers > 0,
    ensures
        r.len() <= workers,
        total == 0 <==> r.len() == 0,
        forall|k: int|
            0 <= k < r.len() ==> {
                &&& (#[trigger] r@[k]).0 == k * chunk_size(total as nat, workers as nat)
                &&& r@[k].0 < r@[k].1
                &&& r@[k].1 == if (k + 1) * chunk_size(total as nat, workers as nat) < total {
                    (k + 1) * chunk_size(total as nat, workers as nat)
                } else {
                    total as int
                }
            },
        r.len() > 0 ==> r@[r.len() - 1].1 == total,
{
    let q: usize = total / workers;
    let m: usize = total % workers;
    proof {
        assert(m > 0 ==> q < usize::MAX) by (nonlinear_arith)
            requires
                workers > 0,
                q == total as int / workers as int,
                m == total as int % workers as int,
                total <= usize::MAX,
        ;
    }
    let size: usize = if m == 0 {
        q
    } else {
        q + 1
    };
    proof {
        let cs = chunk_size(total as nat, workers as nat);
        let q = total as int / workers as int;
        let m = total as int % workers as int;
        assert(total as int == q * workers + m && 0 <= m < workers) by (nonlinear_arith)
            requires
                workers > 0,
                q == total as int / workers as int,
                m == total as int % workers as int,
        ;
        assert(cs == size) by (nonlinear_arith)
            requires
                workers > 0,
                total as int == q * workers + m,
                0 <= m < workers,
                cs == (total + workers - 1) as int / workers as int,
                size == q + if m == 0 {
                    0int
                } else {
                    1int
                },
        ;
        assert(total > 0 ==> size > 0) by (nonlinear_arith)
            requires
                total as int == q * workers + m,
                0 <= m < workers,
                size == q + if m == 0 {
                    0int
                } else {
                    1int
                },
        ;
        assert(size * workers >= total) by (nonlinear_arith)
            requires
                total as int == q * workers + m,
                0 <= m < workers,
                size == q + if m == 0 {
                    0int
                } else {
                    1int
                },
        ;
    }
    let mut r: Vec<(usize, usize)> = Vec::new();
    let mut start: usize = 0;
    let mut k: usize = 0;
    while start < total
        invariant
            size == chunk_size(total as nat, workers as nat),
            size * workers >= total,
            total > 0 ==> size > 0,
            start == if k * size < total {
                k * size
            } else {
                total as int
            },
            start <= total,
            r.len() == k,
            k <= workers,
            k < workers || start >= total,
            total == 0 ==> k == 0,
            k > 0 ==> r@[k - 1].1 == start,
            forall|j: int|
                0 <= j < k ==> {
                    &&& (#[trigger] r@[j]).0 == j * size
                    &&& r@[j].0 < r@[j].1
                    &&& r@[j].1 == if (j + 1) * size < total {
                        (j + 1) * size
                    } else {
                        total as int
                    }
                },
        decreases total - start,
    {
        let end: usize = if total - start > size {
            start + size
        } else {
            total
        };
        proof {
            assert((k + 1) * size == k * size + size) by (nonlinear_arith);
            assert(k < workers);
            assert(k + 1 < workers || (k + 1) * size >= total) by (nonlinear_arith)
                requires
                    k < workers,
                    size * workers >= total,
            ;
        }
        r.push((start, end));
        start = end;
        k = k + 1;
    }
    r
}

} // verus!
