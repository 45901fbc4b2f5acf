//! The run's report: lines read, envelopes persisted, and a count per error kind.
use vstd::prelude::*;
use crate::models::Rejection;
use crate::pipeline::Outcome;

verus! {

/// Counts of what became of the lines of a run.
#[derive(Debug, Clone, Copy, PartialEq, Eq, Structural)]
pub struct RunReport {
    pub lines: usize,
    pub persisted: usize,
    pub duplicates: usize,
    pub decode_errors: usize,
    pub validation_failures: usize,
    pub payload_shape_errors: usize,
}

/// The number of outcomes in `out` that `f` picks.
pub open spec fn count_of(out: Seq<Outcome>, f: spec_fn(Outcome) -> bool) -> nat
    decreases out.len(),
{
    if out.len() == 0 {
        0
    } else {
        count_of(out.drop_last(), f) + if f(out.last()) {
            1nat
        } else {
            0nat
        }
    }
}

pub open spec fn is_persist(o: Outcome) -> bool {
    o is Persist
}

pub open spec fn is_duplicate(o: Outcome) -> bool {
    o is Duplicate
}

pub open spec fn is_dropped_for(x: Rejection) -> spec_fn(Outcome) -> bool {
    |o: Outcome| o == Outcome::Dropped(x)
}

proof fn lemma_count_bound(out: Seq<Outcome>, f: spec_fn(Outcome) -> bool)
    ensures
        count_of(out, f) <= out.len(),
    decreases out.len(),
{
    if out.len() > 0 {
        lemma_count_bound(out.drop_last(), f);
    }
}

/// Tallies the outcomes of a run, one per line read.
pub fn tally(out: &Vec<Outcome>) -> (r: RunReport)
    ensures
        r.lines == out.len(),
        r.persisted + r.duplicates + r.decode_errors + r.validation_failures
            + r.payload_shape_errors == r.lines,
        r.persisted == count_of(out@, |o: Outcome| is_persist(o)),
        r.duplicates == count_of(out@, |o: Outcome| is_duplicate(o)),
        r.decode_errors == count_of(out@, is_dropped_for(Rejection::Decode)),
        r.validation_failures == count_of(out@, is_dropped_for(Rejection::Validation)),
        r.payload_shape_errors == count_of(out@, is_dropped_for(Rejection::PayloadShape)),
{
    let mut r = RunReport {
        lines: 0,
        persisted: 0,
        duplicates: 0,
        decode_errors: 0,
        validation_failures: 0,
        payload_shape_errors: 0,
    };
    let mut i: usize = 0;
    while i < out.len()
        invariant
            i <= out.len(),
            r.lines == i,
            r.persisted + r.duplicates + r.decode_errors + r.validation_failures
                + r.payload_shape_errors == i,
            r.persisted == count_of(out@.take(i as int), |o: Outcome| is_persist(o)),
            r.duplicates == count_of(out@.take(i as int), |o: Outcome| is_duplicate(o)),
            r.decode_errors == count_of(out@.take(i as int), is_dropped_for(Rejection::Decode)),
            r.validation_failures == count_of(
                out@.take(i as int),
                is_dropped_for(Rejection::Validation),
            ),
            r.payload_shape_errors == count_of(
                out@.take(i as int),
                is_dropped_for(Rejection::PayloadShape),
            ),
        decreases out.len() - i,
    {
        let ghost pre = out@.take(i as int);
        let ghost next = out@.take(i as int + 1);
        proof {
            assert(next.drop_last() =~= pre);
            assert(next.last() == out@[i as int]);
            lemma_count_bound(pre, |o: Outcome| is_persist(o));
            lemma_count_bound(pre, |o: Outcome| is_duplicate(o));
            lemma_count_bound(pre, is_dropped_for(Rejection::Decode));
            lemma_count_bound(pre, is_dropped_for(Rejection::Validation));
            lemma_count_bound(pre, is_dropped_for(Rejection::PayloadShape));
        }
        match &out[i] {
            Outcome::Persist(_) => r.persisted = r.persisted + 1,
            Outcome::Duplicate(_) => r.duplicates = r.duplicates + 1,
            Outcome::Dropped(Rejection::Decode) => r.decode_errors = r.decode_errors + 1,
            Outcome::Dropped(Rejection::Validation) => r.validation_failures = r.validation_failures
                + 1,
            Outcome::Dropped(Rejection::PayloadShape) => r.payload_shape_errors =
            r.payload_shape_errors + 1,
        }
        r.lines = r.lines + 1;
        i = i + 1;
    }
    assert(out@.take(out.len() as int) =~= out@);
    r
}

} // verus!
