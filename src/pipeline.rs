//! One worker's chain over its chunk: screen, claim, dispatch; and the tally
//! of what became of each line.
use vstd::prelude::*;
use crate::dedup::DedupSet;
use crate::dispatch::{dispatch, payload_ok, write_for, StoreWrite};
use crate::decode::{line_screened, screen_line};
use crate::models::{Event, Rejection};
use crate::validation::valid_event;

verus! {

/// What became of one line.
#[derive(Debug, Clone)]
pub enum Outcome {
    /// The line leads to this store write.
    Persist(StoreWrite),
    /// The line was dropped for this reason.
    Dropped(Rejection),
    /// The event identifier had already been claimed in this run.
    Duplicate(i32),
}

/// The outcome owed to one screened line, given the identifiers claimed before it.
pub open spec fn outcome_fits(claimed: Set<i32>, s: Result<Event, Rejection>, o: Outcome) -> bool {
    match s {
        Err(x) => o == Outcome::Dropped(x),
        Ok(e) => if claimed.contains(e.event_id) {
            o == Outcome::Duplicate(e.event_id)
        } else if payload_ok(e) {
            o matches Outcome::Persist(w) && write_for(e, w)
        } else {
            o == Outcome::Dropped(Rejection::PayloadShape)
        },
    }
}

/// The claimed set after one screened line: a line that passed screening
/// claims its identifier.
pub open spec fn after_one(claimed: Set<i32>, s: Result<Event, Rejection>) -> Set<i32> {
    match s {
        Ok(e) => claimed.insert(e.event_id),
        Err(_) => claimed,
    }
}

/// The identifiers claimed after the screened lines `ss`, starting from `claimed`:
/// every line that passed screening claims its identifier.
pub open spec fn claims_after(claimed: Set<i32>, ss: Seq<Result<Event, Rejection>>) -> Set<i32>
    decreases ss.len(),
{
    if ss.len() == 0 {
        claimed
    } else {
        after_one(claims_after(claimed, ss.drop_last()), ss.last())
    }
}

/// `out` is, line by line, what a worker owes for the screened lines `ss` when
/// it starts from the claimed set `claimed`.
pub open spec fn worker_outcomes(
    claimed: Set<i32>,
    ss: Seq<Result<Event, Rejection>>,
    out: Seq<Outcome>,
) -> bool {
    &&& out.len() == ss.len()
    &&& forall|i: int|
        0 <= i < ss.len() ==> outcome_fits(
            claims_after(claimed, ss.take(i)),
            #[trigger] ss[i],
            out[i],
        )
}

/// Settles one screened line once its claim has been tried: `fresh` says
/// whether the claim of its identifier succeeded.
pub fn resolve(screened: &Result<Event, Rejection>, fresh: bool) -> (r: Outcome)
    ensures
        match screened {
            Err(x) => r == Outcome::Dropped(*x),
            Ok(e) => if !fresh {
                r == Outcome::Duplicate(e.event_id)
            } else if payload_ok(*e) {
                r matches Outcome::Persist(w) && write_for(*e, w)
            } else {
                r == Outcome::Dropped(Rejection::PayloadShape)
            },
        },
{
    match screened {
        Err(x) => Outcome::Dropped(*x),
        Ok(e) => if !fresh {
            Outcome::Duplicate(e.event_id)
        } else {
            match dispatch(e) {
                Ok(w) => Outcome::Persist(w),
                Err(x) => Outcome::Dropped(x),
            }
        },
    }
}

/// One line through the claim and the dispatcher, against the shared set.
pub fn process_screened(screened: &Result<Event, Rejection>, claims: &mut DedupSet) -> (r: Outcome)
    ensures
        outcome_fits(old(claims)@, *screened, r),
        final(claims)@ == after_one(old(claims)@, *screened),
{
    match screened {
        Err(_) => resolve(screened, false),
        Ok(e) => {
            let fresh = claims.try_claim(e.event_id);
            resolve(screened, fresh)
        },
    }
}

/// Runs one worker's chain over its chunk in order, against the shared set.
/// Outcomes stand in the order of the lines, so the writes keep file order.
pub fn run_worker(screened: &Vec<Result<Event, Rejection>>, claims: &mut DedupSet) -> (r: Vec<
    Outcome,
>)
    ensures
        worker_outcomes(old(claims)@, screened@, r@),
        final(claims)@ == claims_after(old(claims)@, screened@),
{
    let mut out: Vec<Outcome> = Vec::new();
    let mut i: usize = 0;
    while i < screened.len()
        invariant
            i <= screened.len(),
            out.len() == i,
            claims@ == claims_after(old(claims)@, screened@.take(i as int)),
            forall|j: int|
                0 <= j < i ==> outcome_fits(
                    claims_after(old(claims)@, screened@.take(j)),
                    #[trigger] screened@[j],
                    out@[j],
                ),
        decreases screened.len() - i,
    {
        let o = process_screened(&screened[i], claims);
        proof {
            let next = screened@.take(i as int + 1);
            assert(next.drop_last() =~= screened@.take(i as int));
            assert(next.last() == screened@[i as int]);
        }
        out.push(o);
        i = i + 1;
    }
    assert(screened@.take(screened@.len() as int) =~= screened@);
    out
}

} // verus!

verus! {

/// Screens every line of a chunk, in order, before any claim is made.
pub fn screen_lines(lines: &Vec<String>) -> (r: Vec<Result<Event, Rejection>>)
    ensures
        r.len() == lines.len(),
        forall|i: int| 0 <= i < r.len() ==> line_screened(lines@[i]@, #[trigger] r@[i]),
        forall|i: int|
            0 <= i < r.len() ==> (#[trigger] r@[i] matches Ok(e) ==> valid_event(e)),
        forall|i: int|
            0 <= i < r.len() ==> (#[trigger] r@[i] matches Err(x) ==> x == Rejection::Decode
                || x == Rejection::Validation),
{
    let mut r: Vec<Result<Event, Rejection>> = Vec::new();
    let mut i: usize = 0;
    while i < lines.len()
        invariant
            i <= lines.len(),
            r.len() == i,
            forall|k: int| 0 <= k < i ==> line_screened(lines@[k]@, #[trigger] r@[k]),
            forall|k: int| 0 <= k < i ==> (#[trigger] r@[k] matches Ok(e) ==> valid_event(e)),
            forall|k: int|
                0 <= k < i ==> (#[trigger] r@[k] matches Err(x) ==> x == Rejection::Decode
                    || x == Rejection::Validation),
        decreases lines.len() - i,
    {
        r.push(screen_line(lines[i].as_str()));
        i = i + 1;
    }
    r
}

/// The store writes among `out`, in the order of the lines.
pub open spec fn persisted(out: Seq<Outcome>) -> Seq<StoreWrite>
    decreases out.len(),
{
    if out.len() == 0 {
        Seq::empty()
    } else {
        let rest = persisted(out.skip(1));
        match out[0] {
            Outcome::Persist(w) => seq![w] + rest,
            _ => rest,
        }
    }
}

proof fn lemma_persisted_concat(a: Seq<Outcome>, b: Seq<Outcome>)
    ensures
        persisted(a + b) == persisted(a) + persisted(b),
    decreases a.len(),
{
    if a.len() == 0 {
        assert(a + b =~= b);
        assert(persisted(a) + persisted(b) =~= persisted(b));
    } else {
        lemma_persisted_concat(a.skip(1), b);
        assert((a + b).skip(1) =~= a.skip(1) + b);
        assert((a + b)[0] == a[0]);
        match a[0] {
            Outcome::Persist(w) => {
                assert(seq![w] + (persisted(a.skip(1)) + persisted(b)) =~= (seq![w] + persisted(
                    a.skip(1),
                )) + persisted(b));
            },
            _ => {},
        }
    }
}

proof fn lemma_persisted_at(out: Seq<Outcome>, i: int, w: StoreWrite)
    requires
        0 <= i < out.len(),
        out[i] == Outcome::Persist(w),
    ensures
        persisted(out) == persisted(out.take(i)) + seq![w] + persisted(out.skip(i + 1)),
{
    let one = seq![out[i]];
    assert(out =~= out.take(i) + (one + out.skip(i + 1)));
    lemma_persisted_concat(out.take(i), one + out.skip(i + 1));
    lemma_persisted_concat(one, out.skip(i + 1));
    assert(one.skip(1) =~= Seq::<Outcome>::empty());
    assert(persisted(one.skip(1)) == Seq::<StoreWrite>::empty());
    assert(persisted(one) =~= seq![w]);
    assert(persisted(out.take(i)) + (seq![w] + persisted(out.skip(i + 1))) =~= persisted(
        out.take(i),
    ) + seq![w] + persisted(out.skip(i + 1)));
}

/// Within one worker's chunk the writes keep file order: when lines `i < j`
/// both lead to writes, the write of `i` comes first among the writes.
pub proof fn lemma_chunk_order_kept(out: Seq<Outcome>, i: int, j: int, wi: StoreWrite, wj: StoreWrite)
    requires
        0 <= i < j < out.len(),
        out[i] == Outcome::Persist(wi),
        out[j] == Outcome::Persist(wj),
    ensures
        persisted(out.take(i)).len() < persisted(out.take(j)).len(),
        persisted(out)[persisted(out.take(i)).len() as int] == wi,
        persisted(out)[persisted(out.take(j)).len() as int] == wj,
{
    lemma_persisted_at(out, i, wi);
    lemma_persisted_at(out, j, wj);
    let tj = out.take(j);
    lemma_persisted_at(tj, i, wi);
    assert(tj.take(i) =~= out.take(i));
}

proof fn lemma_claims_include(claimed: Set<i32>, ss: Seq<Result<Event, Rejection>>, i: int, e: Event)
    requires
        0 <= i < ss.len(),
        ss[i] == Ok::<Event, Rejection>(e),
    ensures
        claims_after(claimed, ss).contains(e.event_id),
    decreases ss.len(),
{
    if i < ss.len() - 1 {
        lemma_claims_include(claimed, ss.drop_last(), i, e);
        match ss.last() {
            Ok(_) => {},
            Err(_) => {},
        }
    }
}

proof fn lemma_claims_exclude(claimed: Set<i32>, ss: Seq<Result<Event, Rejection>>, x: i32)
    requires
        !claimed.contains(x),
        forall|k: int| 0 <= k < ss.len() ==> !(#[trigger] ss[k] matches Ok(c) && c.event_id == x),
    ensures
        !claims_after(claimed, ss).contains(x),
    decreases ss.len(),
{
    if ss.len() > 0 {
        let pre = ss.drop_last();
        assert forall|k: int| 0 <= k < pre.len() implies !(#[trigger] pre[k] matches Ok(c)
            && c.event_id == x) by {
            assert(pre[k] == ss[k]);
        }
        lemma_claims_exclude(claimed, pre, x);
        assert(ss.last() == ss[ss.len() - 1]);
    }
}

/// Of two lines that carry one event identifier, wherever they stand in the
/// order in which the workers claimed, the later one is reported as a
/// duplicate; the earlier one is written when its identifier was not claimed
/// at the start, no line before it carries that identifier, and its payload
/// has the shape its kind needs: exactly one of the two leads to a write.
pub proof fn lemma_duplicate_suppressed(
    claimed: Set<i32>,
    ss: Seq<Result<Event, Rejection>>,
    out: Seq<Outcome>,
    i: int,
    j: int,
    a: Event,
    b: Event,
)
    requires
        worker_outcomes(claimed, ss, out),
        0 <= i < j < ss.len(),
        ss[i] == Ok::<Event, Rejection>(a),
        ss[j] == Ok::<Event, Rejection>(b),
        a.event_id == b.event_id,
    ensures
        out[j] == Outcome::Duplicate(b.event_id),
        !claimed.contains(a.event_id) && payload_ok(a) && (forall|k: int|
            0 <= k < i ==> !(#[trigger] ss[k] matches Ok(c) && c.event_id == a.event_id)) ==> (
        out[i] matches Outcome::Persist(w) && write_for(a, w)),
{
    if !claimed.contains(a.event_id) && (forall|k: int|
        0 <= k < i ==> !(#[trigger] ss[k] matches Ok(c) && c.event_id == a.event_id)) {
        let ti = ss.take(i);
        assert forall|k: int| 0 <= k < ti.len() implies !(#[trigger] ti[k] matches Ok(c)
            && c.event_id == a.event_id) by {
            assert(ti[k] == ss[k]);
        }
        lemma_claims_exclude(claimed, ti, a.event_id);
    }
    let pre = ss.take(j);
    assert(pre[i] == ss[i]);
    lemma_claims_include(claimed, pre, i, a);
    assert(outcome_fits(claims_after(claimed, ss.take(j)), ss[j], out[j]));
    assert(outcome_fits(claims_after(claimed, ss.take(i)), ss[i], out[i]));
}

} // verus!

verus! {

proof fn lemma_claims_after_concat(
    claimed: Set<i32>,
    a: Seq<Result<Event, Rejection>>,
    b: Seq<Result<Event, Rejection>>,
)
    ensures
        claims_after(claimed, a + b) == claims_after(claims_after(claimed, a), b),
    decreases b.len(),
{
    if b.len() == 0 {
        assert(a + b =~= a);
    } else {
        lemma_claims_after_concat(claimed, a, b.drop_last());
        assert((a + b).drop_last() =~= a + b.drop_last());
        assert((a + b).last() == b.last());
    }
}

/// Two chunks run one after the other against one claimed set behave as the
/// single chunk of their lines in that order; so any order in which workers'
/// lines reach the claim is one sequence of lines, to which the duplicate
/// law applies.
pub proof fn lemma_chunks_compose(
    claimed: Set<i32>,
    a: Seq<Result<Event, Rejection>>,
    b: Seq<Result<Event, Rejection>>,
    out_a: Seq<Outcome>,
    out_b: Seq<Outcome>,
)
    requires
        worker_outcomes(claimed, a, out_a),
        worker_outcomes(claims_after(claimed, a), b, out_b),
    ensures
        worker_outcomes(claimed, a + b, out_a + out_b),
        claims_after(claimed, a + b) == claims_after(claims_after(claimed, a), b),
{
    lemma_claims_after_concat(claimed, a, b);
    let ab = a + b;
    assert forall|i: int| 0 <= i < ab.len() implies outcome_fits(
        claims_after(claimed, ab.take(i)),
        #[trigger] ab[i],
        (out_a + out_b)[i],
    ) by {
        if i < a.len() {
            assert(ab.take(i) =~= a.take(i));
            assert(ab[i] == a[i]);
        } else {
            let k = i - a.len();
            assert(ab.take(i) =~= a + b.take(k));
            lemma_claims_after_concat(claimed, a, b.take(k));
            assert(ab[i] == b[k]);
            assert(outcome_fits(claims_after(claims_after(claimed, a), b.take(k)), b[k], out_b[k]));
        }
    }
}

} // verus!
