//! Stable sorting of a sample batch by timestamp: batches may arrive
//! internally out of order, but ingestion must process them in timestamp
//! order, with equal timestamps keeping their arrival order.

use crate::gps_processor::RawData;
use vstd::prelude::*;

verus! {

/// `x` inserted after every element of `s` whose timestamp is not greater:
/// among equal timestamps, the earlier-arrived element stays first.
pub open spec fn insert_sorted(s: Seq<RawData>, x: RawData) -> Seq<RawData>
    decreases s.len(),
{
    if s.len() == 0 {
        seq![x]
    } else if s.last().timestamp_ms <= x.timestamp_ms {
        s.push(x)
    } else {
        insert_sorted(s.drop_last(), x).push(s.last())
    }
}

/// The batch in non-decreasing timestamp order, equal timestamps keeping
/// their arrival order: each element inserted in turn.
pub open spec fn stable_sorted(s: Seq<RawData>) -> Seq<RawData>
    decreases s.len(),
{
    if s.len() == 0 {
        Seq::empty()
    } else {
        insert_sorted(stable_sorted(s.drop_last()), s.last())
    }
}

/// Non-decreasing timestamps.
pub open spec fn sorted_by_ts(s: Seq<RawData>) -> bool {
    forall|i: int, j: int| 0 <= i <= j < s.len() ==> s[i].timestamp_ms <= s[j].timestamp_ms
}

/// Every element's timestamp bounded by `b`.
pub open spec fn all_ts_le(s: Seq<RawData>, b: i64) -> bool {
    forall|k: int| 0 <= k < s.len() ==> s[k].timestamp_ms <= b
}

/// Picking the elements of one timestamp.
pub open spec fn ts_is(t: i64) -> spec_fn(RawData) -> bool {
    |d: RawData| d.timestamp_ms == t
}

proof fn lemma_insert_sorted_le(s: Seq<RawData>, x: RawData, b: i64)
    requires
        all_ts_le(s, b),
        x.timestamp_ms <= b,
    ensures
        all_ts_le(insert_sorted(s, x), b),
    decreases s.len(),
{
    if s.len() == 0 {
    } else if s.last().timestamp_ms <= x.timestamp_ms {
    } else {
        assert(all_ts_le(s.drop_last(), b));
        lemma_insert_sorted_le(s.drop_last(), x, b);
    }
}

proof fn lemma_insert_sorted_sorted(s: Seq<RawData>, x: RawData)
    requires
        sorted_by_ts(s),
    ensures
        sorted_by_ts(insert_sorted(s, x)),
        insert_sorted(s, x).len() == s.len() + 1,
    decreases s.len(),
{
    if s.len() == 0 {
    } else if s.last().timestamp_ms <= x.timestamp_ms {
        assert(all_ts_le(s, x.timestamp_ms));
    } else {
        assert(sorted_by_ts(s.drop_last()));
        lemma_insert_sorted_sorted(s.drop_last(), x);
        assert(all_ts_le(s.drop_last(), s.last().timestamp_ms));
        lemma_insert_sorted_le(s.drop_last(), x, s.last().timestamp_ms);
    }
}

/// The stable sort is sorted and keeps the batch's length.
pub proof fn lemma_stable_sorted_sorted(s: Seq<RawData>)
    ensures
        sorted_by_ts(stable_sorted(s)),
        stable_sorted(s).len() == s.len(),
    decreases s.len(),
{
    if s.len() == 0 {
    } else {
        lemma_stable_sorted_sorted(s.drop_last());
        lemma_insert_sorted_sorted(stable_sorted(s.drop_last()), s.last());
    }
}

proof fn lemma_insert_sorted_filter(s: Seq<RawData>, x: RawData, t: i64)
    ensures
        insert_sorted(s, x).filter(ts_is(t)) == if x.timestamp_ms == t {
            s.filter(ts_is(t)).push(x)
        } else {
            s.filter(ts_is(t))
        },
    decreases s.len(),
{
    let p = ts_is(t);
    reveal(Seq::filter);
    if s.len() == 0 {
        assert(seq![x].drop_last() =~= Seq::<RawData>::empty());
        assert(s =~= Seq::<RawData>::empty());
    } else if s.last().timestamp_ms <= x.timestamp_ms {
        assert(s.push(x).drop_last() =~= s);
    } else {
        let inner = insert_sorted(s.drop_last(), x);
        lemma_insert_sorted_filter(s.drop_last(), x, t);
        assert(inner.push(s.last()).drop_last() =~= inner);
    }
}

/// Stability: for every timestamp, the sorted batch holds exactly the input's
/// elements of that timestamp, in their arrival order.
pub proof fn lemma_stable_sorted_stable(s: Seq<RawData>, t: i64)
    ensures
        stable_sorted(s).filter(ts_is(t)) == s.filter(ts_is(t)),
    decreases s.len(),
{
    reveal(Seq::filter);
    if s.len() == 0 {
        assert(stable_sorted(s) =~= s);
    } else {
        lemma_stable_sorted_stable(s.drop_last(), t);
        lemma_insert_sorted_filter(stable_sorted(s.drop_last()), s.last(), t);
    }
}

/// Ingestion-order law: the sorted batch is in non-decreasing timestamp
/// order, holds exactly as many samples as arrived, and for every timestamp
/// holds exactly the arrived samples of that timestamp in arrival order.
pub proof fn lemma_batch_order(s: Seq<RawData>)
    ensures
        sorted_by_ts(stable_sorted(s)),
        stable_sorted(s).len() == s.len(),
        forall|t: i64| #[trigger]
            stable_sorted(s).filter(ts_is(t)) == s.filter(ts_is(t)),
{
    lemma_stable_sorted_sorted(s);
    assert forall|t: i64| #[trigger]
        stable_sorted(s).filter(ts_is(t)) == s.filter(ts_is(t)) by {
        lemma_stable_sorted_stable(s, t);
    }
}

proof fn lemma_insert_sorted_at(s: Seq<RawData>, x: RawData, pos: int)
    requires
        0 <= pos <= s.len(),
        forall|k: int| pos <= k < s.len() ==> s[k].timestamp_ms > x.timestamp_ms,
        pos > 0 ==> s[pos - 1].timestamp_ms <= x.timestamp_ms,
    ensures
        insert_sorted(s, x) == s.insert(pos, x),
    decreases s.len(),
{
    if pos == s.len() {
        if s.len() == 0 {
            assert(seq![x] =~= s.insert(pos, x));
        } else {
            assert(s.last().timestamp_ms <= x.timestamp_ms);
            assert(s.push(x) =~= s.insert(pos, x));
        }
    } else {
        assert(s[s.len() - 1].timestamp_ms > x.timestamp_ms);
        assert(forall|k: int|
            pos <= k < s.drop_last().len() ==> s.drop_last()[k].timestamp_ms > x.timestamp_ms);
        lemma_insert_sorted_at(s.drop_last(), x, pos);
        assert(s.drop_last().insert(pos, x).push(s.last()) =~= s.insert(pos, x));
    }
}

/// Stable-sort the batch in place by sample timestamp, ascending.
pub fn sort_by_timestamp(v: &mut Vec<RawData>)
    ensures
        final(v)@ == stable_sorted(old(v)@),
{
    let mut out: Vec<RawData> = Vec::new();
    let mut i: usize = 0;
    while i < v.len()
        invariant
            i <= v@.len(),
            v@ == old(v)@,
            out@ == stable_sorted(v@.take(i as int)),
        decreases v@.len() - i,
    {
        let x = v[i];
        let mut pos: usize = out.len();
        while pos > 0 && out[pos - 1].timestamp_ms > x.timestamp_ms
            invariant
                pos <= out@.len(),
                forall|k: int| pos <= k < out@.len() ==> out@[k].timestamp_ms > x.timestamp_ms,
            decreases pos,
        {
            pos -= 1;
        }
        let ghost prev = out@;
        out.insert(pos, x);
        proof {
            lemma_insert_sorted_at(prev, x, pos as int);
            assert(v@.take(i + 1 as int).drop_last() =~= v@.take(i as int));
            assert(v@.take(i + 1 as int).last() == v@[i as int]);
        }
        i += 1;
    }
    proof {
        assert(v@.take(v@.len() as int) =~= v@);
    }
    *v = out;
}

} // verus!
