//! A stable merge sort of replay events by exchange instant.

use vstd::prelude::*;
use crate::replay::{event_views, EventView, ReplayEvent};

verus! {

/// Events in non-decreasing order of instant.
pub open spec fn ts_sorted(s: Seq<EventView>) -> bool {
    forall|i: int, j: int| 0 <= i <= j < s.len() ==> s[i].ts <= s[j].ts
}

/// The events of instant `k`, in their order.
pub open spec fn with_ts(s: Seq<EventView>, k: i64) -> Seq<EventView>
    decreases s.len(),
{
    if s.len() == 0 {
        Seq::empty()
    } else if s.last().ts == k {
        with_ts(s.drop_last(), k).push(s.last())
    } else {
        with_ts(s.drop_last(), k)
    }
}

/// `out` is `inp` sorted by instant, with events of equal instant kept in
/// their order: for every instant, the events of that instant are the same,
/// in the same order.
pub open spec fn stable_sorted(out: Seq<EventView>, inp: Seq<EventView>) -> bool {
    &&& ts_sorted(out)
    &&& forall|k: i64| #[trigger] with_ts(out, k) == with_ts(inp, k)
}

/// Selecting one instant distributes over concatenation.
pub proof fn lemma_with_ts_add(a: Seq<EventView>, b: Seq<EventView>, k: i64)
    ensures
        with_ts(a + b, k) == with_ts(a, k) + with_ts(b, k),
    decreases b.len(),
{
    if b.len() == 0 {
        assert(a + b =~= a);
        assert(with_ts(a, k) + with_ts(b, k) =~= with_ts(a, k));
    } else {
        lemma_with_ts_add(a, b.drop_last(), k);
        assert((a + b).drop_last() =~= a + b.drop_last());
        assert((a + b).last() == b.last());
        if b.last().ts == k {
            assert(with_ts(a + b, k) =~= with_ts(a, k) + with_ts(b, k));
        } else {
            assert(with_ts(a + b, k) =~= with_ts(a, k) + with_ts(b, k));
        }
    }
}

proof fn lemma_with_ts_single(x: EventView, k: i64)
    ensures
        with_ts(seq![x], k) == (if x.ts == k {
            seq![x]
        } else {
            Seq::<EventView>::empty()
        }),
{
    reveal_with_fuel(with_ts, 2);
    assert(seq![x].drop_last() =~= Seq::<EventView>::empty());
    assert(seq![x].last() == x);
    if x.ts == k {
        assert(Seq::<EventView>::empty().push(x) =~= seq![x]);
    }
}

proof fn lemma_with_ts_none(s: Seq<EventView>, k: i64)
    requires
        forall|i: int| 0 <= i < s.len() ==> s[i].ts != k,
    ensures
        with_ts(s, k) == Seq::<EventView>::empty(),
    decreases s.len(),
{
    if s.len() > 0 {
        lemma_with_ts_none(s.drop_last(), k);
    }
}

/// The reverse of a sequence.
pub open spec fn rev(s: Seq<EventView>) -> Seq<EventView>
    decreases s.len(),
{
    if s.len() == 0 {
        Seq::empty()
    } else {
        seq![s.last()] + rev(s.drop_last())
    }
}

proof fn lemma_rev_push(s: Seq<EventView>, x: EventView)
    ensures
        rev(s.push(x)) == seq![x] + rev(s),
{
    assert(s.push(x).drop_last() =~= s);
}

proof fn lemma_rev_len(s: Seq<EventView>)
    ensures
        rev(s).len() == s.len(),
    decreases s.len(),
{
    if s.len() > 0 {
        lemma_rev_len(s.drop_last());
    }
}

proof fn lemma_rev_index(s: Seq<EventView>, i: int)
    requires
        0 <= i < s.len(),
    ensures
        rev(s).len() == s.len(),
        rev(s)[i] == s[s.len() - 1 - i],
    decreases s.len(),
{
    lemma_rev_len(s);
    if i > 0 {
        lemma_rev_index(s.drop_last(), i - 1);
    }
}

proof fn lemma_events_push(v: Seq<ReplayEvent>, x: ReplayEvent)
    ensures
        event_views(v.push(x)) == event_views(v).push(x@),
{
    assert(event_views(v.push(x)) =~= event_views(v).push(x@));
}

proof fn lemma_events_take(v: Seq<ReplayEvent>, n: int)
    requires
        0 <= n <= v.len(),
    ensures
        event_views(v.subrange(0, n)) == event_views(v).take(n),
{
    assert(event_views(v.subrange(0, n)) =~= event_views(v).take(n));
}

/// Merges two sorted runs; on equal instants, events of `a` come first.
fn merge(a: Vec<ReplayEvent>, b: Vec<ReplayEvent>) -> (out: Vec<ReplayEvent>)
    requires
        ts_sorted(event_views(a@)),
        ts_sorted(event_views(b@)),
    ensures
        ts_sorted(event_views(out@)),
        forall|k: i64| #[trigger] with_ts(event_views(out@), k) == with_ts(event_views(a@), k) + with_ts(event_views(b@), k),
{
    let ghost aa = event_views(a@);
    let ghost bb = event_views(b@);
    let mut a = a;
    let mut b = b;
    let mut r: Vec<ReplayEvent> = Vec::new();
    assert(aa.skip(aa.len() as int) =~= Seq::<EventView>::empty());
    assert(bb.skip(bb.len() as int) =~= Seq::<EventView>::empty());
    assert(aa.take(aa.len() as int) =~= aa);
    assert(bb.take(bb.len() as int) =~= bb);
    assert forall|k: i64| #[trigger] with_ts(rev(event_views(r@)), k) == with_ts(aa.skip(a@.len() as int), k) + with_ts(bb.skip(b@.len() as int), k) by {
        assert(event_views(r@) =~= Seq::<EventView>::empty());
        assert(with_ts(Seq::<EventView>::empty(), k) + with_ts(Seq::<EventView>::empty(), k) =~= Seq::<EventView>::empty());
    }
    while a.len() > 0 || b.len() > 0
        invariant
            a@.len() <= aa.len(),
            b@.len() <= bb.len(),
            event_views(a@) == aa.take(a@.len() as int),
            event_views(b@) == bb.take(b@.len() as int),
            ts_sorted(aa),
            ts_sorted(bb),
            event_views(r@).len() == r@.len(),
            // `r` holds the largest events, largest first.
            forall|i: int, j: int| 0 <= i <= j < r@.len() ==> event_views(r@)[i].ts >= event_views(r@)[j].ts,
            forall|i: int, j: int| 0 <= i < a@.len() && 0 <= j < r@.len() ==> aa[i].ts <= event_views(r@)[j].ts,
            forall|i: int, j: int| 0 <= i < b@.len() && 0 <= j < r@.len() ==> bb[i].ts <= event_views(r@)[j].ts,
            // what was taken from `a` is later than all that is left of `b`.
            forall|i: int, j: int| a@.len() <= i < aa.len() && 0 <= j < b@.len() ==> aa[i].ts > bb[j].ts,
            forall|k: i64| #[trigger] with_ts(rev(event_views(r@)), k) == with_ts(aa.skip(a@.len() as int), k) + with_ts(bb.skip(b@.len() as int), k),
        decreases a@.len() + b@.len(),
    {
        let take_a = if a.len() == 0 {
            false
        } else if b.len() == 0 {
            true
        } else {
            a[a.len() - 1].ts > b[b.len() - 1].ts
        };
        let ghost r0 = event_views(r@);
        let ghost na = a@.len() as int;
        let ghost nb = b@.len() as int;
        if take_a {
            assert(event_views(a@)[na - 1] == aa[na - 1]);
            let ghost a_before = a@;
            let x = a.pop().unwrap();
            proof {
                assert(x@ == event_views(a_before)[na - 1]);
                lemma_events_take(a_before, na - 1);
                assert(aa.take(na).take(na - 1) =~= aa.take(na - 1));
            }
            r.push(x);
            proof {
                let xv = x@;
                lemma_events_push(r@.drop_last(), x);
                assert(r@.drop_last().push(x) =~= r@);
                lemma_rev_push(r0, xv);
                assert(event_views(r@) == r0.push(xv));
                assert(rev(event_views(r@)) == seq![xv] + rev(r0));
                assert(aa.skip(na - 1) =~= seq![xv] + aa.skip(na));
                assert forall|k: i64| #[trigger] with_ts(rev(event_views(r@)), k) == with_ts(aa.skip(a@.len() as int), k) + with_ts(bb.skip(b@.len() as int), k) by {
                    lemma_with_ts_single(xv, k);
                    lemma_with_ts_add(seq![xv], rev(r0), k);
                    lemma_with_ts_add(seq![xv], aa.skip(na), k);
                    assert(with_ts(rev(r0), k) == with_ts(aa.skip(na), k) + with_ts(bb.skip(nb), k));
                    assert(with_ts(seq![xv], k) + (with_ts(aa.skip(na), k) + with_ts(bb.skip(nb), k))
                        =~= (with_ts(seq![xv], k) + with_ts(aa.skip(na), k)) + with_ts(bb.skip(nb), k));
                }
            }
        } else {
            assert(event_views(b@)[nb - 1] == bb[nb - 1]);
            let ghost b_before = b@;
            let y = b.pop().unwrap();
            proof {
                assert(y@ == event_views(b_before)[nb - 1]);
                lemma_events_take(b_before, nb - 1);
                assert(bb.take(nb).take(nb - 1) =~= bb.take(nb - 1));
            }
            r.push(y);
            proof {
                let yv = y@;
                lemma_events_push(r@.drop_last(), y);
                assert(r@.drop_last().push(y) =~= r@);
                lemma_rev_push(r0, yv);
                assert(event_views(r@) == r0.push(yv));
                assert(rev(event_views(r@)) == seq![yv] + rev(r0));
                assert(bb.skip(nb - 1) =~= seq![yv] + bb.skip(nb));
                assert forall|k: i64| #[trigger] with_ts(rev(event_views(r@)), k) == with_ts(aa.skip(a@.len() as int), k) + with_ts(bb.skip(b@.len() as int), k) by {
                    lemma_with_ts_single(yv, k);
                    lemma_with_ts_add(seq![yv], rev(r0), k);
                    lemma_with_ts_add(seq![yv], bb.skip(nb), k);
                    assert(with_ts(rev(r0), k) == with_ts(aa.skip(na), k) + with_ts(bb.skip(nb), k));
                    if yv.ts == k {
                        assert forall|i: int| 0 <= i < aa.skip(na).len() implies aa.skip(na)[i].ts != k by {
                            assert(aa.skip(na)[i] == aa[na + i]);
                            assert(aa[na + i].ts > bb[nb - 1].ts);
                        }
                        lemma_with_ts_none(aa.skip(na), k);
                    }
                    assert(with_ts(seq![yv], k) + (with_ts(aa.skip(na), k) + with_ts(bb.skip(nb), k))
                        =~= with_ts(aa.skip(na), k) + (with_ts(seq![yv], k) + with_ts(bb.skip(nb), k)));
                }
            }
        }
    }
    assert(aa.skip(0) =~= aa);
    assert(bb.skip(0) =~= bb);
    let ghost rr = event_views(r@);
    let ghost merged = rev(rr);
    let mut out: Vec<ReplayEvent> = Vec::new();
    proof {
        lemma_rev_len(event_views(r@));
        assert(event_views(out@) + rev(event_views(r@)) =~= merged);
    }
    while r.len() > 0
        invariant
            event_views(out@) + rev(event_views(r@)) == merged,
        decreases r@.len(),
    {
        let ghost r0 = r@;
        let z = r.pop().unwrap();
        proof {
            assert(r0 =~= r@.push(z));
            lemma_events_push(r@, z);
            lemma_rev_push(event_views(r@), z@);
            lemma_events_push(out@, z);
        }
        out.push(z);
        proof {
            assert(event_views(out@) + rev(event_views(r@)) =~= merged);
        }
    }
    proof {
        assert(event_views(out@) =~= merged);
        lemma_rev_len(rr);
        assert forall|i: int, j: int| 0 <= i <= j < merged.len() implies merged[i].ts <= merged[j].ts by {
            lemma_rev_index(rr, i);
            lemma_rev_index(rr, j);
        }
    }
    out
}


/// Sorts events by exchange instant, keeping events of equal instant in
/// their order (`sort_by_key` on the instant).
pub fn sort_events(v: Vec<ReplayEvent>) -> (out: Vec<ReplayEvent>)
    ensures
        stable_sorted(event_views(out@), event_views(v@)),
    decreases v@.len(),
{
    let ghost vv = event_views(v@);
    if v.len() <= 1 {
        return v;
    }
    let mut left = v;
    let mid = left.len() / 2;
    let right = left.split_off(mid);
    let ghost lv = event_views(left@);
    let ghost rv = event_views(right@);
    proof {
        assert(lv + rv =~= vv);
    }
    let sl = sort_events(left);
    let sr = sort_events(right);
    let out = merge(sl, sr);
    proof {
        assert forall|k: i64| #[trigger] with_ts(event_views(out@), k) == with_ts(vv, k) by {
            lemma_with_ts_add(lv, rv, k);
        }
    }
    out
}

} // verus!
