//! Ordering of the merged record collection: a stable sort by local port.
//! The sort is pinned down exactly by a spec-level insertion sort that places
//! each element after every earlier element of equal port.

use vstd::prelude::*;

use crate::record::{SocketRecord, SocketRecordV};

verus! {

/// `x` inserted into `s` just after the last element whose port does not
/// exceed `x`'s; on a sorted `s` this keeps the order and keeps `x` behind
/// its equals.
pub open spec fn insert_by_port(s: Seq<SocketRecordV>, x: SocketRecordV) -> Seq<SocketRecordV>
    decreases s.len(),
{
    if s.len() == 0 {
        seq![x]
    } else if s.last().local_port <= x.local_port {
        s.push(x)
    } else {
        insert_by_port(s.drop_last(), x).push(s.last())
    }
}

/// Insertion sort by local port: the stable reordering of `s` that sorts it
/// ascending by port.
pub open spec fn sort_by_port_spec(s: Seq<SocketRecordV>) -> Seq<SocketRecordV>
    decreases s.len(),
{
    if s.len() == 0 {
        s
    } else {
        insert_by_port(sort_by_port_spec(s.drop_last()), s.last())
    }
}

/// Ascending by local port.
pub open spec fn sorted_by_port(s: Seq<SocketRecordV>) -> bool {
    forall|i: int, j: int| 0 <= i <= j < s.len() ==> s[i].local_port <= s[j].local_port
}

proof fn lemma_insert_keeps_sorted(s: Seq<SocketRecordV>, x: SocketRecordV)
    requires
        sorted_by_port(s),
    ensures
        sorted_by_port(insert_by_port(s, x)),
        insert_by_port(s, x).len() == s.len() + 1,
        forall|i: int|
            0 <= i < insert_by_port(s, x).len() ==> (s.contains(
                #[trigger] insert_by_port(s, x)[i],
            ) || insert_by_port(s, x)[i] == x),
    decreases s.len(),
{
    let out = insert_by_port(s, x);
    if s.len() == 0 {
    } else if s.last().local_port <= x.local_port {
        assert forall|i: int| 0 <= i < out.len() implies (s.contains(#[trigger] out[i]) || out[i]
            == x) by {
            if i < s.len() {
                assert(s.contains(s[i]));
            }
        }
    } else {
        let rest = s.drop_last();
        assert(sorted_by_port(rest));
        lemma_insert_keeps_sorted(rest, x);
        let inner = insert_by_port(rest, x);
        assert(out =~= inner.push(s.last()));
        assert forall|i: int, j: int| 0 <= i <= j < out.len() implies out[i].local_port
            <= out[j].local_port by {
            if j < inner.len() {
            } else {
                if i < inner.len() {
                    if inner[i] == x {
                    } else {
                        let k = choose|k: int| 0 <= k < rest.len() && rest[k] == inner[i];
                        assert(s[k].local_port <= s.last().local_port);
                    }
                }
            }
        }
        assert forall|i: int| 0 <= i < out.len() implies (s.contains(#[trigger] out[i]) || out[i]
            == x) by {
            if i < inner.len() {
                if inner[i] != x {
                    let k = choose|k: int| 0 <= k < rest.len() && rest[k] == inner[i];
                    assert(s[k] == out[i]);
                    assert(s.contains(s[k]));
                }
            } else {
                assert(out[i] == s.last());
                assert(s.contains(s.last()));
            }
        }
    }
}

/// The sorted sequence is ascending by local port.
pub proof fn lemma_sort_sorted(s: Seq<SocketRecordV>)
    ensures
        sorted_by_port(sort_by_port_spec(s)),
    decreases s.len(),
{
    if s.len() > 0 {
        lemma_sort_sorted(s.drop_last());
        lemma_insert_keeps_sorted(sort_by_port_spec(s.drop_last()), s.last());
    }
}

/// One record kept with the given local port, or nothing.
spec fn port_filter(p: u16) -> spec_fn(SocketRecordV) -> bool {
    |r: SocketRecordV| r.local_port == p
}

proof fn lemma_filter_push(s: Seq<SocketRecordV>, pred: spec_fn(SocketRecordV) -> bool, x: SocketRecordV)
    ensures
        s.push(x).filter(pred) == if pred(x) {
            s.filter(pred).push(x)
        } else {
            s.filter(pred)
        },
{
    reveal(Seq::filter);
    assert(s.push(x).drop_last() =~= s);
    assert(s.push(x).last() == x);
}

proof fn lemma_insert_filter(s: Seq<SocketRecordV>, x: SocketRecordV, p: u16)
    ensures
        insert_by_port(s, x).filter(port_filter(p)) == s.push(x).filter(port_filter(p)),
    decreases s.len(),
{
    let pred = port_filter(p);
    reveal(Seq::filter);
    if s.len() == 0 {
        assert(insert_by_port(s, x) =~= s.push(x));
    } else if s.last().local_port <= x.local_port {
    } else {
        let rest = s.drop_last();
        lemma_insert_filter(rest, x, p);
        let inner = insert_by_port(rest, x);
        lemma_filter_push(inner, pred, s.last());
        lemma_filter_push(rest, pred, x);
        lemma_filter_push(s, pred, x);
        lemma_filter_push(rest, pred, s.last());
        assert(s =~= rest.push(s.last()));
        // The ports of x and s.last() differ, so at most one of the two is
        // kept by the filter and appending them commutes.
        if pred(x) {
            assert(!pred(s.last()));
            assert(insert_by_port(s, x).filter(pred) =~= s.push(x).filter(pred));
        } else {
            assert(insert_by_port(s, x).filter(pred) =~= s.push(x).filter(pred));
        }
    }
}

/// Stability: for every port, the records carrying that port come out of the
/// sort exactly as they went in, in the same order. Together with
/// `lemma_sort_sorted` this pins the sort down: ascending by port, ties kept
/// in discovery order.
pub proof fn lemma_sort_stable(s: Seq<SocketRecordV>, p: u16)
    ensures
        sort_by_port_spec(s).filter(|r: SocketRecordV| r.local_port == p) == s.filter(
            |r: SocketRecordV| r.local_port == p,
        ),
    decreases s.len(),
{
    let pred = port_filter(p);
    assert(pred == (|r: SocketRecordV| r.local_port == p));
    if s.len() == 0 {
        reveal(Seq::filter);
    } else {
        let rest = s.drop_last();
        lemma_sort_stable(rest, p);
        lemma_insert_filter(sort_by_port_spec(rest), s.last(), p);
        lemma_filter_push(sort_by_port_spec(rest), pred, s.last());
        lemma_filter_push(rest, pred, s.last());
        assert(s =~= rest.push(s.last()));
    }
}

impl SocketRecord {
    /// The record's local port, the sort key.
    pub fn port(&self) -> (p: u16)
        ensures
            p == self@.local_port,
    {
        self.local_port
    }
}

/// Insert `x` into the sorted `out` just behind the last element of equal or
/// smaller port.
fn insert_record(out: &mut Vec<SocketRecord>, x: SocketRecord)
    ensures
        final(out).deep_view() == insert_by_port(old(out).deep_view(), x@),
{
    let ghost s = out.deep_view();
    let mut i: usize = out.len();
    proof {
        assert(s.take(s.len() as int) =~= s);
        assert(s.skip(s.len() as int) =~= Seq::<SocketRecordV>::empty());
        assert(insert_by_port(s, x@) =~= insert_by_port(s.take(i as int), x@) + s.skip(i as int));
    }
    while i > 0 && out[i - 1].port() > x.port()
        invariant
            i <= out.len(),
            out.deep_view() == s,
            insert_by_port(s, x@) == insert_by_port(s.take(i as int), x@) + s.skip(i as int),
        decreases i,
    {
        proof {
            let t = s.take(i as int);
            assert(t.last() == s[i - 1]);
            assert(t.drop_last() =~= s.take(i - 1));
            assert(insert_by_port(s.take(i - 1), x@).push(s[i - 1]) + s.skip(i as int)
                =~= insert_by_port(s.take(i - 1), x@) + s.skip(i - 1));
        }
        i = i - 1;
    }
    proof {
        if i > 0 {
            let t = s.take(i as int);
            assert(t.last() == s[i - 1]);
            assert(insert_by_port(t, x@) == t.push(x@));
        }
        assert(insert_by_port(s.take(i as int), x@) =~= s.take(i as int).push(x@));
        assert(insert_by_port(s, x@) =~= s.take(i as int).push(x@) + s.skip(i as int));
    }
    out.insert(i, x);
    proof {
        assert(out.deep_view() =~= s.take(i as int).push(x@) + s.skip(i as int));
    }
}

/// Sort the collection ascending by local port, keeping records of equal
/// port in their existing relative order.
pub fn sort_by_local_port(v: Vec<SocketRecord>) -> (r: Vec<SocketRecord>)
    ensures
        r.deep_view() == sort_by_port_spec(v.deep_view()),
{
    let ghost s = v.deep_view();
    let mut rest = v;
    let mut out: Vec<SocketRecord> = Vec::new();
    proof {
        assert(out.deep_view() =~= sort_by_port_spec(s.take(0)));
        assert(rest.deep_view() =~= s.skip(0));
    }
    let ghost mut k: int = 0;
    while rest.len() > 0
        invariant
            0 <= k <= s.len(),
            k + rest.len() == s.len(),
            rest.deep_view() == s.skip(k),
            out.deep_view() == sort_by_port_spec(s.take(k)),
        decreases rest.len(),
    {
        let ghost prev = rest@;
        let ghost prevd = rest.deep_view();
        let x = rest.remove(0);
        proof {
            assert(x@ == s.skip(k)[0]);
            assert(x@ == s[k]);
            assert(rest@ =~= prev.remove(0));
            assert forall|i: int| 0 <= i < rest@.len() implies rest.deep_view()[i] == prevd[i + 1] by {
                assert(rest@[i] == prev[i + 1]);
            }
            assert(rest.deep_view() =~= s.skip(k + 1));
            assert(s.take(k + 1).drop_last() =~= s.take(k));
            assert(s.take(k + 1).last() == s[k]);
        }
        insert_record(&mut out, x);
        proof {
            k = k + 1;
        }
    }
    proof {
        assert(s.take(k) =~= s);
    }
    out
}

} // verus!
