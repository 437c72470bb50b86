//! The merge policy for concurrent edits to the same lineage's ordering node
//! weight, applied by the owning graph: a causally dominant version's order
//! wins outright; genuinely concurrent orders take the position-stable union
//! of the two, so neither branch's insertions are silently dropped.

use vstd::prelude::*;

use crate::change_set::ChangeSet;
use crate::ordering_node_weight::{order_hash, NodeWeightError, OrderingNodeWeight};
use crate::vector_clock::{clock_le, compatible, merged, ClockEntry, VectorClock, VectorClockId};

verus! {

/// The identifiers of the second order that the first does not hold, in the
/// second's relative order.
pub open spec fn missing_from(a: Seq<u128>, b: Seq<u128>) -> Seq<u128>
    decreases b.len(),
{
    if b.len() == 0 {
        Seq::empty()
    } else if a.contains(b.last()) {
        missing_from(a, b.drop_last())
    } else {
        missing_from(a, b.drop_last()).push(b.last())
    }
}

/// The position-stable union of two orders: the first order in full, then
/// the second's identifiers that the first lacks, in the second's order.
pub open spec fn merged_order(a: Seq<u128>, b: Seq<u128>) -> Seq<u128> {
    a + missing_from(a, b)
}

proof fn lemma_missing_from_membership(a: Seq<u128>, b: Seq<u128>, x: u128)
    ensures
        missing_from(a, b).contains(x) <==> b.contains(x) && !a.contains(x),
    decreases b.len(),
{
    if b.len() > 0 {
        lemma_missing_from_membership(a, b.drop_last(), x);
        assert(b.contains(x) <==> b.drop_last().contains(x) || b.last() == x) by {
            if b.contains(x) {
                let i = choose|i: int| 0 <= i < b.len() && b[i] == x;
                if i < b.len() - 1 {
                    assert(b.drop_last()[i] == x);
                }
            }
            if b.drop_last().contains(x) {
                let i = choose|i: int| 0 <= i < b.drop_last().len() && b.drop_last()[i] == x;
                assert(b[i] == x);
            }
            assert(b[b.len() - 1] == b.last());
        }
        let m = missing_from(a, b.drop_last());
        if !a.contains(b.last()) {
            assert(m.push(b.last()).contains(x) <==> m.contains(x) || b.last() == x) by {
                if m.contains(x) {
                    let i = choose|i: int| 0 <= i < m.len() && m[i] == x;
                    assert(m.push(b.last())[i] == x);
                }
                assert(m.push(b.last())[m.len() as int] == b.last());
                if m.push(b.last()).contains(x) {
                    let i = choose|i: int| 0 <= i < m.push(b.last()).len() && m.push(b.last())[i] == x;
                    if i < m.len() {
                        assert(m[i] == x);
                    }
                }
            }
        }
    }
}

/// Law: the merged order holds exactly the identifiers of either input.
pub proof fn lemma_merged_order_membership(a: Seq<u128>, b: Seq<u128>, x: u128)
    ensures
        merged_order(a, b).contains(x) <==> a.contains(x) || b.contains(x),
{
    lemma_missing_from_membership(a, b, x);
    let m = merged_order(a, b);
    if a.contains(x) {
        let i = choose|i: int| 0 <= i < a.len() && a[i] == x;
        assert(m[i] == x);
    }
    if missing_from(a, b).contains(x) {
        let i = choose|i: int| 0 <= i < missing_from(a, b).len() && missing_from(a, b)[i] == x;
        assert(m[a.len() + i] == x);
    }
    if m.contains(x) {
        let i = choose|i: int| 0 <= i < m.len() && m[i] == x;
        if i < a.len() {
            assert(a[i] == x);
        } else {
            assert(missing_from(a, b)[i - a.len()] == x);
        }
    }
}

/// An order without duplicate identifiers.
pub open spec fn distinct_order(s: Seq<u128>) -> bool {
    forall|i: int, j: int| 0 <= i < j < s.len() ==> s[i] != s[j]
}

proof fn lemma_missing_from_distinct(a: Seq<u128>, b: Seq<u128>)
    requires
        distinct_order(b),
    ensures
        distinct_order(missing_from(a, b)),
    decreases b.len(),
{
    if b.len() > 0 {
        assert(distinct_order(b.drop_last())) by {
            assert(forall|i: int|
                0 <= i < b.drop_last().len() ==> b.drop_last()[i] == #[trigger] b[i]);
        }
        lemma_missing_from_distinct(a, b.drop_last());
        if !a.contains(b.last()) {
            let m = missing_from(a, b.drop_last());
            assert(!m.contains(b.last())) by {
                lemma_missing_from_membership(a, b.drop_last(), b.last());
                if b.drop_last().contains(b.last()) {
                    let i = choose|i: int|
                        0 <= i < b.drop_last().len() && b.drop_last()[i] == b.last();
                    assert(b[i] == b[b.len() - 1]);
                }
            }
            assert forall|i: int| 0 <= i < m.len() implies #[trigger] m[i] != b.last() by {
                if m[i] == b.last() {
                    assert(m.contains(b.last()));
                }
            }
            assert(distinct_order(m.push(b.last()))) by {
                assert(forall|i: int| 0 <= i < m.len() ==> m.push(b.last())[i] == #[trigger] m[i]);
            }
        }
    }
}

/// Law: merging two duplicate-free orders gives a duplicate-free order.
pub proof fn lemma_merged_order_distinct(a: Seq<u128>, b: Seq<u128>)
    requires
        distinct_order(a),
        distinct_order(b),
    ensures
        distinct_order(merged_order(a, b)),
{
    lemma_missing_from_distinct(a, b);
    let m = missing_from(a, b);
    assert forall|i: int, j: int| 0 <= i < j < merged_order(a, b).len() implies merged_order(
        a,
        b,
    )[i] != merged_order(a, b)[j] by {
        if i < a.len() && j >= a.len() {
            lemma_missing_from_membership(a, b, m[j - a.len()]);
            assert(a[i] == a.index(i));
            if a[i] == m[j - a.len()] {
                assert(a.contains(m[j - a.len()]));
            }
        }
    }
}

/// Law: the first order's relative positions are preserved: the merged
/// order begins with it unchanged.
pub proof fn lemma_merged_order_prefix(a: Seq<u128>, b: Seq<u128>)
    ensures
        merged_order(a, b).take(a.len() as int) == a,
{
    assert(merged_order(a, b).take(a.len() as int) =~= a);
}

/// The order the merge policy chooses: a causally dominant version's order
/// outright, else the position-stable union.
pub open spec fn chosen_order(
    ours_write: Map<VectorClockId, ClockEntry>,
    theirs_write: Map<VectorClockId, ClockEntry>,
    ours_order: Seq<u128>,
    theirs_order: Seq<u128>,
) -> Seq<u128> {
    if clock_le(theirs_write, ours_write) {
        ours_order
    } else if clock_le(ours_write, theirs_write) {
        theirs_order
    } else {
        merged_order(ours_order, theirs_order)
    }
}

/// The position-stable union of two concrete orders.
pub fn merge_orders(a: &Vec<u128>, b: &Vec<u128>) -> (r: Vec<u128>)
    ensures
        r@ == merged_order(a@, b@),
{
    let mut r: Vec<u128> = Vec::new();
    let n = a.len();
    let mut i: usize = 0;
    while i < n
        invariant
            n == a@.len(),
            i <= n,
            r@ =~= a@.take(i as int),
        decreases n - i,
    {
        r.push(a[i]);
        i = i + 1;
    }
    proof {
        assert(r@ =~= a@);
    }
    let m = b.len();
    let mut j: usize = 0;
    while j < m
        invariant
            m == b@.len(),
            j <= m,
            r@ == a@ + missing_from(a@, b@.take(j as int)),
        decreases m - j,
    {
        let x = b[j];
        proof {
            assert(b@.take(j + 1).drop_last() =~= b@.take(j as int));
            assert(b@.take(j + 1).last() == b@[j as int]);
        }
        if !contains_id(a, x) {
            r.push(x);
        }
        j = j + 1;
    }
    proof {
        assert(b@.take(m as int) =~= b@);
    }
    r
}

fn contains_id(v: &Vec<u128>, x: u128) -> (r: bool)
    ensures
        r == v@.contains(x),
{
    let n = v.len();
    let mut i: usize = 0;
    while i < n
        invariant
            n == v@.len(),
            i <= n,
            forall|j: int| 0 <= j < i ==> v@[j] != x,
        decreases n - i,
    {
        if v[i] == x {
            return true;
        }
        i = i + 1;
    }
    false
}

/// Combines two versions of the same lineage's ordering node weight, as the
/// owning graph does when two branches touched the same container. If one
/// version's write clock dominates under the counter-max test, its order
/// wins outright; if the clocks are concurrent, the position-stable union of
/// the two orders is taken. The result keeps the first version's identity;
/// its content hash is recomputed from the chosen order; its write clock is
/// the merge of both, advanced once for the acting branch; its first-seen
/// clock is the merge of both; its recently-seen clock stays the first
/// version's own, since observation metadata never propagates across
/// branches; its Merkle tree hash stays the first version's, for the owning
/// graph to recompute.
pub fn merge_ordering_node_weights(
    change_set: &ChangeSet,
    ours: &OrderingNodeWeight,
    theirs: &OrderingNodeWeight,
) -> (r: Result<OrderingNodeWeight, NodeWeightError>)
    requires
        ours.wf(),
        theirs.wf(),
        ours.spec_lineage_id() == theirs.spec_lineage_id(),
    ensures
        r is Ok <==> compatible(ours.spec_write(), theirs.spec_write()) && compatible(
            ours.spec_first_seen(),
            theirs.spec_first_seen(),
        ) && VectorClock::can_increment(
            merged(ours.spec_write(), theirs.spec_write()),
            change_set.spec_vector_clock_id(),
        ),
        r matches Ok(w) ==> w.wf() && w.spec_id() == ours.spec_id() && w.spec_lineage_id()
            == ours.spec_lineage_id() && w.spec_order() == chosen_order(
            ours.spec_write(),
            theirs.spec_write(),
            ours.spec_order(),
            theirs.spec_order(),
        ) && w.spec_content_hash() == order_hash(
            chosen_order(
                ours.spec_write(),
                theirs.spec_write(),
                ours.spec_order(),
                theirs.spec_order(),
            ),
        ) && w.spec_write() == merged(ours.spec_write(), theirs.spec_write()).insert(
            change_set.spec_vector_clock_id(),
            ClockEntry::Counter(
                VectorClock::next_counter(
                    merged(ours.spec_write(), theirs.spec_write()),
                    change_set.spec_vector_clock_id(),
                ),
            ),
        ) && w.spec_first_seen() == merged(ours.spec_first_seen(), theirs.spec_first_seen())
            && w.spec_recently_seen() == ours.spec_recently_seen() && w.spec_merkle_tree_hash()
            == ours.spec_merkle_tree_hash(),
        r is Err ==> r matches Err(NodeWeightError::VectorClock(_)),
{
    let order: Vec<u128> = if theirs.vector_clock_write().is_dominated_by(
        ours.vector_clock_write(),
    ) {
        crate::ordering_node_weight::copy_order(ours.order())
    } else if ours.vector_clock_write().is_dominated_by(theirs.vector_clock_write()) {
        crate::ordering_node_weight::copy_order(theirs.order())
    } else {
        merge_orders(ours.order(), theirs.order())
    };
    let mut w = ours.clone();
    match w.merge_clocks(change_set, theirs) {
        Ok(()) => {}
        Err(e) => {
            return Err(e);
        }
    }
    match w.set_order(change_set, order) {
        Ok(()) => Ok(w),
        Err(e) => Err(e),
    }
}

} // verus!
