//! The ordering node weight: the versioned payload of a container node,
//! carrying identity, lineage, the three logical clocks, the two digests,
//! and the canonical sequence of the container's child identifiers.

use vstd::prelude::*;

use crate::change_set::{ChangeSet, ChangeSetError};
use crate::content_hash::{digest_of, nil_hash, ContentHash};
use crate::identifier::{identifier_text, identifier_text_bytes};
use crate::vector_clock::{
    compatible, merged, ClockEntry, VectorClock, VectorClockError, VectorClockId,
};

verus! {

/// How a node-weight operation can fail.
#[derive(Clone, Copy, PartialEq, Eq, Structural, Debug)]
pub enum NodeWeightError {
    /// A clock operation failed; propagated unchanged.
    VectorClock(VectorClockError),
    /// Identifier generation failed; propagated unchanged.
    ChangeSet(ChangeSetError),
    /// The requested child is not in the order.
    MissingKeyForChildEntry(u128),
    /// A position cannot be represented in the index type.
    TryFromIntError,
}

/// The space-joined text form of an order: the bytes its content hash is
/// computed over. Order-sensitive by design — order is semantic content
/// here, not incidental.
pub open spec fn order_text(order: Seq<u128>) -> Seq<u8>
    decreases order.len(),
{
    if order.len() == 0 {
        Seq::empty()
    } else if order.len() == 1 {
        identifier_text(order[0])
    } else {
        order_text(order.drop_last()) + seq![32u8] + identifier_text(order.last())
    }
}

/// The content hash an order determines.
pub open spec fn order_hash(order: Seq<u128>) -> Seq<u8> {
    digest_of(order_text(order))
}

fn order_text_bytes(order: &Vec<u128>) -> (r: Vec<u8>)
    ensures
        r@ == order_text(order@),
{
    let mut r: Vec<u8> = Vec::new();
    let n = order.len();
    let mut i: usize = 0;
    while i < n
        invariant
            n == order@.len(),
            i <= n,
            r@ == order_text(order@.take(i as int)),
        decreases n - i,
    {
        if i > 0 {
            r.push(32u8);
        }
        let mut digits = identifier_text_bytes(order[i]);
        r.append(&mut digits);
        proof {
            assert(order@.take(i + 1).drop_last() =~= order@.take(i as int));
            assert(order@.take(i + 1).last() == order@[i as int]);
            assert(r@ =~= order_text(order@.take(i + 1)));
        }
        i = i + 1;
    }
    proof {
        assert(order@.take(n as int) =~= order@);
    }
    r
}

/// The first-seen clock after an observation: set exactly once per actor,
/// never overwritten once present.
pub open spec fn first_seen_after(
    fs: Map<VectorClockId, ClockEntry>,
    id: VectorClockId,
    seen_at: i64,
) -> Map<VectorClockId, ClockEntry> {
    if fs.contains_key(id) {
        fs
    } else {
        fs.insert(id, ClockEntry::Timestamp(seen_at))
    }
}

/// Law: the first-seen clock is set at most once per actor — a second
/// observation leaves it unchanged, whatever its timestamp, and a first
/// observation records exactly that timestamp.
pub proof fn lemma_first_seen_set_once(
    fs: Map<VectorClockId, ClockEntry>,
    id: VectorClockId,
    t1: i64,
    t2: i64,
)
    ensures
        first_seen_after(first_seen_after(fs, id, t1), id, t2) == first_seen_after(fs, id, t1),
        !fs.contains_key(id) ==> first_seen_after(fs, id, t1)[id] == ClockEntry::Timestamp(t1),
{
}

/// An order with every occurrence of one identifier removed; the remaining
/// identifiers keep their relative order.
pub open spec fn order_without(order: Seq<u128>, id: u128) -> Seq<u128>
    decreases order.len(),
{
    if order.len() == 0 {
        Seq::empty()
    } else if order.last() == id {
        order_without(order.drop_last(), id)
    } else {
        order_without(order.drop_last(), id).push(order.last())
    }
}

/// Removal shortens an order exactly when the identifier was a member, and
/// leaves it untouched otherwise.
pub proof fn lemma_order_without(order: Seq<u128>, id: u128)
    ensures
        order_without(order, id).len() <= order.len(),
        order.contains(id) ==> order_without(order, id).len() < order.len(),
        !order.contains(id) ==> order_without(order, id) == order,
    decreases order.len(),
{
    if order.len() > 0 {
        lemma_order_without(order.drop_last(), id);
        if order.contains(id) {
            let i = choose|i: int| 0 <= i < order.len() && order[i] == id;
            if i < order.len() - 1 {
                assert(order.drop_last()[i] == id);
                assert(order.drop_last().contains(id));
            }
        }
        if order.drop_last().contains(id) {
            let i = choose|i: int| 0 <= i < order.drop_last().len() && order.drop_last()[i] == id;
            assert(order[i] == id);
            assert(order.contains(id));
        }
        if order.last() == id {
            assert(order[order.len() - 1] == id);
            assert(order.contains(id));
        }
        if !order.contains(id) {
            assert(order_without(order, id) =~= order);
        }
    }
}

/// The versioned payload attached to a container node. Each branch holds its
/// own causally independent copy until merged; mutating operations must be
/// invoked under the same change-set context throughout one logical edit.
#[derive(Debug)]
pub struct OrderingNodeWeight {
    id: u128,
    lineage_id: u128,
    /// The identifiers of the items, in the order that they should appear in
    /// the container.
    order: Vec<u128>,
    content_hash: ContentHash,
    merkle_tree_hash: ContentHash,
    vector_clock_first_seen: VectorClock,
    vector_clock_recently_seen: VectorClock,
    vector_clock_write: VectorClock,
}

/// The identity and lineage of two node weights agree.
pub open spec fn same_identity(a: &OrderingNodeWeight, b: &OrderingNodeWeight) -> bool {
    a.spec_id() == b.spec_id() && a.spec_lineage_id() == b.spec_lineage_id()
}

/// The order and the content hash of two node weights agree.
pub open spec fn same_content(a: &OrderingNodeWeight, b: &OrderingNodeWeight) -> bool {
    a.spec_order() == b.spec_order() && a.spec_content_hash() == b.spec_content_hash()
}

impl OrderingNodeWeight {
    /// All three clocks are free of duplicate actor entries.
    pub closed spec fn wf(&self) -> bool {
        self.vector_clock_first_seen.wf() && self.vector_clock_recently_seen.wf()
            && self.vector_clock_write.wf()
    }

    /// The identifier of this version of the node weight.
    pub closed spec fn spec_id(&self) -> u128 {
        self.id
    }

    /// The identity of the logical node across all its versions.
    pub closed spec fn spec_lineage_id(&self) -> u128 {
        self.lineage_id
    }

    /// The canonical child sequence.
    pub closed spec fn spec_order(&self) -> Seq<u128> {
        self.order@
    }

    /// The digest of the node's own semantic content.
    pub closed spec fn spec_content_hash(&self) -> Seq<u8> {
        self.content_hash@
    }

    /// The digest folding in descendant structure, written by the owning
    /// graph.
    pub closed spec fn spec_merkle_tree_hash(&self) -> Seq<u8> {
        self.merkle_tree_hash@
    }

    /// The write clock: causal order between branches.
    pub closed spec fn spec_write(&self) -> Map<VectorClockId, ClockEntry> {
        self.vector_clock_write@
    }

    /// The first-seen clock: when each actor first observed this node.
    pub closed spec fn spec_first_seen(&self) -> Map<VectorClockId, ClockEntry> {
        self.vector_clock_first_seen@
    }

    /// The recently-seen clock: each actor's latest observation.
    pub closed spec fn spec_recently_seen(&self) -> Map<VectorClockId, ClockEntry> {
        self.vector_clock_recently_seen@
    }

    /// The cached digest of the most recently committed content.
    pub fn content_hash(&self) -> (r: ContentHash)
        ensures
            r@ == self.spec_content_hash(),
    {
        self.content_hash.clone()
    }

    /// The identifier of this version of the node weight.
    pub fn id(&self) -> (r: u128)
        ensures
            r == self.spec_id(),
    {
        self.id
    }

    /// The identity of the logical node across all its versions.
    pub fn lineage_id(&self) -> (r: u128)
        ensures
            r == self.spec_lineage_id(),
    {
        self.lineage_id
    }

    /// The hash the node contributes to the surrounding structure: for an
    /// ordering node weight, its content hash.
    pub fn node_hash(&self) -> (r: ContentHash)
        ensures
            r@ == self.spec_content_hash(),
    {
        self.content_hash()
    }

    /// The stored Merkle tree hash.
    pub fn merkle_tree_hash(&self) -> (r: ContentHash)
        ensures
            r@ == self.spec_merkle_tree_hash(),
    {
        self.merkle_tree_hash.clone()
    }

    /// The canonical child sequence.
    pub fn order(&self) -> (r: &Vec<u128>)
        ensures
            r@ == self.spec_order(),
    {
        &self.order
    }

    /// The first-seen clock.
    pub fn vector_clock_first_seen(&self) -> (r: &VectorClock)
        ensures
            r@ == self.spec_first_seen(),
            self.wf() ==> r.wf(),
    {
        &self.vector_clock_first_seen
    }

    /// The recently-seen clock.
    pub fn vector_clock_recently_seen(&self) -> (r: &VectorClock)
        ensures
            r@ == self.spec_recently_seen(),
            self.wf() ==> r.wf(),
    {
        &self.vector_clock_recently_seen
    }

    /// The write clock.
    pub fn vector_clock_write(&self) -> (r: &VectorClock)
        ensures
            r@ == self.spec_write(),
            self.wf() ==> r.wf(),
    {
        &self.vector_clock_write
    }

    /// Overwrites the Merkle tree hash: an external write performed by the
    /// owning graph after it has recomputed subtree hashes bottom-up.
    pub fn set_merkle_tree_hash(&mut self, new_hash: ContentHash)
        ensures
            same_identity(final(self), old(self)),
            same_content(final(self), old(self)),
            final(self).spec_merkle_tree_hash() == new_hash@,
            final(self).spec_write() == old(self).spec_write(),
            final(self).spec_first_seen() == old(self).spec_first_seen(),
            final(self).spec_recently_seen() == old(self).spec_recently_seen(),
            final(self).wf() == old(self).wf(),
    {
        self.merkle_tree_hash = new_hash;
    }

    /// Advances the write clock for the acting branch by exactly one; every
    /// other actor's entry, and everything else in the node weight, is
    /// untouched. Fails, leaving the clock unchanged, when the actor's entry
    /// cannot be incremented.
    pub fn increment_vector_clock(&mut self, change_set: &ChangeSet) -> (r: Result<
        (),
        NodeWeightError,
    >)
        requires
            old(self).wf(),
        ensures
            final(self).wf(),
            same_identity(final(self), old(self)),
            same_content(final(self), old(self)),
            final(self).spec_merkle_tree_hash() == old(self).spec_merkle_tree_hash(),
            final(self).spec_first_seen() == old(self).spec_first_seen(),
            final(self).spec_recently_seen() == old(self).spec_recently_seen(),
            r is Ok <==> VectorClock::can_increment(
                old(self).spec_write(),
                change_set.spec_vector_clock_id(),
            ),
            r is Ok ==> final(self).spec_write() == old(self).spec_write().insert(
                change_set.spec_vector_clock_id(),
                ClockEntry::Counter(
                    VectorClock::next_counter(
                        old(self).spec_write(),
                        change_set.spec_vector_clock_id(),
                    ),
                ),
            ),
            r is Err ==> final(self).spec_write() == old(self).spec_write() && r matches Err(
                NodeWeightError::VectorClock(_),
            ),
    {
        match self.vector_clock_write.inc(change_set.vector_clock_id()) {
            Ok(()) => Ok(()),
            Err(e) => Err(NodeWeightError::VectorClock(e)),
        }
    }

    /// Records that the acting branch has seen this node, first time only:
    /// once the actor holds a first-seen entry, the call has no effect.
    pub fn increment_seen_vector_clock(&mut self, change_set: &ChangeSet) -> (r: Result<
        (),
        NodeWeightError,
    >)
        requires
            old(self).wf(),
        ensures
            final(self).wf(),
            same_identity(final(self), old(self)),
            same_content(final(self), old(self)),
            final(self).spec_merkle_tree_hash() == old(self).spec_merkle_tree_hash(),
            final(self).spec_write() == old(self).spec_write(),
            final(self).spec_recently_seen() == old(self).spec_recently_seen(),
            r is Ok,
            old(self).spec_first_seen().contains_key(change_set.spec_vector_clock_id())
                ==> final(self).spec_first_seen() == old(self).spec_first_seen(),
            !old(self).spec_first_seen().contains_key(change_set.spec_vector_clock_id())
                ==> final(self).spec_first_seen() == old(self).spec_first_seen().insert(
                change_set.spec_vector_clock_id(),
                ClockEntry::Counter(1),
            ),
    {
        let id = change_set.vector_clock_id();
        match self.vector_clock_first_seen.entry_for(id) {
            Some(_) => Ok(()),
            None => {
                match self.vector_clock_first_seen.inc(id) {
                    Ok(()) => Ok(()),
                    Err(e) => Err(NodeWeightError::VectorClock(e)),
                }
            }
        }
    }

    /// The two-clock observe operation used during replication: records the
    /// latest observation for the actor, and additionally the first one if
    /// the actor had none.
    pub fn mark_seen_at(&mut self, vector_clock_id: VectorClockId, seen_at: i64)
        requires
            old(self).wf(),
        ensures
            final(self).wf(),
            same_identity(final(self), old(self)),
            same_content(final(self), old(self)),
            final(self).spec_merkle_tree_hash() == old(self).spec_merkle_tree_hash(),
            final(self).spec_write() == old(self).spec_write(),
            final(self).spec_recently_seen() == old(self).spec_recently_seen().insert(
                vector_clock_id,
                ClockEntry::Timestamp(seen_at),
            ),
            final(self).spec_first_seen() == first_seen_after(
                old(self).spec_first_seen(),
                vector_clock_id,
                seen_at,
            ),
    {
        self.vector_clock_recently_seen.inc_to(vector_clock_id, seen_at);
        match self.vector_clock_first_seen.entry_for(vector_clock_id) {
            Some(_) => {}
            None => {
                self.vector_clock_first_seen.inc_to(vector_clock_id, seen_at);
            }
        }
    }

    /// Overwrites the acting branch's entry in the recently-seen clock with
    /// the given observation timestamp.
    pub fn set_vector_clock_recently_seen_to(&mut self, change_set: &ChangeSet, new_val: i64)
        requires
            old(self).wf(),
        ensures
            final(self).wf(),
            same_identity(final(self), old(self)),
            same_content(final(self), old(self)),
            final(self).spec_merkle_tree_hash() == old(self).spec_merkle_tree_hash(),
            final(self).spec_write() == old(self).spec_write(),
            final(self).spec_first_seen() == old(self).spec_first_seen(),
            final(self).spec_recently_seen() == old(self).spec_recently_seen().insert(
                change_set.spec_vector_clock_id(),
                ClockEntry::Timestamp(new_val),
            ),
    {
        self.vector_clock_recently_seen.inc_to(change_set.vector_clock_id(), new_val);
    }

    /// Merges the write and first-seen clocks from the other node weight into
    /// this one, from the acting branch's perspective. The recently-seen
    /// clock is deliberately excluded: it is actor-local observation
    /// metadata, not causal history, and must not propagate from other
    /// branches. On failure the write clock is merged exactly when its merge
    /// succeeded first.
    pub fn merge_clocks(&mut self, change_set: &ChangeSet, other: &OrderingNodeWeight) -> (r:
        Result<(), NodeWeightError>)
        requires
            old(self).wf(),
            other.wf(),
        ensures
            final(self).wf(),
            same_identity(final(self), old(self)),
            same_content(final(self), old(self)),
            final(self).spec_merkle_tree_hash() == old(self).spec_merkle_tree_hash(),
            final(self).spec_recently_seen() == old(self).spec_recently_seen(),
            r is Ok <==> compatible(old(self).spec_write(), other.spec_write()) && compatible(
                old(self).spec_first_seen(),
                other.spec_first_seen(),
            ),
            r is Ok ==> final(self).spec_write() == merged(
                old(self).spec_write(),
                other.spec_write(),
            ) && final(self).spec_first_seen() == merged(
                old(self).spec_first_seen(),
                other.spec_first_seen(),
            ),
            r is Err ==> r == Err::<(), NodeWeightError>(
                NodeWeightError::VectorClock(VectorClockError::EntryTypeMismatch),
            ) && final(self).spec_first_seen() == old(self).spec_first_seen(),
            r is Err && !compatible(old(self).spec_write(), other.spec_write())
                ==> final(self).spec_write() == old(self).spec_write(),
            r is Err && compatible(old(self).spec_write(), other.spec_write())
                ==> final(self).spec_write() == merged(old(self).spec_write(), other.spec_write()),
    {
        match self.vector_clock_write.merge(
            change_set.vector_clock_id(),
            &other.vector_clock_write,
        ) {
            Ok(()) => {}
            Err(e) => {
                return Err(NodeWeightError::VectorClock(e));
            }
        }
        match self.vector_clock_first_seen.merge(
            change_set.vector_clock_id(),
            &other.vector_clock_first_seen,
        ) {
            Ok(()) => Ok(()),
            Err(e) => Err(NodeWeightError::VectorClock(e)),
        }
    }

    /// A fresh node weight for a container the change set introduces: a new
    /// identity and lineage from the change set's identifier generator, the
    /// write and first-seen clocks initialized for its actor, and everything
    /// else at its default — an empty order and all-zero hashes.
    pub fn new(change_set: &mut ChangeSet) -> (r: Result<OrderingNodeWeight, NodeWeightError>)
        ensures
            final(change_set).spec_id() == old(change_set).spec_id(),
            r matches Ok(w) ==> w.wf() && w.spec_order() == Seq::<u128>::empty()
                && w.spec_content_hash() == nil_hash() && w.spec_merkle_tree_hash() == nil_hash()
                && w.spec_write() == Map::<VectorClockId, ClockEntry>::empty().insert(
                old(change_set).spec_vector_clock_id(),
                ClockEntry::Counter(0),
            ) && w.spec_first_seen() == Map::<VectorClockId, ClockEntry>::empty().insert(
                old(change_set).spec_vector_clock_id(),
                ClockEntry::Counter(0),
            ) && w.spec_recently_seen() == Map::<VectorClockId, ClockEntry>::empty(),
            r matches Err(e) ==> e matches NodeWeightError::ChangeSet(_),
    {
        let id = match change_set.generate_ulid() {
            Ok(v) => v,
            Err(e) => {
                return Err(NodeWeightError::ChangeSet(e));
            }
        };
        let lineage_id = match change_set.generate_ulid() {
            Ok(v) => v,
            Err(e) => {
                return Err(NodeWeightError::ChangeSet(e));
            }
        };
        let vector_clock_id = change_set.vector_clock_id();
        Ok(
            OrderingNodeWeight {
                id,
                lineage_id,
                order: Vec::new(),
                content_hash: ContentHash::nil(),
                merkle_tree_hash: ContentHash::nil(),
                vector_clock_first_seen: VectorClock::new(vector_clock_id),
                vector_clock_recently_seen: VectorClock::empty(),
                vector_clock_write: VectorClock::new(vector_clock_id),
            },
        )
    }

    /// A new owned copy whose write clock has been advanced for the acting
    /// branch: copy-on-write derivation of a new version, leaving the
    /// original untouched.
    pub fn new_with_incremented_vector_clock(&self, change_set: &ChangeSet) -> (r: Result<
        OrderingNodeWeight,
        NodeWeightError,
    >)
        requires
            self.wf(),
        ensures
            r is Ok <==> VectorClock::can_increment(
                self.spec_write(),
                change_set.spec_vector_clock_id(),
            ),
            r matches Ok(w) ==> w.wf() && same_identity(&w, self) && same_content(&w, self)
                && w.spec_merkle_tree_hash() == self.spec_merkle_tree_hash()
                && w.spec_first_seen() == self.spec_first_seen() && w.spec_recently_seen()
                == self.spec_recently_seen() && w.spec_write() == self.spec_write().insert(
                change_set.spec_vector_clock_id(),
                ClockEntry::Counter(
                    VectorClock::next_counter(
                        self.spec_write(),
                        change_set.spec_vector_clock_id(),
                    ),
                ),
            ),
            r is Err ==> r matches Err(NodeWeightError::VectorClock(_)),
    {
        let mut new_ordering_weight = self.clone();
        match new_ordering_weight.increment_vector_clock(change_set) {
            Ok(()) => Ok(new_ordering_weight),
            Err(e) => Err(e),
        }
    }

    /// Recomputes the content hash from the current order: the digest of the
    /// space-joined text form of the child identifiers, in sequence order.
    fn update_content_hash(&mut self)
        ensures
            same_identity(final(self), old(self)),
            final(self).spec_order() == old(self).spec_order(),
            final(self).spec_content_hash() == order_hash(old(self).spec_order()),
            final(self).spec_merkle_tree_hash() == old(self).spec_merkle_tree_hash(),
            final(self).spec_write() == old(self).spec_write(),
            final(self).spec_first_seen() == old(self).spec_first_seen(),
            final(self).spec_recently_seen() == old(self).spec_recently_seen(),
            final(self).wf() == old(self).wf(),
    {
        let content_bytes = order_text_bytes(&self.order);
        self.content_hash = ContentHash::new(&content_bytes);
    }

    /// Replaces the child sequence: the single mutation primitive. Recomputes
    /// the content hash and advances the write clock for the acting branch.
    /// If advancing the clock fails, the new order and hash are already in
    /// place but the write clock is unchanged.
    pub fn set_order(&mut self, change_set: &ChangeSet, order: Vec<u128>) -> (r: Result<
        (),
        NodeWeightError,
    >)
        requires
            old(self).wf(),
        ensures
            final(self).wf(),
            same_identity(final(self), old(self)),
            final(self).spec_merkle_tree_hash() == old(self).spec_merkle_tree_hash(),
            final(self).spec_first_seen() == old(self).spec_first_seen(),
            final(self).spec_recently_seen() == old(self).spec_recently_seen(),
            final(self).spec_order() == order@,
            final(self).spec_content_hash() == order_hash(order@),
            r is Ok <==> VectorClock::can_increment(
                old(self).spec_write(),
                change_set.spec_vector_clock_id(),
            ),
            r is Ok ==> final(self).spec_write() == old(self).spec_write().insert(
                change_set.spec_vector_clock_id(),
                ClockEntry::Counter(
                    VectorClock::next_counter(
                        old(self).spec_write(),
                        change_set.spec_vector_clock_id(),
                    ),
                ),
            ),
            r is Err ==> final(self).spec_write() == old(self).spec_write() && r matches Err(
                NodeWeightError::VectorClock(_),
            ),
    {
        self.order = order;
        self.update_content_hash();
        self.increment_vector_clock(change_set)
    }

    /// Appends an identifier at the end of the order, through `set_order`.
    /// No uniqueness check is performed: callers must guarantee the
    /// identifier is not already present.
    pub fn push_to_order(&mut self, change_set: &ChangeSet, id: u128) -> (r: Result<
        (),
        NodeWeightError,
    >)
        requires
            old(self).wf(),
        ensures
            final(self).wf(),
            same_identity(final(self), old(self)),
            final(self).spec_merkle_tree_hash() == old(self).spec_merkle_tree_hash(),
            final(self).spec_first_seen() == old(self).spec_first_seen(),
            final(self).spec_recently_seen() == old(self).spec_recently_seen(),
            final(self).spec_order() == old(self).spec_order().push(id),
            final(self).spec_content_hash() == order_hash(old(self).spec_order().push(id)),
            r is Ok <==> VectorClock::can_increment(
                old(self).spec_write(),
                change_set.spec_vector_clock_id(),
            ),
            r is Ok ==> final(self).spec_write() == old(self).spec_write().insert(
                change_set.spec_vector_clock_id(),
                ClockEntry::Counter(
                    VectorClock::next_counter(
                        old(self).spec_write(),
                        change_set.spec_vector_clock_id(),
                    ),
                ),
            ),
            r is Err ==> final(self).spec_write() == old(self).spec_write() && r matches Err(
                NodeWeightError::VectorClock(_),
            ),
    {
        let mut order = copy_order(&self.order);
        order.push(id);
        self.set_order(change_set, order)
    }

    /// Removes all occurrences of an identifier from the order and reports
    /// whether anything was removed. A removal that removes nothing leaves
    /// the order, the content hash and the write clock untouched: no
    /// spurious clock tick or hash churn on a no-op.
    pub fn remove_from_order(&mut self, change_set: &ChangeSet, id: u128) -> (r: Result<
        bool,
        NodeWeightError,
    >)
        requires
            old(self).wf(),
        ensures
            final(self).wf(),
            same_identity(final(self), old(self)),
            final(self).spec_merkle_tree_hash() == old(self).spec_merkle_tree_hash(),
            final(self).spec_first_seen() == old(self).spec_first_seen(),
            final(self).spec_recently_seen() == old(self).spec_recently_seen(),
            !old(self).spec_order().contains(id) ==> r == Ok::<bool, NodeWeightError>(false)
                && same_content(final(self), old(self)) && final(self).spec_write() == old(
                self,
            ).spec_write(),
            old(self).spec_order().contains(id) ==> final(self).spec_order() == order_without(
                old(self).spec_order(),
                id,
            ) && final(self).spec_content_hash() == order_hash(
                order_without(old(self).spec_order(), id),
            ),
            r == Ok::<bool, NodeWeightError>(true) <==> old(self).spec_order().contains(id)
                && VectorClock::can_increment(
                old(self).spec_write(),
                change_set.spec_vector_clock_id(),
            ),
            r == Ok::<bool, NodeWeightError>(true) ==> final(self).spec_write() == old(
                self,
            ).spec_write().insert(
                change_set.spec_vector_clock_id(),
                ClockEntry::Counter(
                    VectorClock::next_counter(
                        old(self).spec_write(),
                        change_set.spec_vector_clock_id(),
                    ),
                ),
            ),
            r is Err ==> old(self).spec_order().contains(id) && final(self).spec_write() == old(
                self,
            ).spec_write() && r matches Err(NodeWeightError::VectorClock(_)),
    {
        let n = self.order.len();
        let mut order: Vec<u128> = Vec::new();
        let mut i: usize = 0;
        while i < n
            invariant
                n == self.order@.len(),
                i <= n,
                order@ == order_without(self.order@.take(i as int), id),
                order@.len() <= i,
            decreases n - i,
        {
            let item_id = self.order[i];
            proof {
                assert(self.order@.take(i + 1).drop_last() =~= self.order@.take(i as int));
                assert(self.order@.take(i + 1).last() == self.order@[i as int]);
            }
            if item_id != id {
                order.push(item_id);
            }
            i = i + 1;
        }
        proof {
            assert(self.order@.take(n as int) =~= self.order@);
            lemma_order_without(self.order@, id);
        }
        if order.len() != self.order.len() {
            match self.set_order(change_set, order) {
                Ok(()) => Ok(true),
                Err(e) => Err(e),
            }
        } else {
            Ok(false)
        }
    }

    /// The position of an identifier in the order, by linear scan of the
    /// first occurrence; fails when the identifier is absent, and when the
    /// position does not fit the signed index type callers use for sentinel
    /// values.
    pub fn get_index_for_id(&self, id: u128) -> (r: Result<i64, NodeWeightError>)
        ensures
            r matches Ok(i) ==> 0 <= i < self.spec_order().len() && self.spec_order()[i as int]
                == id && forall|j: int| 0 <= j < i ==> self.spec_order()[j] != id,
            r == Err::<i64, NodeWeightError>(NodeWeightError::MissingKeyForChildEntry(id))
                <==> !self.spec_order().contains(id),
            r matches Err(e) ==> e == NodeWeightError::MissingKeyForChildEntry(id) || e
                == NodeWeightError::TryFromIntError,
            r is Err && self.spec_order().contains(id) ==> self.spec_order().len() > i64::MAX,
    {
        let n = self.order.len();
        let mut i: usize = 0;
        while i < n
            invariant
                n == self.order@.len(),
                i <= n,
                forall|j: int| 0 <= j < i ==> self.order@[j] != id,
            decreases n - i,
        {
            if self.order[i] == id {
                if i as u64 <= i64::MAX as u64 {
                    return Ok(i as i64);
                } else {
                    return Err(NodeWeightError::TryFromIntError);
                }
            }
            i = i + 1;
        }
        proof {
            assert(!self.spec_order().contains(id));
        }
        Err(NodeWeightError::MissingKeyForChildEntry(id))
    }
}

pub(crate) fn copy_order(order: &Vec<u128>) -> (r: Vec<u128>)
    ensures
        r@ == order@,
{
    let mut r: Vec<u128> = Vec::new();
    let n = order.len();
    let mut i: usize = 0;
    while i < n
        invariant
            n == order@.len(),
            i <= n,
            r@ =~= order@.take(i as int),
        decreases n - i,
    {
        r.push(order[i]);
        i = i + 1;
    }
    proof {
        assert(r@ =~= order@);
    }
    r
}

impl Clone for OrderingNodeWeight {
    fn clone(&self) -> (r: Self)
        ensures
            same_identity(&r, self),
            same_content(&r, self),
            r.spec_merkle_tree_hash() == self.spec_merkle_tree_hash(),
            r.spec_write() == self.spec_write(),
            r.spec_first_seen() == self.spec_first_seen(),
            r.spec_recently_seen() == self.spec_recently_seen(),
            r.wf() == self.wf(),
    {
        OrderingNodeWeight {
            id: self.id,
            lineage_id: self.lineage_id,
            order: copy_order(&self.order),
            content_hash: self.content_hash.clone(),
            merkle_tree_hash: self.merkle_tree_hash.clone(),
            vector_clock_first_seen: self.vector_clock_first_seen.clone(),
            vector_clock_recently_seen: self.vector_clock_recently_seen.clone(),
            vector_clock_write: self.vector_clock_write.clone(),
        }
    }
}

} // verus!
