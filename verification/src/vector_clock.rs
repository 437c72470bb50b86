//! Per-node causal history: a map from actor identity to a clock entry,
//! supporting increment, point set-to, pointwise-maximum merge, and the
//! dominance comparison that merge policies rest on.

use vstd::prelude::*;

verus! {

/// Identity of the acting branch (change set): the key of every clock entry.
#[derive(Clone, Copy, PartialEq, Eq, Structural, Debug)]
pub struct VectorClockId {
    pub value: u128,
}

/// One actor's entry in a clock: a monotonic counter for write clocks, a
/// wall-clock timestamp in milliseconds for observation clocks.
#[derive(Clone, Copy, PartialEq, Eq, Structural, Debug)]
pub enum ClockEntry {
    Counter(u64),
    Timestamp(i64),
}

/// How a clock operation can fail.
#[derive(Clone, Copy, PartialEq, Eq, Structural, Debug)]
pub enum VectorClockError {
    /// Two entries of different shapes met where one shape was expected:
    /// causal history was corrupted upstream, so this is never ignored.
    EntryTypeMismatch,
    /// A counter entry is at its maximum and can no longer be incremented.
    CounterOverflow,
}

/// The map denoted by an entry list; on duplicate keys the later entry wins,
/// though a well-formed clock never holds duplicates.
spec fn entries_map(s: Seq<(VectorClockId, ClockEntry)>) -> Map<VectorClockId, ClockEntry>
    decreases s.len(),
{
    if s.len() == 0 {
        Map::empty()
    } else {
        entries_map(s.drop_last()).insert(s.last().0, s.last().1)
    }
}

/// A key is in the map exactly when some entry carries it.
proof fn lemma_entries_map_contains(s: Seq<(VectorClockId, ClockEntry)>, k: VectorClockId)
    ensures
        entries_map(s).contains_key(k) <==> exists|i: int| 0 <= i < s.len() && (#[trigger] s[i]).0 == k,
    decreases s.len(),
{
    if s.len() > 0 {
        lemma_entries_map_contains(s.drop_last(), k);
        if entries_map(s).contains_key(k) {
            if s.last().0 == k {
                assert(s[s.len() - 1].0 == k);
            } else {
                let i = choose|i: int| 0 <= i < s.drop_last().len() && (#[trigger] s.drop_last()[i]).0 == k;
                assert(s[i].0 == k);
            }
        }
        if exists|i: int| 0 <= i < s.len() && (#[trigger] s[i]).0 == k {
            let i = choose|i: int| 0 <= i < s.len() && (#[trigger] s[i]).0 == k;
            if i < s.len() - 1 {
                assert(s.drop_last()[i].0 == k);
            }
        }
    }
}

/// Entry lists without duplicate keys.
spec fn unique_keys(s: Seq<(VectorClockId, ClockEntry)>) -> bool {
    forall|i: int, j: int|
        0 <= i < j < s.len() ==> (#[trigger] s[i]).0 != (#[trigger] s[j]).0
}

/// In a duplicate-free entry list, each entry gives its key's value.
proof fn lemma_entries_map_index(s: Seq<(VectorClockId, ClockEntry)>, i: int)
    requires
        unique_keys(s),
        0 <= i < s.len(),
    ensures
        entries_map(s).contains_key(s[i].0),
        entries_map(s)[s[i].0] == s[i].1,
    decreases s.len(),
{
    lemma_entries_map_contains(s, s[i].0);
    if i < s.len() - 1 {
        assert(s.drop_last()[i] == s[i]);
        assert(unique_keys(s.drop_last())) by {
            assert(forall|x: int, y: int|
                0 <= x < y < s.drop_last().len() ==> (#[trigger] s.drop_last()[x]).0 != (#[trigger] s.drop_last()[y]).0) by {
                assert(forall|x: int| 0 <= x < s.drop_last().len() ==> #[trigger] s.drop_last()[x] == s[x]);
            }
        }
        lemma_entries_map_index(s.drop_last(), i);
        assert(s[i].0 != s.last().0);
    }
}

/// Appending a fresh entry inserts it into the map.
proof fn lemma_entries_map_push(s: Seq<(VectorClockId, ClockEntry)>, k: VectorClockId, v: ClockEntry)
    ensures
        entries_map(s.push((k, v))) == entries_map(s).insert(k, v),
{
    assert(s.push((k, v)).drop_last() =~= s);
    assert(s.push((k, v)).last() == (k, v));
}

/// Overwriting the entry that holds a key updates it in the map.
proof fn lemma_entries_map_update(s: Seq<(VectorClockId, ClockEntry)>, i: int, v: ClockEntry)
    requires
        unique_keys(s),
        0 <= i < s.len(),
    ensures
        entries_map(s.update(i, (s[i].0, v))) =~= entries_map(s).insert(s[i].0, v),
    decreases s.len(),
{
    let k = s[i].0;
    let t = s.update(i, (k, v));
    if i == s.len() - 1 {
        assert(t.drop_last() =~= s.drop_last());
        assert(t.last() == (k, v));
    } else {
        assert(unique_keys(s.drop_last())) by {
            assert(forall|x: int| 0 <= x < s.drop_last().len() ==> #[trigger] s.drop_last()[x] == s[x]);
        }
        assert(t.drop_last() =~= s.drop_last().update(i, (k, v)));
        assert(s.drop_last()[i] == s[i]);
        lemma_entries_map_update(s.drop_last(), i, v);
        assert(t.last() == s.last());
        // The updated key differs from the last entry's key, so the two
        // inserts commute.
        assert(k != s.last().0);
        assert(entries_map(s.drop_last()).insert(k, v).insert(s.last().0, s.last().1)
            =~= entries_map(s.drop_last()).insert(s.last().0, s.last().1).insert(k, v));
    }
}

/// Entries of the same shape can merge and compare.
pub open spec fn entry_compatible(a: ClockEntry, b: ClockEntry) -> bool {
    (a is Counter && b is Counter) || (a is Timestamp && b is Timestamp)
}

/// The larger of two entries of the same shape.
pub open spec fn entry_max(a: ClockEntry, b: ClockEntry) -> ClockEntry {
    match (a, b) {
        (ClockEntry::Counter(x), ClockEntry::Counter(y)) => ClockEntry::Counter(
            if x >= y {
                x
            } else {
                y
            },
        ),
        (ClockEntry::Timestamp(x), ClockEntry::Timestamp(y)) => ClockEntry::Timestamp(
            if x >= y {
                x
            } else {
                y
            },
        ),
        _ => a,
    }
}

/// An entry is at most another of the same shape; entries of different
/// shapes are never ordered.
pub open spec fn entry_le(a: ClockEntry, b: ClockEntry) -> bool {
    match (a, b) {
        (ClockEntry::Counter(x), ClockEntry::Counter(y)) => x <= y,
        (ClockEntry::Timestamp(x), ClockEntry::Timestamp(y)) => x <= y,
        _ => false,
    }
}

/// Two clocks merge cleanly when every actor present in both holds entries
/// of the same shape.
pub open spec fn compatible(a: Map<VectorClockId, ClockEntry>, b: Map<VectorClockId, ClockEntry>) -> bool {
    forall|k: VectorClockId|
        #[trigger] a.contains_key(k) && #[trigger] b.contains_key(k) ==> entry_compatible(a[k], b[k])
}

/// The pointwise maximum of two clocks: every actor present in either is
/// present in the result, at the larger of its entries.
pub open spec fn merged(a: Map<VectorClockId, ClockEntry>, b: Map<VectorClockId, ClockEntry>) -> Map<VectorClockId, ClockEntry> {
    Map::new(
        |k: VectorClockId| a.contains_key(k) || b.contains_key(k),
        |k: VectorClockId|
            if a.contains_key(k) && b.contains_key(k) {
                entry_max(a[k], b[k])
            } else if a.contains_key(k) {
                a[k]
            } else {
                b[k]
            },
    )
}

/// One clock is dominated by another when every entry of the first is
/// present in the second at an entry at least as large.
pub open spec fn clock_le(a: Map<VectorClockId, ClockEntry>, b: Map<VectorClockId, ClockEntry>) -> bool {
    forall|k: VectorClockId|
        #[trigger] a.contains_key(k) ==> b.contains_key(k) && entry_le(a[k], b[k])
}

/// Law: an increment raises the acting actor's counter by exactly one — an
/// absent entry counts as zero — and leaves every other actor's entry
/// unchanged.
pub proof fn lemma_increment_is_plus_one(m: Map<VectorClockId, ClockEntry>, id: VectorClockId)
    requires
        VectorClock::can_increment(m, id),
    ensures
        m.contains_key(id) ==> ClockEntry::Counter(VectorClock::next_counter(m, id))
            == ClockEntry::Counter((m[id]->Counter_0 + 1) as u64),
        !m.contains_key(id) ==> VectorClock::next_counter(m, id) == 1,
        forall|k: VectorClockId|
            k != id && m.contains_key(k) ==> #[trigger] m.insert(
                id,
                ClockEntry::Counter(VectorClock::next_counter(m, id)),
            )[k] == m[k],
{
}

/// Law: merging is commutative — for compatible clocks, merging in either
/// order gives the same clock.
pub proof fn lemma_merged_commutative(a: Map<VectorClockId, ClockEntry>, b: Map<VectorClockId, ClockEntry>)
    requires
        compatible(a, b),
    ensures
        merged(a, b) == merged(b, a),
{
    assert(merged(a, b) =~= merged(b, a));
}

/// Law: merging is idempotent — a clock merged with itself is unchanged.
pub proof fn lemma_merged_idempotent(a: Map<VectorClockId, ClockEntry>)
    ensures
        merged(a, a) == a,
{
    assert(merged(a, a) =~= a);
}

/// Law: the merged clock dominates both inputs.
pub proof fn lemma_merged_dominates(a: Map<VectorClockId, ClockEntry>, b: Map<VectorClockId, ClockEntry>)
    requires
        compatible(a, b),
    ensures
        clock_le(a, merged(a, b)),
        clock_le(b, merged(a, b)),
{
}

fn entry_compatible_exec(a: ClockEntry, b: ClockEntry) -> (r: bool)
    ensures
        r == entry_compatible(a, b),
{
    match (a, b) {
        (ClockEntry::Counter(_), ClockEntry::Counter(_)) => true,
        (ClockEntry::Timestamp(_), ClockEntry::Timestamp(_)) => true,
        _ => false,
    }
}

fn entry_max_exec(a: ClockEntry, b: ClockEntry) -> (r: ClockEntry)
    ensures
        r == entry_max(a, b),
{
    match (a, b) {
        (ClockEntry::Counter(x), ClockEntry::Counter(y)) => ClockEntry::Counter(
            if x >= y {
                x
            } else {
                y
            },
        ),
        (ClockEntry::Timestamp(x), ClockEntry::Timestamp(y)) => ClockEntry::Timestamp(
            if x >= y {
                x
            } else {
                y
            },
        ),
        (x, _) => x,
    }
}

fn entry_le_exec(a: ClockEntry, b: ClockEntry) -> (r: bool)
    ensures
        r == entry_le(a, b),
{
    match (a, b) {
        (ClockEntry::Counter(x), ClockEntry::Counter(y)) => x <= y,
        (ClockEntry::Timestamp(x), ClockEntry::Timestamp(y)) => x <= y,
        _ => false,
    }
}

/// A per-node, per-perspective logical clock: one entry for each actor that
/// has touched or observed the node.
#[derive(Debug)]
pub struct VectorClock {
    entries: Vec<(VectorClockId, ClockEntry)>,
}

impl View for VectorClock {
    type V = Map<VectorClockId, ClockEntry>;

    closed spec fn view(&self) -> Map<VectorClockId, ClockEntry> {
        entries_map(self.entries@)
    }
}

impl Clone for VectorClock {
    fn clone(&self) -> (r: Self)
        ensures
            r@ == self@,
            r.wf() == self.wf(),
    {
        let mut entries: Vec<(VectorClockId, ClockEntry)> = Vec::new();
        let n = self.entries.len();
        let mut i: usize = 0;
        while i < n
            invariant
                n == self.entries@.len(),
                i <= n,
                entries@ =~= self.entries@.take(i as int),
            decreases n - i,
        {
            entries.push(self.entries[i]);
            i = i + 1;
        }
        proof {
            assert(entries@ =~= self.entries@);
        }
        VectorClock { entries }
    }
}

impl VectorClock {
    /// No entry carries the same actor twice.
    pub closed spec fn wf(&self) -> bool {
        unique_keys(self.entries@)
    }

    /// A clock with a single counter entry at zero for the given actor.
    pub fn new(vector_clock_id: VectorClockId) -> (r: Self)
        ensures
            r.wf(),
            r@ == Map::<VectorClockId, ClockEntry>::empty().insert(vector_clock_id, ClockEntry::Counter(0)),
    {
        let mut entries: Vec<(VectorClockId, ClockEntry)> = Vec::new();
        entries.push((vector_clock_id, ClockEntry::Counter(0)));
        proof {
            lemma_entries_map_push(Seq::empty(), vector_clock_id, ClockEntry::Counter(0));
        }
        VectorClock { entries }
    }

    /// A clock with no entries: observation clocks start empty.
    pub fn empty() -> (r: Self)
        ensures
            r.wf(),
            r@ == Map::<VectorClockId, ClockEntry>::empty(),
    {
        VectorClock { entries: Vec::new() }
    }

    /// Index of the entry carrying the given actor, if any.
    fn index_of(&self, id: VectorClockId) -> (r: Option<usize>)
        ensures
            r matches Some(i) ==> i < self.entries@.len() && self.entries@[i as int].0 == id,
            r is None ==> forall|i: int| 0 <= i < self.entries@.len() ==> (#[trigger] self.entries@[i]).0 != id,
    {
        let n = self.entries.len();
        let mut i: usize = 0;
        while i < n
            invariant
                n == self.entries@.len(),
                i <= n,
                forall|j: int| 0 <= j < i ==> (#[trigger] self.entries@[j]).0 != id,
            decreases n - i,
        {
            if self.entries[i].0 == id {
                return Some(i);
            }
            i = i + 1;
        }
        None
    }

    /// Whether incrementing the actor's entry can succeed: the entry is
    /// absent, or a counter below its maximum.
    pub open spec fn can_increment(m: Map<VectorClockId, ClockEntry>, id: VectorClockId) -> bool {
        !m.contains_key(id) || (m[id] matches ClockEntry::Counter(c) && c < u64::MAX)
    }

    /// The counter value the actor's entry holds after an increment: one more
    /// than before, where an absent entry counts as zero.
    pub open spec fn next_counter(m: Map<VectorClockId, ClockEntry>, id: VectorClockId) -> u64 {
        if !m.contains_key(id) {
            1u64
        } else if m[id] matches ClockEntry::Counter(c) && c < u64::MAX {
            (m[id]->Counter_0 + 1) as u64
        } else {
            0u64
        }
    }

    /// Creates or increments the actor's counter entry by exactly one; every
    /// other actor's entry is untouched. Fails, leaving the clock unchanged,
    /// on a timestamp entry or a counter at its maximum.
    pub fn inc(&mut self, id: VectorClockId) -> (r: Result<(), VectorClockError>)
        requires
            old(self).wf(),
        ensures
            final(self).wf(),
            r is Ok <==> Self::can_increment(old(self)@, id),
            r is Ok ==> final(self)@ == old(self)@.insert(id, ClockEntry::Counter(Self::next_counter(old(self)@, id))),
            r is Err ==> final(self)@ == old(self)@,
            r == Err::<(), VectorClockError>(VectorClockError::EntryTypeMismatch)
                <==> old(self)@.contains_key(id) && old(self)@[id] is Timestamp,
            r == Err::<(), VectorClockError>(VectorClockError::CounterOverflow)
                <==> old(self)@.contains_key(id) && old(self)@[id] == ClockEntry::Counter(u64::MAX),
    {
        proof {
            lemma_entries_map_contains(self.entries@, id);
        }
        match self.index_of(id) {
            Some(i) => {
                proof {
                    lemma_entries_map_index(self.entries@, i as int);
                }
                match self.entries[i].1 {
                    ClockEntry::Counter(c) => {
                        if c < u64::MAX {
                            proof {
                                lemma_entries_map_update(self.entries@, i as int, ClockEntry::Counter((c + 1) as u64));
                            }
                            self.entries.set(i, (id, ClockEntry::Counter(c + 1)));
                            Ok(())
                        } else {
                            Err(VectorClockError::CounterOverflow)
                        }
                    }
                    ClockEntry::Timestamp(_) => Err(VectorClockError::EntryTypeMismatch),
                }
            }
            None => {
                proof {
                    lemma_entries_map_push(self.entries@, id, ClockEntry::Counter(1));
                }
                self.entries.push((id, ClockEntry::Counter(1)));
                Ok(())
            }
        }
    }

    /// Sets the actor's entry to the given timestamp unconditionally; every
    /// other actor's entry is untouched.
    pub fn inc_to(&mut self, id: VectorClockId, timestamp: i64)
        requires
            old(self).wf(),
        ensures
            final(self).wf(),
            final(self)@ == old(self)@.insert(id, ClockEntry::Timestamp(timestamp)),
    {
        match self.index_of(id) {
            Some(i) => {
                proof {
                    lemma_entries_map_update(self.entries@, i as int, ClockEntry::Timestamp(timestamp));
                }
                self.entries.set(i, (id, ClockEntry::Timestamp(timestamp)));
            }
            None => {
                proof {
                    lemma_entries_map_push(self.entries@, id, ClockEntry::Timestamp(timestamp));
                }
                self.entries.push((id, ClockEntry::Timestamp(timestamp)));
            }
        }
    }

    /// Whether merging the other clock into this one would succeed: no actor
    /// holds entries of different shapes in the two.
    pub fn compatible_with(&self, other: &VectorClock) -> (r: bool)
        requires
            self.wf(),
            other.wf(),
        ensures
            r == compatible(self@, other@),
    {
        let n = other.entries.len();
        let mut i: usize = 0;
        while i < n
            invariant
                self.wf(),
                other.wf(),
                n == other.entries@.len(),
                i <= n,
                forall|j: int|
                    0 <= j < i ==> self@.contains_key((#[trigger] other.entries@[j]).0)
                        ==> entry_compatible(self@[other.entries@[j].0], other.entries@[j].1),
            decreases n - i,
        {
            let (k, v) = other.entries[i];
            proof {
                lemma_entries_map_index(other.entries@, i as int);
            }
            match self.entry_for(k) {
                Some(w) => {
                    if !entry_compatible_exec(w, v) {
                        return false;
                    }
                }
                None => {}
            }
            i = i + 1;
        }
        proof {
            assert forall|k: VectorClockId|
                self@.contains_key(k) && #[trigger] other@.contains_key(k) implies entry_compatible(
                self@[k],
                other@[k],
            ) by {
                lemma_entries_map_contains(other.entries@, k);
                let j = choose|j: int| 0 <= j < other.entries@.len() && (#[trigger] other.entries@[j]).0 == k;
                lemma_entries_map_index(other.entries@, j);
            }
        }
        true
    }

    /// Merges the other clock into this one, pointwise maximum per actor:
    /// every actor present in either clock is present afterwards. Fails,
    /// leaving this clock unchanged, when some shared actor holds entries of
    /// different shapes. The perspective argument records the acting branch;
    /// the merged value does not depend on it.
    pub fn merge(&mut self, change_set_vector_clock_id: VectorClockId, other: &VectorClock) -> (r: Result<(), VectorClockError>)
        requires
            old(self).wf(),
            other.wf(),
        ensures
            final(self).wf(),
            r is Ok <==> compatible(old(self)@, other@),
            r is Ok ==> final(self)@ == merged(old(self)@, other@),
            r is Err ==> final(self)@ == old(self)@ && r == Err::<(), VectorClockError>(
                VectorClockError::EntryTypeMismatch,
            ),
    {
        if !self.compatible_with(other) {
            return Err(VectorClockError::EntryTypeMismatch);
        }
        let n = other.entries.len();
        let mut i: usize = 0;
        while i < n
            invariant
                self.wf(),
                other.wf(),
                n == other.entries@.len(),
                i <= n,
                compatible(old(self)@, other@),
                self@ == merged(old(self)@, entries_map(other.entries@.take(i as int))),
            decreases n - i,
        {
            let (k, v) = other.entries[i];
            proof {
                lemma_entries_map_index(other.entries@, i as int);
                assert(other.entries@.take(i + 1).drop_last() =~= other.entries@.take(i as int));
                assert(other.entries@.take(i + 1).last() == (k, v));
                lemma_entries_map_contains(other.entries@.take(i as int), k);
                assert(forall|j: int|
                    0 <= j < i ==> (#[trigger] other.entries@.take(i as int)[j]) == other.entries@[j]);
                assert(!entries_map(other.entries@.take(i as int)).contains_key(k));
            }
            match self.index_of(k) {
                Some(idx) => {
                    proof {
                        lemma_entries_map_index(self.entries@, idx as int);
                    }
                    let w = self.entries[idx].1;
                    let m = entry_max_exec(w, v);
                    proof {
                        lemma_entries_map_update(self.entries@, idx as int, m);
                    }
                    self.entries.set(idx, (k, m));
                    proof {
                        assert(self@ =~= merged(
                            old(self)@,
                            entries_map(other.entries@.take(i + 1)),
                        ));
                    }
                }
                None => {
                    proof {
                        lemma_entries_map_contains(self.entries@, k);
                        lemma_entries_map_push(self.entries@, k, v);
                    }
                    self.entries.push((k, v));
                    proof {
                        assert(self@ =~= merged(
                            old(self)@,
                            entries_map(other.entries@.take(i + 1)),
                        ));
                    }
                }
            }
            i = i + 1;
        }
        proof {
            assert(other.entries@.take(n as int) =~= other.entries@);
        }
        Ok(())
    }

    /// Whether every entry of this clock is present in the other at an entry
    /// at least as large: the causal-order test of the counter-max policy.
    pub fn is_dominated_by(&self, other: &VectorClock) -> (r: bool)
        requires
            self.wf(),
            other.wf(),
        ensures
            r == clock_le(self@, other@),
    {
        let n = self.entries.len();
        let mut i: usize = 0;
        while i < n
            invariant
                self.wf(),
                other.wf(),
                n == self.entries@.len(),
                i <= n,
                forall|j: int|
                    0 <= j < i ==> other@.contains_key((#[trigger] self.entries@[j]).0)
                        && entry_le(self.entries@[j].1, other@[self.entries@[j].0]),
            decreases n - i,
        {
            let (k, v) = self.entries[i];
            proof {
                lemma_entries_map_index(self.entries@, i as int);
            }
            match other.entry_for(k) {
                Some(w) => {
                    if !entry_le_exec(v, w) {
                        return false;
                    }
                }
                None => {
                    return false;
                }
            }
            i = i + 1;
        }
        proof {
            assert forall|k: VectorClockId| #[trigger] self@.contains_key(k) implies other@.contains_key(k)
                && entry_le(self@[k], other@[k]) by {
                lemma_entries_map_contains(self.entries@, k);
                let j = choose|j: int| 0 <= j < self.entries@.len() && (#[trigger] self.entries@[j]).0 == k;
                lemma_entries_map_index(self.entries@, j);
            }
        }
        true
    }

    /// Pure lookup of an actor's entry; no side effect.
    pub fn entry_for(&self, id: VectorClockId) -> (r: Option<ClockEntry>)
        requires
            self.wf(),
        ensures
            self@.contains_key(id) ==> r == Some(self@[id]),
            !self@.contains_key(id) ==> r is None,
    {
        proof {
            lemma_entries_map_contains(self.entries@, id);
        }
        match self.index_of(id) {
            Some(i) => {
                proof {
                    lemma_entries_map_index(self.entries@, i as int);
                }
                Some(self.entries[i].1)
            }
            None => None,
        }
    }
}

} // verus!
