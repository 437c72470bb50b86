use versioned_graph::change_set::ChangeSet;
use versioned_graph::merge::{merge_orders, merge_ordering_node_weights};
use versioned_graph::ordering_node_weight::{NodeWeightError, OrderingNodeWeight};
use versioned_graph::vector_clock::{ClockEntry, VectorClockError, VectorClockId};

fn change_set() -> ChangeSet {
    ChangeSet::new().expect("a change set can always be minted in a test")
}

#[test]
fn merge_orders_is_a_position_stable_union() {
    let merged = merge_orders(&vec![1, 2, 3], &vec![2, 4, 1, 5]);
    assert_eq!(merged, vec![1, 2, 3, 4, 5]);

    let merged = merge_orders(&vec![], &vec![7, 8]);
    assert_eq!(merged, vec![7, 8]);

    let merged = merge_orders(&vec![7, 8], &vec![]);
    assert_eq!(merged, vec![7, 8]);
}

#[test]
fn concurrent_branches_keep_both_branches_insertions() {
    let (a, b, c) = (11u128, 22u128, 33u128);
    let mut cs1 = change_set();
    let cs2 = change_set();

    // One branch creates the container, then branches diverge from the
    // common, empty state.
    let base = OrderingNodeWeight::new(&mut cs1).expect("a fresh weight");

    let mut ours = base.clone();
    ours.push_to_order(&cs1, a).expect("push succeeds");
    ours.push_to_order(&cs1, b).expect("push succeeds");
    assert_eq!(
        ours.vector_clock_write().entry_for(cs1.vector_clock_id()),
        Some(ClockEntry::Counter(2))
    );

    let mut theirs = base.clone();
    theirs.push_to_order(&cs2, c).expect("push succeeds");
    assert_eq!(
        theirs.vector_clock_write().entry_for(cs2.vector_clock_id()),
        Some(ClockEntry::Counter(1))
    );

    // Neither write clock dominates the other.
    assert!(!ours.vector_clock_write().is_dominated_by(theirs.vector_clock_write()));
    assert!(!theirs.vector_clock_write().is_dominated_by(ours.vector_clock_write()));

    let merged = merge_ordering_node_weights(&cs1, &ours, &theirs).expect("merge succeeds");
    assert_eq!(merged.order(), &vec![a, b, c]);

    // The merged content hash is the hash of the merged sequence, not of
    // either branch's original order.
    let mut reference = base.clone();
    reference.set_order(&cs1, vec![a, b, c]).expect("set_order succeeds");
    assert_eq!(merged.content_hash(), reference.content_hash());
    assert_ne!(merged.content_hash(), ours.content_hash());
    assert_ne!(merged.content_hash(), theirs.content_hash());

    // The merged write clock dominates both inputs.
    assert!(ours.vector_clock_write().is_dominated_by(merged.vector_clock_write()));
    assert!(theirs.vector_clock_write().is_dominated_by(merged.vector_clock_write()));
}

#[test]
fn a_dominant_version_wins_outright() {
    let (a, b) = (1u128, 2u128);
    let mut cs1 = change_set();

    let base = OrderingNodeWeight::new(&mut cs1).expect("a fresh weight");
    let mut edited = base.clone();
    edited.push_to_order(&cs1, a).expect("push succeeds");
    edited.push_to_order(&cs1, b).expect("push succeeds");

    // The unedited copy's clock is dominated, so the edited order wins; the
    // union is not taken.
    let merged = merge_ordering_node_weights(&cs1, &base, &edited).expect("merge succeeds");
    assert_eq!(merged.order(), &vec![a, b]);

    let merged_other_way =
        merge_ordering_node_weights(&cs1, &edited, &base).expect("merge succeeds");
    assert_eq!(merged_other_way.order(), &vec![a, b]);
}

#[test]
fn mismatched_first_seen_shapes_fail_the_clock_merge() {
    let mut cs1 = change_set();
    let cs2 = change_set();

    let base = OrderingNodeWeight::new(&mut cs1).expect("a fresh weight");
    let mut ours = base.clone();
    // A counter-shaped first-seen entry for the second branch's actor.
    ours.increment_seen_vector_clock(&cs2).expect("first observation");
    let mut theirs = base.clone();
    // A timestamp-shaped first-seen entry for the same actor.
    theirs.mark_seen_at(cs2.vector_clock_id(), 100);

    match ours.merge_clocks(&cs1, &theirs) {
        Err(NodeWeightError::VectorClock(e)) => {
            assert_eq!(e, VectorClockError::EntryTypeMismatch)
        }
        other => panic!("expected a clock-shape mismatch, got {:?}", other),
    }
    // The first-seen clock is untouched by the failed merge.
    assert_eq!(
        ours.vector_clock_first_seen().entry_for(cs2.vector_clock_id()),
        Some(ClockEntry::Counter(1))
    );
}

#[test]
fn observation_metadata_does_not_propagate_on_merge() {
    let x = VectorClockId { value: 1000 };
    let y = VectorClockId { value: 2000 };
    let mut cs = change_set();

    let base = OrderingNodeWeight::new(&mut cs).expect("a fresh weight");
    let mut ours = base.clone();
    ours.mark_seen_at(x, 100);
    ours.mark_seen_at(x, 150);
    assert_eq!(
        ours.vector_clock_first_seen().entry_for(x),
        Some(ClockEntry::Timestamp(100))
    );
    assert_eq!(
        ours.vector_clock_recently_seen().entry_for(x),
        Some(ClockEntry::Timestamp(150))
    );

    let mut theirs = base.clone();
    theirs.mark_seen_at(y, 120);

    ours.merge_clocks(&cs, &theirs).expect("clocks merge");
    assert_eq!(
        ours.vector_clock_first_seen().entry_for(x),
        Some(ClockEntry::Timestamp(100))
    );
    assert_eq!(
        ours.vector_clock_first_seen().entry_for(y),
        Some(ClockEntry::Timestamp(120))
    );
    // The other branch's recently-seen entry is deliberately excluded.
    assert_eq!(ours.vector_clock_recently_seen().entry_for(y), None);
    assert_eq!(
        ours.vector_clock_recently_seen().entry_for(x),
        Some(ClockEntry::Timestamp(150))
    );
}
