use versioned_graph::change_set::ChangeSet;
use versioned_graph::ordering_node_weight::{NodeWeightError, OrderingNodeWeight};
use versioned_graph::vector_clock::{ClockEntry, VectorClockId};

fn change_set() -> ChangeSet {
    ChangeSet::new().expect("a change set can always be minted in a test")
}

fn write_counter(weight: &OrderingNodeWeight, cs: &ChangeSet) -> Option<ClockEntry> {
    weight.vector_clock_write().entry_for(cs.vector_clock_id())
}

#[test]
fn new_weight_starts_empty_with_initialized_clocks() {
    let mut cs = change_set();
    let weight = OrderingNodeWeight::new(&mut cs).expect("a fresh weight");
    assert!(weight.order().is_empty());
    assert_eq!(weight.content_hash().as_bytes(), &vec![0u8; 32]);
    assert_eq!(weight.merkle_tree_hash().as_bytes(), &vec![0u8; 32]);
    assert_eq!(write_counter(&weight, &cs), Some(ClockEntry::Counter(0)));
    assert_eq!(
        weight.vector_clock_first_seen().entry_for(cs.vector_clock_id()),
        Some(ClockEntry::Counter(0))
    );
    assert_eq!(
        weight.vector_clock_recently_seen().entry_for(cs.vector_clock_id()),
        None
    );
    assert_ne!(weight.id(), weight.lineage_id());
}

#[test]
fn set_order_recomputes_hash_and_ticks_the_write_clock() {
    let mut cs = change_set();
    let mut weight = OrderingNodeWeight::new(&mut cs).expect("a fresh weight");
    let nil = weight.content_hash();
    weight.set_order(&cs, vec![10, 20, 30]).expect("set_order succeeds");
    assert_eq!(weight.order(), &vec![10, 20, 30]);
    assert_ne!(weight.content_hash(), nil);
    assert_eq!(write_counter(&weight, &cs), Some(ClockEntry::Counter(1)));
}

#[test]
fn content_hash_is_order_sensitive_and_deterministic() {
    let mut cs = change_set();
    let mut weight = OrderingNodeWeight::new(&mut cs).expect("a fresh weight");
    let (a, b, c) = (1u128, 2u128, 3u128);

    weight.set_order(&cs, vec![a, b, c]).expect("set_order succeeds");
    let hash_abc = weight.content_hash();

    weight.set_order(&cs, vec![c, b, a]).expect("set_order succeeds");
    let hash_cba = weight.content_hash();
    assert_ne!(hash_abc, hash_cba);

    weight.set_order(&cs, vec![a, b, c]).expect("set_order succeeds");
    let hash_abc_again = weight.content_hash();
    assert_eq!(hash_abc, hash_abc_again);
}

#[test]
fn order_mutation_round_trip() {
    let mut cs = change_set();
    let mut weight = OrderingNodeWeight::new(&mut cs).expect("a fresh weight");
    let x = 77u128;

    weight.push_to_order(&cs, x).expect("push succeeds");
    assert_eq!(weight.get_index_for_id(x).expect("x is present"), 0);

    let removed = weight.remove_from_order(&cs, x).expect("removal succeeds");
    assert!(removed);
    match weight.get_index_for_id(x) {
        Err(NodeWeightError::MissingKeyForChildEntry(id)) => assert_eq!(id, x),
        other => panic!("expected a missing-child failure, got {:?}", other),
    }

    let clock_before = write_counter(&weight, &cs);
    let hash_before = weight.content_hash();
    let removed_again = weight.remove_from_order(&cs, 99).expect("no-op removal succeeds");
    assert!(!removed_again);
    assert_eq!(write_counter(&weight, &cs), clock_before);
    assert_eq!(weight.content_hash(), hash_before);
}

#[test]
fn removal_drops_every_occurrence_and_keeps_relative_order() {
    let mut cs = change_set();
    let mut weight = OrderingNodeWeight::new(&mut cs).expect("a fresh weight");
    weight.set_order(&cs, vec![5, 9, 5, 7, 5]).expect("set_order succeeds");
    let removed = weight.remove_from_order(&cs, 5).expect("removal succeeds");
    assert!(removed);
    assert_eq!(weight.order(), &vec![9, 7]);
}

#[test]
fn get_index_for_id_scans_in_order() {
    let mut cs = change_set();
    let mut weight = OrderingNodeWeight::new(&mut cs).expect("a fresh weight");
    weight.set_order(&cs, vec![4, 8, 15]).expect("set_order succeeds");
    assert_eq!(weight.get_index_for_id(4).expect("present"), 0);
    assert_eq!(weight.get_index_for_id(8).expect("present"), 1);
    assert_eq!(weight.get_index_for_id(15).expect("present"), 2);
}

#[test]
fn mark_seen_at_sets_first_seen_once_and_recently_seen_always() {
    let mut cs = change_set();
    let mut weight = OrderingNodeWeight::new(&mut cs).expect("a fresh weight");
    let x = VectorClockId { value: 424242 };

    weight.mark_seen_at(x, 100);
    assert_eq!(
        weight.vector_clock_first_seen().entry_for(x),
        Some(ClockEntry::Timestamp(100))
    );
    assert_eq!(
        weight.vector_clock_recently_seen().entry_for(x),
        Some(ClockEntry::Timestamp(100))
    );

    weight.mark_seen_at(x, 150);
    assert_eq!(
        weight.vector_clock_first_seen().entry_for(x),
        Some(ClockEntry::Timestamp(100))
    );
    assert_eq!(
        weight.vector_clock_recently_seen().entry_for(x),
        Some(ClockEntry::Timestamp(150))
    );
}

#[test]
fn increment_seen_vector_clock_is_guarded_to_the_first_time() {
    let mut cs1 = change_set();
    let cs2 = change_set();
    let mut weight = OrderingNodeWeight::new(&mut cs1).expect("a fresh weight");

    weight.increment_seen_vector_clock(&cs2).expect("first observation");
    assert_eq!(
        weight.vector_clock_first_seen().entry_for(cs2.vector_clock_id()),
        Some(ClockEntry::Counter(1))
    );
    weight.increment_seen_vector_clock(&cs2).expect("second observation is a no-op");
    assert_eq!(
        weight.vector_clock_first_seen().entry_for(cs2.vector_clock_id()),
        Some(ClockEntry::Counter(1))
    );
}

#[test]
fn set_vector_clock_recently_seen_to_overwrites() {
    let mut cs = change_set();
    let mut weight = OrderingNodeWeight::new(&mut cs).expect("a fresh weight");
    weight.set_vector_clock_recently_seen_to(&cs, 900);
    weight.set_vector_clock_recently_seen_to(&cs, 901);
    assert_eq!(
        weight.vector_clock_recently_seen().entry_for(cs.vector_clock_id()),
        Some(ClockEntry::Timestamp(901))
    );
    assert_eq!(
        weight.vector_clock_first_seen().entry_for(cs.vector_clock_id()),
        Some(ClockEntry::Counter(0))
    );
}

#[test]
fn new_with_incremented_vector_clock_leaves_the_original_untouched() {
    let mut cs = change_set();
    let weight = OrderingNodeWeight::new(&mut cs).expect("a fresh weight");
    let next = weight
        .new_with_incremented_vector_clock(&cs)
        .expect("derivation succeeds");
    assert_eq!(write_counter(&weight, &cs), Some(ClockEntry::Counter(0)));
    assert_eq!(write_counter(&next, &cs), Some(ClockEntry::Counter(1)));
    assert_eq!(next.id(), weight.id());
    assert_eq!(next.lineage_id(), weight.lineage_id());
    assert_eq!(next.content_hash(), weight.content_hash());
}

#[test]
fn set_merkle_tree_hash_is_an_external_write() {
    let mut cs = change_set();
    let mut weight = OrderingNodeWeight::new(&mut cs).expect("a fresh weight");
    weight.set_order(&cs, vec![1]).expect("set_order succeeds");
    let subtree = weight.content_hash();
    let clock = write_counter(&weight, &cs);
    weight.set_merkle_tree_hash(subtree.clone());
    assert_eq!(weight.merkle_tree_hash(), subtree);
    assert_eq!(write_counter(&weight, &cs), clock);
}
