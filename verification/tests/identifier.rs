use versioned_graph::change_set::ChangeSet;
use versioned_graph::identifier::identifier_text_bytes;
use versioned_graph::ordering_node_weight::OrderingNodeWeight;

#[test]
fn zero_encodes_as_all_zero_digits() {
    let text = identifier_text_bytes(0);
    assert_eq!(text, b"00000000000000000000000000".to_vec());
}

#[test]
fn encoding_matches_the_canonical_identifier_text_form() {
    let known = ulid::Ulid::from_string("01D39ZY06FGSCTVN4T2V9PKHFZ").expect("a valid identifier");
    let text = identifier_text_bytes(known.0);
    assert_eq!(text, known.to_string().into_bytes());

    let fresh = ulid::Ulid::new();
    assert_eq!(identifier_text_bytes(fresh.0), fresh.to_string().into_bytes());

    assert_eq!(
        identifier_text_bytes(u128::MAX),
        ulid::Ulid(u128::MAX).to_string().into_bytes()
    );
}

#[test]
fn content_hash_digests_the_space_joined_text_form() {
    let mut cs = ChangeSet::new().expect("a change set can always be minted in a test");
    let mut weight = OrderingNodeWeight::new(&mut cs).expect("a fresh weight");
    let (a, b) = (987654321u128, 123456789u128);

    weight.set_order(&cs, vec![a, b]).expect("set_order succeeds");

    let joined = format!("{} {}", ulid::Ulid(a), ulid::Ulid(b));
    let expected = blake3::hash(joined.as_bytes());
    assert_eq!(weight.content_hash().as_bytes(), &expected.as_bytes().to_vec());

    weight.set_order(&cs, vec![]).expect("set_order succeeds");
    let expected_empty = blake3::hash(b"");
    assert_eq!(
        weight.content_hash().as_bytes(),
        &expected_empty.as_bytes().to_vec()
    );
}
