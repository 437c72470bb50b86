use versioned_graph::schema_variant::{
    LeafFunctionSpec, PropSpec, SchemaVariantSpec, SpecError,
};

#[test]
fn build_without_a_name_fails() {
    let builder = SchemaVariantSpec::builder();
    match builder.build() {
        Err(SpecError::UninitializedField(field)) => assert_eq!(field, "name"),
        other => panic!("expected an uninitialized-field failure, got {:?}", other),
    }
}

#[test]
fn build_with_only_a_name_uses_the_default_domain() {
    let mut builder = SchemaVariantSpec::builder();
    builder.name("starfield".to_string());
    let spec = builder.build().expect("a named builder builds");
    assert_eq!(spec.name, "starfield");
    assert_eq!(spec.link, None);
    assert_eq!(spec.color, None);
    assert!(spec.leaf_functions.is_empty());
    match spec.domain {
        PropSpec::Object { name, entries } => {
            assert_eq!(name, "domain");
            assert!(entries.is_empty());
        }
        other => panic!("the domain is an object, got {:?}", other),
    }
}

#[test]
fn prop_pushes_into_the_domain_in_order() {
    let mut builder = SchemaVariantSpec::builder();
    builder.name("starfield".to_string());
    builder.prop(PropSpec::Leaf { name: "first".to_string() });
    builder.prop(PropSpec::Leaf { name: "second".to_string() });
    let spec = builder.build().expect("a named builder builds");
    match spec.domain {
        PropSpec::Object { entries, .. } => {
            assert_eq!(entries.len(), 2);
            assert!(matches!(&entries[0], PropSpec::Leaf { name } if name == "first"));
            assert!(matches!(&entries[1], PropSpec::Leaf { name } if name == "second"));
        }
        other => panic!("the domain is an object, got {:?}", other),
    }
}

#[test]
fn props_replaces_the_domain_entries_wholesale() {
    let mut builder = SchemaVariantSpec::builder();
    builder.name("starfield".to_string());
    builder.prop(PropSpec::Leaf { name: "dropped".to_string() });
    builder.props(vec![PropSpec::Leaf { name: "kept".to_string() }]);
    let spec = builder.build().expect("a named builder builds");
    match spec.domain {
        PropSpec::Object { entries, .. } => {
            assert_eq!(entries.len(), 1);
            assert!(matches!(&entries[0], PropSpec::Leaf { name } if name == "kept"));
        }
        other => panic!("the domain is an object, got {:?}", other),
    }
}

#[test]
fn try_prop_passes_a_conversion_failure_through() {
    let mut builder = SchemaVariantSpec::builder();
    builder.name("starfield".to_string());
    let err = builder
        .try_prop(Err(SpecError::UninitializedField("prop".to_string())))
        .expect_err("the failure comes back");
    assert_eq!(err, SpecError::UninitializedField("prop".to_string()));

    builder
        .try_prop(Ok(PropSpec::Leaf { name: "converted".to_string() }))
        .expect("a converted property is pushed");
    let spec = builder.build().expect("a named builder builds");
    match spec.domain {
        PropSpec::Object { entries, .. } => assert_eq!(entries.len(), 1),
        other => panic!("the domain is an object, got {:?}", other),
    }
}

#[test]
fn try_link_and_setters_land_in_the_built_spec() {
    let mut builder = SchemaVariantSpec::builder();
    builder.name("starfield".to_string());
    builder.color("#ffffff".to_string());
    builder
        .try_link(Ok("https://example.com/docs".to_string()))
        .expect("a converted link is set");
    builder.leaf_function(LeafFunctionSpec { func_unique_id: "qualification".to_string() });
    let spec = builder.build().expect("a named builder builds");
    assert_eq!(spec.link.as_deref(), Some("https://example.com/docs"));
    assert_eq!(spec.color.as_deref(), Some("#ffffff"));
    assert_eq!(spec.leaf_functions.len(), 1);
    assert_eq!(spec.leaf_functions[0].func_unique_id, "qualification");
}
