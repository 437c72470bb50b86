use versioned_graph::component::{
    ComponentId, ListComponentNamesOnlyItem, list_components_names_only,
};
use versioned_graph::council::{FetchedReply, classify_fetched_reply};
use versioned_graph::diagram::{
    EdgeKind, EdgeSummary, frame_to_attach, pasted_component_name, plan_paste_connections,
};

#[test]
fn the_names_only_listing_labels_each_component_with_its_name() {
    let components = vec![
        ListComponentNamesOnlyItem { id: ComponentId { value: 1 }, name: "whiskers".to_string() },
        ListComponentNamesOnlyItem { id: ComponentId { value: 2 }, name: "starfield".to_string() },
    ];
    let response = list_components_names_only(components);
    assert_eq!(response.list.entries.len(), 2);
    assert_eq!(response.list.entries[0].label, "whiskers");
    assert_eq!(response.list.entries[0].value, ComponentId { value: 1 });
    assert_eq!(response.list.entries[1].label, "starfield");
    assert_eq!(response.list.entries[1].value, ComponentId { value: 2 });
}

#[test]
fn an_empty_workspace_lists_nothing() {
    let response = list_components_names_only(Vec::new());
    assert!(response.list.entries.is_empty());
}

#[test]
fn fetched_replies_are_classified_by_payload() {
    assert_eq!(classify_fetched_reply(&None), FetchedReply::StreamClosed);
    assert_eq!(
        classify_fetched_reply(&Some(Vec::new())),
        FetchedReply::NoListenerAvailable
    );
    assert_eq!(
        classify_fetched_reply(&Some(vec![123])),
        FetchedReply::Payload
    );
}

#[test]
fn paste_copies_edges_whose_endpoints_were_both_pasted() {
    let c = |value: u128| ComponentId { value };
    let edges = vec![
        // Both endpoints pasted: copied.
        EdgeSummary {
            tail_component_id: c(1),
            tail_socket_id: 100,
            head_component_id: c(2),
            head_socket_id: 200,
            kind: EdgeKind::Configuration,
        },
        // Head not pasted: dropped.
        EdgeSummary {
            tail_component_id: c(1),
            tail_socket_id: 101,
            head_component_id: c(9),
            head_socket_id: 201,
            kind: EdgeKind::Configuration,
        },
        // Symbolic with this component as tail: provides a parent.
        EdgeSummary {
            tail_component_id: c(1),
            tail_socket_id: 102,
            head_component_id: c(2),
            head_socket_id: 202,
            kind: EdgeKind::Symbolic,
        },
    ];
    let pasted = vec![(c(1), c(11)), (c(2), c(12))];

    let (planned, has_parent) = plan_paste_connections(c(1), &edges, &pasted);
    assert!(has_parent);
    assert_eq!(planned.len(), 2);
    assert_eq!(planned[0].tail_component_id, c(11));
    assert_eq!(planned[0].head_component_id, c(12));
    assert_eq!(planned[0].tail_socket_id, 100);
    assert_eq!(planned[0].head_socket_id, 200);
    assert_eq!(planned[1].kind, EdgeKind::Symbolic);

    assert_eq!(frame_to_attach(Some(c(50)), has_parent), None);
    assert_eq!(frame_to_attach(Some(c(50)), false), Some(c(50)));
    assert_eq!(frame_to_attach(None, false), None);
}

#[test]
fn a_symbolic_edge_from_another_component_provides_no_parent() {
    let c = |value: u128| ComponentId { value };
    let edges = vec![EdgeSummary {
        tail_component_id: c(2),
        tail_socket_id: 100,
        head_component_id: c(1),
        head_socket_id: 200,
        kind: EdgeKind::Symbolic,
    }];
    let pasted = vec![(c(1), c(11)), (c(2), c(12))];
    let (planned, has_parent) = plan_paste_connections(c(1), &edges, &pasted);
    assert_eq!(planned.len(), 1);
    assert!(!has_parent);
}

#[test]
fn a_pasted_component_is_named_after_the_original() {
    assert_eq!(
        pasted_component_name(&"whiskers".to_string()),
        "whiskers - Copy"
    );
}
