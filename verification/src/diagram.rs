//! The compute side of the diagram paste flow: which edges are recreated
//! between pasted components, whether a pasted component already receives a
//! parent from a copied edge, and the name a pasted copy carries. Reading
//! components and edges, geometry offsets and committing live outside the
//! library.

use vstd::prelude::*;

use crate::component::ComponentId;

verus! {

/// The kinds of graph edge the paste flow distinguishes.
#[derive(Clone, Copy, PartialEq, Eq, Structural, Debug)]
pub enum EdgeKind {
    /// A configuration dependency between components.
    Configuration,
    /// A symbolic edge, such as the one that parents a component to a frame.
    Symbolic,
}

/// What the paste flow reads of one existing edge.
#[derive(Clone, Copy, PartialEq, Eq, Structural, Debug)]
pub struct EdgeSummary {
    pub tail_component_id: ComponentId,
    pub tail_socket_id: u128,
    pub head_component_id: ComponentId,
    pub head_socket_id: u128,
    pub kind: EdgeKind,
}

/// One connection to create between pasted components.
#[derive(Clone, Copy, PartialEq, Eq, Structural, Debug)]
pub struct PlannedConnection {
    pub tail_component_id: ComponentId,
    pub tail_socket_id: u128,
    pub head_component_id: ComponentId,
    pub head_socket_id: u128,
    pub kind: EdgeKind,
}

/// The pasted copy an original component maps to: the first pair that
/// carries it.
pub open spec fn pasted_of(m: Seq<(ComponentId, ComponentId)>, c: ComponentId) -> Option<
    ComponentId,
>
    decreases m.len(),
{
    if m.len() == 0 {
        None
    } else if m[0].0 == c {
        Some(m[0].1)
    } else {
        pasted_of(m.drop_first(), c)
    }
}

/// The connections the paste flow recreates: one per edge whose endpoints
/// were both pasted, with each endpoint replaced by its copy, in edge order.
pub open spec fn planned_connections(
    edges: Seq<EdgeSummary>,
    m: Seq<(ComponentId, ComponentId)>,
) -> Seq<PlannedConnection>
    decreases edges.len(),
{
    if edges.len() == 0 {
        Seq::empty()
    } else {
        let rest = planned_connections(edges.drop_last(), m);
        let e = edges.last();
        if pasted_of(m, e.tail_component_id) is Some && pasted_of(m, e.head_component_id)
            is Some {
            rest.push(
                PlannedConnection {
                    tail_component_id: pasted_of(m, e.tail_component_id)->Some_0,
                    tail_socket_id: e.tail_socket_id,
                    head_component_id: pasted_of(m, e.head_component_id)->Some_0,
                    head_socket_id: e.head_socket_id,
                    kind: e.kind,
                },
            )
        } else {
            rest
        }
    }
}

/// A component already receives a parent from the copy when some copied edge
/// is symbolic and leaves it as the tail.
pub open spec fn gets_parent_from_copy(
    component_id: ComponentId,
    edges: Seq<EdgeSummary>,
    m: Seq<(ComponentId, ComponentId)>,
) -> bool {
    exists|i: int|
        0 <= i < edges.len() && (#[trigger] edges[i]).kind == EdgeKind::Symbolic
            && edges[i].tail_component_id == component_id && pasted_of(
            m,
            edges[i].tail_component_id,
        ) is Some && pasted_of(m, edges[i].head_component_id) is Some
}

fn pasted_lookup(m: &Vec<(ComponentId, ComponentId)>, c: ComponentId) -> (r: Option<ComponentId>)
    ensures
        r == pasted_of(m@, c),
{
    let n = m.len();
    let mut i: usize = 0;
    proof {
        assert(m@.skip(0) =~= m@);
    }
    while i < n
        invariant
            n == m@.len(),
            i <= n,
            pasted_of(m@, c) == pasted_of(m@.skip(i as int), c),
        decreases n - i,
    {
        proof {
            assert(m@.skip(i as int)[0] == m@[i as int]);
            assert(m@.skip(i as int).drop_first() =~= m@.skip(i + 1));
        }
        if m[i].0 == c {
            return Some(m[i].1);
        }
        i = i + 1;
    }
    proof {
        assert(m@.skip(n as int) =~= Seq::<(ComponentId, ComponentId)>::empty());
    }
    None
}

/// For one original component, the connections to recreate among the pasted
/// copies, and whether the component already receives a parent from a copied
/// symbolic edge.
pub fn plan_paste_connections(
    component_id: ComponentId,
    edges: &Vec<EdgeSummary>,
    pasted: &Vec<(ComponentId, ComponentId)>,
) -> (r: (Vec<PlannedConnection>, bool))
    ensures
        r.0@ == planned_connections(edges@, pasted@),
        r.1 == gets_parent_from_copy(component_id, edges@, pasted@),
{
    let mut planned: Vec<PlannedConnection> = Vec::new();
    let mut has_parent = false;
    let n = edges.len();
    let mut i: usize = 0;
    while i < n
        invariant
            n == edges@.len(),
            i <= n,
            planned@ == planned_connections(edges@.take(i as int), pasted@),
            has_parent == gets_parent_from_copy(component_id, edges@.take(i as int), pasted@),
        decreases n - i,
    {
        let edge = edges[i];
        proof {
            assert(edges@.take(i + 1).drop_last() =~= edges@.take(i as int));
            assert(edges@.take(i + 1).last() == edges@[i as int]);
        }
        let tail_copy = pasted_lookup(pasted, edge.tail_component_id);
        let head_copy = pasted_lookup(pasted, edge.head_component_id);
        match (tail_copy, head_copy) {
            (Some(tail), Some(head)) => {
                let symbolic = match edge.kind {
                    EdgeKind::Symbolic => true,
                    EdgeKind::Configuration => false,
                };
                if symbolic && edge.tail_component_id == component_id {
                    has_parent = true;
                }
                planned.push(
                    PlannedConnection {
                        tail_component_id: tail,
                        tail_socket_id: edge.tail_socket_id,
                        head_component_id: head,
                        head_socket_id: edge.head_socket_id,
                        kind: edge.kind,
                    },
                );
            }
            _ => {}
        }
        proof {
            let prefix = edges@.take(i as int);
            let extended = edges@.take(i + 1);
            if gets_parent_from_copy(component_id, extended, pasted@) && !gets_parent_from_copy(
                component_id,
                prefix,
                pasted@,
            ) {
                let w = choose|w: int|
                    0 <= w < extended.len() && (#[trigger] extended[w]).kind == EdgeKind::Symbolic
                        && extended[w].tail_component_id == component_id && pasted_of(
                        pasted@,
                        extended[w].tail_component_id,
                    ) is Some && pasted_of(pasted@, extended[w].head_component_id) is Some;
                if w < i {
                    assert(prefix[w] == extended[w]);
                    assert(gets_parent_from_copy(component_id, prefix, pasted@));
                }
            }
            if gets_parent_from_copy(component_id, prefix, pasted@) {
                let w = choose|w: int|
                    0 <= w < prefix.len() && (#[trigger] prefix[w]).kind == EdgeKind::Symbolic
                        && prefix[w].tail_component_id == component_id && pasted_of(
                        pasted@,
                        prefix[w].tail_component_id,
                    ) is Some && pasted_of(pasted@, prefix[w].head_component_id) is Some;
                assert(extended[w] == prefix[w]);
                assert(gets_parent_from_copy(component_id, extended, pasted@));
            }
        }
        i = i + 1;
    }
    proof {
        assert(edges@.take(n as int) =~= edges@);
    }
    (planned, has_parent)
}

/// Whether the paste flow still attaches the pasted component to the
/// requested parent frame: only when a parent was requested and no copied
/// symbolic edge already provides one.
pub fn frame_to_attach(
    new_parent_component_id: Option<ComponentId>,
    has_parent: bool,
) -> (r: Option<ComponentId>)
    ensures
        r == if has_parent {
            Option::<ComponentId>::None
        } else {
            new_parent_component_id
        },
{
    if has_parent {
        None
    } else {
        new_parent_component_id
    }
}

/// Relies on String::push_str: appends the given string slice onto the end
/// of the string.
pub assume_specification[ String::push_str ](s: &mut String, other: &str)
    ensures
        final(s)@ == old(s)@ + other@,
;

/// The name a pasted copy carries: the original's name with the copy suffix.
pub fn pasted_component_name(name: &String) -> (r: String)
    ensures
        r@ == name@ + " - Copy"@,
{
    let mut r = name.clone();
    r.push_str(" - Copy");
    r
}

} // verus!
