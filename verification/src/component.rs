//! The compute side of the component service endpoints: the request shapes
//! and the assembly of the names-only component listing. Reading components
//! from storage and answering over HTTP live outside the library.

use vstd::prelude::*;

verus! {

/// A component's identifier.
#[derive(Clone, Copy, PartialEq, Eq, Structural, Debug)]
pub struct ComponentId {
    pub value: u128,
}

/// A workspace's identifier.
#[derive(Clone, Copy, PartialEq, Eq, Structural, Debug)]
pub struct WorkspaceId {
    pub value: u128,
}

/// An attribute value's identifier.
#[derive(Clone, Copy, PartialEq, Eq, Structural, Debug)]
pub struct AttributeValueId {
    pub value: u128,
}

/// The visibility a request reads under: which change set's view of the
/// graph answers it.
#[derive(Clone, Copy, PartialEq, Eq, Structural, Debug)]
pub struct Visibility {
    pub change_set_pk: u128,
}

/// One labeled entry of a select list: a display label and its value.
#[derive(Debug)]
pub struct LabelEntry<V> {
    pub label: String,
    pub value: V,
}

/// A list of labeled entries, in insertion order.
#[derive(Debug)]
pub struct LabelList<V> {
    pub entries: Vec<LabelEntry<V>>,
}

/// A request to list the components of one workspace by name only.
#[derive(Debug)]
pub struct ListComponentNamesOnlyRequest {
    pub workspace_id: WorkspaceId,
    pub visibility: Visibility,
}

/// One component of the listing: its identifier and its name.
#[derive(Debug)]
pub struct ListComponentNamesOnlyItem {
    pub id: ComponentId,
    pub name: String,
}

/// The listing: a label list whose labels are component names and whose
/// values are their identifiers.
#[derive(Debug)]
pub struct ListComponentNamesOnlyResponse {
    pub list: LabelList<ComponentId>,
}

/// A request to restore an attribute value to its default function.
#[derive(Clone, Copy, PartialEq, Eq, Structural, Debug)]
pub struct RestoreDefaultFunctionRequest {
    pub attribute_value_id: AttributeValueId,
    pub visibility: Visibility,
}

/// Assembles the names-only listing from the components read for the
/// request's workspace and visibility: one entry per component, in input
/// order, labeled with the component's name and valued with its identifier.
pub fn list_components_names_only(components: Vec<ListComponentNamesOnlyItem>) -> (r:
    ListComponentNamesOnlyResponse)
    ensures
        r.list.entries@.len() == components@.len(),
        forall|i: int|
            0 <= i < components@.len() ==> (#[trigger] r.list.entries@[i]).label
                == components@[i].name && r.list.entries@[i].value == components@[i].id,
{
    let mut entries: Vec<LabelEntry<ComponentId>> = Vec::new();
    let mut components = components;
    let n = components.len();
    proof {
        assert(components@.skip(0) =~= components@);
    }
    let ghost all = components@;
    let mut i: usize = 0;
    while i < n
        invariant
            n == all.len(),
            i <= n,
            components@ == all.skip(i as int),
            entries@.len() == i,
            forall|j: int|
                0 <= j < i ==> (#[trigger] entries@[j]).label == all[j].name && entries@[j].value
                    == all[j].id,
        decreases n - i,
    {
        let component = components.remove(0);
        proof {
            assert(all.skip(i as int)[0] == all[i as int]);
            assert(all.skip(i as int).skip(1) =~= all.skip(i + 1));
        }
        entries.push(LabelEntry { label: component.name, value: component.id });
        i = i + 1;
    }
    ListComponentNamesOnlyResponse { list: LabelList { entries } }
}

} // verus!
