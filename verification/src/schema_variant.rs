//! The schema variant spec and its builder: a named variant with an optional
//! documentation link and color, a domain property tree that child
//! properties are pushed into, and a set of leaf functions.

use vstd::prelude::*;

verus! {

/// Why building a spec failed.
#[derive(PartialEq, Eq, Debug)]
pub enum SpecError {
    /// A required field was not set before build.
    UninitializedField(String),
}

/// A property in a schema variant's tree, reduced to what this layer reads:
/// an object holds named child properties; a leaf holds none.
#[derive(Debug)]
pub enum PropSpec {
    Object { name: String, entries: Vec<PropSpec> },
    Leaf { name: String },
}

/// One leaf function attached to a schema variant.
#[derive(Debug)]
pub struct LeafFunctionSpec {
    pub func_unique_id: String,
}

/// A fully built schema variant spec.
#[derive(Debug)]
pub struct SchemaVariantSpec {
    pub name: String,
    pub link: Option<String>,
    pub color: Option<String>,
    pub domain: PropSpec,
    pub leaf_functions: Vec<LeafFunctionSpec>,
}

impl SchemaVariantSpec {
    /// A builder with nothing set: the domain starts as the default empty
    /// object named "domain".
    pub fn builder() -> (r: SchemaVariantSpecBuilder)
        ensures
            r.wf(),
            r.spec_name() is None,
            r.spec_link() is None,
            r.spec_color() is None,
            r.spec_domain_entries() == Seq::<PropSpec>::empty(),
            r.spec_leaf_functions() == Seq::<LeafFunctionSpec>::empty(),
    {
        SchemaVariantSpecBuilder {
            name: None,
            link: None,
            color: None,
            domain: default_domain(),
            leaf_functions: Vec::new(),
        }
    }
}

/// The default domain: an empty object named "domain".
fn default_domain() -> (r: PropSpec)
    ensures
        r matches PropSpec::Object { name, entries } && name@ == "domain"@ && entries@
            == Seq::<PropSpec>::empty(),
{
    PropSpec::Object { name: "domain".to_string(), entries: Vec::new() }
}

/// Builds a [`SchemaVariantSpec`] field by field. The domain is private to
/// the builder: child properties only ever enter it through the property
/// setters, so it is always an object.
#[derive(Debug)]
pub struct SchemaVariantSpecBuilder {
    name: Option<String>,
    link: Option<String>,
    color: Option<String>,
    domain: PropSpec,
    leaf_functions: Vec<LeafFunctionSpec>,
}

impl SchemaVariantSpecBuilder {
    /// The domain is an object, as every reachable builder value has it.
    pub closed spec fn wf(&self) -> bool {
        self.domain is Object
    }

    pub closed spec fn spec_name(&self) -> Option<String> {
        self.name
    }

    pub closed spec fn spec_link(&self) -> Option<String> {
        self.link
    }

    pub closed spec fn spec_color(&self) -> Option<String> {
        self.color
    }

    pub closed spec fn spec_domain(&self) -> PropSpec {
        self.domain
    }

    /// The child properties pushed into the domain so far.
    pub closed spec fn spec_domain_entries(&self) -> Seq<PropSpec> {
        match self.domain {
            PropSpec::Object { name: _, entries } => entries@,
            PropSpec::Leaf { .. } => Seq::empty(),
        }
    }

    pub closed spec fn spec_leaf_functions(&self) -> Seq<LeafFunctionSpec> {
        self.leaf_functions@
    }

    /// Sets the variant's name, required before build.
    pub fn name(&mut self, value: String)
        ensures
            final(self).spec_name() == Some(value),
            final(self).spec_link() == old(self).spec_link(),
            final(self).spec_color() == old(self).spec_color(),
            final(self).spec_domain() == old(self).spec_domain(),
            final(self).spec_leaf_functions() == old(self).spec_leaf_functions(),
            final(self).wf() == old(self).wf(),
    {
        self.name = Some(value);
    }

    /// Sets the documentation link.
    pub fn link(&mut self, value: String)
        ensures
            final(self).spec_link() == Some(value),
            final(self).spec_name() == old(self).spec_name(),
            final(self).spec_color() == old(self).spec_color(),
            final(self).spec_domain() == old(self).spec_domain(),
            final(self).spec_leaf_functions() == old(self).spec_leaf_functions(),
            final(self).wf() == old(self).wf(),
    {
        self.link = Some(value);
    }

    /// Sets the link from a conversion's outcome, passing a conversion
    /// failure through unchanged.
    pub fn try_link(&mut self, value: Result<String, SpecError>) -> (r: Result<(), SpecError>)
        ensures
            value matches Ok(v) ==> r is Ok && final(self).spec_link() == Some(v),
            value matches Err(e) ==> r == Err::<(), SpecError>(e) && final(self).spec_link()
                == old(self).spec_link(),
            final(self).spec_name() == old(self).spec_name(),
            final(self).spec_color() == old(self).spec_color(),
            final(self).spec_domain() == old(self).spec_domain(),
            final(self).spec_leaf_functions() == old(self).spec_leaf_functions(),
            final(self).wf() == old(self).wf(),
    {
        match value {
            Ok(converted) => {
                self.link(converted);
                Ok(())
            }
            Err(e) => Err(e),
        }
    }

    /// Sets the display color.
    pub fn color(&mut self, value: String)
        ensures
            final(self).spec_color() == Some(value),
            final(self).spec_name() == old(self).spec_name(),
            final(self).spec_link() == old(self).spec_link(),
            final(self).spec_domain() == old(self).spec_domain(),
            final(self).spec_leaf_functions() == old(self).spec_leaf_functions(),
            final(self).wf() == old(self).wf(),
    {
        self.color = Some(value);
    }

    /// Adds one leaf function.
    pub fn leaf_function(&mut self, value: LeafFunctionSpec)
        ensures
            final(self).spec_leaf_functions() == old(self).spec_leaf_functions().push(value),
            final(self).spec_name() == old(self).spec_name(),
            final(self).spec_link() == old(self).spec_link(),
            final(self).spec_color() == old(self).spec_color(),
            final(self).spec_domain() == old(self).spec_domain(),
            final(self).wf() == old(self).wf(),
    {
        self.leaf_functions.push(value);
    }

    /// Pushes one child property into the domain object.
    pub fn prop(&mut self, item: PropSpec)
        requires
            old(self).wf(),
        ensures
            final(self).wf(),
            final(self).spec_domain_entries() == old(self).spec_domain_entries().push(item),
            final(self).spec_domain() matches PropSpec::Object { name, entries: _ }
                && (old(self).spec_domain() matches PropSpec::Object { name: old_name, entries: _ }
                    && name == old_name),
            final(self).spec_name() == old(self).spec_name(),
            final(self).spec_link() == old(self).spec_link(),
            final(self).spec_color() == old(self).spec_color(),
            final(self).spec_leaf_functions() == old(self).spec_leaf_functions(),
    {
        match &mut self.domain {
            PropSpec::Object { name: _, entries } => {
                entries.push(item);
            }
            PropSpec::Leaf { .. } => {
                proof {
                    assert(false);
                }
            }
        }
    }

    /// Pushes a converted child property into the domain object, passing a
    /// conversion failure through unchanged.
    pub fn try_prop(&mut self, item: Result<PropSpec, SpecError>) -> (r: Result<(), SpecError>)
        requires
            old(self).wf(),
        ensures
            final(self).wf(),
            item matches Ok(p) ==> r is Ok && final(self).spec_domain_entries() == old(
                self,
            ).spec_domain_entries().push(p),
            item matches Err(e) ==> r == Err::<(), SpecError>(e) && final(self).spec_domain()
                == old(self).spec_domain(),
            final(self).spec_name() == old(self).spec_name(),
            final(self).spec_link() == old(self).spec_link(),
            final(self).spec_color() == old(self).spec_color(),
            final(self).spec_leaf_functions() == old(self).spec_leaf_functions(),
    {
        match item {
            Ok(converted) => {
                self.prop(converted);
                Ok(())
            }
            Err(e) => Err(e),
        }
    }

    /// Replaces the domain object's child properties wholesale.
    pub fn props(&mut self, value: Vec<PropSpec>)
        requires
            old(self).wf(),
        ensures
            final(self).wf(),
            final(self).spec_domain_entries() == value@,
            final(self).spec_domain() matches PropSpec::Object { name, entries: _ }
                && (old(self).spec_domain() matches PropSpec::Object { name: old_name, entries: _ }
                    && name == old_name),
            final(self).spec_name() == old(self).spec_name(),
            final(self).spec_link() == old(self).spec_link(),
            final(self).spec_color() == old(self).spec_color(),
            final(self).spec_leaf_functions() == old(self).spec_leaf_functions(),
    {
        match &mut self.domain {
            PropSpec::Object { name: _, entries } => {
                *entries = value;
            }
            PropSpec::Leaf { .. } => {
                proof {
                    assert(false);
                }
            }
        }
    }

    /// Builds the spec: the name is required; the link and color stay as
    /// set; the domain and leaf functions are taken as accumulated.
    pub fn build(self) -> (r: Result<SchemaVariantSpec, SpecError>)
        ensures
            r is Ok <==> self.spec_name() is Some,
            r matches Ok(s) ==> Some(s.name) == self.spec_name() && s.link == self.spec_link()
                && s.color == self.spec_color() && s.domain == self.spec_domain()
                && s.leaf_functions@ == self.spec_leaf_functions(),
            r is Err ==> r matches Err(SpecError::UninitializedField(_)),
    {
        match self.name {
            Some(name) => Ok(
                SchemaVariantSpec {
                    name,
                    link: self.link,
                    color: self.color,
                    domain: self.domain,
                    leaf_functions: self.leaf_functions,
                },
            ),
            None => Err(SpecError::UninitializedField("name".to_string())),
        }
    }
}

} // verus!
