//! The entity that produces telemetry, described by attributes.
use crate::api::attribute::{attributes_view, clone_attributes, KeyValue, KeyValueView};
use vstd::prelude::*;

verus! {

/// An immutable bundle of attributes that describes the program for which a
/// tracer works. It is attached to the tracer and only read.
#[derive(Debug, PartialEq)]
pub struct Resource {
    attributes: Vec<KeyValue>,
}

impl View for Resource {
    type V = Seq<KeyValueView>;

    closed spec fn view(&self) -> Seq<KeyValueView> {
        attributes_view(self.attributes@)
    }
}

impl Resource {
    /// A resource with the given attributes.
    pub fn new(attributes: Vec<KeyValue>) -> (resource: Resource)
        ensures
            resource@ == attributes_view(attributes@),
    {
        Resource { attributes }
    }

    /// A resource without attributes.
    pub fn empty() -> (resource: Resource)
        ensures
            resource@ == Seq::<KeyValueView>::empty(),
    {
        Resource { attributes: Vec::new() }
    }

    /// The attributes, in the order in which they were given.
    pub fn attributes(&self) -> (attributes: &Vec<KeyValue>)
        ensures
            attributes_view(attributes@) == self@,
    {
        &self.attributes
    }
}

impl Clone for Resource {
    fn clone(&self) -> (copy: Resource)
        ensures
            copy@ == self@,
    {
        Resource { attributes: clone_attributes(&self.attributes) }
    }
}

} // verus!
