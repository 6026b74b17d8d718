//! Links from one span to the context of another.
use crate::api::attribute::{attributes_view, clone_attributes, KeyValue, KeyValueView};
use crate::api::trace::span_context::{SpanContext, SpanContextView};
use vstd::prelude::*;

verus! {

/// A reference from a span to another span, possibly of another trace.
#[derive(Debug, PartialEq)]
pub struct Link {
    /// The span that is referred to.
    pub span_context: SpanContext,
    /// Attributes that describe the relation.
    pub attributes: Vec<KeyValue>,
}

/// The mathematical value of a [`Link`].
pub struct LinkView {
    pub span_context: SpanContextView,
    pub attributes: Seq<KeyValueView>,
}

impl View for Link {
    type V = LinkView;

    open spec fn view(&self) -> LinkView {
        LinkView {
            span_context: self.span_context@,
            attributes: attributes_view(self.attributes@),
        }
    }
}

impl Link {
    /// A link to `span_context` with the given attributes.
    pub fn new(span_context: SpanContext, attributes: Vec<KeyValue>) -> (link: Link)
        ensures
            link@ == (LinkView {
                span_context: span_context@,
                attributes: attributes_view(attributes@),
            }),
    {
        Link { span_context, attributes }
    }
}

impl Clone for Link {
    fn clone(&self) -> (copy: Link)
        ensures
            copy@ == self@,
    {
        Link {
            span_context: self.span_context.clone(),
            attributes: clone_attributes(&self.attributes),
        }
    }
}

/// The mathematical value of a list of links.
pub open spec fn links_view(links: Seq<Link>) -> Seq<LinkView> {
    links.map_values(|l: Link| l@)
}

/// A copy of a list of links.
pub fn clone_links(links: &Vec<Link>) -> (copy: Vec<Link>)
    ensures
        links_view(copy@) == links_view(links@),
{
    let mut copy: Vec<Link> = Vec::new();
    let mut i: usize = 0;
    while i < links.len()
        invariant
            i <= links.len(),
            copy.len() == i,
            forall|j: int| 0 <= j < i ==> (#[trigger] copy@[j])@ == links@[j]@,
        decreases links.len() - i,
    {
        copy.push(links[i].clone());
        i += 1;
    }
    copy
}

} // verus!
