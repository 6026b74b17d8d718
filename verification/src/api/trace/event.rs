//! Timestamped events recorded on a span.
use crate::api::attribute::{attributes_view, clone_attributes, KeyValue, KeyValueView};
use std::time::SystemTime;
use vstd::prelude::*;

verus! {

/// Something that happened at one moment during a span.
#[derive(Debug, PartialEq)]
pub struct Event {
    /// What happened.
    pub name: String,
    /// When it happened.
    pub timestamp: SystemTime,
    /// Attributes that describe it.
    pub attributes: Vec<KeyValue>,
}

/// The mathematical value of an [`Event`].
pub struct EventView {
    pub name: Seq<char>,
    pub timestamp: SystemTime,
    pub attributes: Seq<KeyValueView>,
}

impl View for Event {
    type V = EventView;

    open spec fn view(&self) -> EventView {
        EventView {
            name: self.name@,
            timestamp: self.timestamp,
            attributes: attributes_view(self.attributes@),
        }
    }
}

impl Event {
    /// An event with the given name, time and attributes.
    pub fn new(name: String, timestamp: SystemTime, attributes: Vec<KeyValue>) -> (event: Event)
        ensures
            event@ == (EventView {
                name: name@,
                timestamp,
                attributes: attributes_view(attributes@),
            }),
    {
        Event { name, timestamp, attributes }
    }
}

impl Clone for Event {
    fn clone(&self) -> (copy: Event)
        ensures
            copy@ == self@,
    {
        Event {
            name: self.name.clone(),
            timestamp: self.timestamp,
            attributes: clone_attributes(&self.attributes),
        }
    }
}

/// The mathematical value of a list of events.
pub open spec fn events_view(events: Seq<Event>) -> Seq<EventView> {
    events.map_values(|e: Event| e@)
}

/// A copy of a list of events.
pub fn clone_events(events: &Vec<Event>) -> (copy: Vec<Event>)
    ensures
        events_view(copy@) == events_view(events@),
{
    let mut copy: Vec<Event> = Vec::new();
    let mut i: usize = 0;
    while i < events.len()
        invariant
            i <= events.len(),
            copy.len() == i,
            forall|j: int| 0 <= j < i ==> (#[trigger] copy@[j])@ == events@[j]@,
        decreases events.len() - i,
    {
        copy.push(events[i].clone());
        i += 1;
    }
    copy
}

} // verus!
