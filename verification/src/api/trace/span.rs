//! A span: one traced unit of work and the operations on it.
//!
//! A span is started by a tracer, takes attributes, events, links and a
//! status while it is recording, and is ended once. Ending it again, or
//! changing it after it has ended, is accepted and changes nothing.
use crate::api::attribute::{attributes_view, clone_attributes, KeyValue, KeyValueView};
use crate::api::trace::event::{clone_events, events_view, Event, EventView};
use crate::api::trace::link::{clone_links, links_view, Link, LinkView};
use crate::api::trace::span_context::{SpanContext, SpanContextView, SpanId};
use std::time::SystemTime;
use vstd::prelude::*;

verus! {

/// The role of a span in a trace.
#[derive(Clone, Copy, Debug, PartialEq, Eq, Structural)]
pub enum SpanKind {
    /// An outgoing synchronous request.
    Client,
    /// The handling of an incoming synchronous request.
    Server,
    /// The sending of a message that is handled later.
    Producer,
    /// The handling of such a message.
    Consumer,
    /// Work inside one component. The default.
    Internal,
}

/// How the work of a span came out.
#[derive(Clone, Copy, Debug, PartialEq, Eq, Structural)]
pub enum StatusCode {
    /// Success. The default.
    OK,
    Canceled,
    Unknown,
    InvalidArgument,
    DeadlineExceeded,
    NotFound,
    AlreadyExists,
    PermissionDenied,
    ResourceExhausted,
    FailedPrecondition,
    Aborted,
    OutOfRange,
    Unimplemented,
    Internal,
    Unavailable,
    DataLoss,
    Unauthenticated,
}

/// The mathematical value of a [`Span`].
pub struct SpanView {
    pub context: SpanContextView,
    pub parent_span_id: SpanId,
    pub kind: SpanKind,
    pub name: Seq<char>,
    pub start_time: Option<SystemTime>,
    pub end_time: Option<SystemTime>,
    pub attributes: Seq<KeyValueView>,
    pub events: Seq<EventView>,
    pub links: Seq<LinkView>,
    pub status_code: StatusCode,
    pub status_message: Seq<char>,
    pub recording: bool,
    pub ended: bool,
}

impl SpanView {
    /// The span that stands for "no span": an invalid context, nothing
    /// recorded, never started.
    pub open spec fn invalid() -> SpanView {
        SpanView {
            context: SpanContextView::invalid(),
            parent_span_id: SpanId(0),
            kind: SpanKind::Internal,
            name: Seq::empty(),
            start_time: None,
            end_time: None,
            attributes: Seq::empty(),
            events: Seq::empty(),
            links: Seq::empty(),
            status_code: StatusCode::OK,
            status_message: Seq::empty(),
            recording: false,
            ended: false,
        }
    }

    /// Whether changes to the span are kept: it records and has not ended.
    pub open spec fn accepts_changes(self) -> bool {
        self.recording && !self.ended
    }

    /// The span after an attempt to add one attribute.
    pub open spec fn with_attribute(self, attribute: KeyValueView) -> SpanView {
        if self.accepts_changes() {
            SpanView { attributes: self.attributes.push(attribute), ..self }
        } else {
            self
        }
    }

    /// The span after an attempt to add several attributes.
    pub open spec fn with_attributes(self, attributes: Seq<KeyValueView>) -> SpanView {
        if self.accepts_changes() {
            SpanView { attributes: self.attributes + attributes, ..self }
        } else {
            self
        }
    }

    /// The span after an attempt to add an event.
    pub open spec fn with_event(self, event: EventView) -> SpanView {
        if self.accepts_changes() {
            SpanView { events: self.events.push(event), ..self }
        } else {
            self
        }
    }

    /// The span after an attempt to add a link.
    pub open spec fn with_link(self, link: LinkView) -> SpanView {
        if self.accepts_changes() {
            SpanView { links: self.links.push(link), ..self }
        } else {
            self
        }
    }

    /// The span after an attempt to set its status.
    pub open spec fn with_status(self, code: StatusCode, message: Seq<char>) -> SpanView {
        if self.accepts_changes() {
            SpanView { status_code: code, status_message: message, ..self }
        } else {
            self
        }
    }

    /// The span after an attempt to end it at `timestamp`. Only the first
    /// attempt has an effect.
    pub open spec fn ended_at(self, timestamp: SystemTime) -> SpanView {
        if self.ended {
            self
        } else {
            SpanView { ended: true, end_time: Some(timestamp), ..self }
        }
    }

    /// The end time that a span ended without an explicit timestamp takes:
    /// the one it was configured with, or else `now`.
    pub open spec fn closing_time(self, now: SystemTime) -> SystemTime {
        match self.end_time {
            Some(configured) => configured,
            None => now,
        }
    }
}

/// Ending a span twice is the same as ending it once: the second timestamp
/// is dropped.
pub proof fn lemma_end_is_idempotent(span: SpanView, first: SystemTime, second: SystemTime)
    ensures
        span.ended_at(first).ended_at(second) == span.ended_at(first),
        span.ended_at(first).ended,
        !span.ended ==> span.ended_at(first).ended_at(second).end_time == Some(first),
{
}

/// Nothing changes a span that has ended.
pub proof fn lemma_ended_span_is_frozen(
    span: SpanView,
    attribute: KeyValueView,
    attributes: Seq<KeyValueView>,
    event: EventView,
    link: LinkView,
    code: StatusCode,
    message: Seq<char>,
    timestamp: SystemTime,
)
    requires
        span.ended,
    ensures
        span.with_attribute(attribute) == span,
        span.with_attributes(attributes) == span,
        span.with_event(event) == span,
        span.with_link(link) == span,
        span.with_status(code, message) == span,
        span.ended_at(timestamp) == span,
{
}

/// No operation on a span changes its context.
pub proof fn lemma_context_is_immutable(
    span: SpanView,
    attribute: KeyValueView,
    attributes: Seq<KeyValueView>,
    event: EventView,
    link: LinkView,
    code: StatusCode,
    message: Seq<char>,
    timestamp: SystemTime,
)
    ensures
        span.with_attribute(attribute).context == span.context,
        span.with_attributes(attributes).context == span.context,
        span.with_event(event).context == span.context,
        span.with_link(link).context == span.context,
        span.with_status(code, message).context == span.context,
        span.ended_at(timestamp).context == span.context,
{
}

/// One traced unit of work.
#[derive(Debug, PartialEq)]
pub struct Span {
    context: SpanContext,
    parent_span_id: SpanId,
    kind: SpanKind,
    name: String,
    start_time: Option<SystemTime>,
    end_time: Option<SystemTime>,
    attributes: Vec<KeyValue>,
    events: Vec<Event>,
    links: Vec<Link>,
    status_code: StatusCode,
    status_message: String,
    recording: bool,
    ended: bool,
}

impl View for Span {
    type V = SpanView;

    closed spec fn view(&self) -> SpanView {
        SpanView {
            context: self.context@,
            parent_span_id: self.parent_span_id,
            kind: self.kind,
            name: self.name@,
            start_time: self.start_time,
            end_time: self.end_time,
            attributes: attributes_view(self.attributes@),
            events: events_view(self.events@),
            links: links_view(self.links@),
            status_code: self.status_code,
            status_message: self.status_message@,
            recording: self.recording,
            ended: self.ended,
        }
    }
}

impl Span {
    /// The span that stands for "no span".
    pub fn invalid() -> (span: Span)
        ensures
            span@ == SpanView::invalid(),
    {
        let span = Span {
            context: SpanContext::empty_context(),
            parent_span_id: SpanId::invalid(),
            kind: SpanKind::Internal,
            name: String::new(),
            start_time: None,
            end_time: None,
            attributes: Vec::new(),
            events: Vec::new(),
            links: Vec::new(),
            status_code: StatusCode::OK,
            status_message: String::new(),
            recording: false,
            ended: false,
        };
        assert(span@.attributes =~= Seq::empty());
        assert(span@.events =~= Seq::empty());
        assert(span@.links =~= Seq::empty());
        span
    }

    /// A span that has just started, made of the given parts.
    pub fn started(
        context: SpanContext,
        parent_span_id: SpanId,
        kind: SpanKind,
        name: String,
        start_time: SystemTime,
        end_time: Option<SystemTime>,
        attributes: Vec<KeyValue>,
        events: Vec<Event>,
        links: Vec<Link>,
        status_code: StatusCode,
        status_message: String,
        recording: bool,
    ) -> (span: Span)
        ensures
            span@ == (SpanView {
                context: context@,
                parent_span_id,
                kind,
                name: name@,
                start_time: Some(start_time),
                end_time,
                attributes: attributes_view(attributes@),
                events: events_view(events@),
                links: links_view(links@),
                status_code,
                status_message: status_message@,
                recording,
                ended: false,
            }),
    {
        Span {
            context,
            parent_span_id,
            kind,
            name,
            start_time: Some(start_time),
            end_time,
            attributes,
            events,
            links,
            status_code,
            status_message,
            recording,
            ended: false,
        }
    }

    /// The identity of the span.
    pub fn span_context(&self) -> (context: &SpanContext)
        ensures
            context@ == self@.context,
    {
        &self.context
    }

    /// The identifier of the parent span, or the invalid one for a root.
    pub fn parent_span_id(&self) -> (id: SpanId)
        ensures
            id == self@.parent_span_id,
    {
        self.parent_span_id
    }

    /// The role of the span.
    pub fn span_kind(&self) -> (kind: SpanKind)
        ensures
            kind == self@.kind,
    {
        self.kind
    }

    /// The name of the span.
    pub fn name(&self) -> (name: &String)
        ensures
            name@ == self@.name,
    {
        &self.name
    }

    /// When the span started. `None` only for a span that no tracer started.
    pub fn start_time(&self) -> (time: Option<SystemTime>)
        ensures
            time == self@.start_time,
    {
        self.start_time
    }

    /// When the span ended, or is configured to end.
    pub fn end_time(&self) -> (time: Option<SystemTime>)
        ensures
            time == self@.end_time,
    {
        self.end_time
    }

    /// The attributes recorded so far, oldest first.
    pub fn attributes(&self) -> (attributes: &Vec<KeyValue>)
        ensures
            attributes_view(attributes@) == self@.attributes,
    {
        &self.attributes
    }

    /// The events recorded so far, oldest first.
    pub fn events(&self) -> (events: &Vec<Event>)
        ensures
            events_view(events@) == self@.events,
    {
        &self.events
    }

    /// The links recorded so far, oldest first.
    pub fn links(&self) -> (links: &Vec<Link>)
        ensures
            links_view(links@) == self@.links,
    {
        &self.links
    }

    /// The status code.
    pub fn status_code(&self) -> (code: StatusCode)
        ensures
            code == self@.status_code,
    {
        self.status_code
    }

    /// The status message.
    pub fn status_message(&self) -> (message: &String)
        ensures
            message@ == self@.status_message,
    {
        &self.status_message
    }

    /// Whether the span has ended.
    pub fn has_ended(&self) -> (ended: bool)
        ensures
            ended == self@.ended,
    {
        self.ended
    }

    /// Whether changes to the span are kept: it records and has not ended.
    pub fn is_recording(&self) -> (recording: bool)
        ensures
            recording == self@.accepts_changes(),
    {
        self.recording && !self.ended
    }

    /// Adds an attribute. Ignored unless the span is recording.
    pub fn set_attribute(&mut self, attribute: KeyValue)
        ensures
            final(self)@ == old(self)@.with_attribute(attribute@),
    {
        if self.recording && !self.ended {
            self.attributes.push(attribute);
            assert(attributes_view(self.attributes@) =~= attributes_view(
                old(self).attributes@,
            ).push(attribute@));
        }
    }

    /// Adds attributes in the given order. Ignored unless the span is
    /// recording.
    pub fn set_attributes(&mut self, attributes: Vec<KeyValue>)
        ensures
            final(self)@ == old(self)@.with_attributes(attributes_view(attributes@)),
    {
        if self.recording && !self.ended {
            let mut attributes = attributes;
            let ghost added = attributes@;
            self.attributes.append(&mut attributes);
            assert(attributes_view(self.attributes@) =~= attributes_view(old(self).attributes@)
                + attributes_view(added));
        }
    }

    /// Adds an event that happened at `timestamp`. Ignored unless the span is
    /// recording.
    pub fn add_event_with_timestamp(
        &mut self,
        name: String,
        timestamp: SystemTime,
        attributes: Vec<KeyValue>,
    )
        ensures
            final(self)@ == old(self)@.with_event(
                EventView { name: name@, timestamp, attributes: attributes_view(attributes@) },
            ),
    {
        if self.recording && !self.ended {
            let event = Event::new(name, timestamp, attributes);
            self.events.push(event);
            assert(events_view(self.events@) =~= events_view(old(self).events@).push(event@));
        }
    }

    /// Adds an event that happens now. Ignored unless the span is recording.
    pub fn add_event(&mut self, name: String, attributes: Vec<KeyValue>)
        ensures
            exists|now: SystemTime|
                final(self)@ == #[trigger] old(self)@.with_event(
                    EventView {
                        name: name@,
                        timestamp: now,
                        attributes: attributes_view(attributes@),
                    },
                ),
    {
        let now = SystemTime::now();
        self.add_event_with_timestamp(name, now, attributes);
    }

    /// Adds a link to the span with the given context. Ignored unless the
    /// span is recording.
    pub fn add_link(&mut self, span_context: SpanContext, attributes: Vec<KeyValue>)
        ensures
            final(self)@ == old(self)@.with_link(
                LinkView {
                    span_context: span_context@,
                    attributes: attributes_view(attributes@),
                },
            ),
    {
        if self.recording && !self.ended {
            let link = Link::new(span_context, attributes);
            self.links.push(link);
            assert(links_view(self.links@) =~= links_view(old(self).links@).push(link@));
        }
    }

    /// Sets the status. Ignored unless the span is recording.
    pub fn set_status(&mut self, code: StatusCode, message: String)
        ensures
            final(self)@ == old(self)@.with_status(code, message@),
    {
        if self.recording && !self.ended {
            self.status_code = code;
            self.status_message = message;
        }
    }

    /// Ends the span at `timestamp`. Returns whether this call ended it: a
    /// span that had ended before stays as it was.
    pub fn end_with_timestamp(&mut self, timestamp: SystemTime) -> (first: bool)
        ensures
            final(self)@ == old(self)@.ended_at(timestamp),
            first == !old(self)@.ended,
    {
        if self.ended {
            false
        } else {
            self.ended = true;
            self.end_time = Some(timestamp);
            true
        }
    }

    /// Ends the span at the end time it was configured with, or else now.
    /// Returns whether this call ended it: a span that had ended before
    /// stays as it was.
    pub fn end(&mut self) -> (first: bool)
        ensures
            exists|now: SystemTime|
                final(self)@ == old(self)@.ended_at(#[trigger] old(self)@.closing_time(now)),
            old(self)@.ended ==> final(self)@ == old(self)@,
            first == !old(self)@.ended,
    {
        let now = SystemTime::now();
        let timestamp = match self.end_time {
            Some(configured) => configured,
            None => now,
        };
        assert(timestamp == old(self)@.closing_time(now));
        self.end_with_timestamp(timestamp)
    }
}

impl Clone for Span {
    fn clone(&self) -> (copy: Span)
        ensures
            copy@ == self@,
    {
        Span {
            context: self.context.clone(),
            parent_span_id: self.parent_span_id,
            kind: self.kind,
            name: self.name.clone(),
            start_time: self.start_time,
            end_time: self.end_time,
            attributes: clone_attributes(&self.attributes),
            events: clone_events(&self.events),
            links: clone_links(&self.links),
            status_code: self.status_code,
            status_message: self.status_message.clone(),
            recording: self.recording,
            ended: self.ended,
        }
    }
}

} // verus!
