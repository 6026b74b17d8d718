//! How a span comes to be: which span context is its parent, and what the
//! new span takes from its builder, its parent and the sampling verdict.
//!
//! The parent is, in this order: the parent context set in the builder, taken
//! as it is; a context made of the trace id and span id set in the builder,
//! where a trace id that is not set is a fresh one and a span id that is not
//! set is the invalid one; the context of the active span of the ambient
//! context; or none, which makes the new span the root of a new trace.
//!
//! The new span has the trace id of its parent and names the span id of its
//! parent as its parent span. It always has a fresh span id of its own, and
//! its context is never remote. It inherits the flags of its parent, but for
//! the sampled flag, which the verdict decides, and the trace state of its
//! parent, unless the verdict set in the builder carries another.
use crate::api::attribute::{attributes_view, KeyValue};
use crate::api::context::{Context, ContextView};
use crate::api::trace::event::{events_view, Event};
use crate::api::trace::link::{links_view, Link};
use crate::api::trace::sampler::{SamplingDecision, SamplingResult, SamplingResultView};
use crate::api::trace::span::{Span, SpanKind, SpanView, StatusCode};
use crate::api::trace::span_context::{
    SpanContext,
    SpanContextView,
    SpanId,
    TraceId,
    TRACE_FLAG_SAMPLED,
};
use crate::api::trace::trace_state::{TraceState, TraceStateView};
use crate::api::trace::tracer::{SpanBuilder, SpanBuilderView};
use std::time::SystemTime;
use vstd::prelude::*;

verus! {

/// Whether the builder names the parent itself, by a parent context or by
/// identifiers, so that the ambient context is not asked.
pub open spec fn names_parent(builder: SpanBuilderView) -> bool {
    builder.parent_context is Some || builder.trace_id is Some || builder.span_id is Some
}

/// Whether starting a span from `builder` in `ambient` takes a fresh trace
/// id: the builder sets neither a parent context nor a trace id, and either
/// sets a span id or finds no active span.
pub open spec fn takes_fresh_trace_id(builder: SpanBuilderView, ambient: ContextView) -> bool {
    &&& builder.parent_context is None
    &&& builder.trace_id is None
    &&& (builder.span_id is Some || !ambient.has_active_span())
}

/// The parent of a span started from `builder` in `ambient`. `fresh` is the
/// trace id to use where a parent is made of a span id alone.
pub open spec fn resolve_parent(
    builder: SpanBuilderView,
    ambient: ContextView,
    fresh: TraceId,
) -> Option<SpanContextView> {
    if builder.parent_context is Some {
        builder.parent_context
    } else if builder.trace_id is Some || builder.span_id is Some {
        Some(
            SpanContextView {
                trace_id: match builder.trace_id {
                    Some(id) => id,
                    None => fresh,
                },
                span_id: match builder.span_id {
                    Some(id) => id,
                    None => SpanId(0),
                },
                trace_flags: 0,
                is_remote: false,
                trace_state: TraceStateView::empty(),
            },
        )
    } else if ambient.has_active_span() {
        Some(ambient.span.context)
    } else {
        None
    }
}

/// The verdict that governs a span: the one in the builder, or else the
/// sampler's, of which the trace state is not taken.
pub open spec fn effective_verdict(
    builder: SpanBuilderView,
    sampled: SamplingResultView,
) -> SamplingResultView {
    match builder.sampling_result {
        Some(result) => result,
        None => sampled.without_trace_state(),
    }
}

/// `flags` with the sampled bit as `decision` wants it and the other bits
/// unchanged.
pub open spec fn flags_after(flags: u8, decision: SamplingDecision) -> u8 {
    if decision == SamplingDecision::RecordAndSampled {
        flags | TRACE_FLAG_SAMPLED
    } else {
        flags & !TRACE_FLAG_SAMPLED
    }
}

/// The context of a new span.
pub open spec fn assemble_context(
    parent: Option<SpanContextView>,
    trace_id: TraceId,
    span_id: SpanId,
    verdict: SamplingResultView,
) -> SpanContextView {
    SpanContextView {
        trace_id: match parent {
            Some(p) => p.trace_id,
            None => trace_id,
        },
        span_id,
        trace_flags: flags_after(
            match parent {
                Some(p) => p.trace_flags,
                None => 0,
            },
            verdict.decision,
        ),
        is_remote: false,
        trace_state: match verdict.trace_state {
            Some(state) => state,
            None => match parent {
                Some(p) => p.trace_state,
                None => TraceStateView::empty(),
            },
        },
    }
}

/// The span that starts from `builder` under `parent`, with `trace_id` for
/// a root, `span_id` for the span itself, the governing `verdict`, and `now`
/// where the builder sets no start time.
pub open spec fn assemble(
    builder: SpanBuilderView,
    parent: Option<SpanContextView>,
    trace_id: TraceId,
    span_id: SpanId,
    verdict: SamplingResultView,
    now: SystemTime,
) -> SpanView {
    let recording = verdict.decision != SamplingDecision::NotRecord;
    SpanView {
        context: assemble_context(parent, trace_id, span_id, verdict),
        parent_span_id: match parent {
            Some(p) => p.span_id,
            None => SpanId(0),
        },
        kind: match builder.span_kind {
            Some(kind) => kind,
            None => SpanKind::Internal,
        },
        name: builder.name,
        start_time: Some(
            match builder.start_time {
                Some(time) => time,
                None => now,
            },
        ),
        end_time: builder.end_time,
        attributes: if recording {
            (match builder.attributes {
                Some(attributes) => attributes,
                None => Seq::empty(),
            }) + verdict.attributes
        } else {
            Seq::empty()
        },
        events: if recording {
            match builder.message_events {
                Some(events) => events,
                None => Seq::empty(),
            }
        } else {
            Seq::empty()
        },
        links: if recording {
            match builder.links {
                Some(links) => links,
                None => Seq::empty(),
            }
        } else {
            Seq::empty()
        },
        status_code: match builder.status_code {
            Some(code) => code,
            None => StatusCode::OK,
        },
        status_message: match builder.status_message {
            Some(message) => message,
            None => Seq::empty(),
        },
        recording,
        ended: false,
    }
}

/// The span that starts from `builder` in `ambient` when the generator gives
/// `trace_id` and `span_id`, the sampler gives `sampled` and the clock reads
/// `now`. The trace id and the sampler's verdict count only where the
/// builder and the ambient context leave them open.
pub open spec fn span_started(
    builder: SpanBuilderView,
    ambient: ContextView,
    trace_id: TraceId,
    span_id: SpanId,
    sampled: SamplingResultView,
    now: SystemTime,
) -> SpanView {
    assemble(
        builder,
        resolve_parent(builder, ambient, trace_id),
        trace_id,
        span_id,
        effective_verdict(builder, sampled),
        now,
    )
}

/// Whether `span` is a span that starting from `builder` in `ambient` can
/// give: for some fresh identifiers, some verdict of the sampler and some
/// reading of the clock, it is the span that starts.
pub open spec fn started_from(
    builder: SpanBuilderView,
    ambient: ContextView,
    span: SpanView,
) -> bool {
    exists|trace_id: TraceId, span_id: SpanId, sampled: SamplingResultView, now: SystemTime|
        span == #[trigger] span_started(builder, ambient, trace_id, span_id, sampled, now)
}

/// The trace state that the builder puts in place of the inherited one, if
/// it does.
pub open spec fn trace_state_override(builder: SpanBuilderView) -> Option<TraceStateView> {
    match builder.sampling_result {
        Some(result) => result.trace_state,
        None => None,
    }
}

/// A span started with no parent named in the builder and no active span
/// around it is a root: its trace id is the fresh one, it has no parent
/// span, and it inherits neither flags nor trace state.
pub proof fn lemma_root_span(
    builder: SpanBuilderView,
    ambient: ContextView,
    trace_id: TraceId,
    span_id: SpanId,
    sampled: SamplingResultView,
    now: SystemTime,
)
    requires
        !names_parent(builder),
        !ambient.has_active_span(),
    ensures
        resolve_parent(builder, ambient, trace_id) is None,
        takes_fresh_trace_id(builder, ambient),
        ({
            let span = span_started(builder, ambient, trace_id, span_id, sampled, now);
            &&& span.context.trace_id == trace_id
            &&& span.context.span_id == span_id
            &&& span.parent_span_id == SpanId(0)
            &&& !span.context.is_remote
            &&& span.context.trace_flags == flags_after(
                0,
                effective_verdict(builder, sampled).decision,
            )
            &&& span.context.trace_state == match trace_state_override(builder) {
                Some(state) => state,
                None => TraceStateView::empty(),
            }
        }),
{
}

/// A span started with no parent named in the builder and no active span
/// around it has no parent span, is not remote, and has no trace state but
/// the one that the builder may set.
pub proof fn lemma_root_has_no_parent(
    builder: SpanBuilderView,
    ambient: ContextView,
    span: SpanView,
)
    requires
        !names_parent(builder),
        !ambient.has_active_span(),
        started_from(builder, ambient, span),
    ensures
        span.parent_span_id == SpanId(0),
        !span.context.is_remote,
        span.context.trace_state == match trace_state_override(builder) {
            Some(state) => state,
            None => TraceStateView::empty(),
        },
        span.context.trace_flags & !TRACE_FLAG_SAMPLED == 0,
{
    let (trace_id, span_id, sampled, now) = choose|
        trace_id: TraceId,
        span_id: SpanId,
        sampled: SamplingResultView,
        now: SystemTime,
    |
        span == #[trigger] span_started(builder, ambient, trace_id, span_id, sampled, now);
    lemma_root_span(builder, ambient, trace_id, span_id, sampled, now);
    lemma_sampled_flag(0, effective_verdict(builder, sampled).decision);
    assert(0u8 & !1u8 == 0u8) by (bit_vector);
}

/// A span started with no parent named in the builder while a span is
/// active is a child of the active span: it has that span's trace id, names
/// that span as its parent, and has that span's trace state unless the
/// builder overrides it.
pub proof fn lemma_child_of_active_span(
    builder: SpanBuilderView,
    ambient: ContextView,
    span: SpanView,
)
    requires
        !names_parent(builder),
        ambient.has_active_span(),
        started_from(builder, ambient, span),
    ensures
        span.context.trace_id == ambient.span.context.trace_id,
        span.parent_span_id == ambient.span.context.span_id,
        span.context.trace_state == match trace_state_override(builder) {
            Some(state) => state,
            None => ambient.span.context.trace_state,
        },
{
}

/// The parent context set in the builder wins over the ambient context: the
/// span has its trace id and names it as parent, whatever is active.
pub proof fn lemma_explicit_parent_wins(
    builder: SpanBuilderView,
    ambient: ContextView,
    span: SpanView,
)
    requires
        builder.parent_context is Some,
        started_from(builder, ambient, span),
    ensures
        span.context.trace_id == builder.parent_context->0.trace_id,
        span.parent_span_id == builder.parent_context->0.span_id,
        span.context.trace_state == match trace_state_override(builder) {
            Some(state) => state,
            None => builder.parent_context->0.trace_state,
        },
{
}

/// Identifiers set in the builder, without a parent context, make the
/// parent: the span takes the trace id that is set, and names the span id
/// that is set as its parent.
pub proof fn lemma_identifiers_make_parent(
    builder: SpanBuilderView,
    ambient: ContextView,
    span: SpanView,
)
    requires
        builder.parent_context is None,
        builder.trace_id is Some || builder.span_id is Some,
        started_from(builder, ambient, span),
    ensures
        builder.trace_id is Some ==> span.context.trace_id == builder.trace_id->0,
        span.parent_span_id == match builder.span_id {
            Some(id) => id,
            None => SpanId(0),
        },
{
}

/// No span that is started here has a remote context, and every one starts
/// unended, with the name of its builder.
pub proof fn lemma_started_span_is_local(
    builder: SpanBuilderView,
    ambient: ContextView,
    span: SpanView,
)
    requires
        started_from(builder, ambient, span),
    ensures
        !span.context.is_remote,
        !span.ended,
        span.start_time is Some,
        span.name == builder.name,
{
}

/// The span id of a new span is the fresh one, whatever its parent, and a
/// trace id is taken from the generator only where the builder and the
/// ambient context give none.
pub proof fn lemma_fresh_identifiers(
    builder: SpanBuilderView,
    ambient: ContextView,
    trace_id: TraceId,
    other_trace_id: TraceId,
    span_id: SpanId,
    sampled: SamplingResultView,
    now: SystemTime,
)
    ensures
        span_started(builder, ambient, trace_id, span_id, sampled, now).context.span_id
            == span_id,
        takes_fresh_trace_id(builder, ambient) ==> span_started(
            builder,
            ambient,
            trace_id,
            span_id,
            sampled,
            now,
        ).context.trace_id == trace_id,
        !takes_fresh_trace_id(builder, ambient) ==> span_started(
            builder,
            ambient,
            trace_id,
            span_id,
            sampled,
            now,
        ) == span_started(builder, ambient, other_trace_id, span_id, sampled, now),
{
}

/// The sampled flag of a new span says whether the governing verdict is to
/// record and sample; the other flags are those of the parent.
pub proof fn lemma_sampled_flag(flags: u8, decision: SamplingDecision)
    ensures
        (flags_after(flags, decision) & TRACE_FLAG_SAMPLED == TRACE_FLAG_SAMPLED) <==> decision
            == SamplingDecision::RecordAndSampled,
        flags_after(flags, decision) & !TRACE_FLAG_SAMPLED == flags & !TRACE_FLAG_SAMPLED,
{
    assert((flags | 1u8) & 1u8 == 1u8) by (bit_vector);
    assert((flags & !1u8) & 1u8 != 1u8) by (bit_vector);
    assert((flags | 1u8) & !1u8 == flags & !1u8) by (bit_vector);
    assert((flags & !1u8) & !1u8 == flags & !1u8) by (bit_vector);
}

/// Whether starting a span from `builder` in `context` takes a fresh trace
/// id.
pub fn needs_trace_id(builder: &SpanBuilder, context: &Context) -> (needed: bool)
    ensures
        needed == takes_fresh_trace_id(builder@, context@),
{
    builder.parent_context.is_none() && builder.trace_id.is_none() && (builder.span_id.is_some()
        || !context.has_active_span())
}

/// The parent of a span started from `builder` in `context`, with
/// `fresh_trace_id` as the trace id where a parent is made of a span id
/// alone.
pub fn parent_of(builder: &SpanBuilder, context: &Context, fresh_trace_id: TraceId) -> (parent:
    Option<SpanContext>)
    ensures
        match parent {
            Some(p) => resolve_parent(builder@, context@, fresh_trace_id) == Some(p@),
            None => resolve_parent(builder@, context@, fresh_trace_id) is None,
        },
{
    match &builder.parent_context {
        Some(explicit) => Some(explicit.clone()),
        None => {
            if builder.trace_id.is_some() || builder.span_id.is_some() {
                let trace_id = match builder.trace_id {
                    Some(id) => id,
                    None => fresh_trace_id,
                };
                let span_id = match builder.span_id {
                    Some(id) => id,
                    None => SpanId::invalid(),
                };
                Some(SpanContext::new(trace_id, span_id, 0, false, TraceState::new()))
            } else if context.has_active_span() {
                Some(context.span().span_context().clone())
            } else {
                None
            }
        },
    }
}

/// The flags of a new span: the inherited ones with the sampled bit as
/// `decision` wants it.
pub fn flags_for(inherited: u8, decision: SamplingDecision) -> (flags: u8)
    ensures
        flags == flags_after(inherited, decision),
{
    match decision {
        SamplingDecision::RecordAndSampled => inherited | TRACE_FLAG_SAMPLED,
        _ => inherited & !TRACE_FLAG_SAMPLED,
    }
}

/// Starts a span: merges `builder` with the defaults, under `parent`, with
/// `trace_id` for a root and `span_id` for the span itself, as the
/// governing `verdict` has it, at `now` where the builder sets no start
/// time. The sampling result that the builder may hold is not read here:
/// `verdict` is the one that governs.
pub fn assemble_span(
    builder: SpanBuilder,
    parent: Option<SpanContext>,
    trace_id: TraceId,
    span_id: SpanId,
    verdict: SamplingResult,
    now: SystemTime,
) -> (span: Span)
    ensures
        span@ == assemble(
            builder@,
            match parent {
                Some(p) => Some(p@),
                None => None,
            },
            trace_id,
            span_id,
            verdict@,
            now,
        ),
{
    let SpanBuilder {
        parent_context: _,
        trace_id: _,
        span_id: _,
        span_kind,
        name,
        start_time,
        end_time,
        attributes,
        message_events,
        links,
        status_code,
        status_message,
        sampling_result: _,
    } = builder;
    let SamplingResult { decision, attributes: extra, trace_state: state_override } = verdict;
    let recording = match decision {
        SamplingDecision::NotRecord => false,
        _ => true,
    };
    let (own_trace_id, parent_span_id, inherited_flags, inherited_state) = match parent {
        Some(p) => (p.trace_id(), p.span_id(), p.trace_flags(), p.trace_state().clone()),
        None => (trace_id, SpanId::invalid(), 0u8, TraceState::new()),
    };
    let trace_state = match state_override {
        Some(state) => state,
        None => inherited_state,
    };
    let context = SpanContext::new(
        own_trace_id,
        span_id,
        flags_for(inherited_flags, decision),
        false,
        trace_state,
    );
    let kind = match span_kind {
        Some(kind) => kind,
        None => SpanKind::Internal,
    };
    let started_at = match start_time {
        Some(time) => time,
        None => now,
    };
    let code = match status_code {
        Some(code) => code,
        None => StatusCode::OK,
    };
    let message = match status_message {
        Some(message) => message,
        None => String::new(),
    };
    let mut kept_attributes: Vec<KeyValue> = Vec::new();
    let mut kept_events: Vec<Event> = Vec::new();
    let mut kept_links: Vec<Link> = Vec::new();
    if recording {
        let mut extra = extra;
        if let Some(own) = attributes {
            kept_attributes = own;
        }
        let ghost own = kept_attributes@;
        let ghost added = extra@;
        kept_attributes.append(&mut extra);
        assert(attributes_view(kept_attributes@) =~= attributes_view(own) + attributes_view(added));
        if let Some(events) = message_events {
            kept_events = events;
        }
        if let Some(links) = links {
            kept_links = links;
        }
    }
    assert(!recording ==> attributes_view(kept_attributes@) =~= Seq::empty());
    assert(!recording || builder@.message_events is None ==> events_view(kept_events@)
        =~= Seq::empty());
    assert(!recording || builder@.links is None ==> links_view(kept_links@) =~= Seq::empty());
    Span::started(
        context,
        parent_span_id,
        kind,
        name,
        started_at,
        end_time,
        kept_attributes,
        kept_events,
        kept_links,
        code,
        message,
        recording,
    )
}

} // verus!
