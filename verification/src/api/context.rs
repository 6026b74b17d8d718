//! The ambient context and its scoped activation.
//!
//! A [`Context`] is an immutable snapshot of ambient state: the active span,
//! and the context that it was derived from. Each thread of control has one
//! [`CurrentContext`], the cell that says which context is current.
//! [`Context::attach`] makes a context current and hands back a
//! [`ContextGuard`] that owns the context it displaced; releasing the guard
//! puts exactly that context back, whatever is current by then.
use crate::api::trace::span::{Span, SpanView};
use vstd::prelude::*;

verus! {

/// The mathematical value of a [`Context`].
pub struct ContextView {
    /// The active span, or the invalid span where there is none.
    pub span: SpanView,
    /// The context that this one was derived from, if it was derived.
    pub previous: Option<Box<ContextView>>,
}

impl ContextView {
    /// The context of a thread of control in which nothing was activated:
    /// no active span and no predecessor.
    pub open spec fn empty() -> ContextView {
        ContextView { span: SpanView::invalid(), previous: None }
    }

    /// The context derived from this one with `span` as its active span.
    pub open spec fn with_span(self, span: SpanView) -> ContextView {
        ContextView { span, previous: Some(Box::new(self)) }
    }

    /// Whether the context has an active span: one with a valid context.
    pub open spec fn has_active_span(self) -> bool {
        self.span.context.valid()
    }
}

/// An immutable snapshot of ambient state. It holds the active span as that
/// span was when the context was made; what is done to the span afterwards
/// does not show here, and never touches the identity that new spans take
/// from it. The predecessor is part of the snapshot, and no function hands
/// it out.
#[derive(Debug, PartialEq)]
pub struct Context {
    span: Span,
    previous: Option<Box<Context>>,
}

impl Context {
    /// The mathematical value of the context, predecessors included.
    pub closed spec fn snapshot(&self) -> ContextView
        decreases self,
    {
        ContextView {
            span: self.span@,
            previous: match self.previous {
                Some(previous) => Some(Box::new(previous.snapshot())),
                None => None,
            },
        }
    }
}

impl View for Context {
    type V = ContextView;

    open spec fn view(&self) -> ContextView {
        self.snapshot()
    }
}

impl Clone for Context {
    fn clone(&self) -> (copy: Context)
        ensures
            copy@ == self@,
        decreases self,
    {
        Context {
            span: self.span.clone(),
            previous: match &self.previous {
                Some(previous) => Some(Box::new((&**previous).clone())),
                None => None,
            },
        }
    }
}

/// The cell that holds the current context of one thread of control.
#[derive(Debug, PartialEq)]
pub struct CurrentContext {
    current: Context,
}

impl View for CurrentContext {
    type V = ContextView;

    closed spec fn view(&self) -> ContextView {
        self.current@
    }
}

impl CurrentContext {
    /// The cell of a thread of control in which nothing was activated yet:
    /// it holds the empty context.
    pub fn new() -> (cell: CurrentContext)
        ensures
            cell@ == ContextView::empty(),
    {
        CurrentContext { current: Context::new() }
    }

    /// The context that is current.
    pub fn get(&self) -> (context: &Context)
        ensures
            context@ == self@,
    {
        &self.current
    }
}

/// Why a guard could not be released.
#[derive(Clone, Copy, Debug, PartialEq, Eq, Structural)]
pub enum GuardError {
    /// The guard had been released before.
    AlreadyReleased,
}

/// The mathematical value of a [`ContextGuard`].
pub struct ContextGuardView {
    /// The context that was current just before the guard was made. It is
    /// there until the guard is released.
    pub previous: Option<ContextView>,
}

impl ContextGuardView {
    /// The guard that an activation gives when it displaces `displaced`.
    pub open spec fn holding(displaced: ContextView) -> ContextGuardView {
        ContextGuardView { previous: Some(displaced) }
    }

    /// Whether the guard has been released.
    pub open spec fn released(self) -> bool {
        self.previous is None
    }

    /// The guard after an attempt to release it.
    pub open spec fn spent(self) -> ContextGuardView {
        ContextGuardView { previous: None }
    }

    /// The context that is current after an attempt to release this guard
    /// while `current` is current: the one that the guard holds, unless the
    /// guard had been released before.
    pub open spec fn restore(self, current: ContextView) -> ContextView {
        match self.previous {
            Some(captured) => captured,
            None => current,
        }
    }
}

/// The token of one activation. It owns the context that was current just
/// before, and its release puts that context back.
#[derive(Debug, PartialEq)]
pub struct ContextGuard {
    previous: Option<Context>,
}

impl View for ContextGuard {
    type V = ContextGuardView;

    closed spec fn view(&self) -> ContextGuardView {
        ContextGuardView {
            previous: match self.previous {
                Some(captured) => Some(captured@),
                None => None,
            },
        }
    }
}

impl Context {
    /// The empty context: no active span and no predecessor.
    pub fn new() -> (context: Context)
        ensures
            context@ == ContextView::empty(),
            !context@.has_active_span(),
    {
        Context { span: Span::invalid(), previous: None }
    }

    /// A copy of the context that is current in `cell`.
    pub fn current(cell: &CurrentContext) -> (context: Context)
        ensures
            context@ == cell@,
    {
        cell.current.clone()
    }

    /// A context derived from the current one, with `span` as its active
    /// span. The cell is not changed.
    pub fn current_with_span(cell: &CurrentContext, span: Span) -> (context: Context)
        ensures
            context@ == cell@.with_span(span@),
    {
        cell.current.with_span(span)
    }

    /// A context derived from this one, with `span` as its active span.
    pub fn with_span(&self, span: Span) -> (context: Context)
        ensures
            context@ == self@.with_span(span@),
    {
        Context { span, previous: Some(Box::new(self.clone())) }
    }

    /// The active span, or the invalid span where there is none.
    pub fn span(&self) -> (span: &Span)
        ensures
            span@ == self@.span,
    {
        &self.span
    }

    /// Whether the context has an active span.
    pub fn has_active_span(&self) -> (active: bool)
        ensures
            active == self@.has_active_span(),
    {
        self.span.span_context().is_valid()
    }

    /// Makes this context the current one of `cell`. The guard that comes
    /// back holds the context that was current until now.
    pub fn attach(self, cell: &mut CurrentContext) -> (guard: ContextGuard)
        ensures
            final(cell)@ == self@,
            guard@ == ContextGuardView::holding(old(cell)@),
    {
        let mut displaced = self;
        std::mem::swap(&mut displaced, &mut cell.current);
        ContextGuard { previous: Some(displaced) }
    }
}

impl ContextGuard {
    /// The context that the release of this guard puts back, or nothing
    /// once the guard has been released.
    pub fn previous(&self) -> (context: Option<&Context>)
        ensures
            match context {
                Some(captured) => self@.previous == Some(captured@),
                None => self@.previous is None,
            },
    {
        self.previous.as_ref()
    }

    /// Whether the guard has been released.
    pub fn is_released(&self) -> (released: bool)
        ensures
            released == self@.released(),
    {
        self.previous.is_none()
    }

    /// Releases the guard: the context it holds becomes the current one of
    /// `cell`, whatever is current now. A guard can be released once; a
    /// second release is an error and leaves the cell as it is.
    pub fn release(&mut self, cell: &mut CurrentContext) -> (result: Result<(), GuardError>)
        ensures
            final(self)@ == old(self)@.spent(),
            final(cell)@ == old(self)@.restore(old(cell)@),
            result == if old(self)@.released() {
                Err::<(), GuardError>(GuardError::AlreadyReleased)
            } else {
                Ok::<(), GuardError>(())
            },
    {
        match self.previous.take() {
            Some(captured) => {
                cell.current = captured;
                Ok(())
            },
            None => Err(GuardError::AlreadyReleased),
        }
    }
}

/// What one thread of control holds while scopes are open: the context that
/// is current and the guards that have not been released, innermost last.
pub struct Activations {
    pub current: ContextView,
    pub guards: Seq<ContextGuardView>,
}

/// One step of a thread of control that opens and closes scopes in strict
/// nesting order.
pub enum ScopeStep {
    /// A context is attached; its guard becomes the innermost one.
    Attach(ContextView),
    /// The innermost guard is released.
    Release,
}

impl Activations {
    /// The state after one step. A release with no guard in hand does
    /// nothing.
    pub open spec fn step(self, step: ScopeStep) -> Activations {
        match step {
            ScopeStep::Attach(context) => Activations {
                current: context,
                guards: self.guards.push(ContextGuardView::holding(self.current)),
            },
            ScopeStep::Release => if self.guards.len() > 0 {
                Activations {
                    current: self.guards.last().restore(self.current),
                    guards: self.guards.drop_last(),
                }
            } else {
                self
            },
        }
    }

    /// The state after the given steps, in order.
    pub open spec fn run(self, steps: Seq<ScopeStep>) -> Activations
        decreases steps.len(),
    {
        if steps.len() == 0 {
            self
        } else {
            self.run(steps.drop_last()).step(steps.last())
        }
    }

    /// The guards in hand, with the current context as if it were held
    /// innermost: the contexts to go back to, outermost first.
    pub open spec fn chain(self) -> Seq<ContextView> {
        Seq::new(self.guards.len(), |i: int| self.guards[i].restore(self.current)).push(
            self.current,
        )
    }
}

/// The number of scopes that `steps` leaves open: attachments less releases.
pub open spec fn open_scopes(steps: Seq<ScopeStep>) -> int
    decreases steps.len(),
{
    if steps.len() == 0 {
        0
    } else {
        open_scopes(steps.drop_last()) + match steps.last() {
            ScopeStep::Attach(_) => 1int,
            ScopeStep::Release => -1int,
        }
    }
}

/// Whether `steps` only ever releases what it attached: at no point have
/// more scopes been closed than opened.
pub open spec fn well_nested(steps: Seq<ScopeStep>) -> bool {
    forall|k: int| 0 <= k <= steps.len() ==> open_scopes(#[trigger] steps.take(k)) >= 0
}

/// Whether no guard in hand has been released.
pub open spec fn all_unreleased(guards: Seq<ContextGuardView>) -> bool {
    forall|i: int| 0 <= i < guards.len() ==> !(#[trigger] guards[i]).released()
}

/// Steps that only release what they attached leave what was there before
/// untouched: the guards that were in hand are still in hand, followed by
/// one guard for each scope that is still open, and the context that was
/// current is the one that the first of those returns to.
proof fn lemma_well_nested_keeps_outer(state: Activations, steps: Seq<ScopeStep>)
    requires
        well_nested(steps),
        all_unreleased(state.guards),
    ensures
        all_unreleased(state.run(steps).guards),
        state.run(steps).guards.len() == state.guards.len() + open_scopes(steps),
        state.run(steps).guards.take(state.guards.len() as int) == state.guards,
        state.run(steps).chain().take(state.guards.len() as int + 1) == state.chain(),
    decreases steps.len(),
{
    if steps.len() > 0 {
        let shorter = steps.drop_last();
        assert forall|k: int| 0 <= k <= shorter.len() implies open_scopes(
            #[trigger] shorter.take(k),
        ) >= 0 by {
            assert(shorter.take(k) == steps.take(k));
        }
        assert(steps.take(steps.len() as int) == steps);
        lemma_well_nested_keeps_outer(state, shorter);
    }
}

/// Scopes that are opened and closed in strict nesting order restore the
/// context: once every scope that was opened has been closed, the context
/// that was current before the first attachment is current again, and the
/// guards that were in hand before are those in hand now.
pub proof fn lemma_nested_scopes_restore(state: Activations, steps: Seq<ScopeStep>)
    requires
        well_nested(steps),
        open_scopes(steps) == 0,
        all_unreleased(state.guards),
    ensures
        state.run(steps) == state,
{
    lemma_well_nested_keeps_outer(state, steps);
    let end = state.run(steps);
    let n = state.guards.len() as int;
    assert(end.guards =~= end.guards.take(n));
    assert(state.chain().last() == state.current);
}

/// A release restores what its guard captured, not what is on top: after
/// two guards are released in either order, the context that is current is
/// the one that the guard released last had captured.
pub proof fn lemma_release_restores_captured(
    current: ContextView,
    first: ContextGuardView,
    second: ContextGuardView,
)
    requires
        !first.released(),
        !second.released(),
    ensures
        first.previous == Some(first.restore(current)),
        second.previous == Some(second.restore(first.restore(current))),
        first.previous == Some(first.restore(second.restore(current))),
{
}

/// A guard that was released once changes nothing when it is released
/// again.
pub proof fn lemma_second_release_changes_nothing(current: ContextView, guard: ContextGuardView)
    ensures
        guard.spent().restore(current) == current,
        guard.spent().spent() == guard.spent(),
{
}

/// A deferred computation together with the context in which each of its
/// steps is to run.
///
/// A computation that is driven in several steps, with other work in
/// between and perhaps on different threads of control, must not hold one
/// activation open from its first step to its last. [`WithContext::step`]
/// attaches the captured context at the start of one step and releases it
/// before the step returns, in the cell of the thread of control that
/// drives that step.
#[derive(Debug)]
pub struct WithContext<T> {
    inner: T,
    context: Context,
}

impl<T> WithContext<T> {
    /// The computation that is wrapped.
    pub closed spec fn computation(&self) -> T {
        self.inner
    }

    /// The context that was captured.
    pub closed spec fn captured(&self) -> ContextView {
        self.context@
    }

    /// Wraps `inner`, to run each of its steps in `context`.
    pub fn new(inner: T, context: Context) -> (wrapped: Self)
        ensures
            wrapped.computation() == inner,
            wrapped.captured() == context@,
    {
        WithContext { inner, context }
    }

    /// The context that was captured.
    pub fn context(&self) -> (context: &Context)
        ensures
            context@ == self.captured(),
    {
        &self.context
    }

    /// Gives the computation back.
    pub fn into_inner(self) -> (inner: T)
        ensures
            inner == self.computation(),
    {
        self.inner
    }

    /// Runs one step of the computation in the captured context: attaches
    /// the context in `cell`, calls `advance` on the computation, and
    /// releases the guard before it returns. Afterwards the context that
    /// was current before the call is current again, whatever the step did
    /// to the cell.
    pub fn step<R, F>(&mut self, cell: &mut CurrentContext, advance: F) -> (result: R) where
        F: FnOnce(&mut CurrentContext, &mut T) -> R,

        requires
            forall|inner: &mut CurrentContext, computation: &mut T|
                (*inner)@ == old(self).captured() && *computation == old(self).computation()
                    ==> #[trigger] advance.requires((inner, computation)),
        ensures
            final(cell)@ == old(cell)@,
            final(self).captured() == old(self).captured(),
            exists|inner: &mut CurrentContext, computation: &mut T|
                (*inner)@ == old(self).captured() && *computation == old(self).computation()
                    && *final(computation) == final(self).computation()
                    && #[trigger] advance.ensures((inner, computation), result),
    {
        let mut guard = self.context.clone().attach(cell);
        let result = advance(cell, &mut self.inner);
        let _ = guard.release(cell);
        result
    }
}

} // verus!
