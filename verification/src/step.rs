//! Composition of a renderer over an existing pipeline step, and the poll
//! protocol of the composed step.
//!
//! The composed step is a two-phase machine. In the wait phase it suspends
//! until the wrapped step's asynchronous resolution reports an outcome; the
//! host performs that poll and hands the outcome in. In the render phase —
//! entered only once a context value is available — the renderer is invoked
//! synchronously and the response is finalized. An inner failure is
//! propagated verbatim, and the renderer is never invoked for it.

use vstd::prelude::*;
use crate::engine::{Engine, EngineImpl, IntoUnified};
use crate::renderer::{Renderer, render_response_post};
use crate::response::Response;

verus! {

/// What one poll of a step reported: still pending, a resolved value, or a
/// failure.
#[derive(Debug, PartialEq, Eq)]
pub enum PollOutcome<T, P> {
    /// The step has not resolved yet.
    NotReady,
    /// The step resolved to a value.
    Ready(T),
    /// The step failed.
    Failed(P),
}

/// The fixed, empty context supplied when a bare renderer stands in as a
/// complete step with no dynamic context.
#[derive(Debug, Clone, Copy, PartialEq, Eq, Structural)]
pub struct DummyContext;

impl Default for DummyContext {
    fn default() -> (r: DummyContext)
        ensures
            r == DummyContext,
    {
        DummyContext
    }
}

/// A pipeline step that waits for an inner step's context value and renders
/// it into a response. Owns the inner step and the renderer; stateless
/// between invocations.
#[derive(Debug)]
pub struct RenderEndpoint<Eng, E> {
    renderer: Renderer<Eng>,
    endpoint: E,
}

impl<Eng> Renderer<Eng> {
    /// Lifts this renderer over an existing step: the returned composed step
    /// produces a response from the context value the inner step resolves.
    /// Pure construction — no work is performed here.
    pub fn wrap<E>(self, endpoint: E) -> (r: RenderEndpoint<Eng, E>)
        ensures
            r.renderer_spec() == self,
            r.endpoint_spec() == endpoint,
    {
        RenderEndpoint { renderer: self, endpoint }
    }

    /// Lets a bare renderer stand in as a complete step, supplying the fixed
    /// empty context in place of an inner step's value.
    pub fn into_endpoint(self) -> (r: RenderEndpoint<Eng, DummyContext>)
        ensures
            r.renderer_spec() == self,
            r.endpoint_spec() == DummyContext,
    {
        RenderEndpoint { renderer: self, endpoint: DummyContext }
    }
}

impl<Eng, E> RenderEndpoint<Eng, E> {
    /// The renderer this step applies.
    pub closed spec fn renderer_spec(self) -> Renderer<Eng> {
        self.renderer
    }

    /// The wrapped inner step.
    pub closed spec fn endpoint_spec(self) -> E {
        self.endpoint
    }

    /// The renderer, by reference.
    pub fn renderer(&self) -> (r: &Renderer<Eng>)
        ensures
            *r == self.renderer_spec(),
    {
        &self.renderer
    }

    /// The wrapped inner step, by reference.
    pub fn endpoint(&self) -> (r: &E)
        ensures
            *r == self.endpoint_spec(),
    {
        &self.endpoint
    }

    /// Begins serving one request: pairs this step's renderer with the
    /// request's in-flight inner step, producing the transient per-request
    /// suspension. Pure construction — nothing is polled here.
    pub fn apply<'a, F>(&'a self, future: F) -> (r: RenderFuture<'a, Eng, F>)
        ensures
            *r.renderer_ref_spec() == self.renderer_spec(),
            r.future_spec() == future,
    {
        RenderFuture { future, renderer: &self.renderer }
    }

    /// One turn of the composed step, given what polling the inner step
    /// reported.
    ///
    /// While the inner step is pending, the composed step is pending. If the
    /// inner step failed, its failure is propagated verbatim and the renderer
    /// is not invoked. Once the inner step resolves a context value, the
    /// render phase runs synchronously to completion: the outcome is the
    /// rendered response, or the backend's error unified into the shared
    /// domain.
    pub fn poll_future<Ctx, P>(&self, inner: PollOutcome<Ctx, P>) -> (r: PollOutcome<Response, P>)
        where
            Eng: Engine<Ctx>,
            <Eng as EngineImpl<Ctx>>::Error: IntoUnified<P>,
        ensures
            (inner is NotReady ==> r is NotReady),
            (inner matches PollOutcome::Failed(p) ==> r == PollOutcome::<Response, P>::Failed(p)),
            (inner matches PollOutcome::Ready(ctx) ==> match r {
                PollOutcome::Ready(resp) => render_response_post(
                    self.renderer_spec(),
                    ctx,
                    Ok::<Response, P>(resp),
                ),
                PollOutcome::Failed(p) => render_response_post(
                    self.renderer_spec(),
                    ctx,
                    Err::<Response, P>(p),
                ),
                PollOutcome::NotReady => false,
            }),
    {
        match inner {
            PollOutcome::NotReady => PollOutcome::NotReady,
            PollOutcome::Failed(p) => PollOutcome::Failed(p),
            PollOutcome::Ready(ctx) => match self.renderer.render_response(ctx) {
                Ok(resp) => PollOutcome::Ready(resp),
                Err(p) => PollOutcome::Failed(p),
            },
        }
    }
}

/// The per-request suspension of a composed step: the in-flight inner step
/// paired with a reference to the immutable renderer. Transient — it lives
/// only until a response or a failure is produced. Dropping it before the
/// render phase begins cancels the request; once the render phase has
/// started, it runs to completion.
#[derive(Debug)]
pub struct RenderFuture<'a, Eng, F> {
    future: F,
    renderer: &'a Renderer<Eng>,
}

impl<'a, Eng, F> RenderFuture<'a, Eng, F> {
    /// The renderer this suspension will apply.
    pub closed spec fn renderer_ref_spec(self) -> &'a Renderer<Eng> {
        self.renderer
    }

    /// The in-flight inner step.
    pub closed spec fn future_spec(self) -> F {
        self.future
    }

    /// Takes the suspension apart: the in-flight inner step, to be polled by
    /// the host, and the renderer it was paired with.
    pub fn into_parts(self) -> (r: (F, &'a Renderer<Eng>))
        ensures
            r.0 == self.future_spec(),
            r.1 == self.renderer_ref_spec(),
    {
        let RenderFuture { future, renderer } = self;
        (future, renderer)
    }

    /// One turn of the suspension, given what polling the inner step
    /// reported: the wait phase while the inner step is pending, verbatim
    /// propagation of an inner failure, and otherwise the synchronous render
    /// phase.
    pub fn poll<Ctx, P>(&self, inner: PollOutcome<Ctx, P>) -> (r: PollOutcome<Response, P>)
        where
            Eng: Engine<Ctx>,
            <Eng as EngineImpl<Ctx>>::Error: IntoUnified<P>,
        ensures
            (inner is NotReady ==> r is NotReady),
            (inner matches PollOutcome::Failed(p) ==> r == PollOutcome::<Response, P>::Failed(p)),
            (inner matches PollOutcome::Ready(ctx) ==> match r {
                PollOutcome::Ready(resp) => render_response_post(
                    *self.renderer_ref_spec(),
                    ctx,
                    Ok::<Response, P>(resp),
                ),
                PollOutcome::Failed(p) => render_response_post(
                    *self.renderer_ref_spec(),
                    ctx,
                    Err::<Response, P>(p),
                ),
                PollOutcome::NotReady => false,
            }),
    {
        match inner {
            PollOutcome::NotReady => PollOutcome::NotReady,
            PollOutcome::Failed(p) => PollOutcome::Failed(p),
            PollOutcome::Ready(ctx) => match self.renderer.render_response(ctx) {
                Ok(resp) => PollOutcome::Ready(resp),
                Err(p) => PollOutcome::Failed(p),
            },
        }
    }
}

} // verus!
