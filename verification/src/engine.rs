//! The capability contract a template-rendering backend satisfies, and the
//! error unifier that lifts backend failures into a shared error domain.

use vstd::prelude::*;
use crate::media::MediaType;

verus! {

/// The operations a rendering backend exposes.
///
/// A capability declares which context types it accepts by choosing `Ctx`;
/// a single backend may implement the contract for several context types.
/// Rendering is synchronous: a backend that needs asynchronous work must
/// perform it before the context value is produced, never during `render`.
///
/// The two spec functions bound what a render call may return: every
/// successful body satisfies `ok_body`, every error satisfies `fail_with`.
/// A backend with deterministic rendering pins them down to a single
/// outcome; a backend whose templates may consult outside state (a clock, a
/// custom helper) leaves them loose, and callers learn correspondingly less.
pub trait EngineImpl<Ctx>: Sized {
    /// The backend-specific render error.
    type Error;

    /// Which bodies a successful render of `ctx` may produce.
    spec fn ok_body(&self, ctx: Ctx, body: Seq<char>) -> bool;

    /// Which errors a failed render of `ctx` may produce.
    spec fn fail_with(&self, ctx: Ctx, err: Self::Error) -> bool;

    /// The backend's content-type opinion for `ctx`, if it has one.
    spec fn hint_spec(&self, ctx: Ctx) -> Option<Seq<char>>;

    /// The backend's optional content-type suggestion; `None` means the
    /// backend has no opinion.
    fn content_type_hint(&self, ctx: &Ctx) -> (r: Option<MediaType>)
        ensures
            (r matches Some(m) ==> self.hint_spec(*ctx) == Some(m@)),
            (r is None ==> self.hint_spec(*ctx) is None),
    ;

    /// Renders the context value into a body, or fails with a
    /// backend-specific error. Must not mutate shared backend state: the
    /// capability is shared read-only across concurrent renders.
    fn render(&self, ctx: Ctx) -> (r: Result<String, Self::Error>)
        ensures
            (r matches Ok(b) ==> self.ok_body(ctx, b@)),
            (r matches Err(e) ==> self.fail_with(ctx, e)),
    ;
}

/// Marker for backends usable by a renderer with context type `Ctx`.
pub trait Engine<Ctx>: EngineImpl<Ctx> {}

impl<Ctx, E: EngineImpl<Ctx>> EngineImpl<Ctx> for Box<E> {
    type Error = <E as EngineImpl<Ctx>>::Error;

    open spec fn ok_body(&self, ctx: Ctx, body: Seq<char>) -> bool {
        (**self).ok_body(ctx, body)
    }

    open spec fn fail_with(&self, ctx: Ctx, err: <E as EngineImpl<Ctx>>::Error) -> bool {
        (**self).fail_with(ctx, err)
    }

    open spec fn hint_spec(&self, ctx: Ctx) -> Option<Seq<char>> {
        (**self).hint_spec(ctx)
    }

    fn content_type_hint(&self, ctx: &Ctx) -> (r: Option<MediaType>) {
        (**self).content_type_hint(ctx)
    }

    fn render(&self, ctx: Ctx) -> (r: Result<String, <E as EngineImpl<Ctx>>::Error>) {
        (**self).render(ctx)
    }
}

impl<Ctx, E: Engine<Ctx>> Engine<Ctx> for Box<E> {}

impl<Ctx, E: EngineImpl<Ctx>> EngineImpl<Ctx> for std::rc::Rc<E> {
    type Error = <E as EngineImpl<Ctx>>::Error;

    open spec fn ok_body(&self, ctx: Ctx, body: Seq<char>) -> bool {
        (**self).ok_body(ctx, body)
    }

    open spec fn fail_with(&self, ctx: Ctx, err: <E as EngineImpl<Ctx>>::Error) -> bool {
        (**self).fail_with(ctx, err)
    }

    open spec fn hint_spec(&self, ctx: Ctx) -> Option<Seq<char>> {
        (**self).hint_spec(ctx)
    }

    fn content_type_hint(&self, ctx: &Ctx) -> (r: Option<MediaType>) {
        (**self).content_type_hint(ctx)
    }

    fn render(&self, ctx: Ctx) -> (r: Result<String, <E as EngineImpl<Ctx>>::Error>) {
        (**self).render(ctx)
    }
}

impl<Ctx, E: Engine<Ctx>> Engine<Ctx> for std::rc::Rc<E> {}

impl<Ctx, E: EngineImpl<Ctx>> EngineImpl<Ctx> for std::sync::Arc<E> {
    type Error = <E as EngineImpl<Ctx>>::Error;

    open spec fn ok_body(&self, ctx: Ctx, body: Seq<char>) -> bool {
        (**self).ok_body(ctx, body)
    }

    open spec fn fail_with(&self, ctx: Ctx, err: <E as EngineImpl<Ctx>>::Error) -> bool {
        (**self).fail_with(ctx, err)
    }

    open spec fn hint_spec(&self, ctx: Ctx) -> Option<Seq<char>> {
        (**self).hint_spec(ctx)
    }

    fn content_type_hint(&self, ctx: &Ctx) -> (r: Option<MediaType>) {
        (**self).content_type_hint(ctx)
    }

    fn render(&self, ctx: Ctx) -> (r: Result<String, <E as EngineImpl<Ctx>>::Error>) {
        (**self).render(ctx)
    }
}

impl<Ctx, E: Engine<Ctx>> Engine<Ctx> for std::sync::Arc<E> {}

/// Whether the capability's successful render of `ctx` is pinned to a single
/// body. Deterministic backends satisfy this for every context value.
pub open spec fn functional_capability<Ctx, Eng: EngineImpl<Ctx>>(engine: Eng, ctx: Ctx) -> bool {
    forall|b1: Seq<char>, b2: Seq<char>|
        #[trigger] engine.ok_body(ctx, b1) && #[trigger] engine.ok_body(ctx, b2) ==> b1 == b2
}

/// The shared error domain: a pipeline failure wrapping a backend-specific
/// cause, losslessly.
#[derive(Debug, PartialEq, Eq)]
pub struct Unified<B> {
    /// The original backend error, retained unchanged.
    pub cause: B,
}

/// The error unifier: maps a backend's error representation into the
/// pipeline's shared error domain `P`. The conversion is lossless — the
/// original error is retained as the cause.
pub trait IntoUnified<P>: Sized {
    /// The pipeline error this backend error unifies into.
    spec fn unified(self) -> P;

    /// Performs the conversion.
    fn into_unified(self) -> (r: P)
        ensures
            r == self.unified(),
    ;
}

impl<B> IntoUnified<Unified<B>> for B {
    open spec fn unified(self) -> Unified<B> {
        Unified { cause: self }
    }

    fn into_unified(self) -> (r: Unified<B>) {
        Unified { cause: self }
    }
}

/// Law: unification is lossless. Two backend errors with the same unified
/// image are the same error, so the cause identifies the original failure.
pub proof fn lemma_unify_lossless<B>(e1: B, e2: B)
    requires
        e1.unified() == e2.unified(),
    ensures
        e1 == e2,
{
}

} // verus!
