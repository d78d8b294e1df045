//! The renderer: an immutable binding of a rendering capability to an
//! optional template name and an optional explicit content-type override.
//!
//! A renderer is created once at setup time and shared read-only across all
//! requests that use it; rendering never mutates it.

use vstd::prelude::*;
use crate::engine::{Engine, EngineImpl, IntoUnified, functional_capability};
use crate::media::{
    MediaType, guess_media_type, guess_of, media_opt_view, resolve_media_type,
    resolved_media_type,
};
use crate::response::{Response, is_rendered_response};

verus! {

/// A reusable binding of a rendering capability.
///
/// For name-addressed, multi-template backends the template name doubles as
/// the source of the content-type guess: the guess is derived from the name's
/// file extension once, at construction time.
#[derive(Debug)]
pub struct Renderer<Eng> {
    engine: Eng,
    name: Option<String>,
    content_type: Option<MediaType>,
    guess: Option<String>,
}

/// Creates a renderer from a capability alone, with no template name and no
/// explicit content-type override.
pub fn renderer<Eng>(engine: Eng) -> (r: Renderer<Eng>)
    ensures
        r.engine_spec() == engine,
        r.name_spec() is None,
        r.content_type_spec() is None,
{
    Renderer { engine, name: None, content_type: None, guess: None }
}

impl<Eng> Renderer<Eng> {
    #[verifier::type_invariant]
    spec fn wf(self) -> bool {
        match self.name {
            Some(n) => match self.guess {
                Some(g) => guess_of(n@) == Some(g@),
                None => guess_of(n@) is None,
            },
            None => self.guess is None,
        }
    }

    /// The bound capability.
    pub closed spec fn engine_spec(self) -> Eng {
        self.engine
    }

    /// The template name, for name-addressed backends.
    pub closed spec fn name_spec(self) -> Option<Seq<char>> {
        match self.name {
            Some(n) => Some(n@),
            None => None,
        }
    }

    /// The explicit content-type override, if one was set.
    pub closed spec fn content_type_spec(self) -> Option<Seq<char>> {
        match self.content_type {
            Some(m) => Some(m@),
            None => None,
        }
    }

    /// The content-type guess derived from the template name's extension.
    pub open spec fn guess_spec(self) -> Option<Seq<char>> {
        match self.name_spec() {
            Some(n) => guess_of(n),
            None => None,
        }
    }

    /// The content type this renderer resolves, given the backend's hint:
    /// explicit override, else hint, else guess from the name, else default.
    pub open spec fn resolved_spec(self, hint: Option<Seq<char>>) -> Seq<char> {
        resolved_media_type(self.content_type_spec(), hint, self.guess_spec())
    }

    /// Creates a renderer bound to a template name; the content-type guess is
    /// derived from the name eagerly, at construction time.
    pub fn new(engine: Eng, name: String) -> (r: Renderer<Eng>)
        ensures
            r.engine_spec() == engine,
            r.name_spec() == Some(name@),
            r.content_type_spec() is None,
    {
        let guess = guess_media_type(name.as_str());
        Renderer { engine, name: Some(name), content_type: None, guess }
    }

    /// Sets an explicit content type for the generated content, superseding
    /// any backend hint and any guess from the template name.
    pub fn content_type(self, content_type: MediaType) -> (r: Renderer<Eng>)
        ensures
            r.engine_spec() == self.engine_spec(),
            r.name_spec() == self.name_spec(),
            r.content_type_spec() == Some(content_type@),
    {
        proof {
            use_type_invariant(&self);
        }
        Renderer { content_type: Some(content_type), ..self }
    }

    /// Replaces the explicit content type in place, superseding any backend
    /// hint and any guess from the template name.
    pub fn set_content_type(&mut self, content_type: MediaType)
        ensures
            final(self).engine_spec() == old(self).engine_spec(),
            final(self).name_spec() == old(self).name_spec(),
            final(self).content_type_spec() == Some(content_type@),
    {
        proof {
            use_type_invariant(&*self);
        }
        self.content_type = Some(content_type);
    }

    /// The bound capability, by reference.
    pub fn engine(&self) -> (r: &Eng)
        ensures
            *r == self.engine_spec(),
    {
        &self.engine
    }

    /// Resolves the final content type for a response, given the backend's
    /// hint. Pure and deterministic in the renderer and the hint; it never
    /// inspects a rendered body.
    fn resolve(&self, hint: &Option<MediaType>) -> (r: String)
        ensures
            r@ == self.resolved_spec(media_opt_view(*hint)),
    {
        proof {
            use_type_invariant(&*self);
        }
        resolve_media_type(&self.content_type, hint, &self.guess)
    }

    /// Renders a context value into a complete response.
    ///
    /// On success the response wraps the body exactly as the backend produced
    /// it, with the resolved content-type header set exactly once. On failure
    /// the backend's error is converted into the shared error domain and
    /// returned; there is no retry and no partial output.
    pub fn render_response<Ctx, P>(&self, ctx: Ctx) -> (r: Result<Response, P>)
        where
            Eng: Engine<Ctx>,
            <Eng as EngineImpl<Ctx>>::Error: IntoUnified<P>,
        ensures
            render_response_post(*self, ctx, r),
            (forall|e: <Eng as EngineImpl<Ctx>>::Error|
                !(#[trigger] self.engine_spec().fail_with(ctx, e))) ==> r is Ok,
    {
        let hint = self.engine.content_type_hint(&ctx);
        match self.engine.render(ctx) {
            Ok(body) => {
                let content_type = self.resolve(&hint);
                Ok(Response::new(body, content_type))
            },
            Err(e) => Err(e.into_unified()),
        }
    }
}

/// What `render_response` guarantees of its outcome `r` for the renderer
/// `ren` applied to the context value `ctx`.
///
/// On success, the response body is one the capability's render may produce
/// for `ctx`, and the content-type header is set exactly once, to the
/// renderer's resolved type. On failure, the error is the unified image of an
/// error the capability's render may produce.
pub open spec fn render_response_post<Ctx, Eng, P>(
    ren: Renderer<Eng>,
    ctx: Ctx,
    r: Result<Response, P>,
) -> bool
    where
        Eng: EngineImpl<Ctx>,
        <Eng as EngineImpl<Ctx>>::Error: IntoUnified<P>,
{
    match r {
        Ok(resp) => {
            &&& ren.engine_spec().ok_body(ctx, resp.body@)
            &&& is_rendered_response(
                resp,
                resp.body@,
                ren.resolved_spec(ren.engine_spec().hint_spec(ctx)),
            )
        },
        Err(p) => exists|e: <Eng as EngineImpl<Ctx>>::Error|
            #![trigger e.unified()]
            ren.engine_spec().fail_with(ctx, e) && p == e.unified(),
    }
}

/// Law: rendering is repeatable. With one renderer and equal context values,
/// two successful outcomes carry identical content-type headers; and when the
/// capability's successful body is pinned down (as it is for any
/// deterministic backend), the bodies are identical as well.
pub proof fn lemma_render_response_idempotent<Ctx, Eng, P>(
    ren: Renderer<Eng>,
    ctx1: Ctx,
    ctx2: Ctx,
    r1: Result<Response, P>,
    r2: Result<Response, P>,
)
    where
        Eng: EngineImpl<Ctx>,
        <Eng as EngineImpl<Ctx>>::Error: IntoUnified<P>,
    requires
        ctx1 == ctx2,
        render_response_post(ren, ctx1, r1),
        render_response_post(ren, ctx2, r2),
    ensures
        (r1 matches Ok(a) ==> (r2 matches Ok(b) ==> {
            &&& a.headers@.len() == 1
            &&& b.headers@.len() == 1
            &&& a.headers@[0].0@ == b.headers@[0].0@
            &&& a.headers@[0].1@ == b.headers@[0].1@
        })),
        (functional_capability(ren.engine_spec(), ctx1) ==> (r1 matches Ok(a) ==> (r2 matches Ok(
            b,
        ) ==> a.body@ == b.body@))),
{
}

} // verus!
