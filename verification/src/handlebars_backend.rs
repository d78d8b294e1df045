//! Binding of the Handlebars template engine as a rendering capability.
//!
//! The registry is owned by the setup phase and shared read-only across
//! requests; the capability renders one named template of it. What a render
//! call returns is owned entirely by the Handlebars engine (templates may
//! invoke registered helpers), so the capability's contract leaves the body
//! and the error unconstrained; the renderer's own guarantees — content-type
//! resolution and response shape — hold for whatever comes back.

use vstd::prelude::*;
use crate::engine::{Engine, EngineImpl};
use crate::media::MediaType;
use crate::renderer::Renderer;

verus! {

#[verifier::external_type_specification]
#[verifier::external_body]
pub struct ExHandlebars<'reg>(handlebars::Handlebars<'reg>);

#[verifier::external_type_specification]
#[verifier::external_body]
pub struct ExRenderError(handlebars::RenderError);

/// Access to a shared Handlebars registry, however it is owned.
pub trait AsHandlebarsRegistry {
    /// The registry itself.
    fn as_ref(&self) -> &handlebars::Handlebars<'static>;
}

impl AsHandlebarsRegistry for handlebars::Handlebars<'static> {
    fn as_ref(&self) -> &handlebars::Handlebars<'static> {
        self
    }
}

impl<T: AsHandlebarsRegistry> AsHandlebarsRegistry for Box<T> {
    fn as_ref(&self) -> &handlebars::Handlebars<'static> {
        (**self).as_ref()
    }
}

impl<T: AsHandlebarsRegistry> AsHandlebarsRegistry for std::rc::Rc<T> {
    fn as_ref(&self) -> &handlebars::Handlebars<'static> {
        (**self).as_ref()
    }
}

impl<T: AsHandlebarsRegistry> AsHandlebarsRegistry for std::sync::Arc<T> {
    fn as_ref(&self) -> &handlebars::Handlebars<'static> {
        (**self).as_ref()
    }
}

/// Relies on handlebars' `Registry::render`: renders the named template with
/// the given key-value data. The outcome is the engine's alone — a template
/// may call registered helpers — so nothing is claimed of it.
#[verifier::external_body]
fn render_with_registry(
    registry: &handlebars::Handlebars<'static>,
    name: &str,
    ctx: &Vec<(String, String)>,
) -> Result<String, handlebars::RenderError> {
    let data: std::collections::BTreeMap<&str, &str> =
        ctx.iter().map(|kv| (kv.0.as_str(), kv.1.as_str())).collect();
    registry.render(name, &data)
}

/// A name-addressed capability: one template of a shared Handlebars
/// registry, rendered with a key-value context.
#[derive(Debug)]
pub struct HandlebarsEngine<H> {
    registry: H,
    name: String,
}

impl<H> HandlebarsEngine<H> {
    /// The name of the template this capability renders.
    pub closed spec fn template_name_spec(self) -> Seq<char> {
        self.name@
    }
}

impl<H: AsHandlebarsRegistry> EngineImpl<Vec<(String, String)>> for HandlebarsEngine<H> {
    type Error = handlebars::RenderError;

    open spec fn ok_body(&self, ctx: Vec<(String, String)>, body: Seq<char>) -> bool {
        true
    }

    open spec fn fail_with(&self, ctx: Vec<(String, String)>, err: handlebars::RenderError) -> bool {
        true
    }

    open spec fn hint_spec(&self, ctx: Vec<(String, String)>) -> Option<Seq<char>> {
        None
    }

    fn content_type_hint(&self, ctx: &Vec<(String, String)>) -> (r: Option<MediaType>) {
        None
    }

    fn render(&self, ctx: Vec<(String, String)>) -> (r: Result<String, handlebars::RenderError>) {
        render_with_registry(self.registry.as_ref(), self.name.as_str(), &ctx)
    }
}

impl<H: AsHandlebarsRegistry> Engine<Vec<(String, String)>> for HandlebarsEngine<H> {}

impl<H: AsHandlebarsRegistry> EngineImpl<crate::step::DummyContext> for HandlebarsEngine<H> {
    type Error = handlebars::RenderError;

    open spec fn ok_body(&self, ctx: crate::step::DummyContext, body: Seq<char>) -> bool {
        true
    }

    open spec fn fail_with(
        &self,
        ctx: crate::step::DummyContext,
        err: handlebars::RenderError,
    ) -> bool {
        true
    }

    open spec fn hint_spec(&self, ctx: crate::step::DummyContext) -> Option<Seq<char>> {
        None
    }

    fn content_type_hint(&self, ctx: &crate::step::DummyContext) -> (r: Option<MediaType>) {
        None
    }

    fn render(&self, ctx: crate::step::DummyContext) -> (r: Result<
        String,
        handlebars::RenderError,
    >) {
        let empty: Vec<(String, String)> = Vec::new();
        render_with_registry(self.registry.as_ref(), self.name.as_str(), &empty)
    }
}

impl<H: AsHandlebarsRegistry> Engine<crate::step::DummyContext> for HandlebarsEngine<H> {}

/// Binds a shared Handlebars registry and a template name into a renderer.
/// The content-type guess is derived from the name's extension eagerly.
pub fn handlebars<H: AsHandlebarsRegistry>(registry: H, name: String) -> (r: Renderer<
    HandlebarsEngine<H>,
>)
    ensures
        r.name_spec() == Some(name@),
        r.content_type_spec() is None,
        r.engine_spec().template_name_spec() == name@,
{
    let engine_name = name.clone();
    Renderer::new(HandlebarsEngine { registry, name: engine_name }, name)
}

} // verus!
