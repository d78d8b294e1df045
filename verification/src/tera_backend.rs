//! Binding of the Tera template engine as a rendering capability.
//!
//! The Tera instance is owned by the setup phase and shared read-only across
//! requests; the capability renders one named template of it. A Tera template
//! may call built-in functions whose results depend on outside state, so the
//! capability's contract leaves the rendered body and the error
//! unconstrained; the renderer's own guarantees hold for whatever comes back.

use vstd::prelude::*;
use crate::engine::{Engine, EngineImpl};
use crate::media::MediaType;
use crate::renderer::Renderer;

verus! {

#[verifier::external_type_specification]
#[verifier::external_body]
pub struct ExTera(tera::Tera);

#[verifier::external_type_specification]
#[verifier::external_body]
pub struct ExTeraError(tera::Error);

/// Access to a shared Tera instance, however it is owned.
pub trait AsTera {
    /// The Tera instance itself.
    fn as_ref(&self) -> &tera::Tera;
}

impl AsTera for tera::Tera {
    fn as_ref(&self) -> &tera::Tera {
        self
    }
}

impl<T: AsTera> AsTera for Box<T> {
    fn as_ref(&self) -> &tera::Tera {
        (**self).as_ref()
    }
}

impl<T: AsTera> AsTera for std::rc::Rc<T> {
    fn as_ref(&self) -> &tera::Tera {
        (**self).as_ref()
    }
}

impl<T: AsTera> AsTera for std::sync::Arc<T> {
    fn as_ref(&self) -> &tera::Tera {
        (**self).as_ref()
    }
}

/// Relies on tera's `Tera::render`: renders the named template with the
/// given key-value context. A template may call built-in functions that
/// consult outside state, so nothing is claimed of the outcome.
#[verifier::external_body]
fn render_with_tera(
    instance: &tera::Tera,
    name: &str,
    ctx: &Vec<(String, String)>,
) -> Result<String, tera::Error> {
    let data: std::collections::BTreeMap<&str, &str> =
        ctx.iter().map(|kv| (kv.0.as_str(), kv.1.as_str())).collect();
    match tera::Context::from_serialize(&data) {
        Ok(context) => instance.render(name, &context),
        Err(e) => Err(e),
    }
}

/// A name-addressed capability: one template of a shared Tera instance,
/// rendered with a key-value context.
#[derive(Debug)]
pub struct TeraEngine<T> {
    instance: T,
    name: String,
}

impl<T> TeraEngine<T> {
    /// The name of the template this capability renders.
    pub closed spec fn template_name_spec(self) -> Seq<char> {
        self.name@
    }
}

impl<T: AsTera> EngineImpl<Vec<(String, String)>> for TeraEngine<T> {
    type Error = tera::Error;

    open spec fn ok_body(&self, ctx: Vec<(String, String)>, body: Seq<char>) -> bool {
        true
    }

    open spec fn fail_with(&self, ctx: Vec<(String, String)>, err: tera::Error) -> bool {
        true
    }

    open spec fn hint_spec(&self, ctx: Vec<(String, String)>) -> Option<Seq<char>> {
        None
    }

    fn content_type_hint(&self, ctx: &Vec<(String, String)>) -> (r: Option<MediaType>) {
        None
    }

    fn render(&self, ctx: Vec<(String, String)>) -> (r: Result<String, tera::Error>) {
        render_with_tera(self.instance.as_ref(), self.name.as_str(), &ctx)
    }
}

impl<T: AsTera> Engine<Vec<(String, String)>> for TeraEngine<T> {}

impl<T: AsTera> EngineImpl<crate::step::DummyContext> for TeraEngine<T> {
    type Error = tera::Error;

    open spec fn ok_body(&self, ctx: crate::step::DummyContext, body: Seq<char>) -> bool {
        true
    }

    open spec fn fail_with(&self, ctx: crate::step::DummyContext, err: tera::Error) -> bool {
        true
    }

    open spec fn hint_spec(&self, ctx: crate::step::DummyContext) -> Option<Seq<char>> {
        None
    }

    fn content_type_hint(&self, ctx: &crate::step::DummyContext) -> (r: Option<MediaType>) {
        None
    }

    fn render(&self, ctx: crate::step::DummyContext) -> (r: Result<String, tera::Error>) {
        let empty: Vec<(String, String)> = Vec::new();
        render_with_tera(self.instance.as_ref(), self.name.as_str(), &empty)
    }
}

impl<T: AsTera> Engine<crate::step::DummyContext> for TeraEngine<T> {}

/// Binds a shared Tera instance and a template name into a renderer. The
/// content-type guess is derived from the name's extension eagerly.
pub fn tera<T: AsTera>(instance: T, name: String) -> (r: Renderer<TeraEngine<T>>)
    ensures
        r.name_spec() == Some(name@),
        r.content_type_spec() is None,
        r.engine_spec().template_name_spec() == name@,
{
    let engine_name = name.clone();
    Renderer::new(TeraEngine { instance, name: engine_name }, name)
}

} // verus!
