//! A middleware core that turns a pluggable, synchronous template-rendering
//! backend into response-producing pipeline steps.

pub mod engine;
pub mod engines;
pub mod handlebars_backend;
pub mod media;
pub mod renderer;
pub mod response;
pub mod step;
pub mod tera_backend;

use vstd::prelude::*;

verus! {

/// The default media type applied when neither an explicit override, nor a
/// backend hint, nor a guess from the template name is available.
pub const DEFAULT_MEDIA_TYPE: &'static str = "text/html; charset=utf-8";

/// The view of [`DEFAULT_MEDIA_TYPE`], for use in contracts.
pub open spec fn default_media_type() -> Seq<char> {
    DEFAULT_MEDIA_TYPE@
}

} // verus!
