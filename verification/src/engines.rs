//! Fully verified rendering capabilities with exact contracts.
//!
//! These are small, self-contained backends: one that echoes a string
//! context, one that looks a single placeholder up in a key-value context,
//! and one that refuses every render. They exercise every corner of the
//! capability contract — success pinned to one body, optional content-type
//! hints, and failure with a known cause.

use vstd::prelude::*;
use crate::engine::{Engine, EngineImpl};
use crate::media::MediaType;

verus! {

/// An error that never occurs: the render-error type of a capability whose
/// render always succeeds. No render ever returns a value of it.
#[derive(Debug, PartialEq, Eq)]
pub struct NeverFails;

/// A capability that renders a string context as itself, with an optional
/// fixed content-type hint. Its render never fails.
#[derive(Debug)]
pub struct EchoEngine {
    /// The content-type hint this capability offers, if any.
    pub hint: Option<MediaType>,
}

impl EngineImpl<String> for EchoEngine {
    type Error = NeverFails;

    open spec fn ok_body(&self, ctx: String, body: Seq<char>) -> bool {
        body == ctx@
    }

    open spec fn fail_with(&self, ctx: String, err: NeverFails) -> bool {
        false
    }

    open spec fn hint_spec(&self, ctx: String) -> Option<Seq<char>> {
        match self.hint {
            Some(m) => Some(m@),
            None => None,
        }
    }

    fn content_type_hint(&self, ctx: &String) -> (r: Option<MediaType>) {
        match &self.hint {
            Some(m) => Some(m.duplicate()),
            None => None,
        }
    }

    fn render(&self, ctx: String) -> (r: Result<String, NeverFails>) {
        Ok(ctx)
    }
}

impl Engine<String> for EchoEngine {}

/// The error of a failed placeholder lookup: the context carried no value
/// for the capability's key.
#[derive(Debug, PartialEq, Eq)]
pub struct MissingKey {
    /// The key that was not found.
    pub key: String,
}

/// The first value bound to key `k` in the key-value sequence `s`, if any.
pub open spec fn kv_lookup(s: Seq<(String, String)>, k: Seq<char>) -> Option<Seq<char>>
    decreases s.len(),
{
    if s.len() == 0 {
        None
    } else if s[0].0@ == k {
        Some(s[0].1@)
    } else {
        kv_lookup(s.drop_first(), k)
    }
}

/// A capability that renders a single placeholder: the body is the context
/// value bound to the capability's key, and rendering fails exactly when the
/// context carries no such binding.
#[derive(Debug)]
pub struct LookupEngine {
    /// The placeholder key this capability substitutes.
    pub key: String,
}

impl EngineImpl<Vec<(String, String)>> for LookupEngine {
    type Error = MissingKey;

    open spec fn ok_body(&self, ctx: Vec<(String, String)>, body: Seq<char>) -> bool {
        kv_lookup(ctx@, self.key@) == Some(body)
    }

    open spec fn fail_with(&self, ctx: Vec<(String, String)>, err: MissingKey) -> bool {
        kv_lookup(ctx@, self.key@) is None && err.key@ == self.key@
    }

    open spec fn hint_spec(&self, ctx: Vec<(String, String)>) -> Option<Seq<char>> {
        None
    }

    fn content_type_hint(&self, ctx: &Vec<(String, String)>) -> (r: Option<MediaType>) {
        None
    }

    fn render(&self, ctx: Vec<(String, String)>) -> (r: Result<String, MissingKey>) {
        proof {
            assert(ctx@.skip(0) =~= ctx@);
        }
        let mut i: usize = 0;
        while i < ctx.len()
            invariant
                i <= ctx@.len(),
                kv_lookup(ctx@, self.key@) == kv_lookup(ctx@.skip(i as int), self.key@),
            decreases ctx@.len() - i,
        {
            proof {
                assert(ctx@.skip(i as int)[0] == ctx@[i as int]);
                assert(ctx@.skip(i as int).drop_first() =~= ctx@.skip(i as int + 1));
            }
            if ctx[i].0 == self.key {
                return Ok(ctx[i].1.clone());
            }
            i += 1;
        }
        proof {
            assert(ctx@.skip(ctx@.len() as int) =~= Seq::<(String, String)>::empty());
        }
        Err(MissingKey { key: self.key.clone() })
    }
}

impl Engine<Vec<(String, String)>> for LookupEngine {}

/// The error of a capability that refuses to render.
#[derive(Debug, PartialEq, Eq)]
pub struct RenderRefused {
    /// The capability's fixed description of the refusal.
    pub message: String,
}

/// A capability whose render always fails with a fixed message, for any
/// context type. It never produces a body.
#[derive(Debug)]
pub struct FailEngine {
    /// The message every refusal carries.
    pub message: String,
}

impl<Ctx> EngineImpl<Ctx> for FailEngine {
    type Error = RenderRefused;

    open spec fn ok_body(&self, ctx: Ctx, body: Seq<char>) -> bool {
        false
    }

    open spec fn fail_with(&self, ctx: Ctx, err: RenderRefused) -> bool {
        err.message@ == self.message@
    }

    open spec fn hint_spec(&self, ctx: Ctx) -> Option<Seq<char>> {
        None
    }

    fn content_type_hint(&self, ctx: &Ctx) -> (r: Option<MediaType>) {
        None
    }

    fn render(&self, ctx: Ctx) -> (r: Result<String, RenderRefused>) {
        Err(RenderRefused { message: self.message.clone() })
    }
}

impl<Ctx> Engine<Ctx> for FailEngine {}

} // verus!
