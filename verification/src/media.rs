//! Media-type values and the pure content-type resolution rule.
//!
//! A response's content type is resolved with a fixed precedence: an explicit
//! override set on the renderer wins over a hint supplied by the rendering
//! backend, which wins over a guess derived from the template name's file
//! extension, which wins over the fixed default.

use vstd::prelude::*;
use vstd::string::StringExecFns;

verus! {

/// Whether the media-type grammar accepts `s`, i.e. whether
/// `str::parse::<mime::Mime>` succeeds on it.
pub uninterp spec fn is_media_type(s: Seq<char>) -> bool;

/// Relies on mime's `FromStr for Mime`: whether a string parses as a
/// media type depends on its characters alone.
#[verifier::external_body]
fn parses_as_media_type(s: &str) -> (r: bool)
    ensures
        r == is_media_type(s@),
{
    s.parse::<mime::Mime>().is_ok()
}

/// The media type that `mime_guess::from_path(name).first()` derives from a
/// template name's file extension, if the extension is known.
pub uninterp spec fn guess_of(name: Seq<char>) -> Option<Seq<char>>;

/// Relies on mime_guess::from_path: the guess is read off a static table
/// keyed by the name's extension, so it depends on the name alone.
#[verifier::external_body]
pub(crate) fn guess_media_type(name: &str) -> (r: Option<String>)
    ensures
        (r matches Some(g) ==> guess_of(name@) == Some(g@)),
        (r is None ==> guess_of(name@) is None),
{
    mime_guess::from_path(name).first().map(|m| m.as_ref().to_string())
}

/// A syntactically valid media-type value.
///
/// Holding validity as an invariant lets a renderer accept an explicit
/// content-type override eagerly, at configuration time, so that no malformed
/// header value can surface while a request is being served.
#[derive(Debug)]
pub struct MediaType {
    value: String,
}

impl View for MediaType {
    type V = Seq<char>;

    closed spec fn view(&self) -> Seq<char> {
        self.value@
    }
}

impl MediaType {
    #[verifier::type_invariant]
    spec fn wf(self) -> bool {
        is_media_type(self.value@)
    }

    /// Validates `s` against the media-type grammar; accepted strings are
    /// kept verbatim.
    pub fn parse(s: &str) -> (r: Option<MediaType>)
        ensures
            (r is Some <==> is_media_type(s@)),
            (r matches Some(m) ==> m@ == s@),
    {
        if parses_as_media_type(s) {
            Some(MediaType { value: String::from_str(s) })
        } else {
            None
        }
    }

    /// The media type as a string slice.
    pub fn as_str(&self) -> (r: &str)
        ensures
            r@ == self@,
    {
        self.value.as_str()
    }

    /// A fresh copy carrying the same media-type value.
    pub fn duplicate(&self) -> (r: MediaType)
        ensures
            r@ == self@,
    {
        proof {
            use_type_invariant(&*self);
        }
        MediaType { value: self.value.clone() }
    }

    /// The media type as an owned string.
    pub fn to_owned_string(&self) -> (r: String)
        ensures
            r@ == self@,
    {
        self.value.clone()
    }
}

/// The view of an optional media type.
pub open spec fn media_opt_view(o: Option<MediaType>) -> Option<Seq<char>> {
    match o {
        Some(m) => Some(m@),
        None => None,
    }
}

/// The view of an optional string.
pub open spec fn string_opt_view(o: Option<String>) -> Option<Seq<char>> {
    match o {
        Some(s) => Some(s@),
        None => None,
    }
}

/// The content-type precedence rule: explicit override, then backend hint,
/// then guess from the template name, then the fixed default.
pub open spec fn resolved_media_type(
    explicit: Option<Seq<char>>,
    hint: Option<Seq<char>>,
    guess: Option<Seq<char>>,
) -> Seq<char> {
    if explicit is Some {
        explicit->0
    } else if hint is Some {
        hint->0
    } else if guess is Some {
        guess->0
    } else {
        crate::default_media_type()
    }
}

/// Resolves the content type of a response from an explicit override, a
/// backend hint and a guess derived from the template name.
pub fn resolve_media_type(
    explicit: &Option<MediaType>,
    hint: &Option<MediaType>,
    guess: &Option<String>,
) -> (r: String)
    ensures
        r@ == resolved_media_type(media_opt_view(*explicit), media_opt_view(*hint), string_opt_view(*guess)),
{
    match explicit {
        Some(m) => m.to_owned_string(),
        None => match hint {
            Some(m) => m.to_owned_string(),
            None => match guess {
                Some(g) => g.clone(),
                None => String::from_str(crate::DEFAULT_MEDIA_TYPE),
            },
        },
    }
}

/// Law: content-type precedence. The resolved type is the override when one
/// is set, else the backend's hint when it supplies one, else the guess from
/// the template name when one exists, else the fixed default.
pub proof fn lemma_media_type_precedence(
    explicit: Option<Seq<char>>,
    hint: Option<Seq<char>>,
    guess: Option<Seq<char>>,
)
    ensures
        (explicit matches Some(t) ==> resolved_media_type(explicit, hint, guess) == t),
        (explicit is None ==> (hint matches Some(t) ==> resolved_media_type(explicit, hint, guess)
            == t)),
        (explicit is None && hint is None ==> (guess matches Some(t) ==> resolved_media_type(
            explicit,
            hint,
            guess,
        ) == t)),
        (explicit is None && hint is None && guess is None ==> resolved_media_type(
            explicit,
            hint,
            guess,
        ) == crate::default_media_type()),
{
}

} // verus!
