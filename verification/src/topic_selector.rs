//! Topic selectors: patterns that scope which topics a token's holder may
//! publish or subscribe to. A selector is either the wildcard `*`, which
//! matches every topic, or a syntactically valid URI Template.

use vstd::prelude::*;
use vstd::string::StringExecFns;

verus! {

/// True exactly when `s` is a syntactically valid URI Template under the
/// RFC 6570 grammar, as decided by `uri_template_system::Template::parse`.
/// The grammar itself is delegated to that crate; this name stands for
/// its verdict, which depends on the string alone.
pub uninterp spec fn uri_template_ok(s: Seq<char>) -> bool;

/// A syntactically valid URI Template. The raw template string is kept;
/// validation happens once, at construction.
///
/// A template should be in absolute form, expanding to a valid URL; that
/// cannot be checked here, but matters for interoperability.
#[derive(Clone, PartialEq, Eq, PartialOrd, Ord, Hash, Debug)]
pub struct UriTemplate(String);

/// The rendering of a template-grammar diagnostic, as the
/// `uri_template_system` crate displays it: a function of the
/// diagnostic value alone.
pub uninterp spec fn parse_error_rendering(err: uri_template_system::ParseError) -> Seq<char>;

/// An error which can be returned when parsing a [`UriTemplate`],
/// wrapping the underlying template-grammar diagnostic.
#[derive(Debug)]
#[non_exhaustive]
pub struct ParseUriTemplateError {
    inner: uri_template_system::ParseError,
}

impl View for UriTemplate {
    type V = Seq<char>;

    closed spec fn view(&self) -> Seq<char> {
        self.0@
    }
}

impl UriTemplate {
    /// A template value always carries a syntactically valid URI
    /// Template string.
    pub open spec fn wf(&self) -> bool {
        uri_template_ok(self@)
    }

    /// Validates a string as a URI Template: accepts exactly the strings
    /// that satisfy the RFC 6570 template grammar, and keeps the
    /// accepted string verbatim.
    pub fn try_from(s: &str) -> (r: Result<UriTemplate, ParseUriTemplateError>)
        ensures
            r matches Ok(t) ==> t@ == s@ && t.wf(),
            r is Ok == uri_template_ok(s@),
    {
        match parse_uri_template(s) {
            Ok(()) => Ok(UriTemplate(s.to_owned())),
            Err(inner) => Err(ParseUriTemplateError { inner }),
        }
    }

    /// The raw template string.
    pub fn as_str(&self) -> (r: &str)
        ensures
            r@ == self@,
    {
        self.0.as_str()
    }
}

impl ParseUriTemplateError {
    /// The wrapped template-grammar diagnostic.
    pub closed spec fn spec_inner(&self) -> uri_template_system::ParseError {
        self.inner
    }

    /// The human-readable description of the error: a fixed prefix, then
    /// the underlying template-grammar diagnostic.
    pub fn message(&self) -> (r: String)
        ensures
            r@ == "failed to parse URI Template: "@ + parse_error_rendering(self.spec_inner()),
    {
        let prefix = "failed to parse URI Template: ".to_owned();
        prefix.concat(render_parse_error(&self.inner).as_str())
    }
}

/// A topic selector: the wildcard, which matches every topic, or a URI
/// Template. On the wire a selector is always a single string: `*` for
/// the wildcard, the raw template string otherwise.
#[derive(Clone, PartialEq, Eq, PartialOrd, Ord, Hash, Debug)]
pub enum TopicSelector {
    /// A topic selector which matches all topics. Sorts before every
    /// template selector.
    Wildcard,
    /// A topic selector which matches by a URI Template.
    UriTemplate(UriTemplate),
}

impl View for TopicSelector {
    type V = Seq<char>;

    /// The wire string of the selector.
    open spec fn view(&self) -> Seq<char> {
        match self {
            TopicSelector::Wildcard => seq!['*'],
            TopicSelector::UriTemplate(t) => t@,
        }
    }
}

impl DeepView for TopicSelector {
    type V = Seq<char>;

    open spec fn deep_view(&self) -> Seq<char> {
        self.view()
    }
}

impl TopicSelector {
    /// The wire string of the selector: `*` for the wildcard, the raw
    /// template string otherwise.
    pub fn render(&self) -> (r: String)
        ensures
            r@ == self@,
    {
        match self {
            TopicSelector::Wildcard => {
                let r = "*".to_owned();
                proof {
                    reveal_strlit("*");
                    assert(r@ =~= seq!['*']);
                }
                r
            },
            TopicSelector::UriTemplate(t) => t.as_str().to_owned(),
        }
    }
}

/// Relies on `uri_template_system::Template::parse`: it accepts exactly
/// the strings that form a syntactically valid RFC 6570 URI Template,
/// deciding by the string alone, and reports a diagnostic otherwise.
#[verifier::external_body]
fn parse_uri_template(s: &str) -> (r: Result<(), uri_template_system::ParseError>)
    ensures
        r is Ok == uri_template_ok(s@),
{
    match uri_template_system::Template::parse(s) {
        Ok(_) => Ok(()),
        Err(err) => Err(err),
    }
}

/// Relies on `uri_template_system::ParseError`: the diagnostic for a
/// string rejected by the template grammar, opaque to the library.
#[verifier::external_type_specification]
#[verifier::external_body]
pub struct ExParseError(uri_template_system::ParseError);

/// Relies on the `Display` rendering of
/// `uri_template_system::ParseError`, which describes the diagnostic
/// from its fields alone.
#[verifier::external_body]
fn render_parse_error(err: &uri_template_system::ParseError) -> (r: String)
    ensures
        r@ == parse_error_rendering(*err),
{
    format!("{err}")
}

} // verus!
