//! Identifiers of activities, actors and objects.

use vstd::prelude::*;
use vstd::string::*;

verus! {

/// What `url::Url::parse` makes of a text: `None` where it does not parse; else the URL's
/// serialization, its scheme, and its domain where the host is a domain name.
pub uninterp spec fn parsed_url(text: Seq<char>) -> Option<(Seq<char>, Seq<char>, Option<Seq<char>>)>;

/// An identifier, held as the parts that the engine reads.
pub struct Iri {
    /// The normalized serialization; two identifiers are the same when these are equal.
    pub text: String,
    /// The scheme, lower-cased, without the colon.
    pub scheme: String,
    /// The host, where it is a domain name.
    pub domain: Option<String>,
}

pub struct IriView {
    pub text: Seq<char>,
    pub scheme: Seq<char>,
    pub domain: Option<Seq<char>>,
}

impl View for Iri {
    type V = IriView;

    open spec fn view(&self) -> IriView {
        IriView { text: self.text@, scheme: self.scheme@, domain: self.domain.deep_view() }
    }
}

impl DeepView for Iri {
    type V = IriView;

    open spec fn deep_view(&self) -> IriView {
        self@
    }
}

/// The identifier that a parsed text stands for.
pub open spec fn iri_of_parts(parts: (Seq<char>, Seq<char>, Option<Seq<char>>)) -> IriView {
    IriView { text: parts.0, scheme: parts.1, domain: parts.2 }
}

/// Calls `url::Url::parse`, then `as_str`, `scheme` and `domain` on the URL. The contract
/// claims only that the outcome is a function of the text, and gives it the name
/// `parsed_url`.
#[verifier::external_body]
fn parse_url(text: &str) -> (parts: Option<(String, String, Option<String>)>)
    ensures
        parts.deep_view() == parsed_url(text@),
{
    match url::Url::parse(text) {
        Ok(u) => Some((u.as_str().to_string(), u.scheme().to_string(), u.domain().map(String::from))),
        Err(_) => None,
    }
}

impl Clone for Iri {
    fn clone(&self) -> (copy: Self)
        ensures
            copy == *self,
    {
        Iri { text: self.text.clone(), scheme: self.scheme.clone(), domain: self.domain.clone() }
    }
}

impl Iri {
    /// Parses a text as an absolute URL.
    pub fn parse(text: &str) -> (iri: Option<Iri>)
        ensures
            match parsed_url(text@) {
                Some(parts) => iri is Some && iri->0@ == iri_of_parts(parts),
                None => iri is None,
            },
    {
        match parse_url(text) {
            Some((text, scheme, domain)) => Some(Iri { text, scheme, domain }),
            None => None,
        }
    }

    /// Whether two identifiers are the same.
    pub fn same(&self, other: &Iri) -> (eq: bool)
        ensures
            eq == (self@.text == other@.text),
    {
        self.text == other.text
    }
}

} // verus!
