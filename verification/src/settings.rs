//! Where an operator says a resource is to be found.

use vstd::prelude::*;

verus! {

/// A URL, reduced to what the installer reads of one: its full text, its
/// scheme and its path.
#[derive(Debug)]
pub struct Url {
    pub serialization: String,
    pub scheme: String,
    pub path: String,
}

/// What the URL parser makes of a text: nothing where it refuses the text,
/// and else the URL's serialization, its scheme and its path, in this order.
pub uninterp spec fn url_parsed(text: Seq<char>) -> Option<(Seq<char>, Seq<char>, Seq<char>)>;

/// What the url crate promises of every scheme that it hands out: the
/// characters are ASCII, none is an upper-case letter, and the colon that
/// ends a scheme is not among them.
pub open spec fn scheme_shaped(scheme: Seq<char>) -> bool {
    forall|i: int|
        0 <= i < scheme.len() ==> {
            let code = #[trigger] scheme[i] as u32;
            code < 128 && code != 58 && !(65 <= code <= 90)
        }
}

/// Calls `reqwest::Url::parse`, which is `Url::parse` of the url crate, and
/// reads the parsed URL with `as_str`, `scheme` and `path`. The contract
/// claims that the outcome depends on the text and on nothing else, and, as
/// the crate documents of `scheme`, that the scheme is lower-cased ASCII
/// without the colon. Which texts are refused, and what the other parts are,
/// is not said here.
#[verifier::external_body]
fn parse_parts(text: &str) -> (parts: Option<(String, String, String)>)
    ensures
        match url_parsed(text@) {
            Some((serialization, scheme, path)) => parts matches Some(held) && held.0@
                == serialization && held.1@ == scheme && held.2@ == path,
            None => parts is None,
        },
        parts matches Some(held) ==> scheme_shaped(held.1@),
{
    match reqwest::Url::parse(text) {
        Ok(url) => Some(
            (url.as_str().to_string(), url.scheme().to_string(), url.path().to_string()),
        ),
        Err(_) => None,
    }
}

impl Url {
    /// Parses an absolute URL. The parts of the URL are those that the
    /// parser finds, and the scheme among them is in lower case; a text that
    /// the parser refuses gives nothing.
    pub fn parse(text: &str) -> (parsed: Option<Url>)
        ensures
            match url_parsed(text@) {
                Some((serialization, scheme, path)) => parsed matches Some(url)
                    && url.serialization@ == serialization && url.scheme@ == scheme && url.path@
                    == path,
                None => parsed is None,
            },
            parsed matches Some(url) ==> scheme_shaped(url.scheme@),
    {
        match parse_parts(text) {
            Some((serialization, scheme, path)) => Some(Url::new(serialization, scheme, path)),
            None => None,
        }
    }

    /// A URL of the given parts.
    pub fn new(serialization: String, scheme: String, path: String) -> (url: Url)
        ensures
            url == (Url { serialization, scheme, path }),
    {
        Url { serialization, scheme, path }
    }

    /// Whether the scheme of this URL is `name`.
    pub fn has_scheme(&self, name: &str) -> (yes: bool)
        ensures
            yes == (self.scheme@ == name@),
    {
        self.scheme == String::from_str(name)
    }
}

impl Clone for Url {
    fn clone(&self) -> (copy: Url)
        ensures
            copy == *self,
    {
        Url {
            serialization: self.serialization.clone(),
            scheme: self.scheme.clone(),
            path: self.path.clone(),
        }
    }
}

/// Either a URL or a bare path on the local filesystem.
#[derive(Debug)]
pub enum UrlOrPath {
    Url(Url),
    Path(String),
}

impl UrlOrPath {
    /// What an operator is shown for this location.
    pub open spec fn text(self) -> Seq<char> {
        match self {
            UrlOrPath::Url(url) => url.serialization@,
            UrlOrPath::Path(path) => path@,
        }
    }

    /// The location as text: the URL in full, or the path.
    pub fn display(&self) -> (shown: String)
        ensures
            shown@ == self.text(),
    {
        match self {
            UrlOrPath::Url(url) => url.serialization.clone(),
            UrlOrPath::Path(path) => path.clone(),
        }
    }
}

impl Clone for UrlOrPath {
    fn clone(&self) -> (copy: UrlOrPath)
        ensures
            copy == *self,
    {
        match self {
            UrlOrPath::Url(url) => UrlOrPath::Url(url.clone()),
            UrlOrPath::Path(path) => UrlOrPath::Path(path.clone()),
        }
    }
}

} // verus!
