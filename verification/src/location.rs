//! The parts of a parsed URL.

use vstd::prelude::*;

verus! {

/// The serialization of the URL that `text` parses to, where it parses as an
/// absolute URL.
pub uninterp spec fn url_href(text: Seq<char>) -> Option<Seq<char>>;

/// The ASCII serialization of the origin of the URL that `text` parses to.
pub uninterp spec fn url_origin(text: Seq<char>) -> Seq<char>;

/// The host of the URL that `text` parses to, where it has one.
pub uninterp spec fn url_host(text: Seq<char>) -> Option<Seq<char>>;

/// The path of the URL that `text` parses to.
pub uninterp spec fn url_path(text: Seq<char>) -> Seq<char>;

/// The parts of an absolute URL that the forum rules look at.
#[derive(Debug)]
pub struct Location {
    /// The whole URL, serialized.
    pub href: String,
    /// Scheme, host and port, serialized as `scheme://host[:port]`.
    pub origin: String,
    /// The host, where the URL has one.
    pub host: Option<String>,
    /// The path, from its leading slash up to the query or the fragment.
    pub path: String,
}

/// A `Location` as a mathematical value.
pub struct LocationView {
    pub href: Seq<char>,
    pub origin: Seq<char>,
    pub host: Option<Seq<char>>,
    pub path: Seq<char>,
}

impl View for Location {
    type V = LocationView;

    open spec fn view(&self) -> LocationView {
        LocationView {
            href: self.href@,
            origin: self.origin@,
            host: match self.host {
                Some(h) => Some(h@),
                None => None,
            },
            path: self.path@,
        }
    }
}

/// What `text` parses to: the parts of the URL, or nothing where `text` is no
/// absolute URL.
pub open spec fn parsed(text: Seq<char>) -> Option<LocationView> {
    match url_href(text) {
        Some(href) => Some(
            LocationView {
                href,
                origin: url_origin(text),
                host: url_host(text),
                path: url_path(text),
            },
        ),
        None => None,
    }
}

/// Calls `url::Url::parse` on `text` and, where that succeeds, reads the URL
/// with `as_str`, `origin().ascii_serialization()`, `host_str` and `path`.
/// The contract gives each of the four results its name and claims nothing
/// else of them; `None` stands for any parse error.
#[verifier::external_body]
fn split_url(text: &str) -> (r: Option<Location>)
    ensures
        r is Some == url_href(text@) is Some,
        r matches Some(l) ==> {
            &&& Some(l@.href) == url_href(text@)
            &&& l@.origin == url_origin(text@)
            &&& l@.host == url_host(text@)
            &&& l@.path == url_path(text@)
        },
{
    let url = match url::Url::parse(text) {
        Ok(url) => url,
        Err(_) => return None,
    };
    let host = match url.host_str() {
        Some(host) => Some(host.to_string()),
        None => None,
    };
    let origin = url.origin().ascii_serialization();
    Some(Location { href: url.as_str().to_string(), origin, host, path: url.path().to_string() })
}

impl Location {
    /// Parses `text` as an absolute URL.
    pub fn parse(text: &str) -> (r: Option<Location>)
        ensures
            match parsed(text@) {
                Some(l) => r matches Some(got) && got@ == l,
                None => r is None,
            },
    {
        split_url(text)
    }
}

} // verus!
