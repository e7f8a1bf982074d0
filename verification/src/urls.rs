//! URLs as plain components, and the path substitution every discovery
//! step performs.
//!
//! The discovery chain repeatedly takes a base URL and replaces its path
//! with an `href` taken from a server response. Holding the components as
//! plain values makes that substitution a verified operation: scheme, host
//! and port are preserved by construction.

use vstd::prelude::*;

verus! {

/// An absolute URL, held as its components.
pub struct DavUrl {
    /// The scheme, such as `https`.
    pub scheme: String,
    /// The host, when the URL names one.
    pub host: Option<String>,
    /// The port, when the URL names one explicitly.
    pub port: Option<u16>,
    /// The path component, normally starting with `/`.
    pub path: String,
}

/// The mathematical value of a [`DavUrl`].
pub ghost struct UrlView {
    pub scheme: Seq<char>,
    pub host: Option<Seq<char>>,
    pub port: Option<u16>,
    pub path: Seq<char>,
}

impl View for DavUrl {
    type V = UrlView;

    open spec fn view(&self) -> UrlView {
        UrlView {
            scheme: self.scheme@,
            host: match self.host {
                Some(h) => Some(h@),
                None => None,
            },
            port: self.port,
            path: self.path@,
        }
    }
}

/// The value of `u` with its path component replaced by `p`; scheme, host
/// and port stay as they are.
pub open spec fn spec_with_path(u: UrlView, p: Seq<char>) -> UrlView {
    UrlView { path: p, ..u }
}

impl DavUrl {
    /// Returns a copy of this URL.
    pub fn duplicate(&self) -> (r: DavUrl)
        ensures
            r@ == self@,
    {
        DavUrl {
            scheme: self.scheme.clone(),
            host: match &self.host {
                Some(h) => Some(h.clone()),
                None => None,
            },
            port: self.port,
            path: self.path.clone(),
        }
    }
}

/// Returns `base` with its path component replaced by `path`. The scheme,
/// host and port of the result are those of `base`; only the path changes.
pub fn with_path(base: &DavUrl, path: &str) -> (r: DavUrl)
    ensures
        r@ == spec_with_path(base@, path@),
        r@.scheme == base@.scheme,
        r@.host == base@.host,
        r@.port == base@.port,
        r@.path == path@,
{
    DavUrl {
        scheme: base.scheme.clone(),
        host: match &base.host {
            Some(h) => Some(h.clone()),
            None => None,
        },
        port: base.port,
        path: path.to_owned(),
    }
}

/// The URL components that parsing extracts from `s`: `Some` exactly when
/// `s` parses as an absolute URL, and then the parsed components.
pub uninterp spec fn url_of(s: Seq<char>) -> Option<UrlView>;

#[verifier::external_type_specification]
#[verifier::external_body]
pub struct ExParseError(url::ParseError);

/// Relies on `url::Url::parse` to decide whether `s` is a valid absolute
/// URL, and on the accessors `scheme`, `host_str`, `port` and `path` to
/// return the parsed components; the outcome is a function of `s` alone.
#[verifier::external_body]
pub(crate) fn parse_url(s: &str) -> (r: Result<DavUrl, url::ParseError>)
    ensures
        r is Ok <==> url_of(s@) is Some,
        r matches Ok(u) ==> Some(u@) == url_of(s@),
{
    match url::Url::parse(s) {
        Ok(u) => Ok(DavUrl {
            scheme: u.scheme().to_string(),
            host: u.host_str().map(|h| h.to_string()),
            port: u.port(),
            path: u.path().to_string(),
        }),
        Err(e) => Err(e),
    }
}

} // verus!
