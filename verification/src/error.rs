//! The typed failures of the protocol logic.

use vstd::prelude::*;

verus! {

/// What can go wrong while resolving or querying a DAV server, apart from
/// the transport itself (which is outside the library).
#[derive(Clone, Copy, Debug, PartialEq, Eq, Structural)]
pub enum DavError {
    /// The configured server root is not a valid absolute URL.
    InvalidUrl,
    /// A response body is not well-formed XML.
    InvalidXml,
    /// An element that the protocol step requires is absent from the
    /// response.
    ElementNotFound,
    /// The event query body template could not be rendered.
    InvalidTemplate,
}

impl DavError {
    /// A short description of the failure.
    pub fn describe(&self) -> (r: &'static str)
        ensures
            r@ == match *self {
                DavError::InvalidUrl => "invalid server URL"@,
                DavError::InvalidXml => "response is not well-formed XML"@,
                DavError::ElementNotFound => "expected element is absent from the response"@,
                DavError::InvalidTemplate => "the query template could not be rendered"@,
            },
    {
        match *self {
            DavError::InvalidUrl => "invalid server URL",
            DavError::InvalidXml => "response is not well-formed XML",
            DavError::ElementNotFound => "expected element is absent from the response",
            DavError::InvalidTemplate => "the query template could not be rendered",
        }
    }
}

} // verus!
