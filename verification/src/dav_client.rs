//! The client session: the configured server root and the Principal
//! Discovery step that resolves it to the user's principal resource.

use vstd::prelude::*;

use crate::error::DavError;
use crate::extract::{extract_href_in, spec_href_in};
use crate::principal::Principal;
use crate::requests::{DavRequest, principal_body, spec_principal_body};
use crate::urls::{DavUrl, parse_url, spec_with_path, url_of, with_path};
use crate::xml::XmlNode;

verus! {

/// A client session against one DAV server root.
pub struct DAVClient {
    /// The configured server root URL.
    pub url: DavUrl,
    /// The discovered principal, once Principal Discovery has run.
    pub principal: Option<Principal>,
}

impl DAVClient {
    /// Creates a client for the server root `string_url`. Succeeds exactly
    /// when the string parses as an absolute URL, and then holds the parsed
    /// URL and no principal; fails with `InvalidUrl` otherwise.
    pub fn new(string_url: String) -> (r: Result<DAVClient, DavError>)
        ensures
            r is Ok <==> url_of(string_url@) is Some,
            r matches Ok(c) ==> Some(c.url@) == url_of(string_url@) && c.principal is None,
            r matches Err(e) ==> e == DavError::InvalidUrl,
    {
        match parse_url(string_url.as_str()) {
            Ok(url) => Ok(DAVClient { url, principal: None }),
            Err(_) => Err(DavError::InvalidUrl),
        }
    }

    /// The `PROPFIND` that Principal Discovery issues against the server
    /// root, or `None` when the principal is already resolved: re-running
    /// the discovery issues no second request.
    pub fn principal_request(&self) -> (r: Option<DavRequest>)
        ensures
            self.principal is Some ==> r is None,
            self.principal is None ==> ({
                &&& r matches Some(q)
                &&& q.method@ == "PROPFIND"@
                &&& q.url@ == self.url@
                &&& q.depth == 0
                &&& q.body@ == spec_principal_body()
            }),
    {
        match &self.principal {
            Some(_) => None,
            None => Some(
                DavRequest {
                    method: "PROPFIND".to_owned(),
                    url: self.url.duplicate(),
                    depth: 0,
                    body: principal_body(),
                },
            ),
        }
    }

    /// Applies a Principal Discovery response: reads the `href` inside
    /// `current-user-principal` and constructs the principal at the server
    /// root URL with its path replaced by that `href`. A no-op when
    /// already resolved; when the expected elements are absent, fails with
    /// `ElementNotFound` and leaves the client unchanged.
    pub fn get_principal(&mut self, root: &XmlNode) -> (r: Result<(), DavError>)
        ensures
            old(self).principal is Some ==> r is Ok && *final(self) == *old(self),
            old(self).principal is None ==> match spec_href_in(
                *root,
                "current-user-principal"@,
            ) {
                Some(h) => {
                    &&& r is Ok
                    &&& final(self).url == old(self).url
                    &&& final(self).principal matches Some(p)
                    &&& p.url@ == spec_with_path(old(self).url@, h)
                    &&& p.calendar_home_set_url is None
                    &&& p.calendars@.len() == 0
                    &&& !p.calendars_discovered
                },
                None => r == Err::<(), DavError>(DavError::ElementNotFound) && *final(self)
                    == *old(self),
            },
    {
        if self.principal.is_some() {
            return Ok(());
        }
        match extract_href_in(root, &"current-user-principal".to_owned()) {
            Ok(href) => {
                let u = with_path(&self.url, href.as_str());
                self.principal = Some(Principal::new(u));
                Ok(())
            },
            Err(e) => Err(e),
        }
    }
}

} // verus!
