//! A verified core for a CalDAV client: discovery of the authenticated
//! user's principal resource, of the calendar-home collection, enumeration
//! of calendars, and time-ranged event queries.
//!
//! The library holds the protocol logic: searching parsed XML response
//! trees, rewriting URL paths, building the DAV request for each step of
//! the discovery chain, and applying each server response to the session
//! state. The HTTP transport itself lives outside the library; it is handed
//! a [`requests::DavRequest`] and hands back the response body text.

pub mod dav_client;
pub mod error;
pub mod extract;
pub mod principal;
pub mod requests;
pub mod urls;
pub mod xml;
