//! The DAV requests that the discovery and query steps issue, and the
//! fixed XML bodies they carry.
//!
//! Every step of the protocol issues the same shape of request: a WebDAV
//! method token, a target URL, a `Depth` header and a literal XML body.
//! The transport outside the library performs the request and hands the
//! response body text back to the session.

use vstd::prelude::*;

use crate::error::DavError;
use crate::urls::DavUrl;

verus! {

/// One DAV request, ready for a transport to issue: the method token is
/// `PROPFIND` or `REPORT`, `depth` is the value of the `Depth` header, and
/// `body` is sent literally with content type `application/xml`.
pub struct DavRequest {
    /// The WebDAV method token.
    pub method: String,
    /// The URL the request is issued against.
    pub url: DavUrl,
    /// The value of the `Depth` header.
    pub depth: u8,
    /// The literal XML request body.
    pub body: String,
}

/// The `PROPFIND` body of Principal Discovery: it asks for
/// `current-user-principal`.
pub open spec fn spec_principal_body() -> Seq<char> {
    "<d:propfind xmlns:d=\"DAV:\"><d:prop><d:current-user-principal /></d:prop></d:propfind>"@
}

/// Returns the request body of Principal Discovery.
pub fn principal_body() -> (r: String)
    ensures
        r@ == spec_principal_body(),
{
    "<d:propfind xmlns:d=\"DAV:\"><d:prop><d:current-user-principal /></d:prop></d:propfind>".to_owned()
}

/// The `PROPFIND` body of Calendar Home Discovery: it asks for
/// `calendar-home-set`.
pub open spec fn spec_home_set_body() -> Seq<char> {
    "<d:propfind xmlns:d=\"DAV:\" xmlns:c=\"urn:ietf:params:xml:ns:caldav\"><d:self/><d:prop><c:calendar-home-set /></d:prop></d:propfind>"@
}

/// Returns the request body of Calendar Home Discovery.
pub fn home_set_body() -> (r: String)
    ensures
        r@ == spec_home_set_body(),
{
    "<d:propfind xmlns:d=\"DAV:\" xmlns:c=\"urn:ietf:params:xml:ns:caldav\"><d:self/><d:prop><c:calendar-home-set /></d:prop></d:propfind>".to_owned()
}

/// The depth-1 `PROPFIND` body of Calendar Enumeration: it asks for the
/// display name, resource type and supported component set of each child.
pub open spec fn spec_calendar_list_body() -> Seq<char> {
    "<d:propfind xmlns:d=\"DAV:\" xmlns:c=\"urn:ietf:params:xml:ns:caldav\"><d:prop><d:displayname /><d:resourcetype /><c:supported-calendar-component-set /></d:prop></d:propfind>"@
}

/// Returns the request body of Calendar Enumeration.
pub fn calendar_list_body() -> (r: String)
    ensures
        r@ == spec_calendar_list_body(),
{
    "<d:propfind xmlns:d=\"DAV:\" xmlns:c=\"urn:ietf:params:xml:ns:caldav\"><d:prop><d:displayname /><d:resourcetype /><c:supported-calendar-component-set /></d:prop></d:propfind>".to_owned()
}

/// The `REPORT` body template of an Event Query: a `calendar-query` for
/// `VEVENT` components, with `{start}` and `{end}` placeholders for the
/// time range.
pub open spec fn spec_event_template() -> Seq<char> {
    "<c:calendar-query xmlns:d=\"DAV:\" xmlns:c=\"urn:ietf:params:xml:ns:caldav\"><d:prop><d:getetag /><c:calendar-data /></d:prop><c:filter><c:comp-filter name=\"VCALENDAR\"><c:comp-filter name=\"VEVENT\"><c:time-range start=\"{start}\" end=\"{end}\" /></c:comp-filter></c:comp-filter></c:filter></c:calendar-query>"@
}

/// Returns the request body template of an Event Query.
pub fn event_template() -> (r: String)
    ensures
        r@ == spec_event_template(),
{
    "<c:calendar-query xmlns:d=\"DAV:\" xmlns:c=\"urn:ietf:params:xml:ns:caldav\"><d:prop><d:getetag /><c:calendar-data /></d:prop><c:filter><c:comp-filter name=\"VCALENDAR\"><c:comp-filter name=\"VEVENT\"><c:time-range start=\"{start}\" end=\"{end}\" /></c:comp-filter></c:comp-filter></c:filter></c:calendar-query>".to_owned()
}

/// What placeholder substitution returns for `template` with `key1` bound
/// to `val1` and `key2` bound to `val2`: `Some` exactly when substitution
/// succeeds, and then the rendered text.
pub uninterp spec fn substituted(
    template: Seq<char>,
    key1: Seq<char>,
    val1: Seq<char>,
    key2: Seq<char>,
    val2: Seq<char>,
) -> Option<Seq<char>>;

#[verifier::external_type_specification]
#[verifier::external_body]
pub struct ExFmtError(strfmt::FmtError);

/// Relies on `strfmt::strfmt`: substitution of named placeholders in a
/// template is a function of the template and the two bindings alone.
#[verifier::external_body]
fn format_template(template: &str, key1: &str, val1: &str, key2: &str, val2: &str) -> (r: Result<
    String,
    strfmt::FmtError,
>)
    ensures
        r is Ok <==> substituted(template@, key1@, val1@, key2@, val2@) is Some,
        r matches Ok(s) ==> Some(s@) == substituted(template@, key1@, val1@, key2@, val2@),
{
    let mut vars: std::collections::HashMap<String, &str> = std::collections::HashMap::new();
    vars.insert(key1.to_owned(), val1);
    vars.insert(key2.to_owned(), val2);
    strfmt::strfmt(template, &vars)
}

/// Renders an event query body: substitutes `start` for the `{start}`
/// placeholder of `template` and `end` for `{end}`. Succeeds exactly when
/// substitution succeeds; fails with `InvalidTemplate` otherwise.
pub fn render_event_body(template: &str, start: &str, end: &str) -> (r: Result<String, DavError>)
    ensures
        r is Ok <==> substituted(template@, "start"@, start@, "end"@, end@) is Some,
        r matches Ok(s) ==> Some(s@) == substituted(template@, "start"@, start@, "end"@, end@),
        r matches Err(e) ==> e == DavError::InvalidTemplate,
{
    match format_template(template, "start", start, "end", end) {
        Ok(s) => Ok(s),
        Err(_) => Err(DavError::InvalidTemplate),
    }
}

} // verus!
