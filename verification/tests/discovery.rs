use caldav_client::dav_client::DAVClient;
use caldav_client::error::DavError;
use caldav_client::principal::Principal;
use caldav_client::requests::{event_template, render_event_body};
use caldav_client::urls::DavUrl;
use caldav_client::xml::{XmlNode, parse_response};

fn node(name: &str, text: &str, children: Vec<XmlNode>) -> XmlNode {
    XmlNode { name: name.to_string(), text: text.to_string(), children }
}

fn example_url(path: &str) -> DavUrl {
    DavUrl {
        scheme: "https".to_string(),
        host: Some("dav.example.com".to_string()),
        port: None,
        path: path.to_string(),
    }
}

const PRINCIPAL_RESPONSE: &str = "<d:multistatus xmlns:d=\"DAV:\"><d:response><d:href>/</d:href><d:propstat><d:prop><d:current-user-principal><d:href>/principals/bob/</d:href></d:current-user-principal></d:prop></d:propstat></d:response></d:multistatus>";

const HOME_SET_RESPONSE: &str = "<d:multistatus xmlns:d=\"DAV:\" xmlns:c=\"urn:ietf:params:xml:ns:caldav\"><d:response><d:propstat><d:prop><c:calendar-home-set><d:href>/calendars/bob/</d:href></c:calendar-home-set></d:prop></d:propstat></d:response></d:multistatus>";

const CALENDAR_LIST_RESPONSE: &str = "<d:multistatus xmlns:d=\"DAV:\"><d:response><d:href>/calendars/bob/work/</d:href><d:propstat><d:prop><d:displayname>Work</d:displayname></d:prop></d:propstat></d:response><d:response><d:href>/calendars/bob/</d:href><d:propstat><d:prop><d:displayname></d:displayname></d:prop></d:propstat></d:response></d:multistatus>";

#[test]
fn new_client_rejects_an_invalid_root_url() {
    assert!(matches!(DAVClient::new("not a url".to_string()), Err(DavError::InvalidUrl)));
}

#[test]
fn principal_discovery_resolves_the_principal_url() {
    let mut client = DAVClient::new("https://dav.example.com/".to_string()).unwrap();
    let request = client.principal_request().expect("not yet resolved");
    assert_eq!(request.method, "PROPFIND");
    assert_eq!(request.depth, 0);
    assert_eq!(request.url.path, "/");
    let tree = parse_response(PRINCIPAL_RESPONSE).unwrap();
    client.get_principal(&tree).unwrap();
    let principal = client.principal.as_ref().expect("resolved");
    assert_eq!(principal.url.scheme, "https");
    assert_eq!(principal.url.host.as_deref(), Some("dav.example.com"));
    assert_eq!(principal.url.port, None);
    assert_eq!(principal.url.path, "/principals/bob/");
    assert!(client.principal_request().is_none());
}

#[test]
fn principal_discovery_is_idempotent() {
    let mut client = DAVClient::new("https://dav.example.com/".to_string()).unwrap();
    let tree = parse_response(PRINCIPAL_RESPONSE).unwrap();
    client.get_principal(&tree).unwrap();
    let other = "<d:multistatus xmlns:d=\"DAV:\"><d:current-user-principal><d:href>/principals/alice/</d:href></d:current-user-principal></d:multistatus>";
    let other_tree = parse_response(other).unwrap();
    client.get_principal(&other_tree).unwrap();
    assert_eq!(client.principal.as_ref().unwrap().url.path, "/principals/bob/");
    assert!(client.principal_request().is_none());
}

#[test]
fn principal_discovery_fails_when_the_element_is_absent() {
    let mut client = DAVClient::new("https://dav.example.com/".to_string()).unwrap();
    let tree = node("multistatus", "", vec![node("response", "", vec![])]);
    assert!(matches!(client.get_principal(&tree), Err(DavError::ElementNotFound)));
    assert!(client.principal.is_none());
}

#[test]
fn home_discovery_resolves_against_the_example_server() {
    let mut client = DAVClient::new("https://dav.example.com/".to_string()).unwrap();
    let tree = parse_response(PRINCIPAL_RESPONSE).unwrap();
    client.get_principal(&tree).unwrap();
    let mut principal = client.principal.take().unwrap();
    let request = principal.home_set_request().expect("not yet resolved");
    assert_eq!(request.method, "PROPFIND");
    assert_eq!(request.depth, 0);
    assert_eq!(request.url.path, "/principals/bob/");
    let home_tree = parse_response(HOME_SET_RESPONSE).unwrap();
    principal.get_cal_home_set(&home_tree).unwrap();
    let home = principal.calendar_home_set_url.as_ref().expect("resolved");
    assert_eq!(home.scheme, "https");
    assert_eq!(home.host.as_deref(), Some("dav.example.com"));
    assert_eq!(home.port, None);
    assert_eq!(home.path, "/calendars/bob/");
}

#[test]
fn home_discovery_is_idempotent() {
    let mut principal = Principal::new(example_url("/principals/bob/"));
    let home_tree = parse_response(HOME_SET_RESPONSE).unwrap();
    principal.get_cal_home_set(&home_tree).unwrap();
    assert!(principal.home_set_request().is_none());
    let other = "<d:multistatus xmlns:d=\"DAV:\" xmlns:c=\"urn:ietf:params:xml:ns:caldav\"><c:calendar-home-set><d:href>/calendars/alice/</d:href></c:calendar-home-set></d:multistatus>";
    let other_tree = parse_response(other).unwrap();
    principal.get_cal_home_set(&other_tree).unwrap();
    assert_eq!(principal.calendar_home_set_url.as_ref().unwrap().path, "/calendars/bob/");
}

#[test]
fn enumeration_keeps_displayed_entries_only() {
    let mut principal = Principal::new(example_url("/principals/bob/"));
    let tree = parse_response(CALENDAR_LIST_RESPONSE).unwrap();
    principal.get_calendars(&tree).unwrap();
    assert_eq!(principal.calendars, vec!["/calendars/bob/work/".to_string()]);
    assert!(principal.calendars_discovered);
}

#[test]
fn enumeration_skips_entries_without_a_displayname() {
    let mut principal = Principal::new(example_url("/principals/bob/"));
    let tree = node(
        "multistatus",
        "",
        vec![
            node(
                "response",
                "",
                vec![node("href", "/calendars/bob/plain/", vec![])],
            ),
            node(
                "response",
                "",
                vec![
                    node("href", "/calendars/bob/named/", vec![]),
                    node("displayname", "Named", vec![]),
                ],
            ),
        ],
    );
    principal.get_calendars(&tree).unwrap();
    assert_eq!(principal.calendars, vec!["/calendars/bob/named/".to_string()]);
}

#[test]
fn enumeration_fails_when_a_displayed_entry_has_no_href() {
    let mut principal = Principal::new(example_url("/principals/bob/"));
    let tree = node(
        "multistatus",
        "",
        vec![node("response", "", vec![node("displayname", "Work", vec![])])],
    );
    assert!(matches!(principal.get_calendars(&tree), Err(DavError::ElementNotFound)));
    assert!(principal.calendars.is_empty());
    assert!(!principal.calendars_discovered);
}

#[test]
fn enumeration_with_zero_calendars_still_counts_as_discovered() {
    let mut principal = Principal::new(example_url("/principals/bob/"));
    principal.calendar_home_set_url = Some(example_url("/calendars/bob/"));
    assert!(principal.calendars_request().is_some());
    let empty = node("multistatus", "", vec![]);
    principal.get_calendars(&empty).unwrap();
    assert!(principal.calendars.is_empty());
    assert!(principal.calendars_discovered);
    assert!(principal.calendars_request().is_none());
    let tree = parse_response(CALENDAR_LIST_RESPONSE).unwrap();
    principal.get_calendars(&tree).unwrap();
    assert!(principal.calendars.is_empty());
}

#[test]
fn enumeration_request_needs_a_resolved_home_set() {
    let principal = Principal::new(example_url("/principals/bob/"));
    assert!(principal.calendars_request().is_none());
    let mut resolved = Principal::new(example_url("/principals/bob/"));
    resolved.calendar_home_set_url = Some(example_url("/calendars/bob/"));
    let request = resolved.calendars_request().expect("home set is resolved");
    assert_eq!(request.method, "PROPFIND");
    assert_eq!(request.depth, 1);
    assert_eq!(request.url.path, "/calendars/bob/");
}

#[test]
fn event_request_substitutes_the_time_range() {
    let mut principal = Principal::new(example_url("/principals/bob/"));
    principal.calendars.push("/calendars/bob/work/".to_string());
    let request = principal
        .event_request(0, "20201102T000000Z", "20201107T000000Z")
        .unwrap();
    assert_eq!(request.method, "REPORT");
    assert_eq!(request.depth, 1);
    assert_eq!(request.url.path, "/calendars/bob/work/");
    let expected = event_template()
        .replace("{start}", "20201102T000000Z")
        .replace("{end}", "20201107T000000Z");
    assert_eq!(request.body, expected);
    assert!(request.body.contains("start=\"20201102T000000Z\""));
    assert!(request.body.contains("end=\"20201107T000000Z\""));
}

#[test]
fn render_event_body_rejects_an_unbound_placeholder() {
    assert!(matches!(
        render_event_body("{missing}", "a", "b"),
        Err(DavError::InvalidTemplate)
    ));
}

#[test]
fn event_query_collects_events_in_document_order() {
    let mut principal = Principal::new(example_url("/principals/bob/"));
    principal.calendars.push("/calendars/bob/work/".to_string());
    let response = "<d:multistatus xmlns:d=\"DAV:\" xmlns:c=\"urn:ietf:params:xml:ns:caldav\"><d:response><d:propstat><d:prop><c:calendar-data>EVENT_A</c:calendar-data></d:prop></d:propstat></d:response><d:response><d:propstat><d:prop><c:calendar-data>EVENT_B</c:calendar-data></d:prop></d:propstat></d:response></d:multistatus>";
    let tree = parse_response(response).unwrap();
    let events = principal.events(&vec![tree]);
    assert_eq!(events, vec!["EVENT_A".to_string(), "EVENT_B".to_string()]);
}

#[test]
fn event_query_concatenates_calendars_in_list_order() {
    let mut principal = Principal::new(example_url("/principals/bob/"));
    principal.calendars.push("/calendars/bob/one/".to_string());
    principal.calendars.push("/calendars/bob/two/".to_string());
    let first = node(
        "multistatus",
        "",
        vec![
            node("calendar-data", "EVENT_A", vec![]),
            node("calendar-data", "EVENT_B", vec![]),
        ],
    );
    let second = node("multistatus", "", vec![node("calendar-data", "EVENT_C", vec![])]);
    let events = principal.events(&vec![first, second]);
    assert_eq!(
        events,
        vec!["EVENT_A".to_string(), "EVENT_B".to_string(), "EVENT_C".to_string()]
    );
}

#[test]
fn errors_describe_themselves() {
    assert_eq!(DavError::InvalidUrl.describe(), "invalid server URL");
    assert_eq!(DavError::InvalidXml.describe(), "response is not well-formed XML");
    assert_eq!(
        DavError::ElementNotFound.describe(),
        "expected element is absent from the response"
    );
    assert_eq!(
        DavError::InvalidTemplate.describe(),
        "the query template could not be rendered"
    );
}
