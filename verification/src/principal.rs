//! The authenticated user's principal resource and the discovery state
//! built on it: the calendar-home collection, the calendar list, and the
//! per-calendar event queries.

use vstd::prelude::*;

use crate::error::DavError;
use crate::extract::{
    extract_calendars, extract_events, extract_href_in, spec_all_events, spec_calendars,
    spec_href_in,
};
use crate::requests::{
    DavRequest, calendar_list_body, event_template, home_set_body, render_event_body,
    spec_calendar_list_body, spec_event_template, spec_home_set_body, substituted,
};
use crate::urls::{DavUrl, spec_with_path, with_path};
use crate::xml::XmlNode;

verus! {

/// The principal resource and the session state owned by it. The
/// enumeration state is explicit in `calendars_discovered`: a server may
/// legitimately list zero calendars, so the list being empty cannot by
/// itself record that enumeration has run.
pub struct Principal {
    /// The principal resource URL, set at construction and never changed.
    pub url: DavUrl,
    /// The calendar-home collection URL, once Calendar Home Discovery has
    /// resolved it; never overwritten afterwards.
    pub calendar_home_set_url: Option<DavUrl>,
    /// The paths of the known calendar collections, in discovery order.
    pub calendars: Vec<String>,
    /// Whether Calendar Enumeration has already run.
    pub calendars_discovered: bool,
}

impl Principal {
    /// Creates a principal at `url`, with nothing discovered yet.
    pub fn new(url: DavUrl) -> (r: Principal)
        ensures
            r.url == url,
            r.calendar_home_set_url is None,
            r.calendars@.len() == 0,
            !r.calendars_discovered,
    {
        Principal {
            url,
            calendar_home_set_url: None,
            calendars: Vec::new(),
            calendars_discovered: false,
        }
    }

    /// The `PROPFIND` that Calendar Home Discovery issues against the
    /// principal URL, or `None` when the home set is already resolved:
    /// re-running the discovery issues no second request.
    pub fn home_set_request(&self) -> (r: Option<DavRequest>)
        ensures
            self.calendar_home_set_url is Some ==> r is None,
            self.calendar_home_set_url is None ==> ({
                &&& r matches Some(q)
                &&& q.method@ == "PROPFIND"@
                &&& q.url@ == self.url@
                &&& q.depth == 0
                &&& q.body@ == spec_home_set_body()
            }),
    {
        match &self.calendar_home_set_url {
            Some(_) => None,
            None => Some(
                DavRequest {
                    method: "PROPFIND".to_owned(),
                    url: self.url.duplicate(),
                    depth: 0,
                    body: home_set_body(),
                },
            ),
        }
    }

    /// Applies a Calendar Home Discovery response: reads the `href` inside
    /// `calendar-home-set` and resolves the home-set URL by replacing the
    /// path of the principal URL with it. A no-op when already resolved;
    /// when the expected elements are absent, fails with `ElementNotFound`
    /// and leaves the principal unchanged.
    pub fn get_cal_home_set(&mut self, root: &XmlNode) -> (r: Result<(), DavError>)
        ensures
            old(self).calendar_home_set_url is Some ==> r is Ok && *final(self) == *old(self),
            old(self).calendar_home_set_url is None ==> match spec_href_in(
                *root,
                "calendar-home-set"@,
            ) {
                Some(h) => {
                    &&& r is Ok
                    &&& final(self).calendar_home_set_url matches Some(u)
                    &&& u@ == spec_with_path(old(self).url@, h)
                    &&& final(self).url == old(self).url
                    &&& final(self).calendars == old(self).calendars
                    &&& final(self).calendars_discovered == old(self).calendars_discovered
                },
                None => r == Err::<(), DavError>(DavError::ElementNotFound) && *final(self)
                    == *old(self),
            },
    {
        if self.calendar_home_set_url.is_some() {
            return Ok(());
        }
        match extract_href_in(root, &"calendar-home-set".to_owned()) {
            Ok(href) => {
                let u = with_path(&self.url, href.as_str());
                self.calendar_home_set_url = Some(u);
                Ok(())
            },
            Err(e) => Err(e),
        }
    }

    /// The depth-1 `PROPFIND` that Calendar Enumeration issues against the
    /// resolved home set, or `None` when the home set is not yet resolved
    /// or enumeration has already run.
    pub fn calendars_request(&self) -> (r: Option<DavRequest>)
        ensures
            self.calendar_home_set_url is None || self.calendars_discovered ==> r is None,
            self.calendar_home_set_url is Some && !self.calendars_discovered ==> ({
                &&& r matches Some(q)
                &&& q.method@ == "PROPFIND"@
                &&& q.url@ == self.calendar_home_set_url->Some_0@
                &&& q.depth == 1
                &&& q.body@ == spec_calendar_list_body()
            }),
    {
        if self.calendars_discovered {
            return None;
        }
        match &self.calendar_home_set_url {
            Some(u) => Some(
                DavRequest {
                    method: "PROPFIND".to_owned(),
                    url: u.duplicate(),
                    depth: 1,
                    body: calendar_list_body(),
                },
            ),
            None => None,
        }
    }

    /// Applies a Calendar Enumeration response: appends, in document
    /// order, the `href` of every `response` entry with a non-empty
    /// display name, and marks enumeration as done. Entries with an empty
    /// or absent display name never enter the list. A no-op when
    /// enumeration already ran; on failure the principal is left
    /// unchanged.
    pub fn get_calendars(&mut self, root: &XmlNode) -> (r: Result<(), DavError>)
        ensures
            old(self).calendars_discovered ==> r is Ok && *final(self) == *old(self),
            !old(self).calendars_discovered ==> match spec_calendars(*root) {
                Some(v) => {
                    &&& r is Ok
                    &&& final(self).calendars.deep_view() == old(self).calendars.deep_view() + v
                    &&& final(self).calendars_discovered
                    &&& final(self).url == old(self).url
                    &&& final(self).calendar_home_set_url == old(self).calendar_home_set_url
                },
                None => r == Err::<(), DavError>(DavError::ElementNotFound) && *final(self)
                    == *old(self),
            },
    {
        if self.calendars_discovered {
            return Ok(());
        }
        match extract_calendars(root) {
            Ok(mut paths) => {
                let ghost prev = self.calendars.deep_view();
                let ghost prev_raw = self.calendars@;
                let ghost paths_dv = paths.deep_view();
                let ghost paths_raw = paths@;
                self.calendars.append(&mut paths);
                self.calendars_discovered = true;
                proof {
                    assert(self.calendars.deep_view() =~= prev + paths_dv) by {
                        assert forall|j: int|
                            0 <= j < self.calendars.deep_view().len() implies self.calendars.deep_view()[j]
                            == (prev + paths_dv)[j] by {
                            if j < prev.len() {
                                assert(self.calendars@[j] == prev_raw[j]);
                            } else {
                                assert(self.calendars@[j] == paths_raw[j - prev.len()]);
                            }
                        }
                    }
                }
                Ok(())
            },
            Err(e) => Err(e),
        }
    }

    /// Builds the `REPORT` of an Event Query against the calendar at
    /// `index`: the target URL is the principal URL with its path replaced
    /// by that calendar's path, and the body is the `VEVENT` time-range
    /// template with `start` and `end` substituted. Succeeds exactly when
    /// substitution on the template succeeds; fails with `InvalidTemplate`
    /// otherwise.
    pub fn event_request(&self, index: usize, start: &str, end: &str) -> (r: Result<
        DavRequest,
        DavError,
    >)
        requires
            index < self.calendars@.len(),
        ensures
            r is Ok <==> substituted(spec_event_template(), "start"@, start@, "end"@, end@)
                is Some,
            r matches Ok(q) ==> ({
                &&& q.method@ == "REPORT"@
                &&& q.depth == 1
                &&& q.url@ == spec_with_path(self.url@, self.calendars@[index as int]@)
                &&& Some(q.body@) == substituted(spec_event_template(), "start"@, start@, "end"@, end@)
            }),
            r matches Err(e) ==> e == DavError::InvalidTemplate,
    {
        let tpl = event_template();
        match render_event_body(tpl.as_str(), start, end) {
            Ok(body) => {
                let cal: &String = &self.calendars[index];
                let url = with_path(&self.url, cal.as_str());
                Ok(DavRequest { method: "REPORT".to_owned(), url, depth: 1, body })
            },
            Err(e) => Err(e),
        }
    }

    /// Collects the events of one Event Query response per known calendar,
    /// given in calendar order: the result is the concatenation, calendar
    /// by calendar, of each response's `calendar-data` texts in document
    /// order — no cross-calendar sorting or deduplication.
    pub fn events(&self, responses: &Vec<XmlNode>) -> (r: Vec<String>)
        requires
            responses@.len() == self.calendars@.len(),
        ensures
            r.deep_view() == spec_all_events(responses@),
    {
        let mut out: Vec<String> = Vec::new();
        let n = responses.len();
        let mut i: usize = 0;
        proof {
            assert(responses@.take(0) =~= Seq::<XmlNode>::empty());
            assert(out.deep_view() =~= Seq::<Seq<char>>::empty());
        }
        while i < n
            invariant
                n == responses@.len(),
                i <= n,
                out.deep_view() == spec_all_events(responses@.take(i as int)),
            decreases n - i,
        {
            let mut sub = extract_events(&responses[i]);
            let ghost prev = out.deep_view();
            let ghost prev_raw = out@;
            let ghost sub_dv = sub.deep_view();
            let ghost sub_raw = sub@;
            out.append(&mut sub);
            proof {
                assert(responses@.take(i as int + 1).drop_last() =~= responses@.take(i as int));
                assert(responses@.take(i as int + 1).last() == responses@[i as int]);
                assert(out.deep_view() =~= prev + sub_dv) by {
                    assert forall|j: int|
                        0 <= j < out.deep_view().len() implies out.deep_view()[j] == (prev
                        + sub_dv)[j] by {
                        if j < prev.len() {
                            assert(out@[j] == prev_raw[j]);
                        } else {
                            assert(out@[j] == sub_raw[j - prev.len()]);
                        }
                    }
                }
            }
            i = i + 1;
        }
        proof {
            assert(responses@.take(n as int) =~= responses@);
        }
        out
    }
}

} // verus!
