//! Extraction of protocol data from parsed DAV response trees: the `href`
//! behind a discovery property, the calendar list of an enumeration
//! response, and the event bodies of a query response.

use vstd::prelude::*;

use crate::error::DavError;
use crate::xml::{XmlNode, find_elem, find_elems, first_match, matches_in, derefs};

verus! {

/// The text of the first `href` element inside the first `outer` element
/// of `t`, when both exist.
pub open spec fn spec_href_in(t: XmlNode, outer: Seq<char>) -> Option<Seq<char>> {
    match first_match(t, outer) {
        Some(n) => match first_match(n, "href"@) {
            Some(h) => Some(h.text@),
            None => None,
        },
        None => None,
    }
}

/// Returns the text of the first `href` element inside the first `outer`
/// element of `root`, as the discovery steps read their responses. Fails
/// with `ElementNotFound` exactly when either element is absent.
pub fn extract_href_in(root: &XmlNode, outer: &String) -> (r: Result<String, DavError>)
    ensures
        spec_href_in(*root, outer@) matches Some(h) ==> r matches Ok(s) && s@ == h,
        spec_href_in(*root, outer@) is None ==> r == Err::<String, DavError>(
            DavError::ElementNotFound,
        ),
{
    match find_elem(root, outer.clone()) {
        Some(n) => match find_elem(n, "href".to_owned()) {
            Some(h) => Ok(h.text.clone()),
            None => Err(DavError::ElementNotFound),
        },
        None => Err(DavError::ElementNotFound),
    }
}

/// Whether the calendar-list entry `e` carries a non-empty display name.
pub open spec fn entry_displayed(e: XmlNode) -> bool {
    match first_match(e, "displayname"@) {
        Some(d) => d.text@.len() > 0,
        None => false,
    }
}

/// The `href` text of the calendar-list entry `e`, when present.
pub open spec fn entry_href(e: XmlNode) -> Option<Seq<char>> {
    match first_match(e, "href"@) {
        Some(h) => Some(h.text@),
        None => None,
    }
}

/// The calendar paths named by the entry sequence `es`, in order: entries
/// with an empty or absent display name are skipped; `None` when some
/// displayed entry lacks an `href`.
pub open spec fn spec_calendar_paths(es: Seq<XmlNode>) -> Option<Seq<Seq<char>>>
    decreases es,
{
    if es.len() == 0 {
        Some(Seq::empty())
    } else {
        let init = spec_calendar_paths(es.drop_last());
        if !entry_displayed(es.last()) {
            init
        } else {
            match entry_href(es.last()) {
                None => None,
                Some(h) => match init {
                    None => None,
                    Some(v) => Some(v.push(h)),
                },
            }
        }
    }
}

/// The calendar paths of a whole enumeration response: those of its
/// `response` elements, in document order.
pub open spec fn spec_calendars(t: XmlNode) -> Option<Seq<Seq<char>>> {
    spec_calendar_paths(matches_in(t, "response"@))
}

/// The predicate behind display-name filtering, as a function value.
pub open spec fn displayed_pred() -> spec_fn(XmlNode) -> bool {
    |e: XmlNode| entry_displayed(e)
}

/// The `href` text of an entry known to have one, as a function value.
pub open spec fn href_fn() -> spec_fn(XmlNode) -> Seq<char> {
    |e: XmlNode| entry_href(e)->Some_0
}

/// Display-name filtering, stated whole: whenever the calendar paths of
/// the entries are defined, they are exactly the `href` texts of the
/// entries with a non-empty display name, in order — an entry with an
/// empty or absent display name never contributes, and every displayed
/// entry does.
pub proof fn lemma_calendar_paths_are_displayed_hrefs(es: Seq<XmlNode>)
    requires
        spec_calendar_paths(es) is Some,
    ensures
        spec_calendar_paths(es)->Some_0 == es.filter(displayed_pred()).map_values(href_fn()),
    decreases es,
{
    reveal(Seq::filter);
    if es.len() == 0 {
        assert(es.filter(displayed_pred()) =~= Seq::<XmlNode>::empty());
        assert(spec_calendar_paths(es)->Some_0 =~= es.filter(displayed_pred()).map_values(
            href_fn(),
        ));
    } else {
        let init = es.drop_last();
        assert(spec_calendar_paths(init) is Some);
        lemma_calendar_paths_are_displayed_hrefs(init);
        if entry_displayed(es.last()) {
            assert(es.filter(displayed_pred()) == init.filter(displayed_pred()).push(es.last()));
            assert(spec_calendar_paths(es)->Some_0 =~= es.filter(displayed_pred()).map_values(
                href_fn(),
            )) by {
                let lhs = spec_calendar_paths(init)->Some_0.push(entry_href(es.last())->Some_0);
                let rhs = init.filter(displayed_pred()).push(es.last()).map_values(href_fn());
                assert forall|j: int| 0 <= j < lhs.len() implies lhs[j] == rhs[j] by {
                    if j < lhs.len() - 1 {
                        assert(rhs[j] == href_fn()(init.filter(displayed_pred())[j]));
                    } else {
                        assert(rhs[j] == href_fn()(es.last()));
                    }
                }
                assert(lhs.len() == rhs.len());
            }
        } else {
            assert(es.filter(displayed_pred()) == init.filter(displayed_pred()));
        }
    }
}

/// Once the calendar paths of a prefix of the entries are undefined, the
/// paths of the whole entry sequence are undefined as well.
proof fn lemma_calendar_paths_none(es: Seq<XmlNode>, i: int)
    requires
        0 <= i <= es.len(),
        spec_calendar_paths(es.take(i)) is None,
    ensures
        spec_calendar_paths(es) is None,
    decreases es.len() - i,
{
    if i == es.len() {
        assert(es.take(i) =~= es);
    } else {
        assert(es.take(i + 1).drop_last() =~= es.take(i));
        assert(es.take(i + 1).last() == es[i]);
        assert(spec_calendar_paths(es.take(i + 1)) is None);
        lemma_calendar_paths_none(es, i + 1);
    }
}

/// Collects, in document order, the `href` text of every `response` entry
/// of `root` that carries a non-empty `displayname`; entries with an empty
/// or absent display name are skipped entirely. Fails with
/// `ElementNotFound` exactly when a displayed entry has no `href`.
pub fn extract_calendars(root: &XmlNode) -> (r: Result<Vec<String>, DavError>)
    ensures
        spec_calendars(*root) matches Some(v) ==> r matches Ok(c) && c.deep_view() == v,
        spec_calendars(*root) is None ==> r == Err::<Vec<String>, DavError>(
            DavError::ElementNotFound,
        ),
{
    let reps = find_elems(root, "response".to_owned());
    let ghost entries = derefs(reps@);
    let mut out: Vec<String> = Vec::new();
    let n = reps.len();
    let mut i: usize = 0;
    proof {
        assert(entries.take(0) =~= Seq::<XmlNode>::empty());
    }
    while i < n
        invariant
            n == reps@.len(),
            i <= n,
            entries == derefs(reps@),
            entries == matches_in(*root, "response"@),
            spec_calendar_paths(entries.take(i as int)) == Some(out.deep_view()),
        decreases n - i,
    {
        let rep: &XmlNode = reps[i];
        proof {
            assert(entries[i as int] == *rep);
        }
        let displayed: bool = match find_elem(rep, "displayname".to_owned()) {
            Some(d) => !d.text.as_str().is_empty(),
            None => false,
        };
        proof {
            assert(displayed == entry_displayed(entries[i as int]));
            assert(entries.take(i as int + 1).drop_last() =~= entries.take(i as int));
            assert(entries.take(i as int + 1).last() == entries[i as int]);
        }
        if displayed {
            match find_elem(rep, "href".to_owned()) {
                Some(h) => {
                    let ghost prev = out.deep_view();
                    let ghost prev_raw = out@;
                    out.push(h.text.clone());
                    proof {
                        assert(out.deep_view() =~= prev.push(h.text@)) by {
                            assert forall|j: int|
                                0 <= j < out.deep_view().len() implies out.deep_view()[j]
                                == prev.push(h.text@)[j] by {
                                if j < prev.len() {
                                    assert(out@[j] == prev_raw[j]);
                                } else {
                                    assert(out@[j] == h.text);
                                }
                            }
                        }
                    }
                },
                None => {
                    proof {
                        assert(spec_calendar_paths(entries.take(i as int + 1)) is None);
                        lemma_calendar_paths_none(entries, i as int + 1);
                    }
                    return Err(DavError::ElementNotFound);
                },
            }
        }
        i = i + 1;
    }
    proof {
        assert(entries.take(n as int) =~= entries);
    }
    Ok(out)
}

/// The text contents of the nodes `s`, in order.
pub open spec fn texts_of(s: Seq<XmlNode>) -> Seq<Seq<char>> {
    s.map_values(|n: XmlNode| n.text@)
}

/// The iCalendar text of every `calendar-data` element of the query
/// response `t`, in document order.
pub open spec fn spec_events(t: XmlNode) -> Seq<Seq<char>> {
    texts_of(matches_in(t, "calendar-data"@))
}

/// The events of a sequence of query responses: each response's events in
/// document order, concatenated in response order.
pub open spec fn spec_all_events(ts: Seq<XmlNode>) -> Seq<Seq<char>>
    decreases ts,
{
    if ts.len() == 0 {
        Seq::empty()
    } else {
        spec_all_events(ts.drop_last()) + spec_events(ts.last())
    }
}

/// Collects the text content of every `calendar-data` element of `root`,
/// in document order.
pub fn extract_events(root: &XmlNode) -> (r: Vec<String>)
    ensures
        r.deep_view() == spec_events(*root),
{
    let datas = find_elems(root, "calendar-data".to_owned());
    let ghost nodes = derefs(datas@);
    let mut out: Vec<String> = Vec::new();
    let n = datas.len();
    let mut i: usize = 0;
    proof {
        assert(texts_of(nodes).take(0) =~= Seq::<Seq<char>>::empty());
        assert(out.deep_view() =~= Seq::<Seq<char>>::empty());
    }
    while i < n
        invariant
            n == datas@.len(),
            i <= n,
            nodes == derefs(datas@),
            nodes == matches_in(*root, "calendar-data"@),
            out.deep_view() == texts_of(nodes).take(i as int),
        decreases n - i,
    {
        let d: &XmlNode = datas[i];
        let ghost prev = out.deep_view();
        let ghost prev_raw = out@;
        out.push(d.text.clone());
        proof {
            assert(nodes[i as int] == *d);
            assert(out.deep_view() =~= prev.push(d.text@)) by {
                assert forall|j: int|
                    0 <= j < out.deep_view().len() implies out.deep_view()[j] == prev.push(
                    d.text@,
                )[j] by {
                    if j < prev.len() {
                        assert(out@[j] == prev_raw[j]);
                    } else {
                        assert(out@[j] == d.text);
                    }
                }
            }
            assert(prev.push(d.text@) =~= texts_of(nodes).take(i as int + 1)) by {
                assert forall|j: int|
                    0 <= j < prev.push(d.text@).len() implies prev.push(d.text@)[j] == texts_of(
                    nodes,
                ).take(i as int + 1)[j] by {
                    assert(texts_of(nodes)[j] == nodes[j].text@);
                    if j < i as int {
                        assert(prev[j] == texts_of(nodes).take(i as int)[j]);
                    }
                }
            }
        }
        i = i + 1;
    }
    proof {
        assert(texts_of(nodes).take(n as int) =~= texts_of(nodes));
    }
    out
}

} // verus!
