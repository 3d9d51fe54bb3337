//! Query functions over calendar data.

use vstd::prelude::*;

use crate::calendar::types::{CalendarData, Event};
use crate::seqs::{derefs, lemma_select_step, opt_text};
use crate::text::{
    begins_with, contains_text, eq_ignore_ascii_case, lemma_text_lt_asymmetric,
    lemma_text_lt_irreflexive, lemma_text_lt_total, lemma_text_lt_transitive, lowercase, occurs_in,
    same_ignoring_ascii_case, starts_with_text, text_equal, text_less, text_lt, to_lowercase,
};

verus! {

/// An optional filter on a text field passes: absent, or equal ignoring ASCII case.
pub open spec fn filter_passes(field: Seq<char>, filter: Option<Seq<char>>) -> bool {
    filter matches Some(f) ==> same_ignoring_ascii_case(field, f)
}

/// `e` passes the optional category, priority and status filters of `list_events`.
pub open spec fn event_passes(
    e: Event,
    category: Option<Seq<char>>,
    priority: Option<Seq<char>>,
    status: Option<Seq<char>>,
) -> bool {
    &&& filter_passes(e.category@, category)
    &&& filter_passes(e.priority@, priority)
    &&& filter_passes(e.status@, status)
}

/// The events, in file order, that pass the filters of `list_events`.
pub open spec fn listed_events(
    data: CalendarData,
    category: Option<Seq<char>>,
    priority: Option<Seq<char>>,
    status: Option<Seq<char>>,
) -> Seq<Event> {
    data.events@.filter(|e: Event| event_passes(e, category, priority, status))
}

/// `e` mentions the lower-cased query `q` in its title or description.
pub open spec fn event_mentions(e: Event, q: Seq<char>) -> bool {
    occurs_in(lowercase(e.title@), q) || occurs_in(lowercase(e.description@), q)
}

/// The events, in file order, that mention `query` (compared in lower case).
pub open spec fn found_events(data: CalendarData, query: Seq<char>) -> Seq<Event> {
    data.events@.filter(|e: Event| event_mentions(e, lowercase(query)))
}

/// The events, in file order, whose start time begins with `date`.
pub open spec fn dated_events(data: CalendarData, date: Seq<char>) -> Seq<Event> {
    data.events@.filter(|e: Event| begins_with(e.start_date_time@, date))
}

/// The events, in file order, of category `category` (ASCII case ignored).
pub open spec fn categorized_events(data: CalendarData, category: Seq<char>) -> Seq<Event> {
    data.events@.filter(|e: Event| same_ignoring_ascii_case(e.category@, category))
}

/// The first event in `s` whose id is `id`.
pub open spec fn first_event_with_id(s: Seq<Event>, id: Seq<char>) -> Option<Event>
    decreases s.len(),
{
    if s.len() == 0 {
        None
    } else if s[0].id@ == id {
        Some(s[0])
    } else {
        first_event_with_id(s.drop_first(), id)
    }
}

/// Event `a` comes before event `b` when sorting by start time: an earlier start
/// (by text order), or the same start and an earlier position in the file.
pub open spec fn starts_before(events: Seq<Event>, a: usize, b: usize) -> bool {
    ||| text_lt(events[a as int].start_date_time@, events[b as int].start_date_time@)
    ||| (events[a as int].start_date_time@ == events[b as int].start_date_time@ && a < b)
}

/// `order` lists the positions `0..n` of `events`, each once, sorted by start time
/// with ties kept in file order (a stable sort by start time).
pub open spec fn is_start_order(events: Seq<Event>, n: nat, order: Seq<usize>) -> bool {
    &&& order.len() == n
    &&& forall|i: int| 0 <= i < n ==> #[trigger] order[i] < n
    &&& forall|k: usize| k < n ==> #[trigger] order.contains(k)
    &&& forall|i: int, j: int| 0 <= i < j < n ==> starts_before(events, #[trigger] order[i], #[trigger] order[j])
}

/// The first `count` events in the start `order` (all of them if there are fewer).
pub open spec fn first_in_order(events: Seq<Event>, order: Seq<usize>, count: nat) -> Seq<Event> {
    let m = if count < order.len() { count as int } else { order.len() as int };
    order.take(m).map_values(|k: usize| events[k as int])
}

/// The events that `upcoming_events` returns: the first `count` of the events sorted
/// stably by start time.
pub open spec fn is_upcoming(data: CalendarData, count: nat, r: Seq<Event>) -> bool {
    exists|order: Seq<usize>|
        #[trigger] is_start_order(data.events@, data.events@.len(), order)
            && r == first_in_order(data.events@, order, count)
}

fn passes_filter(field: &String, filter: Option<&str>) -> (r: bool)
    ensures
        r == filter_passes(field@, opt_text(filter)),
{
    match filter {
        Some(f) => eq_ignore_ascii_case(field.as_str(), f),
        None => true,
    }
}

/// List events with optional filters for category, priority, and status.
pub fn list_events<'a>(
    data: &'a CalendarData,
    category: Option<&str>,
    priority: Option<&str>,
    status: Option<&str>,
) -> (r: Vec<&'a Event>)
    ensures
        derefs(r@) == listed_events(*data, opt_text(category), opt_text(priority), opt_text(status)),
{
    let ghost p = |e: Event| event_passes(e, opt_text(category), opt_text(priority), opt_text(status));
    let mut out: Vec<&'a Event> = Vec::new();
    let mut i: usize = 0;
    while i < data.events.len()
        invariant
            i <= data.events.len(),
            p == (|e: Event| event_passes(e, opt_text(category), opt_text(priority), opt_text(status))),
            derefs(out@) == data.events@.take(i as int).filter(p),
        decreases data.events.len() - i,
    {
        proof { lemma_select_step(out@, data.events@, i as int, p); }
        let e = &data.events[i];
        if passes_filter(&e.category, category) && passes_filter(&e.priority, priority)
            && passes_filter(&e.status, status) {
            out.push(e);
        }
        i = i + 1;
    }
    assert(data.events@.take(data.events.len() as int) =~= data.events@);
    out
}

/// Find a single event by its ID.
pub fn get_event<'a>(data: &'a CalendarData, event_id: &str) -> (r: Option<&'a Event>)
    ensures
        crate::json::opt_deref(r) == first_event_with_id(data.events@, event_id@),
{
    let mut i: usize = 0;
    assert(data.events@.skip(0) =~= data.events@);
    while i < data.events.len()
        invariant
            i <= data.events.len(),
            first_event_with_id(data.events@, event_id@)
                == first_event_with_id(data.events@.skip(i as int), event_id@),
        decreases data.events.len() - i,
    {
        assert(data.events@.skip(i as int).drop_first() =~= data.events@.skip(i + 1));
        if text_equal(data.events[i].id.as_str(), event_id) {
            return Some(&data.events[i]);
        }
        i = i + 1;
    }
    None
}

/// Search events by keyword (case-insensitive match on title and description).
pub fn search_events<'a>(data: &'a CalendarData, query: &str) -> (r: Vec<&'a Event>)
    ensures
        derefs(r@) == found_events(*data, query@),
{
    let q = to_lowercase(query);
    let ghost p = |e: Event| event_mentions(e, lowercase(query@));
    let mut out: Vec<&'a Event> = Vec::new();
    let mut i: usize = 0;
    while i < data.events.len()
        invariant
            i <= data.events.len(),
            q@ == lowercase(query@),
            p == (|e: Event| event_mentions(e, lowercase(query@))),
            derefs(out@) == data.events@.take(i as int).filter(p),
        decreases data.events.len() - i,
    {
        proof { lemma_select_step(out@, data.events@, i as int, p); }
        let e = &data.events[i];
        let title = to_lowercase(e.title.as_str());
        let description = to_lowercase(e.description.as_str());
        if contains_text(title.as_str(), q.as_str()) || contains_text(description.as_str(), q.as_str()) {
            out.push(e);
        }
        i = i + 1;
    }
    assert(data.events@.take(data.events.len() as int) =~= data.events@);
    out
}

/// Find events whose `startDateTime` begins with the given date prefix (e.g. "2025-08-28").
pub fn events_by_date<'a>(data: &'a CalendarData, date: &str) -> (r: Vec<&'a Event>)
    ensures
        derefs(r@) == dated_events(*data, date@),
{
    let ghost p = |e: Event| begins_with(e.start_date_time@, date@);
    let mut out: Vec<&'a Event> = Vec::new();
    let mut i: usize = 0;
    while i < data.events.len()
        invariant
            i <= data.events.len(),
            p == (|e: Event| begins_with(e.start_date_time@, date@)),
            derefs(out@) == data.events@.take(i as int).filter(p),
        decreases data.events.len() - i,
    {
        proof { lemma_select_step(out@, data.events@, i as int, p); }
        if starts_with_text(data.events[i].start_date_time.as_str(), date) {
            out.push(&data.events[i]);
        }
        i = i + 1;
    }
    assert(data.events@.take(data.events.len() as int) =~= data.events@);
    out
}

/// Filter events by exact category match (case-insensitive).
pub fn events_by_category<'a>(data: &'a CalendarData, category: &str) -> (r: Vec<&'a Event>)
    ensures
        derefs(r@) == categorized_events(*data, category@),
{
    let ghost p = |e: Event| same_ignoring_ascii_case(e.category@, category@);
    let mut out: Vec<&'a Event> = Vec::new();
    let mut i: usize = 0;
    while i < data.events.len()
        invariant
            i <= data.events.len(),
            p == (|e: Event| same_ignoring_ascii_case(e.category@, category@)),
            derefs(out@) == data.events@.take(i as int).filter(p),
        decreases data.events.len() - i,
    {
        proof { lemma_select_step(out@, data.events@, i as int, p); }
        if eq_ignore_ascii_case(data.events[i].category.as_str(), category) {
            out.push(&data.events[i]);
        }
        i = i + 1;
    }
    assert(data.events@.take(data.events.len() as int) =~= data.events@);
    out
}

/// Comparing start times: `starts_before` makes the start texts ordered or equal.
proof fn lemma_starts_before_le(events: Seq<Event>, a: usize, b: usize)
    requires
        starts_before(events, a, b),
    ensures
        text_lt(events[a as int].start_date_time@, events[b as int].start_date_time@)
            || events[a as int].start_date_time@ == events[b as int].start_date_time@,
{
}

/// Inserting position `k` (greater than every listed position) at `p` keeps the
/// start order, when `p` is the first listed position whose start is strictly later.
proof fn lemma_insert_in_order(events: Seq<Event>, old: Seq<usize>, p: int, k: usize)
    requires
        k < events.len(),
        is_start_order(events, k as nat, old),
        0 <= p <= k,
        forall|j: int| 0 <= j < p ==> !text_lt(
            events[k as int].start_date_time@,
            #[trigger] events[old[j] as int].start_date_time@,
        ),
        p < k ==> text_lt(events[k as int].start_date_time@, events[old[p] as int].start_date_time@),
    ensures
        is_start_order(events, (k + 1) as nat, old.insert(p, k)),
{
    let new = old.insert(p, k);
    let n = (k + 1) as nat;
    assert forall|x: usize| x < n implies #[trigger] new.contains(x) by {
        if x == k {
            assert(new[p] == k);
        } else {
            assert(old.contains(x));
            let i = choose|i: int| 0 <= i < old.len() && old[i] == x;
            if i < p {
                assert(new[i] == x);
            } else {
                assert(new[i + 1] == x);
            }
        }
    }
    assert forall|i: int, j: int| 0 <= i < j < n implies starts_before(events, #[trigger] new[i], #[trigger] new[j]) by {
        let kk = events[k as int].start_date_time@;
        if j == p {
            lemma_text_lt_total(events[old[i] as int].start_date_time@, kk);
        } else if i == p && j - 1 > p {
            let kp = events[old[p] as int].start_date_time@;
            let kj = events[old[j - 1] as int].start_date_time@;
            lemma_starts_before_le(events, old[p], old[j - 1]);
            if text_lt(kp, kj) {
                lemma_text_lt_transitive(kk, kp, kj);
            }
        }
    }
}

/// Return the first `count` events sorted by `startDateTime` ascending (a stable sort:
/// events with the same start keep their file order).
pub fn upcoming_events(data: &CalendarData, count: usize) -> (r: Vec<&Event>)
    ensures
        is_upcoming(*data, count as nat, derefs(r@)),
{
    let ghost events = data.events@;
    let n = data.events.len();
    let mut order: Vec<usize> = Vec::new();
    let mut k: usize = 0;
    while k < n
        invariant
            events == data.events@,
            n == events.len(),
            k <= n,
            is_start_order(events, k as nat, order@),
        decreases n - k,
    {
        let mut p: usize = 0;
        let mut found = false;
        while p < k && !found
            invariant
                events == data.events@,
                n == events.len(),
                k < n,
                p <= k,
                is_start_order(events, k as nat, order@),
                forall|j: int| 0 <= j < p ==> !text_lt(
                    events[k as int].start_date_time@,
                    #[trigger] events[order@[j] as int].start_date_time@,
                ),
                found ==> p < k && text_lt(events[k as int].start_date_time@, events[order@[p as int] as int].start_date_time@),
            decreases k - p + (if found { 0int } else { 1int }),
        {
            if text_less(data.events[k].start_date_time.as_str(), data.events[order[p]].start_date_time.as_str()) {
                found = true;
            } else {
                p = p + 1;
            }
        }
        proof { lemma_insert_in_order(events, order@, p as int, k); }
        order.insert(p, k);
        k = k + 1;
    }
    let m = if count < n { count } else { n };
    let mut out: Vec<&Event> = Vec::new();
    let mut i: usize = 0;
    while i < m
        invariant
            events == data.events@,
            n == events.len(),
            m <= n,
            m == (if count < n { count } else { n }),
            i <= m,
            is_start_order(events, n as nat, order@),
            derefs(out@) == order@.take(i as int).map_values(|x: usize| events[x as int]),
        decreases m - i,
    {
        out.push(&data.events[order[i]]);
        assert(order@.take(i + 1).map_values(|x: usize| events[x as int])
            =~= order@.take(i as int).map_values(|x: usize| events[x as int]).push(events[order@[i as int] as int]));
        i = i + 1;
    }
    out
}

} // verus!
