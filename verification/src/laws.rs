//! Properties that relate the library's operations to one another.

use vstd::prelude::*;

use crate::calendar::queries::{
    categorized_events, event_passes, first_event_with_id, first_in_order, found_events, is_start_order, is_upcoming,
    listed_events, starts_before,
};
use crate::calendar::tool::{calendar_actions, calendar_answers};
use crate::calendar::types::{CalendarData, Event};
use crate::contacts::queries::{
    favorites, first_with_id, found_contacts, has_tag, listed_contacts, passes_filters, tagged_contacts,
};
use crate::contacts::tool::{contacts_actions, contacts_answers};
use crate::contacts::types::{Contact, ContactsData};
use crate::json::JsonModel;
use crate::mcp::handler::error_reply;
use crate::mcp::protocol::JsonRpcRequest;
use crate::mcp::session::{lifecycle_allows, SessionInfo, SessionState};
use crate::mcp::protocol::JsonRpcResponse;
use crate::mcp::streamable::{
    body_run, fresh_session, message_step, plan_for_request, replies_between, stream_refusal,
    with_stream_closed, with_stream_open, MessagePlan,
};
use crate::schema::texts;
use crate::text::{
    begins_with, occurs_in, lemma_text_lt_asymmetric, lemma_text_lt_irreflexive, lowercase, same_ignoring_ascii_case,
    text_le, text_lt,
};

verus! {

/// Filtering by a predicate that keeps everything keeps the whole sequence.
proof fn lemma_filter_all<A>(s: Seq<A>, p: spec_fn(A) -> bool)
    requires
        forall|x: A| #[trigger] p(x),
    ensures
        s.filter(p) == s,
    decreases s.len(),
{
    reveal(Seq::filter);
    if s.len() > 0 {
        lemma_filter_all(s.drop_last(), p);
    }
}

/// The actions that the contacts tool's input schema offers are exactly the actions
/// the tool answers: an offered action is never refused as unknown, and every
/// action that is not offered is.
pub proof fn law_contacts_schema_offers_answered_actions(action: Seq<char>)
    ensures
        texts(contacts_actions()).contains(JsonModel::Text(action)) <==> contacts_answers(action),
{
    let s = texts(contacts_actions());
    assert(s =~= seq![
        JsonModel::Text("list_contacts"@),
        JsonModel::Text("get_contact"@),
        JsonModel::Text("search_contacts"@),
        JsonModel::Text("contacts_by_tag"@),
        JsonModel::Text("favorite_contacts"@),
    ]);
}

/// The actions that the calendar tool's input schema offers are exactly the actions
/// the tool answers: an offered action is never refused as unknown, and every
/// action that is not offered is.
pub proof fn law_calendar_schema_offers_answered_actions(action: Seq<char>)
    ensures
        texts(calendar_actions()).contains(JsonModel::Text(action)) <==> calendar_answers(action),
{
    let s = texts(calendar_actions());
    assert(s =~= seq![
        JsonModel::Text("list_events"@),
        JsonModel::Text("get_event"@),
        JsonModel::Text("search_events"@),
        JsonModel::Text("events_by_date"@),
        JsonModel::Text("events_by_category"@),
        JsonModel::Text("upcoming_events"@),
    ]);
}

/// Contact search is case-insensitive in the sense the library can state: two
/// queries with the same lower-case form find the same contacts.
pub proof fn law_contact_search_ignores_query_case(data: ContactsData, q1: Seq<char>, q2: Seq<char>)
    requires
        lowercase(q1) == lowercase(q2),
    ensures
        found_contacts(data, q1) == found_contacts(data, q2),
{
}

/// Event search is case-insensitive in the sense the library can state: two
/// queries with the same lower-case form find the same events.
pub proof fn law_event_search_ignores_query_case(data: CalendarData, q1: Seq<char>, q2: Seq<char>)
    requires
        lowercase(q1) == lowercase(q2),
    ensures
        found_events(data, q1) == found_events(data, q2),
{
}

/// `favorite_contacts` is `list_contacts` with only the favorite filter set to `true`.
pub proof fn law_favorites_are_listed_favorites(data: ContactsData)
    ensures
        favorites(data) == listed_contacts(data, None, Some(true), None),
{
    assert((|c: Contact| c.favorite) =~= (|c: Contact| passes_filters(c, None, Some(true), None)));
}

/// Filtering twice is filtering once by both predicates.
proof fn lemma_filter_twice<A>(s: Seq<A>, p: spec_fn(A) -> bool, q: spec_fn(A) -> bool)
    ensures
        s.filter(p).filter(q) == s.filter(|x: A| p(x) && q(x)),
    decreases s.len(),
{
    let both = |x: A| p(x) && q(x);
    if s.len() == 0 {
        reveal(Seq::filter);
        assert(s.filter(p).filter(q) =~= s.filter(both));
    } else {
        let d = s.drop_last();
        let x = s.last();
        lemma_filter_twice(d, p, q);
        assert(s =~= d.push(x));
        d.lemma_filter_push(x, p);
        d.lemma_filter_push(x, both);
        d.filter(p).lemma_filter_push(x, q);
    }
}

/// Adding the tag filter to `list_contacts` keeps, in order, exactly the contacts of
/// the list without it that carry the tag: an extra filter only removes contacts.
pub proof fn law_tag_filter_narrows_list(
    data: ContactsData,
    tag: Seq<char>,
    favorite: Option<bool>,
    company: Option<Seq<char>>,
)
    ensures
        listed_contacts(data, Some(tag), favorite, company)
            == listed_contacts(data, None, favorite, company).filter(|c: Contact| has_tag(c, tag)),
{
    let p = |c: Contact| passes_filters(c, None, favorite, company);
    let q = |c: Contact| has_tag(c, tag);
    lemma_filter_twice(data.contacts@, p, q);
    assert((|c: Contact| p(c) && q(c)) =~= (|c: Contact| passes_filters(c, Some(tag), favorite, company)));
}

/// Adding the favorite filter to `list_contacts` keeps, in order, exactly the
/// contacts of the list without it whose favorite flag is the one asked for.
pub proof fn law_favorite_filter_narrows_list(
    data: ContactsData,
    tag: Option<Seq<char>>,
    favorite: bool,
    company: Option<Seq<char>>,
)
    ensures
        listed_contacts(data, tag, Some(favorite), company)
            == listed_contacts(data, tag, None, company).filter(|c: Contact| c.favorite == favorite),
{
    let p = |c: Contact| passes_filters(c, tag, None, company);
    let q = |c: Contact| c.favorite == favorite;
    lemma_filter_twice(data.contacts@, p, q);
    assert((|c: Contact| p(c) && q(c)) =~= (|c: Contact| passes_filters(c, tag, Some(favorite), company)));
}

/// Adding the company filter to `list_contacts` keeps, in order, exactly the
/// contacts of the list without it whose company matches, ASCII case ignored.
pub proof fn law_company_filter_narrows_list(
    data: ContactsData,
    tag: Option<Seq<char>>,
    favorite: Option<bool>,
    company: Seq<char>,
)
    ensures
        listed_contacts(data, tag, favorite, Some(company)) == listed_contacts(data, tag, favorite, None).filter(
            |c: Contact| c.company matches Some(cc) && same_ignoring_ascii_case(cc@, company),
        ),
{
    let p = |c: Contact| passes_filters(c, tag, favorite, None);
    let q = |c: Contact| c.company matches Some(cc) && same_ignoring_ascii_case(cc@, company);
    lemma_filter_twice(data.contacts@, p, q);
    assert((|c: Contact| p(c) && q(c)) =~= (|c: Contact| passes_filters(c, tag, favorite, Some(company))));
}

/// Each filter of `list_events` acts on its own: adding the category filter keeps,
/// in order, exactly the events of the list without it whose category matches
/// (ASCII case ignored), whatever the other filters.
pub proof fn law_event_category_filter_narrows_list(
    data: CalendarData,
    category: Seq<char>,
    priority: Option<Seq<char>>,
    status: Option<Seq<char>>,
)
    ensures
        listed_events(data, Some(category), priority, status)
            == listed_events(data, None, priority, status).filter(|e: Event| same_ignoring_ascii_case(e.category@, category)),
{
    let p = |e: Event| event_passes(e, None, priority, status);
    let q = |e: Event| same_ignoring_ascii_case(e.category@, category);
    lemma_filter_twice(data.events@, p, q);
    assert((|e: Event| p(e) && q(e)) =~= (|e: Event| event_passes(e, Some(category), priority, status)));
}

/// Adding the priority filter to `list_events` keeps, in order, exactly the events
/// of the list without it whose priority matches (ASCII case ignored), whatever the
/// other filters; with no other filter it keeps exactly the events of that priority.
pub proof fn law_event_priority_filter_narrows_list(
    data: CalendarData,
    category: Option<Seq<char>>,
    priority: Seq<char>,
    status: Option<Seq<char>>,
)
    ensures
        listed_events(data, category, Some(priority), status)
            == listed_events(data, category, None, status).filter(|e: Event| same_ignoring_ascii_case(e.priority@, priority)),
        listed_events(data, None, Some(priority), None)
            == data.events@.filter(|e: Event| same_ignoring_ascii_case(e.priority@, priority)),
{
    let p = |e: Event| event_passes(e, category, None, status);
    let q = |e: Event| same_ignoring_ascii_case(e.priority@, priority);
    lemma_filter_twice(data.events@, p, q);
    assert((|e: Event| p(e) && q(e)) =~= (|e: Event| event_passes(e, category, Some(priority), status)));
    assert((|e: Event| event_passes(e, None, Some(priority), None)) =~= q);
}

/// Adding the status filter to `list_events` keeps, in order, exactly the events of
/// the list without it whose status matches (ASCII case ignored), whatever the other
/// filters.
pub proof fn law_event_status_filter_narrows_list(
    data: CalendarData,
    category: Option<Seq<char>>,
    priority: Option<Seq<char>>,
    status: Seq<char>,
)
    ensures
        listed_events(data, category, priority, Some(status))
            == listed_events(data, category, priority, None).filter(|e: Event| same_ignoring_ascii_case(e.status@, status)),
{
    let p = |e: Event| event_passes(e, category, priority, None);
    let q = |e: Event| same_ignoring_ascii_case(e.status@, status);
    lemma_filter_twice(data.events@, p, q);
    assert((|e: Event| p(e) && q(e)) =~= (|e: Event| event_passes(e, category, priority, Some(status))));
}

/// Looking an event up by id finds one exactly when some event has that id, and
/// then it is the first event with that id.
pub proof fn law_event_lookup_finds_first(s: Seq<Event>, id: Seq<char>)
    ensures
        (exists|i: int| 0 <= i < s.len() && #[trigger] s[i].id@ == id) <==> first_event_with_id(s, id) is Some,
        first_event_with_id(s, id) matches Some(e) ==> exists|i: int|
            0 <= i < s.len() && #[trigger] s[i] == e && e.id@ == id && forall|j: int| 0 <= j < i ==> s[j].id@ != id,
    decreases s.len(),
{
    if s.len() > 0 {
        let t = s.drop_first();
        law_event_lookup_finds_first(t, id);
        if s[0].id@ == id {
            assert(s[0].id@ == id);
        } else {
            if exists|i: int| 0 <= i < s.len() && #[trigger] s[i].id@ == id {
                let i = choose|i: int| 0 <= i < s.len() && #[trigger] s[i].id@ == id;
                assert(t[i - 1].id@ == id);
            }
            if exists|i: int| 0 <= i < t.len() && #[trigger] t[i].id@ == id {
                let i = choose|i: int| 0 <= i < t.len() && #[trigger] t[i].id@ == id;
                assert(s[i + 1].id@ == id);
            }
            if first_event_with_id(t, id) is Some {
                let e = first_event_with_id(t, id).unwrap();
                let i = choose|i: int|
                    0 <= i < t.len() && #[trigger] t[i] == e && e.id@ == id && forall|j: int| 0 <= j < i ==> t[j].id@ != id;
                assert(s[i + 1] == e);
                assert forall|j: int| 0 <= j < i + 1 implies s[j].id@ != id by {
                    if j > 0 {
                        assert(s[j] == t[j - 1]);
                    }
                }
            }
        }
    }
}

/// Looking a contact up by id finds one exactly when some contact has that id, and
/// then it is the first contact with that id.
pub proof fn law_contact_lookup_finds_first(s: Seq<Contact>, id: Seq<char>)
    ensures
        (exists|i: int| 0 <= i < s.len() && #[trigger] s[i].id@ == id) <==> first_with_id(s, id) is Some,
        first_with_id(s, id) matches Some(c) ==> exists|i: int|
            0 <= i < s.len() && #[trigger] s[i] == c && c.id@ == id && forall|j: int| 0 <= j < i ==> s[j].id@ != id,
    decreases s.len(),
{
    if s.len() > 0 {
        let t = s.drop_first();
        law_contact_lookup_finds_first(t, id);
        if s[0].id@ == id {
            assert(s[0].id@ == id);
        } else {
            if exists|i: int| 0 <= i < s.len() && #[trigger] s[i].id@ == id {
                let i = choose|i: int| 0 <= i < s.len() && #[trigger] s[i].id@ == id;
                assert(t[i - 1].id@ == id);
            }
            if exists|i: int| 0 <= i < t.len() && #[trigger] t[i].id@ == id {
                let i = choose|i: int| 0 <= i < t.len() && #[trigger] t[i].id@ == id;
                assert(s[i + 1].id@ == id);
            }
            if first_with_id(t, id) is Some {
                let c = first_with_id(t, id).unwrap();
                let i = choose|i: int|
                    0 <= i < t.len() && #[trigger] t[i] == c && c.id@ == id && forall|j: int| 0 <= j < i ==> t[j].id@ != id;
                assert(s[i + 1] == c);
                assert forall|j: int| 0 <= j < i + 1 implies s[j].id@ != id by {
                    if j > 0 {
                        assert(s[j] == t[j - 1]);
                    }
                }
            }
        }
    }
}

/// Two single characters match ignoring ASCII case exactly when they are equal or
/// one is an ASCII upper-case letter and the other its lower-case letter; longer
/// texts match when they have the same length and match character by character.
pub proof fn law_ascii_case_matching(c: char, d: char, a: Seq<char>, b: Seq<char>)
    ensures
        same_ignoring_ascii_case(seq![c], seq![d]) <==> (c == d
            || ('A' as int <= c as int <= 'Z' as int && (d as int) == (c as int) + 32)
            || ('A' as int <= d as int <= 'Z' as int && (c as int) == (d as int) + 32)),
        same_ignoring_ascii_case(a, b) <==> (a.len() == b.len() && forall|i: int|
            0 <= i < a.len() ==> #[trigger] same_ignoring_ascii_case(seq![a[i]], seq![b[i]])),
{
    assert(seq![c][0] == c && seq![d][0] == d);
    if same_ignoring_ascii_case(seq![c], seq![d]) {
        assert(crate::text::ascii_fold(seq![c][0]) == crate::text::ascii_fold(seq![d][0]));
        if (c as int) == (d as int) {
            assert(c == d);
        }
    }
    if c == d || ('A' as int <= c as int <= 'Z' as int && (d as int) == (c as int) + 32)
        || ('A' as int <= d as int <= 'Z' as int && (c as int) == (d as int) + 32) {
        assert forall|i: int| 0 <= i < 1 implies #[trigger] crate::text::ascii_fold(seq![c][i])
            == crate::text::ascii_fold(seq![d][i]) by {
            assert(i == 0);
        }
    }
    if same_ignoring_ascii_case(a, b) {
        assert forall|i: int| 0 <= i < a.len() implies #[trigger] same_ignoring_ascii_case(seq![a[i]], seq![b[i]]) by {
            assert(seq![a[i]][0] == a[i] && seq![b[i]][0] == b[i]);
        }
    }
    if a.len() == b.len() && forall|i: int|
        0 <= i < a.len() ==> #[trigger] same_ignoring_ascii_case(seq![a[i]], seq![b[i]]) {
        assert forall|i: int| 0 <= i < a.len() implies #[trigger] crate::text::ascii_fold(a[i])
            == crate::text::ascii_fold(b[i]) by {
            assert(same_ignoring_ascii_case(seq![a[i]], seq![b[i]]));
            assert(seq![a[i]][0] == a[i] && seq![b[i]][0] == b[i]);
        }
    }
}

/// `needle` occurs in `hay` exactly when `hay` is some text, then `needle`, then
/// some text.
pub proof fn law_occurs_in_is_infix(hay: Seq<char>, needle: Seq<char>)
    ensures
        occurs_in(hay, needle) <==> exists|x: Seq<char>, y: Seq<char>| hay == x + needle + y,
{
    if occurs_in(hay, needle) {
        let i = choose|i: int| 0 <= i <= hay.len() - needle.len()
            && #[trigger] hay.subrange(i, i + needle.len()) == needle;
        assert(hay =~= hay.take(i) + needle + hay.skip(i + needle.len()));
    }
    if exists|x: Seq<char>, y: Seq<char>| hay == x + needle + y {
        let (x, y) = choose|x: Seq<char>, y: Seq<char>| hay == x + needle + y;
        assert(hay.subrange(x.len() as int, (x.len() + needle.len()) as int) =~= needle);
    }
}

/// `hay` begins with `prefix` exactly when `hay` is `prefix` followed by some text.
pub proof fn law_begins_with_is_prefix(hay: Seq<char>, prefix: Seq<char>)
    ensures
        begins_with(hay, prefix) <==> exists|rest: Seq<char>| hay == prefix + rest,
{
    if begins_with(hay, prefix) {
        assert(hay =~= prefix + hay.skip(prefix.len() as int));
    }
    if exists|rest: Seq<char>| hay == prefix + rest {
        let rest = choose|rest: Seq<char>| hay == prefix + rest;
        assert(hay.subrange(0, prefix.len() as int) =~= prefix);
    }
}

/// The text order is code-point lexicographic order: the empty text comes first,
/// texts that begin with different characters are ordered by those characters'
/// codes, and texts that begin with the same character are ordered by the rest.
pub proof fn law_text_order_is_lexicographic(c: char, d: char, a: Seq<char>, b: Seq<char>)
    ensures
        text_lt(Seq::empty(), seq![d] + b),
        !text_lt(a, Seq::empty()),
        c != d ==> text_lt(seq![c] + a, seq![d] + b) == ((c as int) < (d as int)),
        text_lt(seq![c] + a, seq![c] + b) == text_lt(a, b),
{
    assert((seq![c] + a).drop_first() =~= a);
    assert((seq![d] + b).drop_first() =~= b);
    assert((seq![c] + b).drop_first() =~= b);
}

/// `contacts_by_tag` is `list_contacts` with only the tag filter set.
pub proof fn law_tag_query_is_tag_filter(data: ContactsData, tag: Seq<char>)
    ensures
        tagged_contacts(data, tag) == listed_contacts(data, Some(tag), None, None),
{
    assert((|c: Contact| has_tag(c, tag)) =~= (|c: Contact| passes_filters(c, Some(tag), None, None)));
}

/// `list_contacts` without filters lists every contact, in file order.
pub proof fn law_unfiltered_contacts_are_all(data: ContactsData)
    ensures
        listed_contacts(data, None, None, None) == data.contacts@,
{
    lemma_filter_all(data.contacts@, |c: Contact| passes_filters(c, None, None, None));
}

/// Matching ignoring ASCII case is an equivalence: two tags that match each other
/// select the same contacts.
pub proof fn law_tag_matching_ignores_ascii_case(data: ContactsData, t1: Seq<char>, t2: Seq<char>)
    requires
        same_ignoring_ascii_case(t1, t2),
    ensures
        tagged_contacts(data, t1) == tagged_contacts(data, t2),
{
    assert((|c: Contact| has_tag(c, t1)) =~= (|c: Contact| has_tag(c, t2)));
}

/// `events_by_category` is `list_events` with only the category filter set.
pub proof fn law_category_query_is_category_filter(data: CalendarData, category: Seq<char>)
    ensures
        categorized_events(data, category) == listed_events(data, Some(category), None, None),
{
    assert((|e: Event| same_ignoring_ascii_case(e.category@, category))
        =~= (|e: Event| event_passes(e, Some(category), None, None)));
}

/// `list_events` without filters lists every event, in file order.
pub proof fn law_unfiltered_events_are_all(data: CalendarData)
    ensures
        listed_events(data, None, None, None) == data.events@,
{
    lemma_filter_all(data.events@, |e: Event| event_passes(e, None, None, None));
}

/// `starts_before` never holds both ways.
proof fn lemma_starts_before_asymmetric(events: Seq<Event>, a: usize, b: usize)
    requires
        starts_before(events, a, b),
    ensures
        !starts_before(events, b, a),
{
    let ka = events[a as int].start_date_time@;
    let kb = events[b as int].start_date_time@;
    if text_lt(ka, kb) {
        lemma_text_lt_asymmetric(ka, kb);
        lemma_text_lt_irreflexive(ka);
    } else {
        lemma_text_lt_irreflexive(ka);
    }
}

/// There is only one stable start-time order of the events.
pub proof fn law_start_order_unique(events: Seq<Event>, n: nat, o1: Seq<usize>, o2: Seq<usize>)
    requires
        n <= events.len(),
        is_start_order(events, n, o1),
        is_start_order(events, n, o2),
    ensures
        o1 == o2,
{
    assert forall|i: int| 0 <= i < n implies o1[i] == o2[i] by {
        lemma_start_orders_agree(events, n, o1, o2, i);
    }
}

proof fn lemma_start_orders_agree(events: Seq<Event>, n: nat, o1: Seq<usize>, o2: Seq<usize>, i: int)
    requires
        n <= events.len(),
        is_start_order(events, n, o1),
        is_start_order(events, n, o2),
        0 <= i < n,
    ensures
        o1[i] == o2[i],
    decreases i,
{
    assert forall|j: int| 0 <= j < i implies o1[j] == o2[j] by {
        lemma_start_orders_agree(events, n, o1, o2, j);
    }
    let x = o1[i];
    let y = o2[i];
    if x != y {
        assert(y < n && o1.contains(y));
        let p = choose|p: int| 0 <= p < o1.len() && o1[p] == y;
        assert(x < n && o2.contains(x));
        let q = choose|q: int| 0 <= q < o2.len() && o2[q] == x;
        if p < i {
            lemma_starts_before_asymmetric(events, y, y);
        } else if q < i {
            lemma_starts_before_asymmetric(events, x, x);
        } else {
            lemma_starts_before_asymmetric(events, x, y);
        }
    }
}

/// `upcoming_events` is determined by the data and the count.
pub proof fn law_upcoming_is_deterministic(data: CalendarData, count: nat, r1: Seq<Event>, r2: Seq<Event>)
    requires
        is_upcoming(data, count, r1),
        is_upcoming(data, count, r2),
    ensures
        r1 == r2,
{
    let o1 = choose|o: Seq<usize>| #[trigger] is_start_order(data.events@, data.events@.len(), o)
        && r1 == first_in_order(data.events@, o, count);
    let o2 = choose|o: Seq<usize>| #[trigger] is_start_order(data.events@, data.events@.len(), o)
        && r2 == first_in_order(data.events@, o, count);
    law_start_order_unique(data.events@, data.events@.len(), o1, o2);
}

/// Asking for more upcoming events extends the list: the answer for a smaller count
/// is a prefix of the answer for a larger one.
pub proof fn law_upcoming_extends(data: CalendarData, a: nat, b: nat, ra: Seq<Event>, rb: Seq<Event>)
    requires
        a <= b,
        is_upcoming(data, a, ra),
        is_upcoming(data, b, rb),
    ensures
        ra == rb.take(ra.len() as int),
{
    let oa = choose|o: Seq<usize>| #[trigger] is_start_order(data.events@, data.events@.len(), o)
        && ra == first_in_order(data.events@, o, a);
    let ob = choose|o: Seq<usize>| #[trigger] is_start_order(data.events@, data.events@.len(), o)
        && rb == first_in_order(data.events@, o, b);
    law_start_order_unique(data.events@, data.events@.len(), oa, ob);
}

/// The upcoming events are the first `count` events (all of them if there are
/// fewer), each an event of the calendar, in non-decreasing order of start time.
pub proof fn law_upcoming_sorted(data: CalendarData, count: nat, r: Seq<Event>)
    requires
        is_upcoming(data, count, r),
    ensures
        r.len() == if count < data.events@.len() { count } else { data.events@.len() },
        forall|i: int| 0 <= i < r.len() ==> data.events@.contains(#[trigger] r[i]),
        forall|i: int, j: int| 0 <= i < j < r.len() ==> text_le(
            #[trigger] r[i].start_date_time@,
            #[trigger] r[j].start_date_time@,
        ),
{
}

/// The upcoming events are distinct events of the calendar, taken from the
/// earliest: each event left out starts no earlier than every event returned, and
/// among events with the same start the earlier one in the file comes first (both
/// within the result and at its cut-off).
pub proof fn law_upcoming_are_earliest(data: CalendarData, count: nat, r: Seq<Event>)
    requires
        is_upcoming(data, count, r),
    ensures
        exists|idx: Seq<int>| {
            &&& idx.len() == r.len()
            &&& forall|i: int| 0 <= i < r.len() ==> 0 <= #[trigger] idx[i] < data.events@.len()
                && r[i] == data.events@[idx[i]]
            &&& forall|i: int, j: int| 0 <= i < j < r.len() ==> #[trigger] idx[i] != #[trigger] idx[j]
                && (r[i].start_date_time@ == r[j].start_date_time@ ==> idx[i] < idx[j])
            &&& forall|i: int, k: int| 0 <= i < r.len() && 0 <= k < data.events@.len() && !idx.contains(k)
                ==> text_lt(#[trigger] r[i].start_date_time@, #[trigger] data.events@[k].start_date_time@)
                || (r[i].start_date_time@ == data.events@[k].start_date_time@ && idx[i] < k)
        },
{
    let events = data.events@;
    let n = events.len();
    let o = choose|o: Seq<usize>| #[trigger] is_start_order(events, n, o)
        && r == first_in_order(events, o, count);
    let m = if count < n { count as int } else { n as int };
    let idx = Seq::new(m as nat, |i: int| o[i] as int);
    assert forall|i: int| 0 <= i < r.len() implies 0 <= #[trigger] idx[i] < data.events@.len()
        && r[i] == data.events@[idx[i]] by {
        assert(o[i] < n);
    }
    assert forall|i: int, j: int| 0 <= i < j < r.len() implies #[trigger] idx[i] != #[trigger] idx[j]
        && (r[i].start_date_time@ == r[j].start_date_time@ ==> idx[i] < idx[j]) by {
        assert(starts_before(events, o[i], o[j]));
        if o[i] == o[j] {
            lemma_starts_before_asymmetric(events, o[i], o[j]);
        }
        if r[i].start_date_time@ == r[j].start_date_time@ {
            lemma_text_lt_irreflexive(r[i].start_date_time@);
        }
    }
    assert forall|i: int, k: int| 0 <= i < r.len() && 0 <= k < n && !idx.contains(k)
        implies text_lt(#[trigger] r[i].start_date_time@, #[trigger] events[k].start_date_time@)
        || (r[i].start_date_time@ == events[k].start_date_time@ && idx[i] < k) by {
        assert(k < data.events.len());
        let ku = k as usize;
        assert(o.contains(ku));
        let p = choose|p: int| 0 <= p < o.len() && o[p] == ku;
        if p < m {
            assert(idx[p] == k);
            assert(idx.contains(k));
        }
        assert(r[i] == events[o[i] as int] && idx[i] == o[i] as int);
        assert(starts_before(events, o[i], o[p]));
    }
    assert(idx.len() == r.len());
}

/// A session's SSE stream is handed out once: a new session's stream can be
/// opened; once `GET /mcp` has opened it, every later `GET /mcp` for the session
/// is refused with 409, while the stream is open and after it has closed.
pub proof fn law_stream_claimed_once(sessions: Map<Seq<char>, SessionInfo>, sid: Seq<char>)
    ensures
        stream_refusal(sessions.insert(sid, fresh_session()), sid) is None,
        stream_refusal(sessions, sid) is None ==> stream_refusal(with_stream_open(sessions, sid), sid)
            == Some((409u16, "SSE stream already active for this session"@)),
        stream_refusal(sessions, sid) is None ==> stream_refusal(
            with_stream_closed(with_stream_open(sessions, sid), sid),
            sid,
        ) == Some((409u16, "SSE stream already claimed"@)),
{
}

/// Once `DELETE /mcp` has removed a session, it is gone: it is no longer in the
/// table (so requests in it are refused with "Session not found" and a second
/// `DELETE` answers 404), and `GET /mcp` for it answers 404.
pub proof fn law_deleted_session_is_gone(sessions: Map<Seq<char>, SessionInfo>, sid: Seq<char>)
    ensures
        !sessions.remove(sid).dom().contains(sid),
        stream_refusal(sessions.remove(sid), sid) == Some((404u16, "Session not found"@)),
{
}

/// A request (other than `initialize`) that names a deleted session in its
/// `Mcp-Session-Id` header is refused with "Invalid Request" / "Session not found"
/// and changes nothing.
pub proof fn law_request_in_deleted_session_refused(
    sessions: Map<Seq<char>, SessionInfo>,
    after: Map<Seq<char>, SessionInfo>,
    sid: &str,
    c0: Option<String>,
    c1: Option<String>,
    request: JsonRpcRequest,
    r: MessagePlan,
)
    requires
        request.method@ != "initialize"@,
        request.id is Some,
        plan_for_request(sessions.remove(sid@), after, Some(sid), c0, c1, request, r),
    ensures
        after == sessions.remove(sid@),
        r matches MessagePlan::Respond(resp) && error_reply(
            resp,
            request.reply_id(),
            -32600,
            "Invalid Request"@,
            "Session not found"@,
        ),
{
}

/// The position of a state in the lifecycle.
pub open spec fn stage(state: SessionState) -> int {
    match state {
        SessionState::Uninitialized => 0,
        SessionState::Initializing => 1,
        SessionState::Ready => 2,
    }
}

/// Handling a message of a `POST /mcp` body removes no session and never moves a
/// session back in its lifecycle. (An `initialize` opens a session under a fresh
/// random id; the law leaves out the case where that id is one already in use.)
pub proof fn law_post_never_regresses(
    before: Map<Seq<char>, SessionInfo>,
    after: Map<Seq<char>, SessionInfo>,
    session_header: Option<&str>,
    c0: Option<String>,
    c1: Option<String>,
    request: JsonRpcRequest,
    r: MessagePlan,
    sid: Seq<char>,
)
    requires
        plan_for_request(before, after, session_header, c0, c1, request, r),
        before.dom().contains(sid),
        request.method@ == "initialize"@ ==> c1.unwrap()@ != sid,
    ensures
        after.dom().contains(sid),
        stage(after[sid].state) >= stage(before[sid].state),
{
}

/// The replies of a range of messages are those of its two halves, in order.
proof fn lemma_replies_split(plans: Seq<MessagePlan>, handled: Seq<JsonRpcResponse>, lo: int, mid: int, hi: int)
    requires
        lo <= mid <= hi,
    ensures
        replies_between(plans, handled, lo, hi)
            == replies_between(plans, handled, lo, mid) + replies_between(plans, handled, mid, hi),
    decreases mid - lo,
{
    if lo < mid {
        lemma_replies_split(plans, handled, lo + 1, mid, hi);
        assert(replies_between(plans, handled, lo, hi) =~= replies_between(plans, handled, lo, mid)
            + replies_between(plans, handled, mid, hi));
    } else {
        assert(replies_between(plans, handled, lo, hi) =~= replies_between(plans, handled, lo, mid)
            + replies_between(plans, handled, mid, hi));
    }
}

/// Removing message `k` shifts the replies of the later messages down by one and
/// leaves those of the earlier ones alone.
proof fn lemma_replies_removed(
    plans: Seq<MessagePlan>,
    handled: Seq<JsonRpcResponse>,
    k: int,
    lo: int,
    hi: int,
)
    requires
        0 <= k < plans.len(),
        plans.len() == handled.len(),
        0 <= lo,
        hi <= plans.len() - 1,
    ensures
        hi <= k ==> replies_between(plans.remove(k), handled.remove(k), lo, hi)
            == replies_between(plans, handled, lo, hi),
        k <= lo ==> replies_between(plans.remove(k), handled.remove(k), lo, hi)
            == replies_between(plans, handled, lo + 1, hi + 1),
    decreases hi - lo,
{
    if lo < hi {
        lemma_replies_removed(plans, handled, k, lo + 1, hi);
    }
}

/// A message of a `POST /mcp` body that is not a request is answered, in its place
/// among the replies, with a "Parse error" response of id `null`, and otherwise
/// changes nothing: every other message is planned, and the body ends, exactly as
/// in the same body without it (the handler's responses to the dispatched requests
/// being the same).
pub proof fn law_non_request_message_changes_nothing(
    session_header: Option<&str>,
    tables: Seq<Map<Seq<char>, SessionInfo>>,
    created: Seq<Option<String>>,
    decoded: Seq<std::result::Result<JsonRpcRequest, String>>,
    plans: Seq<MessagePlan>,
    handled: Seq<JsonRpcResponse>,
    k: int,
)
    requires
        body_run(session_header, tables, created, decoded, plans),
        handled.len() == plans.len(),
        0 <= k < decoded.len(),
        decoded[k] is Err,
    ensures
        tables[k + 1] == tables[k],
        created[k + 1] == created[k],
        plans[k] matches MessagePlan::Respond(resp) && error_reply(
            resp,
            JsonModel::Null,
            -32700,
            "Parse error"@,
            decoded[k]->Err_0@,
        ),
        body_run(
            session_header,
            tables.remove(k + 1),
            created.remove(k + 1),
            decoded.remove(k),
            plans.remove(k),
        ),
        tables.remove(k + 1).last() == tables.last(),
        created.remove(k + 1).last() == created.last(),
        replies_between(plans, handled, 0, plans.len() as int) == replies_between(plans, handled, 0, k)
            + replies_between(plans, handled, k, k + 1) + replies_between(plans, handled, k + 1, plans.len() as int),
        replies_between(plans, handled, k, k + 1) == seq![plans[k]->Respond_0],
        replies_between(plans.remove(k), handled.remove(k), 0, plans.len() - 1)
            == replies_between(plans, handled, 0, k) + replies_between(plans, handled, k + 1, plans.len() as int),
{
    let n = decoded.len() as int;
    assert(message_step(tables[k], tables[k + 1], session_header, created[k], created[k + 1], decoded[k], plans[k]));
    let t2 = tables.remove(k + 1);
    let c2 = created.remove(k + 1);
    let d2 = decoded.remove(k);
    let p2 = plans.remove(k);
    assert forall|i: int| 0 <= i < d2.len() implies #[trigger] message_step(
        t2[i],
        t2[i + 1],
        session_header,
        c2[i],
        c2[i + 1],
        d2[i],
        p2[i],
    ) by {
        if i < k {
            assert(message_step(tables[i], tables[i + 1], session_header, created[i], created[i + 1], decoded[i], plans[i]));
        } else {
            let j = i + 1;
            assert(message_step(tables[j], tables[j + 1], session_header, created[j], created[j + 1], decoded[j], plans[j]));
        }
    }
    lemma_replies_split(plans, handled, 0, k, n);
    lemma_replies_split(plans, handled, k, k + 1, n);
    assert(replies_between(plans, handled, k + 1, k + 1) =~= Seq::<JsonRpcResponse>::empty());
    assert(replies_between(plans, handled, k, k + 1) =~= seq![plans[k]->Respond_0]);
    lemma_replies_split(p2, handled.remove(k), 0, k, n - 1);
    lemma_replies_removed(plans, handled, k, 0, k);
    lemma_replies_removed(plans, handled, k, k, n - 1);
}

/// `notifications/initialized` in a session named by the `Mcp-Session-Id` header
/// (the handshake spread over separate requests) makes that session ready, when the
/// session is waiting for it or already ready, and is answered with nothing.
pub proof fn law_header_handshake_makes_ready(
    before: Map<Seq<char>, SessionInfo>,
    after: Map<Seq<char>, SessionInfo>,
    sid: &str,
    c0: Option<String>,
    c1: Option<String>,
    request: JsonRpcRequest,
    r: MessagePlan,
)
    requires
        request.method@ == "notifications/initialized"@,
        before.dom().contains(sid@),
        before[sid@].state == SessionState::Initializing || before[sid@].state == SessionState::Ready,
        plan_for_request(before, after, Some(sid), c0, c1, request, r),
    ensures
        r is Skip,
        after.dom().contains(sid@),
        after[sid@].state == SessionState::Ready,
        after == before.insert(sid@, SessionInfo { state: SessionState::Ready, ..before[sid@] }),
        c1 == c0,
{
    crate::mcp::handler::lemma_method_names_distinct();
}

/// In a ready session named by the `Mcp-Session-Id` header, every request other
/// than `initialize` and `notifications/initialized` is dispatched as it is and
/// changes no session.
pub proof fn law_ready_session_dispatches(
    before: Map<Seq<char>, SessionInfo>,
    after: Map<Seq<char>, SessionInfo>,
    sid: &str,
    c0: Option<String>,
    c1: Option<String>,
    request: JsonRpcRequest,
    r: MessagePlan,
)
    requires
        request.method@ != "initialize"@,
        request.method@ != "notifications/initialized"@,
        before.dom().contains(sid@),
        before[sid@].state == SessionState::Ready,
        plan_for_request(before, after, Some(sid), c0, c1, request, r),
    ensures
        r == MessagePlan::Dispatch(request),
        after == before,
        c1 == c0,
{
}

/// `ping` is allowed in every lifecycle state.
pub proof fn law_ping_always_allowed(state: SessionState)
    ensures
        lifecycle_allows(state, "ping"@),
{
}

/// A ready session allows every method.
pub proof fn law_ready_allows_everything(method: Seq<char>)
    ensures
        lifecycle_allows(SessionState::Ready, method),
{
}

/// Before initialization is complete, the only methods allowed besides `ping` are
/// the next step of the handshake: `initialize` first, then
/// `notifications/initialized`.
pub proof fn law_handshake_order(method: Seq<char>)
    requires
        method != "ping"@,
    ensures
        lifecycle_allows(SessionState::Uninitialized, method) <==> method == "initialize"@,
        lifecycle_allows(SessionState::Initializing, method) <==> method == "notifications/initialized"@,
{
}

/// The handshake in one body: an `initialize` opens a session, and a following
/// `notifications/initialized` (without session header, so addressed to the
/// session just opened) makes that session ready, with nothing to answer.
pub proof fn law_handshake_makes_ready(
    t0: Map<Seq<char>, SessionInfo>,
    t1: Map<Seq<char>, SessionInfo>,
    t2: Map<Seq<char>, SessionInfo>,
    c0: Option<String>,
    c1: Option<String>,
    c2: Option<String>,
    init: JsonRpcRequest,
    ack: JsonRpcRequest,
    r1: MessagePlan,
    r2: MessagePlan,
)
    requires
        init.method@ == "initialize"@,
        plan_for_request(t0, t1, None, c0, c1, init, r1),
        ack.method@ == "notifications/initialized"@,
        plan_for_request(t1, t2, None, c1, c2, ack, r2),
    ensures
        r1 == MessagePlan::Dispatch(init),
        c1 is Some,
        c2 == c1,
        t2.dom().contains(c1.unwrap()@),
        t2[c1.unwrap()@].state == SessionState::Ready,
        r2 is Skip,
{
    crate::mcp::handler::lemma_method_names_distinct();
}

} // verus!
