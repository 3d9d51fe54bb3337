//! Query functions over contacts data.

use vstd::prelude::*;

use crate::contacts::types::{Contact, ContactsData};
use crate::seqs::{derefs, lemma_select_step, opt_text};
use crate::text::{
    contains_text, eq_ignore_ascii_case, lowercase, occurs_in, same_ignoring_ascii_case,
    text_equal, to_lowercase,
};

verus! {

/// `c` carries a tag that matches `tag` ignoring ASCII case.
pub open spec fn has_tag(c: Contact, tag: Seq<char>) -> bool {
    exists|i: int| 0 <= i < c.tags@.len() && same_ignoring_ascii_case(#[trigger] c.tags@[i]@, tag)
}

/// `c` passes the optional filters of `list_contacts`: a tag it carries, its favorite
/// flag, and its company (ASCII case ignored). An absent filter passes everything.
pub open spec fn passes_filters(
    c: Contact,
    tag: Option<Seq<char>>,
    favorite: Option<bool>,
    company: Option<Seq<char>>,
) -> bool {
    &&& (tag matches Some(t) ==> has_tag(c, t))
    &&& (favorite matches Some(f) ==> c.favorite == f)
    &&& (company matches Some(co) ==> (c.company matches Some(cc) && same_ignoring_ascii_case(cc@, co)))
}

/// The contacts, in file order, that pass the filters of `list_contacts`.
pub open spec fn listed_contacts(
    data: ContactsData,
    tag: Option<Seq<char>>,
    favorite: Option<bool>,
    company: Option<Seq<char>>,
) -> Seq<Contact> {
    data.contacts@.filter(|c: Contact| passes_filters(c, tag, favorite, company))
}

/// An optional field of a contact contains the (already lower-cased) query once
/// lower-cased itself.
pub open spec fn field_mentions(field: Option<String>, q: Seq<char>) -> bool {
    field matches Some(f) && occurs_in(lowercase(f@), q)
}

/// `c` mentions the lower-cased query `q` in its display name, company or notes.
pub open spec fn mentions(c: Contact, q: Seq<char>) -> bool {
    ||| occurs_in(lowercase(c.display_name@), q)
    ||| field_mentions(c.company, q)
    ||| field_mentions(c.notes, q)
}

/// The contacts, in file order, that mention `query` (compared in lower case).
pub open spec fn found_contacts(data: ContactsData, query: Seq<char>) -> Seq<Contact> {
    data.contacts@.filter(|c: Contact| mentions(c, lowercase(query)))
}

/// The contacts, in file order, carrying `tag` (ASCII case ignored).
pub open spec fn tagged_contacts(data: ContactsData, tag: Seq<char>) -> Seq<Contact> {
    data.contacts@.filter(|c: Contact| has_tag(c, tag))
}

/// The favorite contacts, in file order.
pub open spec fn favorites(data: ContactsData) -> Seq<Contact> {
    data.contacts@.filter(|c: Contact| c.favorite)
}

/// The first contact in `s` whose id is `id`.
pub open spec fn first_with_id(s: Seq<Contact>, id: Seq<char>) -> Option<Contact>
    decreases s.len(),
{
    if s.len() == 0 {
        None
    } else if s[0].id@ == id {
        Some(s[0])
    } else {
        first_with_id(s.drop_first(), id)
    }
}

fn carries_tag(c: &Contact, tag: &str) -> (r: bool)
    ensures
        r == has_tag(*c, tag@),
{
    let mut i: usize = 0;
    while i < c.tags.len()
        invariant
            i <= c.tags.len(),
            forall|j: int| 0 <= j < i ==> !same_ignoring_ascii_case(#[trigger] c.tags@[j]@, tag@),
        decreases c.tags.len() - i,
    {
        if eq_ignore_ascii_case(c.tags[i].as_str(), tag) {
            return true;
        }
        i = i + 1;
    }
    false
}

fn passes(c: &Contact, tag: Option<&str>, favorite: Option<bool>, company: Option<&str>) -> (r: bool)
    ensures
        r == passes_filters(*c, opt_text(tag), favorite, opt_text(company)),
{
    let tag_ok = match tag {
        Some(t) => carries_tag(c, t),
        None => true,
    };
    let favorite_ok = match favorite {
        Some(f) => c.favorite == f,
        None => true,
    };
    let company_ok = match company {
        Some(co) => match &c.company {
            Some(cc) => eq_ignore_ascii_case(cc.as_str(), co),
            None => false,
        },
        None => true,
    };
    tag_ok && favorite_ok && company_ok
}

/// List contacts with optional filters for tag, favorite, and company.
pub fn list_contacts<'a>(
    data: &'a ContactsData,
    tag: Option<&str>,
    favorite: Option<bool>,
    company: Option<&str>,
) -> (r: Vec<&'a Contact>)
    ensures
        derefs(r@) == listed_contacts(*data, opt_text(tag), favorite, opt_text(company)),
{
    let ghost p = |c: Contact| passes_filters(c, opt_text(tag), favorite, opt_text(company));
    let mut out: Vec<&'a Contact> = Vec::new();
    let mut i: usize = 0;
    while i < data.contacts.len()
        invariant
            i <= data.contacts.len(),
            p == (|c: Contact| passes_filters(c, opt_text(tag), favorite, opt_text(company))),
            derefs(out@) == data.contacts@.take(i as int).filter(p),
        decreases data.contacts.len() - i,
    {
        proof { lemma_select_step(out@, data.contacts@, i as int, p); }
        if passes(&data.contacts[i], tag, favorite, company) {
            out.push(&data.contacts[i]);
        }
        i = i + 1;
    }
    assert(data.contacts@.take(data.contacts.len() as int) =~= data.contacts@);
    out
}

/// Find a single contact by its ID.
pub fn get_contact<'a>(data: &'a ContactsData, contact_id: &str) -> (r: Option<&'a Contact>)
    ensures
        crate::json::opt_deref(r) == first_with_id(data.contacts@, contact_id@),
{
    let mut i: usize = 0;
    assert(data.contacts@.skip(0) =~= data.contacts@);
    while i < data.contacts.len()
        invariant
            i <= data.contacts.len(),
            first_with_id(data.contacts@, contact_id@)
                == first_with_id(data.contacts@.skip(i as int), contact_id@),
        decreases data.contacts.len() - i,
    {
        assert(data.contacts@.skip(i as int).drop_first() =~= data.contacts@.skip(i + 1));
        if text_equal(data.contacts[i].id.as_str(), contact_id) {
            return Some(&data.contacts[i]);
        }
        i = i + 1;
    }
    None
}

fn field_has(field: &Option<String>, q: &str) -> (r: bool)
    ensures
        r == field_mentions(*field, q@),
{
    match field {
        Some(f) => {
            let low = to_lowercase(f.as_str());
            contains_text(low.as_str(), q)
        },
        None => false,
    }
}

/// Search contacts by keyword (case-insensitive match on displayName, company, and notes).
pub fn search_contacts<'a>(data: &'a ContactsData, query: &str) -> (r: Vec<&'a Contact>)
    ensures
        derefs(r@) == found_contacts(*data, query@),
{
    let q = to_lowercase(query);
    let ghost p = |c: Contact| mentions(c, lowercase(query@));
    let mut out: Vec<&'a Contact> = Vec::new();
    let mut i: usize = 0;
    while i < data.contacts.len()
        invariant
            i <= data.contacts.len(),
            q@ == lowercase(query@),
            p == (|c: Contact| mentions(c, lowercase(query@))),
            derefs(out@) == data.contacts@.take(i as int).filter(p),
        decreases data.contacts.len() - i,
    {
        proof { lemma_select_step(out@, data.contacts@, i as int, p); }
        let c = &data.contacts[i];
        let name_low = to_lowercase(c.display_name.as_str());
        let hit = contains_text(name_low.as_str(), q.as_str())
            || field_has(&c.company, q.as_str())
            || field_has(&c.notes, q.as_str());
        if hit {
            out.push(c);
        }
        i = i + 1;
    }
    assert(data.contacts@.take(data.contacts.len() as int) =~= data.contacts@);
    out
}

/// Filter contacts by exact tag match (case-insensitive).
pub fn contacts_by_tag<'a>(data: &'a ContactsData, tag: &str) -> (r: Vec<&'a Contact>)
    ensures
        derefs(r@) == tagged_contacts(*data, tag@),
{
    let ghost p = |c: Contact| has_tag(c, tag@);
    let mut out: Vec<&'a Contact> = Vec::new();
    let mut i: usize = 0;
    while i < data.contacts.len()
        invariant
            i <= data.contacts.len(),
            p == (|c: Contact| has_tag(c, tag@)),
            derefs(out@) == data.contacts@.take(i as int).filter(p),
        decreases data.contacts.len() - i,
    {
        proof { lemma_select_step(out@, data.contacts@, i as int, p); }
        if carries_tag(&data.contacts[i], tag) {
            out.push(&data.contacts[i]);
        }
        i = i + 1;
    }
    assert(data.contacts@.take(data.contacts.len() as int) =~= data.contacts@);
    out
}

/// Return all favorite contacts.
pub fn favorite_contacts(data: &ContactsData) -> (r: Vec<&Contact>)
    ensures
        derefs(r@) == favorites(*data),
{
    let ghost p = |c: Contact| c.favorite;
    let mut out: Vec<&Contact> = Vec::new();
    let mut i: usize = 0;
    while i < data.contacts.len()
        invariant
            i <= data.contacts.len(),
            p == (|c: Contact| c.favorite),
            derefs(out@) == data.contacts@.take(i as int).filter(p),
        decreases data.contacts.len() - i,
    {
        proof { lemma_select_step(out@, data.contacts@, i as int, p); }
        if data.contacts[i].favorite {
            out.push(&data.contacts[i]);
        }
        i = i + 1;
    }
    assert(data.contacts@.take(data.contacts.len() as int) =~= data.contacts@);
    out
}

} // verus!
