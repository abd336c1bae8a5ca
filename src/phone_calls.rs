//! The call list: which calls a page request admits, in which order, and how a
//! page is cut. Calls are listed newest first.
use vstd::prelude::*;

use crate::api::{Page, PageRequest, PhoneCallDetails, PhoneCallKey};
use crate::ldap::opt_view;
use crate::paging::{
    asymmetric, first_n, lemma_round_trip, length_as_i64, next_key_due, page_answer, select, sorted_by,
    PAGE_LIMIT,
};
use crate::text::{like_contains_pattern, search_hits, search_hits_text};

verus! {

/// The key of a call: when it was recorded, then its id.
pub open spec fn call_key(c: PhoneCallDetails) -> (i64, i64) {
    (c.inserted_at.micros, c.id)
}

pub open spec fn key_view(k: PhoneCallKey) -> (i64, i64) {
    (k.inserted_at.micros, k.id)
}

/// Is a call with key `a` listed before one with key `b`? Newer first, then higher id first.
pub open spec fn call_listed_before(a: (i64, i64), b: (i64, i64)) -> bool {
    a.0 > b.0 || (a.0 == b.0 && a.1 > b.1)
}

pub open spec fn opt_hit(search: Seq<char>, field: Option<String>) -> bool {
    field matches Some(f) && search_hits(search, f@)
}

/// A search term hits a call when it occurs, ignoring case, in the contact's
/// number or name or in the number dialled.
pub open spec fn call_hit(search: Option<Seq<char>>, c: PhoneCallDetails) -> bool {
    match search {
        None => true,
        Some(s) => search_hits(s, c.contact_phone_number@) || opt_hit(s, c.contact_name) || opt_hit(
            s,
            c.destination_number,
        ),
    }
}

/// The calls of one contact, or of all.
pub open spec fn call_of(contact_id: Option<i64>, c: PhoneCallDetails) -> bool {
    match contact_id {
        None => true,
        Some(id) => c.contact_id == id,
    }
}

/// A call list query: an optional contact, an optional search term (with the
/// `LIKE` pattern that finds it), an optional cursor, and the page size.
pub struct PhoneCallQuery {
    pub contact_id: Option<i64>,
    pub search: Option<String>,
    pub pattern: Option<String>,
    pub after: Option<PhoneCallKey>,
    pub limit: i64,
}

/// The query for a page request, optionally limited to one contact's calls.
pub fn phone_calls_query(request: &PageRequest<PhoneCallKey>, contact_id: Option<i64>) -> (r: PhoneCallQuery)
    ensures
        r.contact_id == contact_id,
        opt_view(r.search) == opt_view(request.search),
        r.pattern matches Some(p) ==> (request.search matches Some(s) && p@ == crate::text::like_pattern(s@)),
        r.pattern is None <==> request.search is None,
        r.after == request.after_key,
        r.limit == PAGE_LIMIT,
{
    let (search, pattern) = match &request.search {
        Some(s) => (Some(s.clone()), Some(like_contains_pattern(s.as_str()))),
        None => (None, None),
    };
    PhoneCallQuery { contact_id, search, pattern, after: request.after_key, limit: PAGE_LIMIT }
}

fn opt_hits(search: &str, field: &Option<String>) -> (r: bool)
    ensures
        r == opt_hit(search@, *field),
{
    match field {
        Some(f) => search_hits_text(search, f.as_str()),
        None => false,
    }
}

impl PhoneCallQuery {
    pub open spec fn search_view(&self) -> Option<Seq<char>> {
        opt_view(self.search)
    }

    /// Does the query admit `c`: of the contact asked for, hitting the search
    /// term, and listed after the cursor?
    pub fn admits(&self, c: &PhoneCallDetails) -> (r: bool)
        ensures
            r == (call_of(self.contact_id, *c) && call_hit(self.search_view(), *c) && match self.after {
                None => true,
                Some(k) => call_listed_before(key_view(k), call_key(*c)),
            }),
    {
        match self.contact_id {
            Some(id) => {
                if c.contact_id != id {
                    return false;
                }
            },
            None => {},
        }
        let hit = match &self.search {
            None => true,
            Some(s) => {
                search_hits_text(s.as_str(), c.contact_phone_number.as_str()) || opt_hits(s.as_str(), &c.contact_name)
                    || opt_hits(s.as_str(), &c.destination_number)
            },
        };
        if !hit {
            return false;
        }
        match self.after {
            None => true,
            Some(k) => k.inserted_at.micros > c.inserted_at.micros || (k.inserted_at.micros == c.inserted_at.micros
                && k.id > c.id),
        }
    }
}

/// A page of calls: the items as given, and the key of the last one when the page is full.
pub fn list_to_page(items: Vec<PhoneCallDetails>, limit: i64) -> (r: Page<PhoneCallDetails, PhoneCallKey>)
    ensures
        r.items@ == items@,
        r.next_key is Some <==> next_key_due(items@.len(), limit as int),
        r.next_key matches Some(k) ==> key_view(k) == call_key(items@.last()),
{
    let length = length_as_i64(items.len());
    let next_key = if length >= limit && items.len() > 0 {
        Some(items[items.len() - 1].get_key())
    } else {
        None
    };
    Page { items, next_key }
}

/// The calls a request yields from a table held in list order.
pub open spec fn call_page(
    table: Seq<PhoneCallDetails>,
    contact_id: Option<i64>,
    search: Option<Seq<char>>,
    after: Option<(i64, i64)>,
    limit: int,
) -> Seq<PhoneCallDetails> {
    page_answer(
        table,
        |c: PhoneCallDetails| call_of(contact_id, c) && call_hit(search, c),
        |c: PhoneCallDetails| call_key(c),
        |a: (i64, i64), b: (i64, i64)| call_listed_before(a, b),
        after,
        limit,
    )
}

/// Listing calls page by page: when the first page (no cursor) carries a next
/// key, the page asked for after that key holds the calls that follow, so the
/// two pages together are the first `2 * limit` matching calls, none skipped and
/// none repeated. When it carries none, it holds every matching call.
pub proof fn lemma_call_pages_round_trip(
    table: Seq<PhoneCallDetails>,
    contact_id: Option<i64>,
    search: Option<Seq<char>>,
    limit: i64,
)
    requires
        limit > 0,
        sorted_by(table, |c: PhoneCallDetails| call_key(c), |a: (i64, i64), b: (i64, i64)| call_listed_before(a, b)),
    ensures
        ({
            let all = select(table, |c: PhoneCallDetails| call_of(contact_id, c) && call_hit(search, c));
            let first = call_page(table, contact_id, search, None, limit as int);
            &&& !next_key_due(first.len(), limit as int) ==> first == all
            &&& next_key_due(first.len(), limit as int) ==> first + call_page(table, contact_id, search, Some(call_key(first.last())), limit as int)
                == first_n(all, 2 * limit as int)
        }),
{
    assert(asymmetric(|a: (i64, i64), b: (i64, i64)| call_listed_before(a, b)));
    lemma_round_trip(
        table,
        |c: PhoneCallDetails| call_of(contact_id, c) && call_hit(search, c),
        |c: PhoneCallDetails| call_key(c),
        |a: (i64, i64), b: (i64, i64)| call_listed_before(a, b),
        limit as int,
    );
}

} // verus!
