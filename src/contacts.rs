//! The contact list: which contacts a page request admits, in which order, and
//! how a page is cut.
use vstd::prelude::*;

use crate::api::{ContactDetails, ContactKey, Page, PageRequest};
use crate::ldap::opt_view;
use crate::paging::{
    asymmetric, first_n, lemma_round_trip, length_as_i64, next_key_due, page_answer, select, sorted_by,
    PAGE_LIMIT,
};
use crate::text::{lemma_text_lt_asymmetric, like_contains_pattern, search_hits, search_hits_text, text_less, text_lt};

verus! {

/// The key of a contact: its number, then its id.
pub open spec fn contact_key(c: ContactDetails) -> (Seq<char>, i64) {
    (c.phone_number@, c.id)
}

pub open spec fn key_view(k: ContactKey) -> (Seq<char>, i64) {
    (k.phone_number@, k.id)
}

/// Contacts are listed by number, then by id, ascending.
pub open spec fn contact_key_lt(a: (Seq<char>, i64), b: (Seq<char>, i64)) -> bool {
    text_lt(a.0, b.0) || (a.0 == b.0 && a.1 < b.1)
}

/// A search term hits a contact when it occurs, ignoring case, in its number or its name.
pub open spec fn contact_hit(search: Option<Seq<char>>, c: ContactDetails) -> bool {
    match search {
        None => true,
        Some(s) => search_hits(s, c.phone_number@) || (c.name matches Some(n) && search_hits(s, n@)),
    }
}

/// A contact list query: an optional search term (with the `LIKE` pattern that
/// finds it), an optional cursor, and the page size.
pub struct ContactQuery {
    pub search: Option<String>,
    pub pattern: Option<String>,
    pub after: Option<ContactKey>,
    pub limit: i64,
}

/// The query for a page request.
pub fn contacts_query(request: &PageRequest<ContactKey>) -> (r: ContactQuery)
    ensures
        opt_view(r.search) == opt_view(request.search),
        r.pattern matches Some(p) ==> (request.search matches Some(s) && p@ == crate::text::like_pattern(s@)),
        r.pattern is None <==> request.search is None,
        r.after matches Some(k) ==> (request.after_key matches Some(a) && key_view(k) == key_view(a)),
        r.after is None <==> request.after_key is None,
        r.limit == PAGE_LIMIT,
{
    let (search, pattern) = match &request.search {
        Some(s) => (Some(s.clone()), Some(like_contains_pattern(s.as_str()))),
        None => (None, None),
    };
    let after = match &request.after_key {
        Some(k) => Some(ContactKey { phone_number: k.phone_number.clone(), id: k.id }),
        None => None,
    };
    ContactQuery { search, pattern, after, limit: PAGE_LIMIT }
}

impl ContactQuery {
    pub open spec fn search_view(&self) -> Option<Seq<char>> {
        opt_view(self.search)
    }

    pub open spec fn after_view(&self) -> Option<(Seq<char>, i64)> {
        match self.after {
            Some(k) => Some(key_view(k)),
            None => None,
        }
    }

    /// Does the query admit `c`: it hits the search term, and comes after the cursor?
    pub fn admits(&self, c: &ContactDetails) -> (r: bool)
        ensures
            r == (contact_hit(self.search_view(), *c) && match self.after_view() {
                None => true,
                Some(k) => contact_key_lt(k, contact_key(*c)),
            }),
    {
        let hit = match &self.search {
            None => true,
            Some(s) => {
                search_hits_text(s.as_str(), c.phone_number.as_str()) || match &c.name {
                    Some(n) => search_hits_text(s.as_str(), n.as_str()),
                    None => false,
                }
            },
        };
        if !hit {
            return false;
        }
        match &self.after {
            None => true,
            Some(k) => {
                if text_less(k.phone_number.as_str(), c.phone_number.as_str()) {
                    true
                } else {
                    crate::text::str_eq(k.phone_number.as_str(), c.phone_number.as_str()) && k.id < c.id
                }
            },
        }
    }
}

/// A page of contacts: the items as given, and the key of the last one when the
/// page is full.
pub fn list_to_page(items: Vec<ContactDetails>, limit: i64) -> (r: Page<ContactDetails, ContactKey>)
    ensures
        r.items@ == items@,
        r.next_key is Some <==> next_key_due(items@.len(), limit as int),
        r.next_key matches Some(k) ==> key_view(k) == contact_key(items@.last()),
{
    let length = length_as_i64(items.len());
    let next_key = if length >= limit && items.len() > 0 {
        Some(items[items.len() - 1].get_key())
    } else {
        None
    };
    Page { items, next_key }
}

/// The contacts a request yields from a table held in list order.
pub open spec fn contact_page(
    table: Seq<ContactDetails>,
    search: Option<Seq<char>>,
    after: Option<(Seq<char>, i64)>,
    limit: int,
) -> Seq<ContactDetails> {
    page_answer(
        table,
        |c: ContactDetails| contact_hit(search, c),
        |c: ContactDetails| contact_key(c),
        |a: (Seq<char>, i64), b: (Seq<char>, i64)| contact_key_lt(a, b),
        after,
        limit,
    )
}

proof fn lemma_contact_key_lt_asymmetric()
    ensures
        asymmetric(|a: (Seq<char>, i64), b: (Seq<char>, i64)| contact_key_lt(a, b)),
{
    assert forall|a: (Seq<char>, i64), b: (Seq<char>, i64)| #[trigger] contact_key_lt(a, b) implies !contact_key_lt(b, a) by {
        lemma_text_lt_asymmetric(a.0, b.0);
        lemma_text_lt_asymmetric(a.0, a.0);
    }
}

/// Listing contacts page by page: when the first page (no cursor) carries a next
/// key, the page asked for after that key holds the contacts that follow, so the
/// two pages together are the first `2 * limit` contacts that hit the search,
/// none skipped and none repeated. When it carries none, it holds every contact
/// that hits the search.
pub proof fn lemma_contact_pages_round_trip(table: Seq<ContactDetails>, search: Option<Seq<char>>, limit: i64)
    requires
        limit > 0,
        sorted_by(table, |c: ContactDetails| contact_key(c), |a: (Seq<char>, i64), b: (Seq<char>, i64)| contact_key_lt(a, b)),
    ensures
        ({
            let all = select(table, |c: ContactDetails| contact_hit(search, c));
            let first = contact_page(table, search, None, limit as int);
            &&& !next_key_due(first.len(), limit as int) ==> first == all
            &&& next_key_due(first.len(), limit as int) ==> first + contact_page(table, search, Some(contact_key(first.last())), limit as int)
                == first_n(all, 2 * limit as int)
        }),
{
    lemma_contact_key_lt_asymmetric();
    lemma_round_trip(
        table,
        |c: ContactDetails| contact_hit(search, c),
        |c: ContactDetails| contact_key(c),
        |a: (Seq<char>, i64), b: (Seq<char>, i64)| contact_key_lt(a, b),
        limit as int,
    );
}

} // verus!
