//! Default rules: an ordered decision table that classifies unknown numbers.
use vstd::prelude::*;

use crate::action::Action;
use crate::api::Timestamp;
use crate::pattern::{pattern_matches, pattern_matches_text};

verus! {

/// A routing rule: numbers that its regexp matches get its name and action.
#[derive(Clone, Debug)]
pub struct Default {
    pub id: i64,
    pub order: i32,
    pub regexp: String,
    pub name: String,
    pub action: Action,
    pub inserted_at: Timestamp,
    pub updated_at: Timestamp,
}

/// A change to a stored rule.
#[derive(Debug)]
pub struct DefaultUpdateRequest {
    pub id: i64,
    pub order: i32,
    pub regexp: String,
    pub name: String,
    pub action: Action,
}

/// A rule to be stored.
#[derive(Debug)]
pub struct DefaultAddRequest {
    pub order: i32,
    pub regexp: String,
    pub name: String,
    pub action: Action,
}

/// Does `rule` apply to `phone`? Its regexp must compile and match somewhere in the number.
pub open spec fn rule_matches(rule: Default, phone: Seq<char>) -> bool {
    pattern_matches(rule.regexp@, phone)
}

/// Is `i` the position of the first rule of `rules` that applies to `phone`?
pub open spec fn is_first_match(rules: Seq<Default>, phone: Seq<char>, i: int) -> bool {
    &&& 0 <= i < rules.len()
    &&& rule_matches(rules[i], phone)
    &&& forall|j: int| 0 <= j < i ==> !rule_matches(#[trigger] rules[j], phone)
}

/// No rule of `rules` applies to `phone`.
pub open spec fn no_match(rules: Seq<Default>, phone: Seq<char>) -> bool {
    forall|j: int| 0 <= j < rules.len() ==> !rule_matches(#[trigger] rules[j], phone)
}

/// The rules are in the order of their `order` field.
pub open spec fn sorted_by_order(rules: Seq<Default>) -> bool {
    forall|a: int, b: int| 0 <= a <= b < rules.len() ==> #[trigger] rules[a].order <= #[trigger] rules[b].order
}

impl Default {
    /// Whether this rule applies to `phone_number`; a regexp that does not compile
    /// applies to nothing.
    pub fn test_phone_number(&self, phone_number: &str) -> (r: bool)
        ensures
            r == rule_matches(*self, phone_number@),
    {
        pattern_matches_text(self.regexp.as_str(), phone_number)
    }

    /// The stored rule for an add request, given the id and time the storage assigned.
    pub fn from_add_request(request: DefaultAddRequest, id: i64, time: Timestamp) -> (r: Default)
        ensures
            r.id == id,
            r.order == request.order,
            r.regexp == request.regexp,
            r.name == request.name,
            r.action == request.action,
            r.inserted_at == time,
            r.updated_at == time,
    {
        Default {
            id,
            order: request.order,
            regexp: request.regexp,
            name: request.name,
            action: request.action,
            inserted_at: time,
            updated_at: time,
        }
    }
}

/// The position of the first `true`, if any.
pub fn first_match(flags: &Vec<bool>) -> (r: Option<usize>)
    ensures
        r matches Some(i) ==> i < flags.len() && flags@[i as int] && forall|j: int|
            0 <= j < i ==> !#[trigger] flags@[j],
        r is None ==> forall|j: int| 0 <= j < flags.len() ==> !#[trigger] flags@[j],
{
    let mut i: usize = 0;
    while i < flags.len()
        invariant
            i <= flags.len(),
            forall|j: int| 0 <= j < i ==> !#[trigger] flags@[j],
        decreases flags.len() - i,
    {
        if flags[i] {
            return Some(i);
        }
        i = i + 1;
    }
    None
}

/// All default rules, in the order in which they are tried.
pub struct DefaultList(Vec<Default>);

impl View for DefaultList {
    type V = Seq<Default>;

    closed spec fn view(&self) -> Seq<Default> {
        self.0@
    }
}

impl DefaultList {
    pub fn new(defaults: Vec<Default>) -> (r: Self)
        ensures
            r@ == defaults@,
    {
        DefaultList(defaults)
    }

    /// The rules, in order.
    pub fn iter(&self) -> (r: std::slice::Iter<'_, Default>)
        ensures
            vstd::std_specs::slice::into_iter_elts(r) == self@,
    {
        self.0.iter()
    }

    /// For each rule in turn, whether it applies to `phone_number`.
    pub fn match_flags(&self, phone_number: &str) -> (r: Vec<bool>)
        ensures
            r@.len() == self@.len(),
            forall|i: int| 0 <= i < self@.len() ==> #[trigger] r@[i] == rule_matches(self@[i], phone_number@),
    {
        let mut flags: Vec<bool> = Vec::new();
        for i in 0..self.0.len()
            invariant
                flags@.len() == i,
                forall|k: int| 0 <= k < i ==> #[trigger] flags@[k] == rule_matches(self@[k], phone_number@),
        {
            flags.push(self.0[i].test_phone_number(phone_number));
        }
        flags
    }

    /// The first rule that applies to `phone_number`, or none.
    pub fn search_phone_number(&self, phone_number: &str) -> (r: Option<&Default>)
        ensures
            r matches Some(d) ==> exists|i: int| is_first_match(self@, phone_number@, i) && *d == self@[i],
            r is None ==> no_match(self@, phone_number@),
    {
        let flags = self.match_flags(phone_number);
        match first_match(&flags) {
            Some(i) => {
                assert(is_first_match(self@, phone_number@, i as int)) by {
                    assert forall|j: int| 0 <= j < i implies !rule_matches(#[trigger] self@[j], phone_number@) by {
                        assert(!flags@[j]);
                    }
                }
                Some(&self.0[i])
            },
            None => {
                assert forall|j: int| 0 <= j < self@.len() implies !rule_matches(#[trigger] self@[j], phone_number@) by {
                    assert(!flags@[j]);
                }
                None
            },
        }
    }
}

/// In a rule list sorted by `order`, the first rule that applies to a number has
/// the lowest order among all rules that apply to it.
pub proof fn lemma_first_match_has_lowest_order(rules: Seq<Default>, phone: Seq<char>, i: int)
    requires
        sorted_by_order(rules),
        is_first_match(rules, phone, i),
    ensures
        forall|j: int| 0 <= j < rules.len() && rule_matches(#[trigger] rules[j], phone) ==> rules[i].order
            <= rules[j].order,
{
    assert forall|j: int| 0 <= j < rules.len() && rule_matches(#[trigger] rules[j], phone) implies rules[i].order
        <= rules[j].order by {
        if j < i {
        } else {
            assert(rules[i].order <= rules[j].order);
        }
    }
}

/// The position of the first rule that applies to `phone`, if any.
pub open spec fn first_match_index(rules: Seq<Default>, phone: Seq<char>) -> Option<int> {
    if exists|i: int| is_first_match(rules, phone, i) {
        Some(choose|i: int| is_first_match(rules, phone, i))
    } else {
        None
    }
}

/// There is at most one first match, and none exactly when no rule applies.
pub proof fn lemma_first_match_index(rules: Seq<Default>, phone: Seq<char>)
    ensures
        forall|i: int| is_first_match(rules, phone, i) ==> first_match_index(rules, phone) == Some(i),
        no_match(rules, phone) <==> first_match_index(rules, phone) is None,
{
    assert forall|i: int| is_first_match(rules, phone, i) implies first_match_index(rules, phone) == Some(i) by {
        let c = choose|k: int| is_first_match(rules, phone, k);
        assert(is_first_match(rules, phone, c));
        if c < i {
            assert(!rule_matches(rules[c], phone));
        } else if i < c {
            assert(!rule_matches(rules[i], phone));
        }
    }
    if !no_match(rules, phone) {
        let j = choose|j: int| 0 <= j < rules.len() && rule_matches(#[trigger] rules[j], phone);
        lemma_some_rule_gives_first_match(rules, phone, j);
    }
}

proof fn lemma_some_rule_gives_first_match(rules: Seq<Default>, phone: Seq<char>, j: int)
    requires
        0 <= j < rules.len(),
        rule_matches(rules[j], phone),
    ensures
        exists|i: int| is_first_match(rules, phone, i),
    decreases j,
{
    if forall|k: int| 0 <= k < j ==> !rule_matches(#[trigger] rules[k], phone) {
        assert(is_first_match(rules, phone, j));
    } else {
        let k = choose|k: int| 0 <= k < j && rule_matches(#[trigger] rules[k], phone);
        lemma_some_rule_gives_first_match(rules, phone, k);
    }
}

} // verus!
