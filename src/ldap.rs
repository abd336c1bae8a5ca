//! Mirroring contacts into an LDAP directory: what to look up, what to change,
//! and a model of the directory in which the changes are proved idempotent.
use itertools::Itertools;
use vstd::prelude::*;
use vstd::string::*;

use crate::action::Action;
use crate::api::ContactDetails;
use crate::text::str_eq;

verus! {

/// Why a directory operation failed. The text of an error of the LDAP client is kept
/// for the log.
#[derive(Debug)]
pub enum Error {
    Ldap(String),
    Ldap3(String),
    LdapTooManyResults,
}

/// The distinguished name of a directory entry.
#[derive(Clone, Debug)]
pub struct Dn(String);

impl View for Dn {
    type V = Seq<char>;

    closed spec fn view(&self) -> Seq<char> {
        self.0@
    }
}

impl Dn {
    pub fn new(name: String) -> (r: Dn)
        ensures
            r@ == name@,
    {
        Dn(name)
    }

    /// A copy of the name.
    pub fn copy(&self) -> (r: Dn)
        ensures
            r@ == self@,
    {
        Dn(self.0.clone())
    }

    pub fn as_str(&self) -> (r: &str)
        ensures
            r@ == self@,
    {
        self.0.as_str()
    }
}

/// A directory entry for a contact, as a search returns it.
#[derive(Debug)]
pub struct LdapContact {
    dn: Dn,
    sn: Option<String>,
    cn: Option<String>,
    telephone_number: Option<String>,
}

/// A new directory entry for a contact.
pub struct AddLdapContact {
    pub sn: Option<String>,
    pub cn: Option<String>,
    pub telephone_number: String,
}

/// New attribute values for an existing directory entry.
pub struct UpdateLdapContact {
    pub dn: Dn,
    pub sn: Option<String>,
    pub cn: Option<String>,
    pub telephone_number: Option<String>,
}

pub open spec fn opt_view(o: Option<String>) -> Option<Seq<char>> {
    match o {
        Some(s) => Some(s@),
        None => None,
    }
}

/// The values of an attribute: one, or none.
pub open spec fn values_of(o: Option<Seq<char>>) -> Seq<Seq<char>> {
    match o {
        Some(s) => seq![s],
        None => Seq::empty(),
    }
}

pub open spec fn strings_view(v: Vec<String>) -> Seq<Seq<char>> {
    v@.map_values(|s: String| s@)
}

/// The first value of the first attribute named `name`, if there is one.
pub open spec fn first_value(attrs: Seq<(String, Vec<String>)>, name: Seq<char>) -> Option<Seq<char>>
    decreases attrs.len(),
{
    if attrs.len() == 0 {
        None
    } else if attrs[0].0@ == name {
        if attrs[0].1@.len() > 0 {
            Some(attrs[0].1@[0]@)
        } else {
            None
        }
    } else {
        first_value(attrs.skip(1), name)
    }
}

fn find_first_value(attrs: &Vec<(String, Vec<String>)>, name: &str) -> (r: Option<String>)
    ensures
        opt_view(r) == first_value(attrs@, name@),
{
    let mut i: usize = 0;
    assert(attrs@.skip(0) =~= attrs@);
    while i < attrs.len()
        invariant
            i <= attrs.len(),
            first_value(attrs@.skip(i as int), name@) == first_value(attrs@, name@),
        decreases attrs.len() - i,
    {
        assert(attrs@.skip(i as int)[0] == attrs@[i as int]);
        assert(attrs@.skip(i as int).skip(1) =~= attrs@.skip(i + 1));
        if str_eq(attrs[i].0.as_str(), name) {
            if attrs[i].1.len() > 0 {
                return Some(attrs[i].1[0].clone());
            } else {
                return None;
            }
        }
        i = i + 1;
    }
    None
}

impl LdapContact {
    pub closed spec fn dn_view(&self) -> Seq<char> {
        self.dn@
    }

    pub closed spec fn sn_view(&self) -> Option<Seq<char>> {
        opt_view(self.sn)
    }

    pub closed spec fn cn_view(&self) -> Option<Seq<char>> {
        opt_view(self.cn)
    }

    pub closed spec fn telephone_number_view(&self) -> Option<Seq<char>> {
        opt_view(self.telephone_number)
    }

    pub fn dn(&self) -> (r: &Dn)
        ensures
            r@ == self.dn_view(),
    {
        &self.dn
    }

    /// The contact held in an entry found by a search: its name and, of each of the
    /// attributes `sn`, `cn` and `telephoneNumber`, the first value.
    pub fn from_attributes(dn: String, attrs: &Vec<(String, Vec<String>)>) -> (r: LdapContact)
        ensures
            r.dn_view() == dn@,
            r.sn_view() == first_value(attrs@, "sn"@),
            r.cn_view() == first_value(attrs@, "cn"@),
            r.telephone_number_view() == first_value(attrs@, "telephoneNumber"@),
    {
        LdapContact {
            dn: Dn(dn),
            sn: find_first_value(attrs, "sn"),
            cn: find_first_value(attrs, "cn"),
            telephone_number: find_first_value(attrs, "telephoneNumber"),
        }
    }
}

/// A contact is mirrored when it has a name, a real number and is let through.
pub open spec fn includable(contact: ContactDetails) -> bool {
    &&& contact.name is Some
    &&& contact.phone_number@ != "anonymous"@
    &&& contact.action == Action::Allow
}

pub fn include_contact_in_ldap(contact: &ContactDetails) -> (r: bool)
    ensures
        r == includable(*contact),
{
    contact.name.is_some() && !str_eq(contact.phone_number.as_str(), "anonymous") && contact.action
        == Action::Allow
}

/// Relies on `itertools::Itertools::exactly_one`: the only item of a one-item
/// sequence, an error for any other length.
#[verifier::external_body]
fn exactly_one_of<T>(items: Vec<T>) -> (r: Result<T, ()>)
    ensures
        items@.len() == 1 <==> r.is_ok(),
        r matches Ok(x) ==> x == items@[0],
{
    items.into_iter().exactly_one().map_err(|_| ())
}

/// What a search by number found, reduced to the name of the entry.
pub open spec fn found_view(found: Result<Option<LdapContact>, Error>) -> Result<Option<Seq<char>>, ()> {
    match found {
        Ok(Some(c)) => Ok(Some(c.dn_view())),
        Ok(None) => Ok(None),
        Err(_) => Err(()),
    }
}

/// The outcome of a search by number: nothing, the one entry, or an error when
/// several entries hold the number.
pub fn single_result(results: Vec<LdapContact>) -> (r: Result<Option<LdapContact>, Error>)
    ensures
        results@.len() == 0 ==> r matches Ok(None),
        results@.len() == 1 ==> (r matches Ok(Some(c)) && c == results@[0]),
        results@.len() > 1 ==> r matches Err(Error::LdapTooManyResults),
{
    if results.len() == 0 {
        return Ok(None);
    }
    match exactly_one_of(results) {
        Ok(c) => Ok(Some(c)),
        Err(_) => Err(Error::LdapTooManyResults),
    }
}

/// The name of the entry created for a number under `base_dn`.
pub open spec fn dn_for_number(telephone_number: Seq<char>, base_dn: Seq<char>) -> Seq<char> {
    "telephoneNumber="@ + telephone_number + ","@ + base_dn
}

/// An entry as the directory holds it.
pub struct DirEntry {
    pub cn: Option<Seq<char>>,
    pub sn: Option<Seq<char>>,
    pub telephone_number: Option<Seq<char>>,
}

/// A change to the directory.
pub enum DirOp {
    Update { dn: Seq<char>, cn: Option<Seq<char>>, sn: Option<Seq<char>>, telephone_number: Option<Seq<char>> },
    Delete { dn: Seq<char> },
    Add { cn: Option<Seq<char>>, sn: Option<Seq<char>>, telephone_number: Seq<char> },
    Nothing,
}

/// The directory, by entry name.
pub type Directory = Map<Seq<char>, DirEntry>;

/// The effect of a change. An update or delete of a missing entry, and an add
/// over an existing one, fail and change nothing.
pub open spec fn apply(op: DirOp, dir: Directory, base_dn: Seq<char>) -> Directory {
    match op {
        DirOp::Update { dn, cn, sn, telephone_number } => if dir.dom().contains(dn) {
            dir.insert(dn, DirEntry { cn, sn, telephone_number })
        } else {
            dir
        },
        DirOp::Delete { dn } => dir.remove(dn),
        DirOp::Add { cn, sn, telephone_number } => {
            let dn = dn_for_number(telephone_number, base_dn);
            if dir.dom().contains(dn) {
                dir
            } else {
                dir.insert(dn, DirEntry { cn, sn, telephone_number: Some(telephone_number) })
            }
        },
        DirOp::Nothing => dir,
    }
}

/// Does the entry `dn` hold the number `phone`?
pub open spec fn holds_number(dir: Directory, dn: Seq<char>, phone: Seq<char>) -> bool {
    dir.dom().contains(dn) && dir[dn].telephone_number == Some(phone)
}

/// A search by number: no entry, the one entry, or an error when several hold it.
pub open spec fn lookup(dir: Directory, phone: Seq<char>) -> Result<Option<Seq<char>>, ()> {
    if exists|dn: Seq<char>| holds_number(dir, dn, phone) {
        let dn = choose|dn: Seq<char>| holds_number(dir, dn, phone);
        if forall|other: Seq<char>| holds_number(dir, other, phone) ==> other == dn {
            Ok(Some(dn))
        } else {
            Err(())
        }
    } else {
        Ok(None)
    }
}

/// What to do for `contact`, given what a search by its number found: update a
/// found entry that should stay, delete one that should not, create a missing one
/// that should exist. A failed search changes nothing.
pub open spec fn plan_for(contact: ContactDetails, found: Result<Option<Seq<char>>, ()>) -> DirOp {
    match found {
        Ok(Some(dn)) => if includable(contact) {
            DirOp::Update {
                dn,
                cn: opt_view(contact.name),
                sn: opt_view(contact.name),
                telephone_number: Some(contact.phone_number@),
            }
        } else {
            DirOp::Delete { dn }
        },
        Ok(None) => if includable(contact) {
            DirOp::Add { cn: opt_view(contact.name), sn: opt_view(contact.name), telephone_number: contact.phone_number@ }
        } else {
            DirOp::Nothing
        },
        Err(_) => DirOp::Nothing,
    }
}

/// One reconciliation of `contact` against the directory.
pub open spec fn reconcile(dir: Directory, contact: ContactDetails, base_dn: Seq<char>) -> Directory {
    apply(plan_for(contact, lookup(dir, contact.phone_number@)), dir, base_dn)
}

/// The change a contact needs.
pub enum LdapPlan {
    Update(UpdateLdapContact),
    Delete(Dn),
    Add(AddLdapContact),
    Nothing,
}

impl View for LdapPlan {
    type V = DirOp;

    open spec fn view(&self) -> DirOp {
        match self {
            LdapPlan::Update(u) => DirOp::Update {
                dn: u.dn@,
                cn: opt_view(u.cn),
                sn: opt_view(u.sn),
                telephone_number: opt_view(u.telephone_number),
            },
            LdapPlan::Delete(dn) => DirOp::Delete { dn: dn@ },
            LdapPlan::Add(a) => DirOp::Add { cn: opt_view(a.cn), sn: opt_view(a.sn), telephone_number: a.telephone_number@ },
            LdapPlan::Nothing => DirOp::Nothing,
        }
    }
}

fn clone_name(name: &Option<String>) -> (r: Option<String>)
    ensures
        opt_view(r) == opt_view(*name),
{
    match name {
        Some(n) => Some(n.clone()),
        None => None,
    }
}

/// The change that brings the directory in line with `contact`, given what the
/// search by number found.
pub fn update_plan(contact: &ContactDetails, found: Result<Option<LdapContact>, Error>) -> (r: LdapPlan)
    ensures
        r@ == plan_for(*contact, found_view(found)),
{
    match found {
        Ok(Some(ldap_contact)) => {
            if include_contact_in_ldap(contact) {
                LdapPlan::Update(
                    UpdateLdapContact {
                        dn: ldap_contact.dn().copy(),
                        cn: clone_name(&contact.name),
                        sn: clone_name(&contact.name),
                        telephone_number: Some(contact.phone_number.clone()),
                    },
                )
            } else {
                LdapPlan::Delete(ldap_contact.dn().copy())
            }
        },
        Ok(None) => {
            if include_contact_in_ldap(contact) {
                LdapPlan::Add(
                    AddLdapContact {
                        cn: clone_name(&contact.name),
                        sn: clone_name(&contact.name),
                        telephone_number: contact.phone_number.clone(),
                    },
                )
            } else {
                LdapPlan::Nothing
            }
        },
        Err(_) => LdapPlan::Nothing,
    }
}

/// The entry to delete when a contact goes away: the one found, if any.
pub fn delete_plan(found: Result<Option<LdapContact>, Error>) -> (r: Option<Dn>)
    ensures
        match found_view(found) {
            Ok(Some(dn)) => (r matches Some(d) && d@ == dn),
            _ => r is None,
        },
{
    match found {
        Ok(Some(ldap_contact)) => Some(ldap_contact.dn().copy()),
        _ => None,
    }
}

/// Attribute names with their values, as plain sequences.
pub open spec fn attributes_view(attrs: Vec<(String, Vec<String>)>) -> Seq<(Seq<char>, Seq<Seq<char>>)> {
    attrs@.map_values(|p: (String, Vec<String>)| (p.0@, strings_view(p.1)))
}

/// A new entry: its name and its attributes.
pub struct LdapAddition {
    pub dn: Dn,
    pub attributes: Vec<(String, Vec<String>)>,
}

/// Replacements of attribute values in an existing entry.
pub struct LdapModification {
    pub dn: Dn,
    pub replacements: Vec<(String, Vec<String>)>,
}

fn values(o: Option<String>) -> (r: Vec<String>)
    ensures
        strings_view(r) == values_of(opt_view(o)),
{
    let mut v: Vec<String> = Vec::new();
    match o {
        Some(s) => {
            v.push(s);
        },
        None => {},
    }
    assert(strings_view(v) =~= values_of(opt_view(o)));
    v
}

/// The name of the entry created for a number.
pub fn dn_for(telephone_number: &str, base_dn: &str) -> (r: Dn)
    ensures
        r@ == dn_for_number(telephone_number@, base_dn@),
{
    let mut name = String::from_str("telephoneNumber=");
    name.append(telephone_number);
    name.append(",");
    name.append(base_dn);
    Dn(name)
}

/// The entry to create for a contact under `base_dn`: a `person` with the given
/// names and number.
pub fn add_entry(request: AddLdapContact, base_dn: &str) -> (r: LdapAddition)
    ensures
        r.dn@ == dn_for_number(request.telephone_number@, base_dn@),
        attributes_view(r.attributes) == seq![
            ("cn"@, values_of(opt_view(request.cn))),
            ("sn"@, values_of(opt_view(request.sn))),
            ("telephoneNumber"@, seq![request.telephone_number@]),
            ("objectClass"@, seq!["person"@]),
        ],
{
    let dn = dn_for(request.telephone_number.as_str(), base_dn);
    let mut attributes: Vec<(String, Vec<String>)> = Vec::new();
    attributes.push((String::from_str("cn"), values(request.cn)));
    attributes.push((String::from_str("sn"), values(request.sn)));
    let mut number: Vec<String> = Vec::new();
    number.push(request.telephone_number);
    attributes.push((String::from_str("telephoneNumber"), number));
    let mut class: Vec<String> = Vec::new();
    class.push(String::from_str("person"));
    attributes.push((String::from_str("objectClass"), class));
    assert(strings_view(attributes@[2].1) =~= seq![request.telephone_number@]);
    assert(strings_view(attributes@[3].1) =~= seq!["person"@]);
    assert(attributes_view(attributes) =~= seq![
        ("cn"@, values_of(opt_view(request.cn))),
        ("sn"@, values_of(opt_view(request.sn))),
        ("telephoneNumber"@, seq![request.telephone_number@]),
        ("objectClass"@, seq!["person"@]),
    ]);
    LdapAddition { dn, attributes }
}

/// The replacements that set `cn`, `sn` and `telephoneNumber` of an entry; an
/// absent value removes the attribute.
pub fn modification(request: UpdateLdapContact) -> (r: LdapModification)
    ensures
        r.dn@ == request.dn@,
        attributes_view(r.replacements) == seq![
            ("cn"@, values_of(opt_view(request.cn))),
            ("sn"@, values_of(opt_view(request.sn))),
            ("telephoneNumber"@, values_of(opt_view(request.telephone_number))),
        ],
{
    let mut replacements: Vec<(String, Vec<String>)> = Vec::new();
    replacements.push((String::from_str("cn"), values(request.cn)));
    replacements.push((String::from_str("sn"), values(request.sn)));
    replacements.push((String::from_str("telephoneNumber"), values(request.telephone_number)));
    assert(attributes_view(replacements) =~= seq![
        ("cn"@, values_of(opt_view(request.cn))),
        ("sn"@, values_of(opt_view(request.sn))),
        ("telephoneNumber"@, values_of(opt_view(request.telephone_number))),
    ]);
    LdapModification { dn: request.dn, replacements }
}

/// After a reconciliation that updated or created the entry `dn` for `phone`, the
/// search by `phone` finds exactly that entry.
proof fn lemma_lookup_single(dir: Directory, dn: Seq<char>, phone: Seq<char>)
    requires
        holds_number(dir, dn, phone),
        forall|other: Seq<char>| holds_number(dir, other, phone) ==> other == dn,
    ensures
        lookup(dir, phone) == Ok::<Option<Seq<char>>, ()>(Some(dn)),
{
    let c = choose|x: Seq<char>| holds_number(dir, x, phone);
    assert(holds_number(dir, c, phone));
}

/// Reconciling the same unchanged contact twice leaves the directory as one
/// reconciliation left it.
pub proof fn lemma_reconcile_idempotent(dir: Directory, contact: ContactDetails, base_dn: Seq<char>)
    ensures
        reconcile(reconcile(dir, contact, base_dn), contact, base_dn) == reconcile(dir, contact, base_dn),
{
    let phone = contact.phone_number@;
    let once = reconcile(dir, contact, base_dn);
    let entry = DirEntry { cn: opt_view(contact.name), sn: opt_view(contact.name), telephone_number: Some(phone) };
    match lookup(dir, phone) {
        Ok(Some(dn)) => {
            if includable(contact) {
                assert(once == dir.insert(dn, entry));
                assert forall|other: Seq<char>| holds_number(once, other, phone) implies other == dn by {
                    if other != dn {
                        assert(holds_number(dir, other, phone));
                    }
                }
                lemma_lookup_single(once, dn, phone);
                assert(once.insert(dn, entry) =~= once);
            } else {
                assert(once == dir.remove(dn));
                assert forall|other: Seq<char>| !holds_number(once, other, phone) by {
                    if holds_number(once, other, phone) {
                        assert(holds_number(dir, other, phone));
                    }
                }
                assert(lookup(once, phone) == Ok::<Option<Seq<char>>, ()>(None));
            }
        },
        Ok(None) => {
            if includable(contact) {
                let new_dn = dn_for_number(phone, base_dn);
                if !dir.dom().contains(new_dn) {
                    assert(once == dir.insert(new_dn, entry));
                    assert forall|other: Seq<char>| holds_number(once, other, phone) implies other == new_dn by {
                        if other != new_dn {
                            assert(holds_number(dir, other, phone));
                        }
                    }
                    lemma_lookup_single(once, new_dn, phone);
                    assert(once.insert(new_dn, entry) =~= once);
                }
            }
        },
        Err(_) => {},
    }
}

} // verus!
