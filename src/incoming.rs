//! Handling of an incoming call: the decisions between the storage round trips.
//! The caller performs each step against the storage and reports what came back.
use vstd::prelude::*;

use crate::action::Action;
use crate::api::{ContactAddRequest, ContactDetails, IncomingPhoneCallRequest, IncomingPhoneCallResponse};
use crate::ldap::opt_view;
use crate::rules::{first_match_index, lemma_first_match_index, DefaultList};

verus! {

/// The name a new contact for `phone` gets: that of the first rule that applies.
pub open spec fn new_contact_name(rules: Seq<crate::rules::Default>, phone: Seq<char>) -> Option<Seq<char>> {
    match first_match_index(rules, phone) {
        Some(i) => Some(rules[i].name@),
        None => None,
    }
}

/// The action a new contact for `phone` gets: that of the first rule that applies,
/// else `Allow`.
pub open spec fn new_contact_action(rules: Seq<crate::rules::Default>, phone: Seq<char>) -> Action {
    match first_match_index(rules, phone) {
        Some(i) => rules[i].action,
        None => Action::Allow,
    }
}

/// The contact to create for a number that has none.
pub fn new_contact_request(phone_number: &str, defaults: &DefaultList) -> (r: ContactAddRequest)
    ensures
        r.phone_number@ == phone_number@,
        opt_view(r.name) == new_contact_name(defaults@, phone_number@),
        r.action == new_contact_action(defaults@, phone_number@),
        r.comments is None,
{
    proof {
        lemma_first_match_index(defaults@, phone_number@);
    }
    let found = defaults.search_phone_number(phone_number);
    let (name, action) = match found {
        Some(d) => (Some(d.name.clone()), d.action),
        None => (None, Action::Allow),
    };
    ContactAddRequest { phone_number: phone_number.to_string(), name, action, comments: None }
}

/// A call row to store.
#[derive(Debug)]
pub struct PhoneCallAddRequest {
    pub action: Action,
    pub contact_id: i64,
    pub phone_number: String,
    pub destination_number: String,
}

/// The call row for a call to `request.destination_number` from `contact`. It keeps
/// the action the contact has now; later edits of the contact do not change it.
pub fn phone_call_request(contact: &ContactDetails, request: &IncomingPhoneCallRequest) -> (r: PhoneCallAddRequest)
    ensures
        r.action == contact.action,
        r.contact_id == contact.id,
        r.phone_number@ == request.phone_number@,
        r.destination_number@ == request.destination_number@,
{
    PhoneCallAddRequest {
        action: contact.action,
        contact_id: contact.id,
        phone_number: request.phone_number.clone(),
        destination_number: request.destination_number.clone(),
    }
}

/// What the telephone system is told about a call from `contact`.
pub fn incoming_call_response(contact: &ContactDetails) -> (r: IncomingPhoneCallResponse)
    ensures
        opt_view(r.name) == opt_view(contact.name),
        r.action == contact.action,
{
    let name = match &contact.name {
        Some(n) => Some(n.clone()),
        None => None,
    };
    IncomingPhoneCallResponse { name, action: contact.action }
}

/// What the storage reported last.
pub enum CallEvent {
    Started,
    ContactLookedUp(Option<ContactDetails>),
    DefaultsLoaded(DefaultList),
    ContactCreated(ContactDetails),
}

/// What the storage must do next.
pub enum CallStep {
    /// Look up the contact with the caller's number.
    FetchContact,
    /// Load all default rules, in their order.
    FetchDefaults,
    /// Create this contact and report it back.
    CreateContact(ContactAddRequest),
    /// Store this call row for this contact; the decisions are over.
    RecordCall(ContactDetails, PhoneCallAddRequest),
}

/// An event, as plain values.
pub enum CallEventModel {
    Started,
    ContactLookedUp(Option<ContactDetails>),
    DefaultsLoaded(Seq<crate::rules::Default>),
    ContactCreated(ContactDetails),
}

/// A step, as plain values.
pub enum CallStepModel {
    FetchContact,
    FetchDefaults,
    CreateContact { phone_number: Seq<char>, name: Option<Seq<char>>, action: Action },
    RecordCall { contact_id: i64, action: Action, destination_number: Seq<char> },
}

impl CallEvent {
    pub open spec fn model(&self) -> CallEventModel {
        match self {
            CallEvent::Started => CallEventModel::Started,
            CallEvent::ContactLookedUp(c) => CallEventModel::ContactLookedUp(*c),
            CallEvent::DefaultsLoaded(d) => CallEventModel::DefaultsLoaded(d@),
            CallEvent::ContactCreated(c) => CallEventModel::ContactCreated(*c),
        }
    }
}

impl CallStep {
    pub open spec fn model(&self) -> CallStepModel {
        match self {
            CallStep::FetchContact => CallStepModel::FetchContact,
            CallStep::FetchDefaults => CallStepModel::FetchDefaults,
            CallStep::CreateContact(c) => CallStepModel::CreateContact {
                phone_number: c.phone_number@,
                name: opt_view(c.name),
                action: c.action,
            },
            CallStep::RecordCall(_, p) => CallStepModel::RecordCall {
                contact_id: p.contact_id,
                action: p.action,
                destination_number: p.destination_number@,
            },
        }
    }
}

/// The decision after each event: look up the caller; use the contact found, or
/// load the rules and create one from the first rule that applies; then record
/// the call against the contact.
pub open spec fn call_step(phone: Seq<char>, destination: Seq<char>, event: CallEventModel) -> CallStepModel {
    match event {
        CallEventModel::Started => CallStepModel::FetchContact,
        CallEventModel::ContactLookedUp(Some(c)) => CallStepModel::RecordCall {
            contact_id: c.id,
            action: c.action,
            destination_number: destination,
        },
        CallEventModel::ContactLookedUp(None) => CallStepModel::FetchDefaults,
        CallEventModel::DefaultsLoaded(rules) => CallStepModel::CreateContact {
            phone_number: phone,
            name: new_contact_name(rules, phone),
            action: new_contact_action(rules, phone),
        },
        CallEventModel::ContactCreated(c) => CallStepModel::RecordCall {
            contact_id: c.id,
            action: c.action,
            destination_number: destination,
        },
    }
}

/// The next step of handling `request` after `event`.
pub fn next_step(request: &IncomingPhoneCallRequest, event: CallEvent) -> (r: CallStep)
    ensures
        r.model() == call_step(request.phone_number@, request.destination_number@, event.model()),
        event matches CallEvent::ContactLookedUp(Some(c)) ==> (r matches CallStep::RecordCall(used, _) && used == c),
        event matches CallEvent::ContactCreated(c) ==> (r matches CallStep::RecordCall(used, _) && used == c),
{
    match event {
        CallEvent::Started => CallStep::FetchContact,
        CallEvent::ContactLookedUp(Some(contact)) => {
            let call = phone_call_request(&contact, request);
            CallStep::RecordCall(contact, call)
        },
        CallEvent::ContactLookedUp(None) => CallStep::FetchDefaults,
        CallEvent::DefaultsLoaded(defaults) => CallStep::CreateContact(
            new_contact_request(request.phone_number.as_str(), &defaults),
        ),
        CallEvent::ContactCreated(contact) => {
            let call = phone_call_request(&contact, request);
            CallStep::RecordCall(contact, call)
        },
    }
}

/// The steps for a call from a number with no contact, given the rules loaded and
/// the contact the storage created.
pub open spec fn unseen_number_steps(
    phone: Seq<char>,
    destination: Seq<char>,
    rules: Seq<crate::rules::Default>,
    created: ContactDetails,
) -> Seq<CallStepModel> {
    seq![
        call_step(phone, destination, CallEventModel::Started),
        call_step(phone, destination, CallEventModel::ContactLookedUp(None)),
        call_step(phone, destination, CallEventModel::DefaultsLoaded(rules)),
        call_step(phone, destination, CallEventModel::ContactCreated(created)),
    ]
}

/// The steps for a call from a number that has the contact `known`.
pub open spec fn known_number_steps(phone: Seq<char>, destination: Seq<char>, known: ContactDetails) -> Seq<
    CallStepModel,
> {
    seq![
        call_step(phone, destination, CallEventModel::Started),
        call_step(phone, destination, CallEventModel::ContactLookedUp(Some(known))),
    ]
}

/// A call from a number with no contact creates exactly one contact. When no rule
/// applies it has no name and the action `Allow`; when rule `i` is the first that
/// applies, it has that rule's name and action. The call is then recorded against
/// the created contact.
pub proof fn lemma_unseen_number_creates_one_contact(
    phone: Seq<char>,
    destination: Seq<char>,
    rules: Seq<crate::rules::Default>,
    created: ContactDetails,
)
    ensures
        ({
            let steps = unseen_number_steps(phone, destination, rules, created);
            &&& forall|k: int| 0 <= k < steps.len() && k != 2 ==> !(#[trigger] steps[k] is CreateContact)
            &&& steps[2] matches CallStepModel::CreateContact { phone_number, name, action }
            &&& phone_number == phone
            &&& (crate::rules::no_match(rules, phone) ==> name is None && action == Action::Allow)
            &&& (forall|i: int| crate::rules::is_first_match(rules, phone, i) ==> name == Some(rules[i].name@)
                && action == rules[i].action)
            &&& steps[3] == (CallStepModel::RecordCall {
                contact_id: created.id,
                action: created.action,
                destination_number: destination,
            })
        }),
{
    lemma_first_match_index(rules, phone);
    let steps = unseen_number_steps(phone, destination, rules, created);
    assert forall|k: int| 0 <= k < steps.len() && k != 2 implies !(#[trigger] steps[k] is CreateContact) by {}
}

/// A call from a number that has a contact creates none: the call is recorded
/// against that contact, with its action.
pub proof fn lemma_known_number_reuses_contact(phone: Seq<char>, destination: Seq<char>, known: ContactDetails)
    ensures
        ({
            let steps = known_number_steps(phone, destination, known);
            &&& forall|k: int| 0 <= k < steps.len() ==> !(#[trigger] steps[k] is CreateContact)
            &&& steps[1] == (CallStepModel::RecordCall {
                contact_id: known.id,
                action: known.action,
                destination_number: destination,
            })
        }),
{
    let steps = known_number_steps(phone, destination, known);
    assert forall|k: int| 0 <= k < steps.len() implies !(#[trigger] steps[k] is CreateContact) by {}
}

} // verus!
