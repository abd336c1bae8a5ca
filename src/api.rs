//! The records that pass between the storage, the directory and the web front.
use vstd::prelude::*;

use crate::action::Action;

verus! {

/// A point in time, as microseconds since the Unix epoch (UTC).
#[derive(Clone, Copy, Debug, PartialEq, Eq, Structural)]
pub struct Timestamp {
    pub micros: i64,
}

/// A signed-in person.
#[derive(Debug)]
pub struct User {
    pub sub: String,
    pub name: String,
    pub email: String,
    pub is_admin: bool,
    pub groups: Vec<String>,
}

/// The envelope of every JSON answer.
#[derive(Debug)]
pub enum Response<T> {
    Success { data: T },
    Error { message: String },
}

/// A recorded call, joined with the fields of its contact.
#[derive(Clone, Debug)]
pub struct PhoneCallDetails {
    pub id: i64,
    pub action: Action,
    pub contact_id: i64,
    pub contact_name: Option<String>,
    pub contact_phone_number: String,
    pub contact_action: Action,
    pub contact_comments: Option<String>,
    pub destination_number: Option<String>,
    pub inserted_at: Timestamp,
    pub updated_at: Timestamp,
    pub number_calls: Option<i64>,
}

/// The position of a call in the call list.
#[derive(Clone, Copy, Debug, PartialEq, Eq, Structural)]
pub struct PhoneCallKey {
    pub inserted_at: Timestamp,
    pub id: i64,
}

impl PhoneCallDetails {
    /// The cursor that points at this call.
    pub fn get_key(&self) -> (r: PhoneCallKey)
        ensures
            r == (PhoneCallKey { inserted_at: self.inserted_at, id: self.id }),
    {
        PhoneCallKey { inserted_at: self.inserted_at, id: self.id }
    }
}

/// A contact with the number of calls recorded for it.
#[derive(Clone, Debug)]
pub struct ContactDetails {
    pub id: i64,
    pub phone_number: String,
    pub name: Option<String>,
    pub action: Action,
    pub inserted_at: Timestamp,
    pub updated_at: Timestamp,
    pub comments: Option<String>,
    pub number_calls: Option<i64>,
}

/// The position of a contact in the contact list.
#[derive(Clone, Debug)]
pub struct ContactKey {
    pub phone_number: String,
    pub id: i64,
}

/// A change to the editable fields of a contact.
#[derive(Debug)]
pub struct ContactUpdateRequest {
    pub id: i64,
    pub phone_number: String,
    pub name: Option<String>,
    pub action: Action,
    pub comments: Option<String>,
}

/// A contact to be created.
#[derive(Debug)]
pub struct ContactAddRequest {
    pub phone_number: String,
    pub name: Option<String>,
    pub action: Action,
    pub comments: Option<String>,
}

impl ContactDetails {
    /// A request that keeps the id and number of this contact and sets the other fields.
    pub fn get_update_request(self, name: Option<String>, action: Action, comments: Option<String>) -> (r:
        ContactUpdateRequest)
        ensures
            r.id == self.id,
            r.phone_number == self.phone_number,
            r.name == name,
            r.action == action,
            r.comments == comments,
    {
        ContactUpdateRequest { id: self.id, phone_number: self.phone_number, name, action, comments }
    }

    /// The cursor that points at this contact.
    pub fn get_key(&self) -> (r: ContactKey)
        ensures
            r.phone_number@ == self.phone_number@,
            r.id == self.id,
    {
        ContactKey { phone_number: self.phone_number.clone(), id: self.id }
    }
}

/// A contact row as stored, without the call count.
#[derive(Debug)]
pub struct Contact {
    pub id: i64,
    pub phone_number: String,
    pub name: Option<String>,
    pub action: Action,
    pub comments: Option<String>,
    pub inserted_at: Timestamp,
    pub updated_at: Timestamp,
}

impl Contact {
    /// A request that keeps the id and number of this contact and sets the other fields.
    pub fn get_update_request(self, action: Action, name: Option<String>, comments: Option<String>) -> (r:
        ContactUpdateRequest)
        ensures
            r.id == self.id,
            r.phone_number == self.phone_number,
            r.name == name,
            r.action == action,
            r.comments == comments,
    {
        ContactUpdateRequest { id: self.id, phone_number: self.phone_number, name, action, comments }
    }
}

/// A call announced by the telephone system.
#[derive(Debug)]
pub struct IncomingPhoneCallRequest {
    pub phone_number: String,
    pub destination_number: String,
}

/// What the telephone system is told to do with a call.
#[derive(Debug)]
pub struct IncomingPhoneCallResponse {
    pub name: Option<String>,
    pub action: Action,
}

/// A request for one page of a list.
#[derive(Debug)]
pub struct PageRequest<T> {
    pub after_key: Option<T>,
    pub search: Option<String>,
}

/// One page of a list, with the cursor of the next page when there may be one.
#[derive(Debug)]
pub struct Page<T, K> {
    pub items: Vec<T>,
    pub next_key: Option<K>,
}

} // verus!
