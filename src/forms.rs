//! Checks of the fields an administrator edits, and the requests built from them.
use vstd::prelude::*;
use vstd::string::*;

use crate::action::{parse_action, Action};
use crate::api::{ContactAddRequest, ContactUpdateRequest};
use crate::number::{int_error_message, int_error_text, parse_i32, parse_i32_str};
use crate::pattern::{compile_regex, regex_compile_outcome};
use crate::rules::{DefaultAddRequest, DefaultUpdateRequest};

verus! {

/// A field that does not pass its check, with the message shown next to it.
#[derive(Debug, PartialEq, Eq, Clone)]
pub struct ValidationError(pub String);

/// Whether a dialog adds a new record or edits the one with the given id.
#[derive(Debug, Clone, Copy, PartialEq, Eq, Structural)]
pub enum Operation {
    Add,
    Edit(i64),
}

fn error_with(prefix: &str, text: &str) -> (r: ValidationError)
    ensures
        r.0@ == prefix@ + text@,
{
    let mut out = String::from_str(prefix);
    out.append(text);
    ValidationError(out)
}

/// A rule's order: a decimal `i32`.
pub fn validate_order(str: &str) -> (r: Result<i32, ValidationError>)
    ensures
        str@.len() == 0 ==> (r matches Err(e) && e.0@ == "Order cannot be empty"@),
        str@.len() > 0 ==> match parse_i32(str@) {
            Ok(v) => r == Ok::<i32, ValidationError>(v as i32),
            Err(k) => (r matches Err(e) && e.0@ == "Invalid integer: "@ + int_error_text(k)),
        },
{
    if str.is_empty() {
        return Err(ValidationError(String::from_str("Order cannot be empty")));
    }
    match parse_i32_str(str) {
        Ok(v) => Ok(v),
        Err(k) => {
            let text = int_error_message(k);
            Err(error_with("Invalid integer: ", text.as_str()))
        },
    }
}

/// The check of a regexp once it has been compiled: accepted as written, or
/// rejected with the compiler's message.
pub fn regexp_verdict(str: &str, compiled: Result<(), String>) -> (r: Result<String, ValidationError>)
    ensures
        compiled matches Ok(_) ==> (r matches Ok(s) && s@ == str@),
        compiled matches Err(m) ==> (r matches Err(e) && e.0@ == "Invalid regexp: "@ + m@),
{
    match compiled {
        Ok(_) => Ok(str.to_string()),
        Err(m) => Err(error_with("Invalid regexp: ", m.as_str())),
    }
}

/// A rule's regexp: not empty, and accepted by the regex compiler.
pub fn validate_regexp(str: &str) -> (r: Result<String, ValidationError>)
    ensures
        str@.len() == 0 ==> (r matches Err(e) && e.0@ == "Regexp cannot be empty"@),
        str@.len() > 0 ==> match regex_compile_outcome(str@) {
            Ok(_) => (r matches Ok(s) && s@ == str@),
            Err(m) => (r matches Err(e) && e.0@ == "Invalid regexp: "@ + m),
        },
{
    if str.is_empty() {
        return Err(ValidationError(String::from_str("Regexp cannot be empty")));
    }
    let compiled = match compile_regex(str) {
        Ok(_) => Ok(()),
        Err(m) => Err(m),
    };
    regexp_verdict(str, compiled)
}

/// A name: not empty.
pub fn validate_name(str: &str) -> (r: Result<String, ValidationError>)
    ensures
        str@.len() == 0 ==> (r matches Err(e) && e.0@ == "Name cannot be empty"@),
        str@.len() > 0 ==> (r matches Ok(s) && s@ == str@),
{
    if str.is_empty() {
        return Err(ValidationError(String::from_str("Name cannot be empty")));
    }
    Ok(str.to_string())
}

/// A phone number: not empty.
pub fn validate_phone_number(str: &str) -> (r: Result<String, ValidationError>)
    ensures
        str@.len() == 0 ==> (r matches Err(e) && e.0@ == "Phone number cannot be empty"@),
        str@.len() > 0 ==> (r matches Ok(s) && s@ == str@),
{
    if str.is_empty() {
        return Err(ValidationError(String::from_str("Phone number cannot be empty")));
    }
    Ok(str.to_string())
}

/// An action: its stored name.
pub fn validate_action(str: &str) -> (r: Result<Action, ValidationError>)
    ensures
        match parse_action(str@) {
            Some(a) => r == Ok::<Action, ValidationError>(a),
            None => (r matches Err(e) && e.0@ == "Invalid action: "@ + ("Invalid action: "@ + str@)),
        },
{
    match Action::try_from_str(str) {
        Ok(a) => Ok(a),
        Err(err) => {
            let text = err.message();
            Err(error_with("Invalid action: ", text.as_str()))
        },
    }
}

/// Comments: empty means none.
pub fn validate_comments(str: &str) -> (r: Result<Option<String>, ValidationError>)
    ensures
        r matches Ok(c),
        str@.len() == 0 ==> r matches Ok(None),
        str@.len() > 0 ==> (r matches Ok(Some(s)) && s@ == str@),
{
    if str.is_empty() {
        Ok(None)
    } else {
        Ok(Some(str.to_string()))
    }
}

/// The styling of an input box: valid, untouched, or invalid.
pub fn get_input_classes(is_valid: bool, changed: bool) -> (r: &'static str)
    ensures
        is_valid ==> r@ == "form-control is-valid"@,
        !is_valid && !changed ==> r@ == "form-control"@,
        !is_valid && changed ==> r@ == "form-control is-invalid"@,
{
    if is_valid {
        return "form-control is-valid";
    }
    if !changed {
        return "form-control";
    }
    "form-control is-invalid"
}

/// What saving a contact dialog stores.
#[derive(Debug)]
pub enum ContactSave {
    Update(ContactUpdateRequest),
    Add(ContactAddRequest),
}

/// What saving a rule dialog stores.
#[derive(Debug)]
pub enum DefaultSave {
    Update(DefaultUpdateRequest),
    Add(DefaultAddRequest),
}

/// The outcome of saving a contact dialog: the first field that failed its
/// check (number, name, action, comments, in that order), else the request.
pub open spec fn contact_save_outcome(
    operation: Operation,
    phone_number: Result<String, ValidationError>,
    name: Result<String, ValidationError>,
    action: Result<Action, ValidationError>,
    comments: Result<Option<String>, ValidationError>,
) -> Result<ContactSave, ValidationError> {
    match (phone_number, name, action, comments) {
        (Err(e), _, _, _) => Err(e),
        (Ok(_), Err(e), _, _) => Err(e),
        (Ok(_), Ok(_), Err(e), _) => Err(e),
        (Ok(_), Ok(_), Ok(_), Err(e)) => Err(e),
        (Ok(p), Ok(n), Ok(a), Ok(c)) => match operation {
            Operation::Edit(id) => Ok(
                ContactSave::Update(ContactUpdateRequest { id, phone_number: p, name: Some(n), action: a, comments: c }),
            ),
            Operation::Add => Ok(ContactSave::Add(ContactAddRequest { phone_number: p, name: Some(n), action: a, comments: c })),
        },
    }
}

/// The request a contact dialog saves, or the first field that failed its check.
pub fn contact_save_request(
    operation: Operation,
    phone_number: Result<String, ValidationError>,
    name: Result<String, ValidationError>,
    action: Result<Action, ValidationError>,
    comments: Result<Option<String>, ValidationError>,
) -> (r: Result<ContactSave, ValidationError>)
    ensures
        r == contact_save_outcome(operation, phone_number, name, action, comments),
{
    let phone_number = match phone_number {
        Ok(p) => p,
        Err(e) => return Err(e),
    };
    let name = match name {
        Ok(n) => n,
        Err(e) => return Err(e),
    };
    let action = match action {
        Ok(a) => a,
        Err(e) => return Err(e),
    };
    let comments = match comments {
        Ok(c) => c,
        Err(e) => return Err(e),
    };
    match operation {
        Operation::Edit(id) => Ok(
            ContactSave::Update(ContactUpdateRequest { id, phone_number, name: Some(name), action, comments }),
        ),
        Operation::Add => Ok(ContactSave::Add(ContactAddRequest { phone_number, name: Some(name), action, comments })),
    }
}

/// The outcome of saving a rule dialog: the first field that failed its check
/// (order, regexp, name, action, in that order), else the request.
pub open spec fn default_save_outcome(
    operation: Operation,
    order: Result<i32, ValidationError>,
    regexp: Result<String, ValidationError>,
    name: Result<String, ValidationError>,
    action: Result<Action, ValidationError>,
) -> Result<DefaultSave, ValidationError> {
    match (order, regexp, name, action) {
        (Err(e), _, _, _) => Err(e),
        (Ok(_), Err(e), _, _) => Err(e),
        (Ok(_), Ok(_), Err(e), _) => Err(e),
        (Ok(_), Ok(_), Ok(_), Err(e)) => Err(e),
        (Ok(o), Ok(x), Ok(n), Ok(a)) => match operation {
            Operation::Edit(id) => Ok(DefaultSave::Update(DefaultUpdateRequest { id, order: o, regexp: x, name: n, action: a })),
            Operation::Add => Ok(DefaultSave::Add(DefaultAddRequest { order: o, regexp: x, name: n, action: a })),
        },
    }
}

/// The request a rule dialog saves, or the first field that failed its check.
pub fn default_save_request(
    operation: Operation,
    order: Result<i32, ValidationError>,
    regexp: Result<String, ValidationError>,
    name: Result<String, ValidationError>,
    action: Result<Action, ValidationError>,
) -> (r: Result<DefaultSave, ValidationError>)
    ensures
        r == default_save_outcome(operation, order, regexp, name, action),
{
    let order = match order {
        Ok(o) => o,
        Err(e) => return Err(e),
    };
    let regexp = match regexp {
        Ok(x) => x,
        Err(e) => return Err(e),
    };
    let name = match name {
        Ok(n) => n,
        Err(e) => return Err(e),
    };
    let action = match action {
        Ok(a) => a,
        Err(e) => return Err(e),
    };
    match operation {
        Operation::Edit(id) => Ok(DefaultSave::Update(DefaultUpdateRequest { id, order, regexp, name, action })),
        Operation::Add => Ok(DefaultSave::Add(DefaultAddRequest { order, regexp, name, action })),
    }
}

} // verus!
