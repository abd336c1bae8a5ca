//! The routing disposition applied to a phone number.
use vstd::prelude::*;
use vstd::string::*;

use crate::text::str_eq;

verus! {

/// What happens to a call from a number: let it ring, or send it to voice mail.
#[derive(Clone, Copy, Debug, PartialEq, Eq, Structural)]
pub enum Action {
    Allow,
    VoiceMail,
}

/// The name under which an action is stored.
pub open spec fn action_db_name(a: Action) -> Seq<char> {
    match a {
        Action::Allow => "allow"@,
        Action::VoiceMail => "voicemail"@,
    }
}

/// The name under which an action is shown to people.
pub open spec fn action_label(a: Action) -> Seq<char> {
    match a {
        Action::Allow => "Allow"@,
        Action::VoiceMail => "Voice mail"@,
    }
}

/// The action whose stored name is `s`, if any.
pub open spec fn parse_action(s: Seq<char>) -> Option<Action> {
    if s == "allow"@ {
        Some(Action::Allow)
    } else if s == "voicemail"@ {
        Some(Action::VoiceMail)
    } else {
        None
    }
}

/// A string that names no action.
#[derive(Debug)]
pub struct InvalidActionError(pub String);

impl InvalidActionError {
    /// The text of the error, `Invalid action: <input>`.
    pub fn message(&self) -> (r: String)
        ensures
            r@ == "Invalid action: "@ + self.0@,
    {
        let mut out = String::from_str("Invalid action: ");
        out.append(self.0.as_str());
        out
    }
}

impl Action {
    /// The stored name of the action.
    pub fn as_str(&self) -> (r: &'static str)
        ensures
            r@ == action_db_name(*self),
    {
        match self {
            Action::Allow => "allow",
            Action::VoiceMail => "voicemail",
        }
    }

    /// The label of each action with its stored name, for a select box.
    pub fn get_all_options_as_str() -> (r: Vec<(&'static str, &'static str)>)
        ensures
            r@.len() == 2,
            r@[0].0@ == action_label(Action::Allow),
            r@[0].1@ == action_db_name(Action::Allow),
            r@[1].0@ == action_label(Action::VoiceMail),
            r@[1].1@ == action_db_name(Action::VoiceMail),
    {
        let mut v: Vec<(&'static str, &'static str)> = Vec::new();
        v.push(("Allow", "allow"));
        v.push(("Voice mail", "voicemail"));
        v
    }

    /// The label shown to people.
    pub fn to_string(&self) -> (r: String)
        ensures
            r@ == action_label(*self),
    {
        match self {
            Action::Allow => String::from_str("Allow"),
            Action::VoiceMail => String::from_str("Voice mail"),
        }
    }

    /// Reads a stored name strictly: anything but `allow` or `voicemail` is an error
    /// that carries the input.
    pub fn try_from_str(s: &str) -> (r: Result<Action, InvalidActionError>)
        ensures
            r is Ok <==> parse_action(s@) is Some,
            r matches Ok(a) ==> parse_action(s@) == Some(a),
            r matches Err(e) ==> e.0@ == s@,
    {
        if str_eq(s, "allow") {
            Ok(Action::Allow)
        } else if str_eq(s, "voicemail") {
            Ok(Action::VoiceMail)
        } else {
            Err(InvalidActionError(s.to_string()))
        }
    }

    /// Reads a stored name leniently: anything unknown counts as `Allow`.
    pub fn from_db(s: &str) -> (r: Action)
        ensures
            r == match parse_action(s@) {
                Some(a) => a,
                None => Action::Allow,
            },
    {
        if str_eq(s, "allow") {
            Action::Allow
        } else if str_eq(s, "voicemail") {
            Action::VoiceMail
        } else {
            Action::Allow
        }
    }
}

impl Default for Action {
    fn default() -> (r: Action)
        ensures
            r == Action::Allow,
    {
        Action::Allow
    }
}

impl From<String> for Action {
    fn from(s: String) -> (r: Action) {
        Action::from_db(s.as_str())
    }
}

impl vstd::std_specs::convert::FromSpecImpl<String> for Action {
    open spec fn obeys_from_spec() -> bool {
        true
    }

    open spec fn from_spec(s: String) -> Action {
        match parse_action(s@) {
            Some(a) => a,
            None => Action::Allow,
        }
    }
}

} // verus!
