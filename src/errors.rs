//! The errors a request can end in, and how each is answered and logged.
use vstd::prelude::*;
use vstd::string::*;

use crate::ldap;
use crate::number::{decimal, i64_to_decimal};

verus! {

/// An error that ends a request. The text of an error of an outside service is
/// kept for the log only; a validation error is shown to the caller as it is.
#[derive(Debug)]
pub enum Error {
    Sqlx(String),
    NotFound,
    ObjectNotFound(String, i64),
    Oidc(String),
    OIDCNotInitialized,
    NotAuthorized,
    Session(String),
    Ldap(String),
    Ldap3(String),
    LdapTooManyResults,
    MethodNotAllowed,
    AssetLoad(String, String),
    Validation(String),
}

/// The HTTP status of the answer to an error.
pub open spec fn status_of(e: Error) -> u16 {
    match e {
        Error::NotFound | Error::ObjectNotFound(..) => 404,
        Error::NotAuthorized => 401,
        Error::MethodNotAllowed => 405,
        Error::Validation(_) => 400,
        _ => 500,
    }
}

/// The message the caller sees. Internal failures all read `internal error`, so
/// no text of a storage or directory error leaves the server.
pub open spec fn public_message_of(e: Error) -> Seq<char> {
    match e {
        Error::NotFound => "Not found"@,
        Error::ObjectNotFound(class, id) => class@ + " with id "@ + decimal(id as int) + " not found"@,
        Error::NotAuthorized => "Not authorized"@,
        Error::MethodNotAllowed => "Method not allowed"@,
        Error::Validation(m) => m@,
        _ => "internal error"@,
    }
}

/// The line written to the log, if any.
pub open spec fn log_message_of(e: Error) -> Option<Seq<char>> {
    match e {
        Error::Sqlx(t) => Some("database error: "@ + t@),
        Error::NotFound => Some("Not found"@),
        Error::ObjectNotFound(..) => None,
        Error::Oidc(t) => Some("OIDC error: "@ + t@),
        Error::OIDCNotInitialized => Some("OIDC not initialized"@),
        Error::NotAuthorized => Some("Not authorized"@),
        Error::Session(t) => Some("Session error: "@ + t@),
        Error::Ldap(t) => Some("LDAP error: "@ + t@),
        Error::Ldap3(t) => Some("LDAP3 error: "@ + t@),
        Error::LdapTooManyResults => Some("LDAP too many results"@),
        Error::MethodNotAllowed => Some("Method not allowed"@),
        Error::AssetLoad(asset, t) => Some("Asset load error "@ + asset@ + ": "@ + t@),
        Error::Validation(_) => None,
    }
}

fn prefixed(prefix: &str, text: &String) -> (r: String)
    ensures
        r@ == prefix@ + text@,
{
    let mut out = String::from_str(prefix);
    out.append(text.as_str());
    out
}

impl Error {
    pub fn status_code(&self) -> (r: u16)
        ensures
            r == status_of(*self),
    {
        match self {
            Error::NotFound | Error::ObjectNotFound(..) => 404,
            Error::NotAuthorized => 401,
            Error::MethodNotAllowed => 405,
            Error::Validation(_) => 400,
            _ => 500,
        }
    }

    pub fn public_message(&self) -> (r: String)
        ensures
            r@ == public_message_of(*self),
    {
        match self {
            Error::NotFound => String::from_str("Not found"),
            Error::ObjectNotFound(class, id) => {
                let mut out = class.clone();
                out.append(" with id ");
                let digits = i64_to_decimal(*id);
                out.append(digits.as_str());
                out.append(" not found");
                out
            },
            Error::NotAuthorized => String::from_str("Not authorized"),
            Error::MethodNotAllowed => String::from_str("Method not allowed"),
            Error::Validation(m) => m.clone(),
            _ => String::from_str("internal error"),
        }
    }

    pub fn log_message(&self) -> (r: Option<String>)
        ensures
            match log_message_of(*self) {
                Some(t) => (r matches Some(m) && m@ == t),
                None => r is None,
            },
    {
        match self {
            Error::Sqlx(t) => Some(prefixed("database error: ", t)),
            Error::NotFound => Some(String::from_str("Not found")),
            Error::ObjectNotFound(..) => None,
            Error::Oidc(t) => Some(prefixed("OIDC error: ", t)),
            Error::OIDCNotInitialized => Some(String::from_str("OIDC not initialized")),
            Error::NotAuthorized => Some(String::from_str("Not authorized")),
            Error::Session(t) => Some(prefixed("Session error: ", t)),
            Error::Ldap(t) => Some(prefixed("LDAP error: ", t)),
            Error::Ldap3(t) => Some(prefixed("LDAP3 error: ", t)),
            Error::LdapTooManyResults => Some(String::from_str("LDAP too many results")),
            Error::MethodNotAllowed => Some(String::from_str("Method not allowed")),
            Error::AssetLoad(asset, t) => {
                let mut out = prefixed("Asset load error ", asset);
                out.append(": ");
                out.append(t.as_str());
                Some(out)
            },
            Error::Validation(_) => None,
        }
    }

    /// The same failure, as an error of a request.
    pub fn from_ldap(e: ldap::Error) -> (r: Error)
        ensures
            match e {
                ldap::Error::Ldap(t) => r == Error::Ldap(t),
                ldap::Error::Ldap3(t) => r == Error::Ldap3(t),
                ldap::Error::LdapTooManyResults => r == Error::LdapTooManyResults,
            },
    {
        match e {
            ldap::Error::Ldap(t) => Error::Ldap(t),
            ldap::Error::Ldap3(t) => Error::Ldap3(t),
            ldap::Error::LdapTooManyResults => Error::LdapTooManyResults,
        }
    }

    /// A field that failed its check, answered with its message.
    pub fn from_validation(e: crate::forms::ValidationError) -> (r: Error)
        ensures
            r == Error::Validation(e.0),
    {
        Error::Validation(e.0)
    }

    /// An update or delete that touched no row means the object does not exist.
    pub fn check_rows_affected(rows_affected: u64, class: &str, id: i64) -> (r: Result<(), Error>)
        ensures
            rows_affected > 0 <==> r.is_ok(),
            r matches Err(e) ==> (e matches Error::ObjectNotFound(c, i) && c@ == class@ && i == id),
    {
        if rows_affected == 0 {
            Err(Error::ObjectNotFound(class.to_string(), id))
        } else {
            Ok(())
        }
    }
}

/// The data of a successful answer.
pub struct Response<T>(T);

impl<T> Response<T> {
    pub closed spec fn data(&self) -> T {
        self.0
    }

    pub fn new(data: T) -> (r: Self)
        ensures
            r.data() == data,
    {
        Response(data)
    }

    pub fn into_data(self) -> (r: T)
        ensures
            r == self.data(),
    {
        self.0
    }
}

} // verus!
