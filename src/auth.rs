//! Who may call the service.
use vstd::prelude::*;

use crate::api::User;
use crate::errors::Error;
use crate::text::str_eq;

verus! {

/// The credentials the telephone system presents on each incoming call.
#[derive(Debug, Clone)]
pub struct Authentication {
    pub username: String,
    pub password: String,
}

/// Settings of the identity provider for staff sign-in.
#[derive(Debug, Clone)]
pub struct Config {
    pub issuer: String,
    pub client_id: String,
    pub client_secret: String,
    pub redirect_uri: String,
    pub scopes: String,
}

/// Accepts a caller whose user name and password both equal the configured ones.
pub fn check_credentials(authentication: &Authentication, username: &str, password: &str) -> (r: Result<(), Error>)
    ensures
        r.is_ok() <==> (username@ == authentication.username@ && password@ == authentication.password@),
        r matches Err(e) ==> e is NotAuthorized,
{
    if !str_eq(username, authentication.username.as_str()) || !str_eq(password, authentication.password.as_str()) {
        return Err(Error::NotAuthorized);
    }
    Ok(())
}

/// Does the group list hold `admin`?
pub open spec fn has_admin_group(groups: Seq<String>) -> bool {
    exists|i: int| 0 <= i < groups.len() && #[trigger] groups[i]@ == "admin"@
}

impl User {
    /// A signed-in person; members of the `admin` group are administrators.
    pub fn new(sub: String, name: String, email: String, groups: Vec<String>) -> (r: User)
        ensures
            r.sub == sub,
            r.name == name,
            r.email == email,
            r.groups == groups,
            r.is_admin == has_admin_group(groups@),
    {
        let mut is_admin = false;
        let mut i: usize = 0;
        while i < groups.len()
            invariant
                i <= groups.len(),
                is_admin == exists|j: int| 0 <= j < i && #[trigger] groups@[j]@ == "admin"@,
            decreases groups.len() - i,
        {
            if str_eq(groups[i].as_str(), "admin") {
                is_admin = true;
            }
            i = i + 1;
        }
        User { sub, name, email, is_admin, groups }
    }
}

} // verus!
