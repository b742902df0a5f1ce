//! Session-derived identity and the decisions the authentication and
//! account routes make. Reading the session itself is the surrounding
//! service's work; the decisions on what it found are made here.

use vstd::prelude::*;

use crate::errors::ServiceError;
use crate::models::AuthenticatedUser;
use crate::users::{find_auth_user_by_email, spec_find_by_email};
use crate::utils::{argon2_matches, verify_password};

verus! {

/// A login request payload.
#[derive(Debug)]
pub struct AuthData {
    pub email: String,
    pub password: String,
}

/// The identity of the signed-in caller.
#[derive(Clone, Copy, Debug, PartialEq, Eq, Structural)]
pub struct UserId(pub i32);

impl From<i32> for UserId {
    fn from(n: i32) -> (r: Self) {
        UserId(n)
    }
}

impl vstd::std_specs::convert::FromSpecImpl<i32> for UserId {
    open spec fn obeys_from_spec() -> bool {
        true
    }

    open spec fn from_spec(n: i32) -> Self {
        UserId(n)
    }
}

impl From<UserId> for i32 {
    fn from(user_id: UserId) -> (r: Self) {
        user_id.0
    }
}

impl vstd::std_specs::convert::FromSpecImpl<UserId> for i32 {
    open spec fn obeys_from_spec() -> bool {
        true
    }

    open spec fn from_spec(user_id: UserId) -> Self {
        user_id.0
    }
}

/// Decide a login attempt from what the store found for the given email
/// and whether the password matched: an unknown email is a 404, a wrong
/// password a 401, and otherwise the signed-in user is returned.
pub fn login_outcome(potential: Option<AuthenticatedUser>, password_ok: bool) -> (r: Result<
    AuthenticatedUser,
    ServiceError,
>)
    ensures
        potential is None ==> (r matches Err(e) && e.status == 404),
        potential matches Some(u) ==> (if password_ok {
            r == Ok::<AuthenticatedUser, ServiceError>(u)
        } else {
            r matches Err(e) && e.status == 401
        }),
{
    match potential {
        None => Err(ServiceError::pls(404)),
        Some(user) => if password_ok {
            Ok(user)
        } else {
            Err(ServiceError::pls(401))
        },
    }
}

/// Sign a caller in against an in-memory relation: look the account up by
/// email, check the password against its stored hash under the service's
/// secret key, and decide. An unknown email is a 404, a wrong password a
/// 401, and a hash the checking routine cannot read an opaque 500.
pub fn login(
    rows: &Vec<AuthenticatedUser>,
    auth_data: &AuthData,
    secret: &[u8],
) -> (r: Result<AuthenticatedUser, ServiceError>)
    ensures
        spec_find_by_email(rows@, auth_data.email@) is None ==> (r matches Err(e) && e.status
            == 404),
        spec_find_by_email(rows@, auth_data.email@) matches Some(u) ==> {
            ||| (r == Ok::<AuthenticatedUser, ServiceError>(u) && argon2_matches(
                u.hash@,
                vstd::utf8::encode_utf8(auth_data.password@),
                secret@,
            ))
            ||| (r matches Err(e) && e.status == 401 && !argon2_matches(
                u.hash@,
                vstd::utf8::encode_utf8(auth_data.password@),
                secret@,
            ))
            ||| (r matches Err(e) && e.status == 500)
        },
{
    let potential = find_auth_user_by_email(rows, auth_data.email.as_str());
    match potential {
        None => Err(ServiceError::pls(404)),
        Some(user) => {
            match verify_password(auth_data.password.as_str(), user.hash.as_str(), secret) {
                Ok(verified) => login_outcome(Some(user), verified),
                Err(_) => Err(ServiceError::new(500, "password check failed".to_owned())),
            }
        },
    }
}

/// Whether `actor` may modify `target`'s account: only the account's own
/// user may, besides the first (administrative) account.
pub fn can_modify_user(actor: UserId, target: i32) -> (b: bool)
    ensures
        b == (actor.0 == target || actor.0 == 1),
{
    actor.0 == target || actor.0 == 1
}

} // verus!
