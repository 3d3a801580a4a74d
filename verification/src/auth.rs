//! The authentication service: the login state machine and the
//! registration and account-lifecycle decisions.
//!
//! Login is strictly sequential and short-circuits on the first
//! failure: input validation, then the lookup outcome, then the
//! account's status and soft-delete marker, then the credential check.
//! A lookup miss, a record without a stored hash and a password
//! mismatch all fail with the one `InvalidCredentials` error, so an
//! observer cannot tell a missing account from a wrong password.

use vstd::prelude::*;
use crate::errors::ApiError;
use crate::hashing::{argon2_verifies, hash_password, verify_password};
use crate::model::{
    is_valid_email, new_user_record, user_info_of, valid_create_user_request, valid_login_request,
    valid_opt_name, CreateUserRequest, LoginRequest, UpdateUserRequest, UserInfo, UserRecord,
};
use crate::roles::{role_from_name_spec, UserRole, UserStatus};

verus! {

/// The externally observable kind of a login failure. Three distinct
/// causes — unknown email, missing stored hash, wrong password — map
/// to the one `InvalidCredentials` value by construction.
pub enum LoginFailure {
    /// The email is not syntactically valid.
    InvalidEmail,
    /// The password is empty.
    MissingPassword,
    /// Unknown email, no stored hash, or password mismatch.
    InvalidCredentials,
    /// The account is inactive or soft-deleted.
    NotActive,
}

/// The outcome the login state machine owes for a request and the
/// record its email lookup returned.
pub open spec fn login_spec(req: LoginRequest, found: Option<UserRecord>) -> Result<
    UserInfo,
    LoginFailure,
> {
    if !is_valid_email(req.email@) {
        Err(LoginFailure::InvalidEmail)
    } else if req.password@.len() == 0 {
        Err(LoginFailure::MissingPassword)
    } else {
        match found {
            None => Err(LoginFailure::InvalidCredentials),
            Some(u) => if u.status != UserStatus::Active || u.deleted_at is Some {
                Err(LoginFailure::NotActive)
            } else {
                match u.password_hash {
                    None => Err(LoginFailure::InvalidCredentials),
                    Some(h) => if argon2_verifies(req.password@, h@) {
                        Ok(user_info_of(u))
                    } else {
                        Err(LoginFailure::InvalidCredentials)
                    },
                }
            },
        }
    }
}

/// Runs the login state machine on a request and the result of its
/// email lookup, returning the reduced identity view on success.
pub fn login(req: &LoginRequest, found: Option<UserRecord>) -> (r: Result<UserInfo, ApiError>)
    ensures
        r is Ok <==> login_spec(*req, found) is Ok,
        login_spec(*req, found) matches Ok(u) ==> r == Ok::<UserInfo, ApiError>(u),
        login_spec(*req, found) == Err::<UserInfo, LoginFailure>(LoginFailure::InvalidEmail) ==> (
        r matches Err(ApiError::InvalidInput(m)) && m@ == "Invalid email format"@),
        login_spec(*req, found) == Err::<UserInfo, LoginFailure>(LoginFailure::MissingPassword)
            ==> (r matches Err(ApiError::InvalidInput(m)) && m@ == "Password is required"@),
        login_spec(*req, found) == Err::<UserInfo, LoginFailure>(LoginFailure::InvalidCredentials)
            ==> r == Err::<UserInfo, ApiError>(ApiError::InvalidCredentials),
        login_spec(*req, found) == Err::<UserInfo, LoginFailure>(LoginFailure::NotActive) ==> (
        r matches Err(ApiError::Unauthorized(m)) && m@ == "User is not active"@),
{
    match req.validate() {
        Err(e) => Err(e),
        Ok(()) => {
            let u = match found {
                Some(u) => u,
                None => {
                    return Err(ApiError::InvalidCredentials);
                },
            };
            if u.status != UserStatus::Active || u.deleted_at.is_some() {
                return Err(ApiError::Unauthorized("User is not active".to_owned()));
            }
            match &u.password_hash {
                None => Err(ApiError::InvalidCredentials),
                Some(h) => {
                    match verify_password(req.password.as_str(), h.as_str()) {
                        Err(e) => Err(e),
                        Ok(()) => Ok(UserInfo::from(u)),
                    }
                },
            }
        },
    }
}

/// A non-existent account and a wrong password are indistinguishable:
/// for a well-formed request, a lookup miss and a mismatching password
/// on a live, credentialed account fail with the very same error.
pub proof fn lemma_enumeration_resistance(req: LoginRequest, u: UserRecord)
    requires
        valid_login_request(req),
        u.status == UserStatus::Active,
        u.deleted_at is None,
        u.password_hash matches Some(h) && !argon2_verifies(req.password@, h@),
    ensures
        login_spec(req, None) == login_spec(req, Some(u)),
        login_spec(req, None) == Err::<UserInfo, LoginFailure>(LoginFailure::InvalidCredentials),
{
}

/// An inactive or soft-deleted account never authenticates, whatever
/// the password and whatever hash is stored.
pub proof fn lemma_inactive_never_authenticates(req: LoginRequest, u: UserRecord)
    requires
        u.status != UserStatus::Active || u.deleted_at is Some,
    ensures
        login_spec(req, Some(u)) is Err,
{
}

/// The message of the first validation failure of a creation request.
pub open spec fn create_invalid_msg(req: CreateUserRequest) -> Seq<char> {
    if !valid_opt_name(req.name) {
        "Name must be between 1 and 100 characters"@
    } else if !is_valid_email(req.email@) {
        "Invalid email format"@
    } else {
        "Password must be between 8 and 100 characters"@
    }
}

/// Registers a new user: validates the body, the role name and email
/// uniqueness, hashes the password, and shapes the record to store —
/// active, not soft-deleted, timestamps set to `now`, the fresh hash
/// stored and verifying against the request's password.
pub fn register(req: &CreateUserRequest, email_exists: bool, id: u128, now: i64) -> (r: Result<
    UserRecord,
    ApiError,
>)
    ensures
        !valid_create_user_request(*req) ==> (r matches Err(ApiError::InvalidInput(m)) && m@
            == create_invalid_msg(*req)),
        valid_create_user_request(*req) && role_from_name_spec(req.role@) is None ==> (r matches Err(
            ApiError::InvalidInput(m),
        ) && m@ == "Role "@ + req.role@ + " is not valid"@),
        valid_create_user_request(*req) && role_from_name_spec(req.role@) is Some && email_exists
            ==> r == Err::<UserRecord, ApiError>(ApiError::UserAlreadyExists),
        valid_create_user_request(*req) && role_from_name_spec(req.role@) is Some && !email_exists
            ==> (r is Ok || r == Err::<UserRecord, ApiError>(ApiError::InternalServerError)),
        r matches Ok(u) ==> {
            &&& valid_create_user_request(*req)
            &&& role_from_name_spec(req.role@) == Some(u.role)
            &&& !email_exists
            &&& u.id == id
            &&& u.account_id == req.account_id
            &&& u.branch_id == req.branch_id
            &&& u.name == req.name
            &&& u.email == req.email
            &&& u.status == UserStatus::Active
            &&& u.created_at == now
            &&& u.updated_at == now
            &&& u.deleted_at is None
            &&& (u.password_hash matches Some(h) && argon2_verifies(req.password@, h@))
        },
{
    match req.validate() {
        Err(e) => {
            return Err(e);
        },
        Ok(()) => {},
    }
    let role = match UserRole::from_name(req.role.as_str()) {
        Some(ro) => ro,
        None => {
            let mut m = "Role ".to_owned();
            m.append(req.role.as_str());
            m.append(" is not valid");
            return Err(ApiError::InvalidInput(m));
        },
    };
    if email_exists {
        return Err(ApiError::UserAlreadyExists);
    }
    let hash = match hash_password(req.password.as_str()) {
        Ok(h) => h,
        Err(e) => {
            return Err(e);
        },
    };
    Ok(new_user_record(req, role, hash, id, now))
}

/// Plans an update of a record: refuses a new email that is already
/// taken, hashes a new password when one is given, and applies the
/// present fields wholesale, bumping the update timestamp. No other
/// field changes.
pub fn update_user(
    u: &UserRecord,
    req: &UpdateUserRequest,
    email_taken: bool,
    now: i64,
) -> (r: Result<UserRecord, ApiError>)
    ensures
        req.email is Some && email_taken ==> r == Err::<UserRecord, ApiError>(
            ApiError::UserAlreadyExists,
        ),
        !(req.email is Some && email_taken) ==> (r is Ok || r == Err::<UserRecord, ApiError>(
            ApiError::InternalServerError,
        )),
        req.password is None && !(req.email is Some && email_taken) ==> r is Ok,
        r matches Ok(v) ==> {
            &&& !(req.email is Some && email_taken)
            &&& v.id == u.id
            &&& v.account_id == u.account_id
            &&& v.branch_id == u.branch_id
            &&& v.name == (if req.name is Some {
                req.name
            } else {
                u.name
            })
            &&& v.email == (match req.email {
                Some(e) => e,
                None => u.email,
            })
            &&& (match req.password {
                Some(p) => v.password_hash matches Some(h) && argon2_verifies(p@, h@),
                None => v.password_hash == u.password_hash,
            })
            &&& v.role == u.role
            &&& v.status == u.status
            &&& v.created_at == u.created_at
            &&& v.updated_at == now
            &&& v.deleted_at == u.deleted_at
        },
{
    if req.email.is_some() && email_taken {
        return Err(ApiError::UserAlreadyExists);
    }
    let password_hash = match &req.password {
        Some(p) => {
            match hash_password(p.as_str()) {
                Ok(h) => Some(h),
                Err(e) => {
                    return Err(e);
                },
            }
        },
        None => None,
    };
    Ok(crate::model::apply_update(u, req, password_hash, now))
}

/// Whether an account may be deactivated: root accounts may not.
pub fn deactivate_check(u: &UserRecord) -> (r: Result<(), ApiError>)
    ensures
        r is Ok <==> u.role != UserRole::Root,
        u.role == UserRole::Root ==> (r matches Err(ApiError::Unauthorized(m)) && m@
            == "Cannot deactivate root users"@),
{
    if u.role == UserRole::Root {
        Err(ApiError::Unauthorized("Cannot deactivate root users".to_owned()))
    } else {
        Ok(())
    }
}

} // verus!
