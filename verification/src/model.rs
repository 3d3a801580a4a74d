//! The identity record, its reduced credential-free view, and the
//! request bodies of the user and auth endpoints, with their
//! validation and the field-level shaping of records.
//!
//! Ids are carried as 128-bit values and timestamps as signed 64-bit
//! values; the process edge renders them in whatever form the transport
//! uses.

use vstd::prelude::*;
use crate::errors::ApiError;
use crate::roles::{UserRole, UserStatus, role_from_name_spec};

verus! {

/// Whether a string is a syntactically valid email address.
/// Named by the trusted item below; everything else speaks of it.
pub uninterp spec fn is_valid_email(s: Seq<char>) -> bool;

/// Relies on validator::ValidateEmail::validate_email for &str:
/// syntactic email validity per the HTML5 definition, a function of
/// the characters alone.
#[verifier::external_body]
pub(crate) fn email_format_ok(s: &str) -> (r: bool)
    ensures
        r == is_valid_email(s@),
{
    validator::ValidateEmail::validate_email(&s)
}

/// Clones an optional string, contents and presence preserved.
pub(crate) fn clone_opt_string(o: &Option<String>) -> (r: Option<String>)
    ensures
        r == *o,
{
    match o {
        Some(s) => Some(s.clone()),
        None => None,
    }
}

/// A stored identity record. The status and the soft-delete marker
/// both gate authentication; `password_hash` never leaves the record
/// into any view, payload or response.
#[derive(Debug)]
pub struct UserRecord {
    pub id: u128,
    pub account_id: u128,
    pub branch_id: Option<u128>,
    pub name: Option<String>,
    pub email: String,
    pub password_hash: Option<String>,
    pub role: UserRole,
    pub status: UserStatus,
    pub created_at: i64,
    pub updated_at: i64,
    pub deleted_at: Option<i64>,
}

/// The reduced identity view placed in session payloads and responses:
/// every field of the record a client may see, and no credential hash.
#[derive(Debug)]
pub struct UserInfo {
    pub id: u128,
    pub account_id: u128,
    pub branch_id: Option<u128>,
    pub name: Option<String>,
    pub email: String,
    pub role: UserRole,
    pub status: UserStatus,
}

/// The reduced view of a record.
pub open spec fn user_info_of(u: UserRecord) -> UserInfo {
    UserInfo {
        id: u.id,
        account_id: u.account_id,
        branch_id: u.branch_id,
        name: u.name,
        email: u.email,
        role: u.role,
        status: u.status,
    }
}

impl Clone for UserInfo {
    fn clone(&self) -> (r: Self)
        ensures
            r == *self,
    {
        UserInfo {
            id: self.id,
            account_id: self.account_id,
            branch_id: self.branch_id,
            name: clone_opt_string(&self.name),
            email: self.email.clone(),
            role: self.role,
            status: self.status,
        }
    }
}

impl Clone for UserRecord {
    fn clone(&self) -> (r: Self)
        ensures
            r == *self,
    {
        UserRecord {
            id: self.id,
            account_id: self.account_id,
            branch_id: self.branch_id,
            name: clone_opt_string(&self.name),
            email: self.email.clone(),
            password_hash: clone_opt_string(&self.password_hash),
            role: self.role,
            status: self.status,
            created_at: self.created_at,
            updated_at: self.updated_at,
            deleted_at: self.deleted_at,
        }
    }
}

impl From<UserRecord> for UserInfo {
    /// Projects a record to its credential-free view.
    fn from(u: UserRecord) -> (r: UserInfo) {
        UserInfo {
            id: u.id,
            account_id: u.account_id,
            branch_id: u.branch_id,
            name: u.name,
            email: u.email,
            role: u.role,
            status: u.status,
        }
    }
}

impl vstd::std_specs::convert::FromSpecImpl<UserRecord> for UserInfo {
    open spec fn obeys_from_spec() -> bool {
        true
    }

    open spec fn from_spec(u: UserRecord) -> UserInfo {
        user_info_of(u)
    }
}

/// A login request body.
#[derive(Debug)]
pub struct LoginRequest {
    pub email: String,
    pub password: String,
}

/// Whether a login request is well-formed: a syntactically valid email
/// and a non-empty password.
pub open spec fn valid_login_request(req: LoginRequest) -> bool {
    is_valid_email(req.email@) && req.password@.len() >= 1
}

impl LoginRequest {
    /// Validates the request: the email must be syntactically valid and
    /// the password non-empty; the error names the offending field,
    /// the email being checked first.
    pub fn validate(&self) -> (r: Result<(), ApiError>)
        ensures
            r is Ok <==> valid_login_request(*self),
            !is_valid_email(self.email@) ==> (r matches Err(ApiError::InvalidInput(m))
                && m@ == "Invalid email format"@),
            is_valid_email(self.email@) && self.password@.len() == 0 ==> (r matches Err(
                ApiError::InvalidInput(m),
            ) && m@ == "Password is required"@),
    {
        if !email_format_ok(self.email.as_str()) {
            Err(ApiError::InvalidInput("Invalid email format".to_owned()))
        } else if self.password.as_str().unicode_len() == 0 {
            Err(ApiError::InvalidInput("Password is required".to_owned()))
        } else {
            Ok(())
        }
    }
}

/// A registration / user-creation request body.
#[derive(Debug)]
pub struct CreateUserRequest {
    pub account_id: u128,
    pub branch_id: Option<u128>,
    pub name: Option<String>,
    pub email: String,
    pub password: String,
    pub role: String,
}

/// Whether an optional display name is acceptable: absent, or between
/// one and one hundred characters.
pub open spec fn valid_opt_name(name: Option<String>) -> bool {
    match name {
        Some(n) => 1 <= n@.len() <= 100,
        None => true,
    }
}

/// Whether a creation request is well-formed: acceptable name, valid
/// email, password between eight and one hundred characters.
pub open spec fn valid_create_user_request(req: CreateUserRequest) -> bool {
    valid_opt_name(req.name) && is_valid_email(req.email@) && 8 <= req.password@.len() <= 100
}

/// Checks an optional name's length bounds.
fn check_opt_name(name: &Option<String>) -> (r: bool)
    ensures
        r == valid_opt_name(*name),
{
    match name {
        Some(n) => {
            let len = n.as_str().unicode_len();
            1 <= len && len <= 100
        },
        None => true,
    }
}

impl CreateUserRequest {
    /// Validates the request, checking the name, then the email, then
    /// the password; the error names the first offending field.
    pub fn validate(&self) -> (r: Result<(), ApiError>)
        ensures
            r is Ok <==> valid_create_user_request(*self),
            !valid_opt_name(self.name) ==> (r matches Err(ApiError::InvalidInput(m))
                && m@ == "Name must be between 1 and 100 characters"@),
            valid_opt_name(self.name) && !is_valid_email(self.email@) ==> (r matches Err(
                ApiError::InvalidInput(m),
            ) && m@ == "Invalid email format"@),
            valid_opt_name(self.name) && is_valid_email(self.email@) && !(8 <= self.password@.len()
                <= 100) ==> (r matches Err(ApiError::InvalidInput(m))
                && m@ == "Password must be between 8 and 100 characters"@),
    {
        if !check_opt_name(&self.name) {
            Err(ApiError::InvalidInput("Name must be between 1 and 100 characters".to_owned()))
        } else if !email_format_ok(self.email.as_str()) {
            Err(ApiError::InvalidInput("Invalid email format".to_owned()))
        } else {
            let pw_len = self.password.as_str().unicode_len();
            if !(8 <= pw_len && pw_len <= 100) {
                Err(
                    ApiError::InvalidInput(
                        "Password must be between 8 and 100 characters".to_owned(),
                    ),
                )
            } else {
                Ok(())
            }
        }
    }
}

/// An update request body; every field is optional and an absent field
/// leaves the record's field unchanged.
#[derive(Debug)]
pub struct UpdateUserRequest {
    pub branch_id: Option<u128>,
    pub name: Option<String>,
    pub email: Option<String>,
    pub password: Option<String>,
    pub role: Option<String>,
    pub status: Option<String>,
}

/// Whether an update request is well-formed: each present field obeys
/// the same bounds as at creation.
pub open spec fn valid_update_user_request(req: UpdateUserRequest) -> bool {
    valid_opt_name(req.name) && (req.email matches Some(e) ==> is_valid_email(e@)) && (req.password
        matches Some(p) ==> 8 <= p@.len() <= 100)
}

impl UpdateUserRequest {
    /// Validates the request, checking the name, then the email, then
    /// the password; the error names the first offending field.
    pub fn validate(&self) -> (r: Result<(), ApiError>)
        ensures
            r is Ok <==> valid_update_user_request(*self),
            !valid_opt_name(self.name) ==> (r matches Err(ApiError::InvalidInput(m))
                && m@ == "Name must be between 1 and 100 characters"@),
            valid_opt_name(self.name) && !(self.email matches Some(e) ==> is_valid_email(e@)) ==> (
            r matches Err(ApiError::InvalidInput(m)) && m@ == "Invalid email format"@),
            valid_opt_name(self.name) && (self.email matches Some(e) ==> is_valid_email(e@)) && !(
            self.password matches Some(p) ==> 8 <= p@.len() <= 100) ==> (r matches Err(
                ApiError::InvalidInput(m),
            ) && m@ == "Password must be between 8 and 100 characters"@),
    {
        if !check_opt_name(&self.name) {
            return Err(ApiError::InvalidInput("Name must be between 1 and 100 characters".to_owned()));
        }
        if let Some(e) = &self.email {
            if !email_format_ok(e.as_str()) {
                return Err(ApiError::InvalidInput("Invalid email format".to_owned()));
            }
        }
        if let Some(p) = &self.password {
            let pw_len = p.as_str().unicode_len();
            if !(8 <= pw_len && pw_len <= 100) {
                return Err(
                    ApiError::InvalidInput(
                        "Password must be between 8 and 100 characters".to_owned(),
                    ),
                );
            }
        }
        Ok(())
    }
}

/// Builds the record for a newly registered user: active, not
/// soft-deleted, created and updated now, with the given hash stored.
pub fn new_user_record(
    req: &CreateUserRequest,
    role: UserRole,
    password_hash: String,
    id: u128,
    now: i64,
) -> (u: UserRecord)
    ensures
        u == (UserRecord {
            id,
            account_id: req.account_id,
            branch_id: req.branch_id,
            name: req.name,
            email: req.email,
            password_hash: Some(password_hash),
            role,
            status: UserStatus::Active,
            created_at: now,
            updated_at: now,
            deleted_at: None::<i64>,
        }),
{
    UserRecord {
        id,
        account_id: req.account_id,
        branch_id: req.branch_id,
        name: clone_opt_string(&req.name),
        email: req.email.clone(),
        password_hash: Some(password_hash),
        role,
        status: UserStatus::Active,
        created_at: now,
        updated_at: now,
        deleted_at: None,
    }
}

/// Applies an update to a record: a present name, email or freshly
/// hashed password replaces the stored one, an absent one leaves it,
/// and the update timestamp is bumped. No other field changes.
pub fn apply_update(
    u: &UserRecord,
    req: &UpdateUserRequest,
    password_hash: Option<String>,
    now: i64,
) -> (v: UserRecord)
    ensures
        v == (UserRecord {
            name: if req.name is Some {
                req.name
            } else {
                u.name
            },
            email: match req.email {
                Some(e) => e,
                None => u.email,
            },
            password_hash: if password_hash is Some {
                password_hash
            } else {
                u.password_hash
            },
            updated_at: now,
            ..*u
        }),
{
    UserRecord {
        id: u.id,
        account_id: u.account_id,
        branch_id: u.branch_id,
        name: if req.name.is_some() {
            clone_opt_string(&req.name)
        } else {
            clone_opt_string(&u.name)
        },
        email: match &req.email {
            Some(e) => e.clone(),
            None => u.email.clone(),
        },
        password_hash: if password_hash.is_some() {
            password_hash
        } else {
            clone_opt_string(&u.password_hash)
        },
        role: u.role,
        status: u.status,
        created_at: u.created_at,
        updated_at: now,
        deleted_at: u.deleted_at,
    }
}

/// Marks a record soft-deleted now. Only the marker and the update
/// timestamp change.
pub fn soft_delete_record(u: &UserRecord, now: i64) -> (v: UserRecord)
    ensures
        v == (UserRecord { deleted_at: Some(now), updated_at: now, ..*u }),
{
    UserRecord {
        id: u.id,
        account_id: u.account_id,
        branch_id: u.branch_id,
        name: clone_opt_string(&u.name),
        email: u.email.clone(),
        password_hash: clone_opt_string(&u.password_hash),
        role: u.role,
        status: u.status,
        created_at: u.created_at,
        updated_at: now,
        deleted_at: Some(now),
    }
}

/// Clears a record's soft-delete marker now. Only the marker and the
/// update timestamp change.
pub fn restore_record(u: &UserRecord, now: i64) -> (v: UserRecord)
    ensures
        v == (UserRecord { deleted_at: None::<i64>, updated_at: now, ..*u }),
{
    UserRecord {
        id: u.id,
        account_id: u.account_id,
        branch_id: u.branch_id,
        name: clone_opt_string(&u.name),
        email: u.email.clone(),
        password_hash: clone_opt_string(&u.password_hash),
        role: u.role,
        status: u.status,
        created_at: u.created_at,
        updated_at: now,
        deleted_at: None,
    }
}

/// Looks up a role name from a request, `InvalidInput` when it names
/// none of the fixed roles.
pub fn parse_role(role: &str) -> (r: Result<UserRole, ApiError>)
    ensures
        r matches Ok(ro) ==> role_from_name_spec(role@) == Some(ro),
        r is Err <==> role_from_name_spec(role@) is None,
        r matches Err(e) ==> e matches ApiError::InvalidInput(_),
{
    match UserRole::from_name(role) {
        Some(ro) => Ok(ro),
        None => Err(ApiError::InvalidInput("Role is not valid".to_owned())),
    }
}

/// Maps a missing lookup result to `UserNotFound`.
pub fn require_found(u: Option<UserRecord>) -> (r: Result<UserRecord, ApiError>)
    ensures
        u matches Some(rec) ==> r == Ok::<UserRecord, ApiError>(rec),
        u is None ==> r == Err::<UserRecord, ApiError>(ApiError::UserNotFound),
{
    match u {
        Some(rec) => Ok(rec),
        None => Err(ApiError::UserNotFound),
    }
}

} // verus!
