//! The request-time gates. Authentication resolves the caller's
//! identity from the session the request's token addresses and rejects
//! the request when there is none; it only reads, never writes.
//! Authorization is a pure predicate over the attached identity and a
//! route's allowed-role set, with an explicit "any authenticated role"
//! variant in place of a sentinel string.

use vstd::prelude::*;
use crate::model::UserInfo;
use crate::roles::UserRole;
use crate::session::{current_user_spec, SessionRecord, SessionStore};

verus! {

/// The HTTP status with which an unauthenticated request is rejected.
pub const STATUS_UNAUTHORIZED: u16 = 401;

/// The HTTP status with which a forbidden request is rejected.
pub const STATUS_FORBIDDEN: u16 = 403;

/// The identity the store yields for a request: the user held by the
/// session the token addresses, if the request carried a token, the
/// token is known, and that session holds one.
pub open spec fn resolve_identity(m: Map<u128, SessionRecord>, token: Option<u128>) -> Option<
    UserInfo,
> {
    match token {
        None => None,
        Some(t) => if m.contains_key(t) {
            current_user_spec(m[t])
        } else {
            None
        },
    }
}

/// The authentication gate: resolves the caller's identity from the
/// request's session token, rejecting with 401 when the token is
/// absent, unknown, or addresses a session holding no user. Never
/// mutates the store.
pub fn authenticate(store: &SessionStore, token: Option<u128>) -> (r: Result<UserInfo, u16>)
    ensures
        resolve_identity(store@, token) matches Some(u) ==> r == Ok::<UserInfo, u16>(u),
        resolve_identity(store@, token) is None ==> r == Err::<UserInfo, u16>(STATUS_UNAUTHORIZED),
{
    let t = match token {
        Some(t) => t,
        None => {
            return Err(STATUS_UNAUTHORIZED);
        },
    };
    let record = match store.load(t) {
        Some(rec) => rec,
        None => {
            return Err(STATUS_UNAUTHORIZED);
        },
    };
    match crate::session::SessionManager::get_current_user(&record) {
        Some(u) => Ok(u),
        None => Err(STATUS_UNAUTHORIZED),
    }
}

/// A route's allowed-role set: either any authenticated role, or a
/// closed list.
#[derive(Debug)]
pub enum AllowedRoles {
    /// Any authenticated role is admitted.
    Any,
    /// Only the listed roles are admitted.
    Only(Vec<UserRole>),
}

/// Whether a role is a member of an allowed-role set.
pub open spec fn role_permitted(allowed: AllowedRoles, role: UserRole) -> bool {
    match allowed {
        AllowedRoles::Any => true,
        AllowedRoles::Only(roles) => roles@.contains(role),
    }
}

/// Whether a list of roles contains a role.
fn roles_contain(roles: &Vec<UserRole>, role: UserRole) -> (r: bool)
    ensures
        r == roles@.contains(role),
{
    let n = roles.len();
    let mut i: usize = 0;
    while i < n
        invariant
            n == roles@.len(),
            0 <= i <= n,
            forall|j: int| 0 <= j < i ==> roles@[j] != role,
        decreases n - i,
    {
        if roles[i] == role {
            return true;
        }
        i = i + 1;
    }
    false
}

/// The authorization gate: admits a request whose attached identity
/// holds a permitted role, and rejects with 403 a request with no
/// attached identity (authentication must run first) or with a role
/// outside the set. No state, no side effects.
pub fn authorize(allowed: &AllowedRoles, user: Option<&UserInfo>) -> (r: Result<(), u16>)
    ensures
        r is Ok <==> (user matches Some(u) && role_permitted(*allowed, u.role)),
        r is Err ==> r == Err::<(), u16>(STATUS_FORBIDDEN),
{
    let u = match user {
        Some(u) => u,
        None => {
            return Err(STATUS_FORBIDDEN);
        },
    };
    match allowed {
        AllowedRoles::Any => Ok(()),
        AllowedRoles::Only(roles) => {
            if roles_contain(roles, u.role) {
                Ok(())
            } else {
                Err(STATUS_FORBIDDEN)
            }
        },
    }
}

/// A request with no token, and one whose token the store does not
/// know, resolve to no identity, and the authentication gate rejects
/// them.
pub proof fn lemma_no_session_no_identity(m: Map<u128, SessionRecord>, t: u128)
    ensures
        resolve_identity(m, None) is None,
        !m.contains_key(t) ==> resolve_identity(m, Some(t)) is None,
{
}

/// After a login is stored under a token, the identity that token
/// resolves to is exactly the stored view; storing again overwrites
/// rather than stacks, and removing the session takes the identity
/// with it.
pub proof fn lemma_login_round_trip(m: Map<u128, SessionRecord>, t: u128, u: UserInfo)
    ensures
        resolve_identity(m.insert(t, crate::session::after_login(u)), Some(t)) == Some(u),
        resolve_identity(m.remove(t), Some(t)) is None,
{
}

/// Authorization admits exactly the permitted roles: any authenticated
/// identity under `Any`, a listed role under `Only`, and nothing
/// without an identity.
pub proof fn lemma_authorization(allowed: AllowedRoles, u: UserInfo)
    ensures
        role_permitted(AllowedRoles::Any, u.role),
        allowed matches AllowedRoles::Only(roles) ==> (role_permitted(allowed, u.role)
            <==> roles@.contains(u.role)),
{
}

} // verus!
