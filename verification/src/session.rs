//! The session layer: the payload a session carries, the manager that
//! logs a user in and out of one session, and the token-addressed
//! store the sessions live in.
//!
//! A session's payload is replaced wholesale at login and removed at
//! logout; it is never patched. The store owns the tokens: they are
//! drawn from a cryptographically secure random source and never made
//! up by application code. A missing key and an empty payload are both
//! just "no session" to readers.

use vstd::prelude::*;
use std::collections::HashMap;
use crate::model::UserInfo;

verus! {

/// The serializable payload of a session: the reduced identity view
/// and nothing else — never a credential hash.
#[derive(Debug)]
pub struct SessionData {
    pub user: UserInfo,
}

impl Clone for SessionData {
    fn clone(&self) -> (r: Self)
        ensures
            r == *self,
    {
        SessionData { user: self.user.clone() }
    }
}

/// One session's stored state: the payload, if a login stored one.
#[derive(Debug)]
pub struct SessionRecord {
    pub user: Option<SessionData>,
}

/// Clones an optional payload, contents and presence preserved.
fn clone_opt_session_data(o: &Option<SessionData>) -> (r: Option<SessionData>)
    ensures
        r == *o,
{
    match o {
        Some(d) => Some(d.clone()),
        None => None,
    }
}

impl Clone for SessionRecord {
    fn clone(&self) -> (r: Self)
        ensures
            r == *self,
    {
        SessionRecord { user: clone_opt_session_data(&self.user) }
    }
}

/// A session as it stands after a login stored this user's view.
pub open spec fn after_login(u: UserInfo) -> SessionRecord {
    SessionRecord { user: Some(SessionData { user: u }) }
}

/// A session as it stands after a logout.
pub open spec fn after_logout(s: SessionRecord) -> SessionRecord {
    SessionRecord { user: None }
}

/// The user a session holds, if any.
pub open spec fn current_user_spec(s: SessionRecord) -> Option<UserInfo> {
    match s.user {
        Some(d) => Some(d.user),
        None => None,
    }
}

/// Login, logout and read on one session's state.
pub struct SessionManager;

impl SessionManager {
    /// Stores the user's view in the session, replacing any previous
    /// payload wholesale. Repeating a login overwrites; it never
    /// stacks.
    pub fn login(session: &mut SessionRecord, user: UserInfo)
        ensures
            *final(session) == after_login(user),
    {
        session.user = Some(SessionData { user });
    }

    /// Removes the session's payload, returning what was removed.
    /// Succeeds with `None` when nothing was stored: logout is
    /// idempotent.
    pub fn logout(session: &mut SessionRecord) -> (r: Option<SessionData>)
        ensures
            *final(session) == after_logout(*old(session)),
            r == old(session).user,
    {
        let r = clone_opt_session_data(&session.user);
        session.user = None;
        r
    }

    /// The user stored in the session, if any.
    pub fn get_current_user(session: &SessionRecord) -> (r: Option<UserInfo>)
        ensures
            r == current_user_spec(*session),
    {
        match &session.user {
            Some(d) => Some(d.user.clone()),
            None => None,
        }
    }

    /// Whether the session holds a user.
    pub fn is_logged_in(session: &SessionRecord) -> (r: bool)
        ensures
            r == (current_user_spec(*session) is Some),
    {
        match &session.user {
            Some(_) => true,
            None => false,
        }
    }
}

/// Logging in stores exactly the given view, and a read then returns
/// it; logout empties the session, twice the same as once, and a read
/// afterwards returns nothing.
pub proof fn lemma_session_lifecycle(s: SessionRecord, u: UserInfo)
    ensures
        current_user_spec(after_login(u)) == Some(u),
        current_user_spec(after_logout(s)) is None,
        after_logout(after_logout(s)) == after_logout(s),
{
}

/// Relies on uuid::Uuid::new_v4 (via as_u128): a fresh version-4 UUID
/// drawn from the operating system's cryptographically secure random
/// source. Nothing is assumed of the value.
#[verifier::external_body]
fn random_token() -> u128 {
    uuid::Uuid::new_v4().as_u128()
}

/// The token-addressed session store: the shared external key-value
/// store that every server instance reads, modelled as the map it
/// holds. Tokens are opaque, unguessable, and generated here only.
pub struct SessionStore {
    sessions: HashMap<u128, SessionRecord>,
}

impl View for SessionStore {
    type V = Map<u128, SessionRecord>;

    closed spec fn view(&self) -> Map<u128, SessionRecord> {
        self.sessions@
    }
}

impl SessionStore {
    /// An empty store.
    pub fn new() -> (s: SessionStore)
        ensures
            s@ == Map::<u128, SessionRecord>::empty(),
    {
        SessionStore { sessions: HashMap::new() }
    }

    /// Creates an empty session under a fresh random token and returns
    /// the token. `None` on the vanishingly improbable collision with
    /// an existing token; the store is then unchanged.
    pub fn create_session(&mut self) -> (r: Option<u128>)
        ensures
            r matches Some(t) ==> !old(self)@.contains_key(t) && final(self)@ == old(
                self,
            )@.insert(t, SessionRecord { user: None }),
            r is None ==> final(self)@ == old(self)@,
    {
        let t = random_token();
        if self.sessions.contains_key(&t) {
            None
        } else {
            self.sessions.insert(t, SessionRecord { user: None });
            Some(t)
        }
    }

    /// Stores a session's state under its token, wholesale.
    pub fn save(&mut self, token: u128, record: SessionRecord)
        ensures
            final(self)@ == old(self)@.insert(token, record),
    {
        self.sessions.insert(token, record);
    }

    /// Reads the session a token addresses, if the token is known.
    pub fn load(&self, token: u128) -> (r: Option<SessionRecord>)
        ensures
            self@.contains_key(token) ==> r == Some(self@[token]),
            !self@.contains_key(token) ==> r is None,
    {
        match self.sessions.get(&token) {
            Some(rec) => Some(rec.clone()),
            None => None,
        }
    }

    /// Destroys the session a token addresses, returning its state.
    /// Succeeds with `None` for an unknown token.
    pub fn remove(&mut self, token: u128) -> (r: Option<SessionRecord>)
        ensures
            final(self)@ == old(self)@.remove(token),
            old(self)@.contains_key(token) ==> r == Some(old(self)@[token]),
            !old(self)@.contains_key(token) ==> r is None,
    {
        self.sessions.remove(&token)
    }
}

/// The extractor-shaped pairing of a request with the user its session
/// holds.
#[derive(Debug)]
pub struct SessionUser(pub UserInfo);

/// How a session cookie's SameSite attribute may be configured.
#[derive(Clone, Copy, Debug, PartialEq, Eq, Structural)]
pub enum SameSitePolicy {
    Strict,
    Lax,
    /// The attribute value "None": the cookie is sent cross-site.
    CrossSite,
}

/// The lowercase form of an ASCII letter's code point; other code
/// points unchanged.
pub open spec fn lower_code(x: u32) -> u32 {
    if 65 <= x <= 90 {
        (x + 32) as u32
    } else {
        x
    }
}

/// Case-insensitive (ASCII) equality of two character sequences.
pub open spec fn eq_icase(a: Seq<char>, b: Seq<char>) -> bool {
    a.len() == b.len() && (forall|i: int|
        0 <= i < a.len() ==> lower_code(#[trigger] a[i] as u32) == lower_code(b[i] as u32))
}

/// Compares two strings ignoring ASCII case.
fn eq_ignore_ascii_case(a: &str, b: &str) -> (r: bool)
    ensures
        r == eq_icase(a@, b@),
{
    let an = a.unicode_len();
    let bn = b.unicode_len();
    if an != bn {
        return false;
    }
    let mut i: usize = 0;
    while i < an
        invariant
            an == a@.len(),
            bn == b@.len(),
            an == bn,
            0 <= i <= an,
            forall|j: int|
                0 <= j < i ==> lower_code(#[trigger] a@[j] as u32) == lower_code(b@[j] as u32),
        decreases an - i,
    {
        let ca = a.get_char(i) as u32;
        let cb = b.get_char(i) as u32;
        let la: u32 = if 65 <= ca && ca <= 90 {
            ca + 32
        } else {
            ca
        };
        let lb: u32 = if 65 <= cb && cb <= 90 {
            cb + 32
        } else {
            cb
        };
        if la != lb {
            return false;
        }
        i = i + 1;
    }
    true
}

/// The SameSite policy a configuration string names, compared without
/// regard to case; anything unrecognized falls back to `Lax`.
pub open spec fn parse_same_site_spec(s: Seq<char>) -> SameSitePolicy {
    if eq_icase(s, "strict"@) {
        SameSitePolicy::Strict
    } else if eq_icase(s, "lax"@) {
        SameSitePolicy::Lax
    } else if eq_icase(s, "none"@) {
        SameSitePolicy::CrossSite
    } else {
        SameSitePolicy::Lax
    }
}

/// Parses a SameSite configuration value.
pub fn parse_same_site(s: &str) -> (r: SameSitePolicy)
    ensures
        r == parse_same_site_spec(s@),
{
    if eq_ignore_ascii_case(s, "strict") {
        SameSitePolicy::Strict
    } else if eq_ignore_ascii_case(s, "lax") {
        SameSitePolicy::Lax
    } else if eq_ignore_ascii_case(s, "none") {
        SameSitePolicy::CrossSite
    } else {
        SameSitePolicy::Lax
    }
}

} // verus!
