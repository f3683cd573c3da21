use crate::config::ConfigHandler;
use crate::crypto::{CredentialError, hash_of, hash_password, verify_outcome, verify_password};
use crate::session::{holds_id, stamp_after, Session, SessionCache, SessionRecord};
use vstd::prelude::*;

verus! {

/// The string parses as an email mailbox (`user@domain`, optionally named).
pub uninterp spec fn mailbox_parses(s: Seq<char>) -> bool;

/// Relies on lettre's `FromStr for Mailbox`: whether the text parses.
#[verifier::external_body]
pub(crate) fn parses_as_mailbox(s: &str) -> (r: bool)
    ensures
        r == mailbox_parses(s@),
{
    s.parse::<lettre::message::Mailbox>().is_ok()
}

/// Body of a login request.
pub struct LoginRequestBody {
    pub username: String,
    pub password: String,
}

/// Body of an account-creation request.
pub struct CreateAccountRequest {
    pub username: String,
    pub password: String,
    pub email: String,
}

/// A stored account, as the identity store hands it over.
pub struct User {
    pub user_id: u128,
    pub access_failed_count: i32,
    pub email: String,
    pub email_confirmed: bool,
    pub lockout_enabled: Option<bool>,
    /// Milliseconds since the Unix epoch.
    pub lockout_end: Option<i64>,
    pub username: String,
    pub password_hash: String,
    pub phone_number: Option<String>,
    pub phone_number_confirmed: Option<bool>,
}

/// What to do with an account-creation request once its password has been
/// checked and hashed.
pub enum CreatePlan {
    /// The email address is not a mailbox: the request is malformed.
    Malformed,
    /// The password breaks the policy: nothing is stored.
    PolicyRejected,
    /// Hashing failed: nothing is stored.
    HashFailed,
    /// Store the account with this hash, and send the verification email too
    /// when `send_verification` holds.
    Persist { password_hash: String, send_verification: bool },
}

/// What a login attempt came to.
pub enum LoginOutcome {
    /// Unknown user, wrong password or unreadable stored hash, all alike.
    Rejected,
    /// The credentials hold and this session was opened.
    Authenticated(Session),
    /// The credentials hold but no session could be opened: the random
    /// source failed, or the drawn id was already taken.
    SessionUnavailable,
}

impl CreateAccountRequest {
    /// Checks the email address and the password policy, then hashes the
    /// password; the stores and the email are left to the caller.
    pub fn process_request(&self, config: &ConfigHandler) -> (r: CreatePlan)
        ensures
            !mailbox_parses(self.email@) ==> r is Malformed,
            mailbox_parses(self.email@) && !config.password_requirments.accepts(self.password@)
                ==> r is PolicyRejected,
            mailbox_parses(self.email@) && config.password_requirments.accepts(self.password@) ==> {
                ||| r is HashFailed
                ||| r matches CreatePlan::Persist { password_hash, send_verification } && hash_of(
                    self.password@,
                    password_hash@,
                ) && send_verification == config.email_config is Some
            },
    {
        if !parses_as_mailbox(self.email.as_str()) {
            return CreatePlan::Malformed;
        }
        if !crate::policy::password_valid(&self.password, &config.password_requirments) {
            return CreatePlan::PolicyRejected;
        }
        let hashed = hash_password(&self.password);
        persist_plan(hashed, config.email_config.is_some())
    }
}

/// The plan once the password has been hashed: store the account with the
/// hash, or fail if hashing did.
pub fn persist_plan(hashed: Result<String, CredentialError>, send_verification: bool) -> (r: CreatePlan)
    ensures
        match hashed {
            Ok(h) => r matches CreatePlan::Persist { password_hash, send_verification: s }
                && password_hash@ == h@ && s == send_verification,
            Err(_) => r is HashFailed,
        },
{
    match hashed {
        Ok(password_hash) => CreatePlan::Persist { password_hash, send_verification },
        Err(_) => CreatePlan::HashFailed,
    }
}

/// Whether the login matches the stored account: an unknown user, a wrong
/// password and an unreadable stored hash all fail alike.
pub open spec fn login_accepted(login_info: &LoginRequestBody, stored: Option<&User>) -> bool {
    stored is Some && verify_outcome(login_info.password@, stored->Some_0.password_hash@) == Ok::<
        bool,
        CredentialError,
    >(true)
}

/// Checks the credentials of a login against the stored account, if any.
/// It touches no session, so no lock need be held while Argon2 runs.
pub fn credentials_accepted(login_info: &LoginRequestBody, stored: Option<&User>) -> (r: bool)
    ensures
        r == login_accepted(login_info, stored),
{
    match stored {
        None => false,
        Some(user) => match verify_password(&login_info.password, &user.password_hash) {
            Ok(accepted) => accepted,
            Err(_) => false,
        },
    }
}

/// Finishes a login whose credentials were checked: if they were accepted,
/// the session with the given id and authorization code is opened at `now`.
pub fn open_login_session_at(
    cache: &mut SessionCache,
    accepted: bool,
    session_id: u128,
    auth_code: u128,
    now: i64,
) -> (r: LoginOutcome)
    requires
        old(cache).wf(),
    ensures
        final(cache).wf(),
        !accepted ==> r is Rejected && final(cache)@ == old(cache)@,
        accepted && holds_id(old(cache)@, session_id) ==> r is SessionUnavailable && final(cache)@
            == old(cache)@,
        accepted && !holds_id(old(cache)@, session_id) ==> {
            let stamp = stamp_after(old(cache)@, now);
            &&& r == LoginOutcome::Authenticated(Session { session_id, created_at: stamp })
            &&& final(cache)@ == old(cache)@.push(SessionRecord { session_id, auth_code, created_at: stamp })
        },
{
    if !accepted {
        return LoginOutcome::Rejected;
    }
    match cache.create_session_at(session_id, auth_code, now) {
        Some(session) => LoginOutcome::Authenticated(session),
        None => LoginOutcome::SessionUnavailable,
    }
}

/// Finishes a login whose credentials were checked: if they were accepted, a
/// session with a fresh random id is opened at `now`.
pub fn open_login_session(cache: &mut SessionCache, accepted: bool, now: i64) -> (r: LoginOutcome)
    requires
        old(cache).wf(),
    ensures
        final(cache).wf(),
        !accepted ==> r is Rejected,
        accepted ==> !(r is Rejected),
        !(r is Authenticated) ==> final(cache)@ == old(cache)@,
        r matches LoginOutcome::Authenticated(s) ==> {
            &&& !holds_id(old(cache)@, s.session_id)
            &&& s.created_at == stamp_after(old(cache)@, now)
            &&& final(cache)@.len() == old(cache)@.len() + 1
            &&& final(cache)@.drop_last() == old(cache)@
            &&& final(cache)@.last().session_id == s.session_id
            &&& final(cache)@.last().created_at == s.created_at
        },
{
    if !accepted {
        return LoginOutcome::Rejected;
    }
    match cache.create_session(now) {
        Some(session) => LoginOutcome::Authenticated(session),
        None => LoginOutcome::SessionUnavailable,
    }
}

/// Logs in against the stored account, if any, with the session id,
/// authorization code and time given: on matching credentials the session is
/// opened in `cache`. An unknown user, a wrong password and an unreadable
/// hash are rejected alike, and leave the cache as it was.
pub fn process_login_at(
    cache: &mut SessionCache,
    login_info: &LoginRequestBody,
    stored: Option<&User>,
    session_id: u128,
    auth_code: u128,
    now: i64,
) -> (r: LoginOutcome)
    requires
        old(cache).wf(),
    ensures
        final(cache).wf(),
        ({
            let accepted = login_accepted(login_info, stored);
            &&& !accepted ==> r is Rejected && final(cache)@ == old(cache)@
            &&& accepted && holds_id(old(cache)@, session_id) ==> r is SessionUnavailable && final(cache)@
                == old(cache)@
            &&& accepted && !holds_id(old(cache)@, session_id) ==> {
                let stamp = stamp_after(old(cache)@, now);
                &&& r == LoginOutcome::Authenticated(Session { session_id, created_at: stamp })
                &&& final(cache)@ == old(cache)@.push(
                    SessionRecord { session_id, auth_code, created_at: stamp },
                )
            }
        }),
{
    let accepted = credentials_accepted(login_info, stored);
    open_login_session_at(cache, accepted, session_id, auth_code, now)
}

/// Logs in against the stored account, if any: on matching credentials a
/// session with a fresh random id is opened in `cache` at `now`.
pub fn process_login(cache: &mut SessionCache, login_info: &LoginRequestBody, stored: Option<&User>, now: i64) -> (r: LoginOutcome)
    requires
        old(cache).wf(),
    ensures
        final(cache).wf(),
        ({
            let accepted = login_accepted(login_info, stored);
            &&& !accepted ==> r is Rejected
            &&& accepted ==> !(r is Rejected)
            &&& !(r is Authenticated) ==> final(cache)@ == old(cache)@
            &&& r matches LoginOutcome::Authenticated(s) ==> {
                &&& !holds_id(old(cache)@, s.session_id)
                &&& s.created_at == stamp_after(old(cache)@, now)
                &&& final(cache)@.len() == old(cache)@.len() + 1
                &&& final(cache)@.drop_last() == old(cache)@
                &&& final(cache)@.last().session_id == s.session_id
                &&& final(cache)@.last().created_at == s.created_at
            }
        }),
{
    let accepted = credentials_accepted(login_info, stored);
    open_login_session(cache, accepted, now)
}

} // verus!
