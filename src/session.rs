//! Sessions: issuing, verifying and revoking them.
//!
//! A session is a credential record from the session key, the hash of the
//! session secret, to its user. The client holds the username and the secret
//! in two cookies; the store never sees the secret itself.

use vstd::prelude::*;
use crate::codec::{generate_token, is_token, session_key, session_key_of};
use crate::error::{AuthFailure, Failure};
use crate::protocol::{failed, Outcome, OutcomeView, Step, StepView, Task, TaskView};
use crate::store::{opt_view, Command, CommandView};

verus! {

/// Issuing the session whose secret is `secret` to `user`.
pub open spec fn issue_start(user: Seq<char>, secret: Seq<char>) -> StepView {
    StepView::Ask(
        CommandView::Write(session_key_of(secret), user),
        TaskView::StoreSession { user, secret },
    )
}

/// Checking a cookie pair; with a password, the privilege for an action too.
pub open spec fn verify_start(
    user: Option<Seq<char>>,
    secret: Option<Seq<char>>,
    password: Option<Seq<char>>,
) -> StepView {
    match (user, secret) {
        (Some(u), Some(s)) => StepView::Ask(
            CommandView::Read(session_key_of(s)),
            TaskView::CheckSession { user: u, key: session_key_of(s), password },
        ),
        _ => failed(Failure::Auth(AuthFailure::NoSession)),
    }
}

/// Revoking the session whose secret is `secret`.
pub open spec fn revoke_start(secret: Seq<char>) -> StepView {
    StepView::Ask(CommandView::Remove(session_key_of(secret)), TaskView::RevokeSession)
}

/// Logging out with a cookie pair: the session is revoked where both cookies
/// are there; a lone cookie is only to be cleared.
pub open spec fn logout_start(user: Option<Seq<char>>, secret: Option<Seq<char>>) -> StepView {
    match (user, secret) {
        (Some(_), Some(s)) => revoke_start(s),
        (None, None) => failed(Failure::Auth(AuthFailure::NoSession)),
        _ => StepView::Done(OutcomeView::StrayCookies),
    }
}

/// Issues to `username` the session whose secret is `secret`.
pub fn issue_with(username: String, secret: String) -> (r: Step)
    ensures
        r@ == issue_start(username@, secret@),
{
    let key = session_key(secret.as_str());
    Step::Ask(Command::Write { key, value: username.clone() }, Task::StoreSession { user: username, secret })
}

/// Issues to `username` a session with a fresh secret.
pub fn issue(username: String) -> (r: Step)
    ensures
        exists|s: Seq<char>| is_token(s) && r@ == issue_start(username@, s),
{
    let secret = generate_token();
    issue_with(username, secret)
}

/// Checks the cookie pair `username`, `secret`: the outcome names the user
/// where the secret's session belongs to that user. A session found under
/// another name is removed.
pub fn verify(username: Option<String>, secret: Option<String>) -> (r: Step)
    ensures
        r@ == verify_start(opt_view(username), opt_view(secret), None),
{
    match (username, secret) {
        (Some(u), Some(s)) => {
            let key = session_key(s.as_str());
            Step::Ask(
                Command::Read { key: key.clone() },
                Task::CheckSession { user: u, key, password: None },
            )
        },
        _ => Step::Done(Outcome::Failed(Failure::Auth(AuthFailure::NoSession))),
    }
}

/// Revokes the session whose secret is `secret`; the outcome says whether
/// there was one.
pub fn revoke(secret: &str) -> (r: Step)
    ensures
        r@ == revoke_start(secret@),
{
    Step::Ask(Command::Remove { key: session_key(secret) }, Task::RevokeSession)
}

/// Logs out with the cookie pair `username`, `secret`.
pub fn logout(username: Option<String>, secret: Option<String>) -> (r: Step)
    ensures
        r@ == logout_start(opt_view(username), opt_view(secret)),
{
    match (username, secret) {
        (Some(_), Some(s)) => revoke(s.as_str()),
        (None, None) => Step::Done(Outcome::Failed(Failure::Auth(AuthFailure::NoSession))),
        _ => Step::Done(Outcome::StrayCookies),
    }
}

} // verus!
