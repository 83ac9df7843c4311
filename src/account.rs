//! Accounts: signing up, logging in, checking the password for a privileged
//! action, and deleting notes or a whole account.

use vstd::prelude::*;
use vstd::utf8::encode_utf8;
use crate::codec::{bcrypt_accepts, bcrypt_hash, generate_token, is_token, session_key, session_key_of};
use crate::error::{Failure, SignupFailure};
use crate::protocol::{failed, Outcome, Step, StepView, Task, TaskView};
use crate::session::verify_start;
use crate::store::{opt_view, Command, CommandView};

verus! {

/// The sign-up form: a username and the password, typed twice.
pub struct SignupForm {
    pub username: String,
    pub password: String,
    pub vpassword: String,
}

/// The log-in form.
pub struct Login {
    pub username: String,
    pub password: String,
}

/// The form that confirms a privileged action with the account's password.
pub struct DeleteForm {
    pub password: String,
}

/// The shortest username accepted, in bytes.
pub const MIN_USERNAME_LEN: usize = 6;

/// The shortest password accepted, in bytes.
pub const MIN_PASSWORD_LEN: usize = 8;

/// The length of `s` in UTF-8 bytes.
pub open spec fn byte_len(s: Seq<char>) -> nat {
    encode_utf8(s).len()
}

/// An ASCII letter or digit.
pub open spec fn is_alnum(c: char) -> bool {
    ('0' <= c && c <= '9') || ('A' <= c && c <= 'Z') || ('a' <= c && c <= 'z')
}

pub open spec fn all_alnum(s: Seq<char>) -> bool {
    forall|i: int| 0 <= i < s.len() ==> is_alnum(#[trigger] s[i])
}

/// The first rule that a sign-up breaks, if any.
pub open spec fn signup_refusal(
    username: Seq<char>,
    password: Seq<char>,
    vpassword: Seq<char>,
) -> Option<SignupFailure> {
    if byte_len(username) < MIN_USERNAME_LEN {
        Some(SignupFailure::UsernameTooShort)
    } else if !all_alnum(username) {
        Some(SignupFailure::UsernameInvalidChars)
    } else if password != vpassword {
        Some(SignupFailure::PasswordMismatch)
    } else if byte_len(password) < MIN_PASSWORD_LEN {
        Some(SignupFailure::PasswordTooShort)
    } else {
        None
    }
}

/// Signing up `username` with `password` (typed again as `vpassword`), whose
/// hash is `hash`, and opening a session with secret `secret`: the credential
/// record is created if the name is free, then the note list, then the session.
pub open spec fn signup_start(
    username: Seq<char>,
    password: Seq<char>,
    vpassword: Seq<char>,
    hash: Seq<char>,
    secret: Seq<char>,
) -> StepView {
    match signup_refusal(username, password, vpassword) {
        Some(f) => failed(Failure::Signup(f)),
        None => StepView::Ask(
            CommandView::Create(username, hash),
            TaskView::CreateAccount { user: username, key: session_key_of(secret), secret },
        ),
    }
}

/// Logging `username` in with `password`, opening a session with secret `secret`.
pub open spec fn login_start(username: Seq<char>, password: Seq<char>, secret: Seq<char>) -> StepView {
    StepView::Ask(
        CommandView::Read(username),
        TaskView::CheckLogin { user: username, password, key: session_key_of(secret), secret },
    )
}

/// Emptying the note list of `username`.
pub open spec fn delete_notes_start(username: Seq<char>) -> StepView {
    StepView::Ask(CommandView::ListClear(username), TaskView::ClearNotes)
}

/// Deleting the account of `username`: its note list first, then its
/// credential record, so that no later owner of the name finds its notes.
pub open spec fn delete_account_start(username: Seq<char>) -> StepView {
    StepView::Ask(CommandView::ListRemove(username), TaskView::DropNotes { user: username })
}

fn is_alnum_exec(c: char) -> (r: bool)
    ensures
        r == is_alnum(c),
{
    ('0' <= c && c <= '9') || ('A' <= c && c <= 'Z') || ('a' <= c && c <= 'z')
}

fn all_alnum_exec(s: &str) -> (r: bool)
    ensures
        r == all_alnum(s@),
{
    let n = s.unicode_len();
    let mut i: usize = 0;
    while i < n
        invariant
            i <= n,
            n == s@.len(),
            forall|j: int| 0 <= j < i ==> is_alnum(#[trigger] s@[j]),
        decreases n - i,
    {
        if !is_alnum_exec(s.get_char(i)) {
            return false;
        }
        i = i + 1;
    }
    true
}

/// The first rule that the sign-up `form` breaks, if any.
pub fn validate_signup(form: &SignupForm) -> (r: Option<SignupFailure>)
    ensures
        r == signup_refusal(form.username@, form.password@, form.vpassword@),
{
    if form.username.as_str().as_bytes().len() < MIN_USERNAME_LEN {
        Some(SignupFailure::UsernameTooShort)
    } else if !all_alnum_exec(form.username.as_str()) {
        Some(SignupFailure::UsernameInvalidChars)
    } else if form.password != form.vpassword {
        Some(SignupFailure::PasswordMismatch)
    } else if form.password.as_str().as_bytes().len() < MIN_PASSWORD_LEN {
        Some(SignupFailure::PasswordTooShort)
    } else {
        None
    }
}

/// Signs up with `form`, given the password's hash `hash` and the secret
/// `secret` of the session to open.
pub fn signup_with(form: SignupForm, hash: String, secret: String) -> (r: Step)
    ensures
        r@ == signup_start(form.username@, form.password@, form.vpassword@, hash@, secret@),
{
    match validate_signup(&form) {
        Some(f) => Step::Done(Outcome::Failed(Failure::Signup(f))),
        None => {
            let key = session_key(secret.as_str());
            Step::Ask(
                Command::Create { key: form.username.clone(), value: hash },
                Task::CreateAccount { user: form.username, key, secret },
            )
        },
    }
}

/// Signs up with `form`: the password is hashed and a fresh session secret drawn
/// only once the form passes the rules.
pub fn signup(form: SignupForm) -> (r: Step)
    ensures
        signup_refusal(form.username@, form.password@, form.vpassword@) matches Some(f) ==> r@
            == failed(Failure::Signup(f)),
        signup_refusal(form.username@, form.password@, form.vpassword@) is None ==> r@ == failed(
            Failure::Hashing,
        ) || exists|h: Seq<char>, s: Seq<char>|
            bcrypt_accepts(form.password@, h) && is_token(s) && r@ == signup_start(
                form.username@,
                form.password@,
                form.vpassword@,
                h,
                s,
            ),
{
    match validate_signup(&form) {
        Some(f) => Step::Done(Outcome::Failed(Failure::Signup(f))),
        None => match bcrypt_hash(form.password.as_str()) {
            Some(hash) => {
                let secret = generate_token();
                signup_with(form, hash, secret)
            },
            None => Step::Done(Outcome::Failed(Failure::Hashing)),
        },
    }
}

/// Logs in with `form`, opening a session with secret `secret` where the
/// password is right.
pub fn login_with(form: Login, secret: String) -> (r: Step)
    ensures
        r@ == login_start(form.username@, form.password@, secret@),
{
    let key = session_key(secret.as_str());
    Step::Ask(
        Command::Read { key: form.username.clone() },
        Task::CheckLogin { user: form.username, password: form.password, key, secret },
    )
}

/// Logs in with `form`, with a fresh session secret.
pub fn login(form: Login) -> (r: Step)
    ensures
        exists|s: Seq<char>| is_token(s) && r@ == login_start(form.username@, form.password@, s),
{
    let secret = generate_token();
    login_with(form, secret)
}

/// Checks the cookie pair `username`, `secret` and then the account's password
/// given in `form`: the outcome names the user where both hold.
pub fn verify_privileged(username: Option<String>, secret: Option<String>, form: DeleteForm) -> (r: Step)
    ensures
        r@ == verify_start(opt_view(username), opt_view(secret), Some(form.password@)),
{
    match (username, secret) {
        (Some(u), Some(s)) => {
            let key = session_key(s.as_str());
            Step::Ask(
                Command::Read { key: key.clone() },
                Task::CheckSession { user: u, key, password: Some(form.password) },
            )
        },
        _ => Step::Done(Outcome::Failed(Failure::Auth(crate::error::AuthFailure::NoSession))),
    }
}

/// Empties the note list of `username`, keeping the list.
pub fn delete_notes(username: String) -> (r: Step)
    ensures
        r@ == delete_notes_start(username@),
{
    Step::Ask(Command::ListClear { owner: username }, Task::ClearNotes)
}

/// Deletes the account of `username`: its note list, then its credential record.
/// Its current session is revoked apart, with `session::revoke`.
pub fn delete_account(username: String) -> (r: Step)
    ensures
        r@ == delete_account_start(username@),
{
    Step::Ask(Command::ListRemove { owner: username.clone() }, Task::DropNotes { user: username })
}

} // verus!
