//! What each page shows. Turning a page into HTML is left to the caller's
//! templates; the library decides what goes on the page.

use vstd::prelude::*;
use crate::error::SignupFailure;
use crate::notes::{markdown_html_of, md_to_html, Note};

verus! {

/// The log-in page, saying whether the last attempt failed.
pub struct LoginPage {
    pub login_failed: bool,
}

/// A page with a message, which may send the browser back to `/`.
pub struct NoticePage {
    pub message: String,
    pub redirect: bool,
}

/// The sign-up page, with the reason the last attempt was refused, if any.
pub struct SignupPage {
    pub error: Option<String>,
}

/// One note, its body rendered to HTML.
pub struct SingleNote {
    pub note: Note,
}

/// The main page: the user's name, how many notes there are, and the notes.
pub struct App {
    pub username: String,
    pub count: usize,
    pub notes: Vec<Note>,
}

/// The account page.
pub struct Account {
    pub count: u64,
    pub username: String,
}

/// The page that asks for the password before deleting something.
pub struct DeleteUI {
    pub what: String,
    pub action: String,
    pub username: String,
    pub lose: String,
}

fn owned(s: &str) -> (r: String)
    ensures
        r@ == s@,
{
    s.to_owned()
}

impl LoginPage {
    pub fn render_new(login_failed: bool) -> (r: LoginPage)
        ensures
            r.login_failed == login_failed,
    {
        LoginPage { login_failed }
    }
}

impl NoticePage {
    pub fn render_new(message: &str, redirect: bool) -> (r: NoticePage)
        ensures
            r.message@ == message@,
            r.redirect == redirect,
    {
        NoticePage { message: owned(message), redirect }
    }

    /// A notice that sends the browser back to `/`.
    pub fn new_redirect(message: &str) -> (r: NoticePage)
        ensures
            r.message@ == message@,
            r.redirect,
    {
        Self::render_new(message, true)
    }

    /// The notice for an internal error.
    pub fn e500() -> (r: NoticePage)
        ensures
            r.message@ == "An internal server error occurred"@,
            !r.redirect,
    {
        Self::render_new("An internal server error occurred", false)
    }

    /// An empty notice that sends the browser back to `/`.
    pub fn empty() -> (r: NoticePage)
        ensures
            r.message@.len() == 0,
            r.redirect,
    {
        NoticePage { message: String::new(), redirect: true }
    }
}

/// The message that the sign-up page shows for `f`.
pub open spec fn signup_message(f: SignupFailure) -> Seq<char> {
    match f {
        SignupFailure::UsernameTooShort => "Username must have atleast 6 letters"@,
        SignupFailure::UsernameInvalidChars => "Username can only have alphanumeric characters"@,
        SignupFailure::PasswordMismatch => "The passwords do not match"@,
        SignupFailure::PasswordTooShort => "Passwords must have atleast 8 characters"@,
        SignupFailure::UsernameTaken => "Sorry, that username is taken"@,
    }
}

impl SignupPage {
    pub fn render_new(message: &str) -> (r: SignupPage)
        ensures
            r.error matches Some(e) && e@ == message@,
    {
        SignupPage { error: Some(owned(message)) }
    }

    /// The sign-up page that says why a sign-up was refused.
    pub fn for_failure(f: SignupFailure) -> (r: SignupPage)
        ensures
            r.error matches Some(e) && e@ == signup_message(f),
    {
        match f {
            SignupFailure::UsernameTooShort => Self::render_new("Username must have atleast 6 letters"),
            SignupFailure::UsernameInvalidChars => Self::render_new("Username can only have alphanumeric characters"),
            SignupFailure::PasswordMismatch => Self::render_new("The passwords do not match"),
            SignupFailure::PasswordTooShort => Self::render_new("Passwords must have atleast 8 characters"),
            SignupFailure::UsernameTaken => Self::render_new("Sorry, that username is taken"),
        }
    }

    pub fn empty() -> (r: SignupPage)
        ensures
            r.error is None,
    {
        SignupPage { error: None }
    }
}

impl SingleNote {
    /// A freshly written note, its Markdown body rendered.
    pub fn render_new(note: Note) -> (r: SingleNote)
        ensures
            r.note.date == note.date,
            r.note.body@ == markdown_html_of(note.body@),
    {
        let body = md_to_html(note.body.as_str());
        SingleNote { note: Note { date: note.date, body } }
    }
}

impl App {
    pub fn render_new(username: String, notes: Vec<Note>) -> (r: App)
        ensures
            r.username == username,
            r.notes == notes,
            r.count == notes@.len(),
    {
        let count = notes.len();
        App { username, count, notes }
    }
}

impl Account {
    pub fn render_new(count: u64, username: String) -> (r: Account)
        ensures
            r.count == count,
            r.username == username,
    {
        Account { count, username }
    }
}

impl DeleteUI {
    pub fn render_new(what: &str, action: &str, username: &str, lose: &str) -> (r: DeleteUI)
        ensures
            r.what@ == what@,
            r.action@ == action@,
            r.username@ == username@,
            r.lose@ == lose@,
    {
        DeleteUI { what: owned(what), action: owned(action), username: owned(username), lose: owned(lose) }
    }

    /// The page that asks before deleting the account of `username`.
    pub fn for_account(username: &str) -> (r: DeleteUI)
        ensures
            r.what@ == "your account"@,
            r.action@ == "account"@,
            r.username@ == username@,
            r.lose@ == "your account and all your notes"@,
    {
        Self::render_new("your account", "account", username, "your account and all your notes")
    }

    /// The page that asks before deleting all notes of `username`.
    pub fn for_notes(username: &str) -> (r: DeleteUI)
        ensures
            r.what@ == "all your notes"@,
            r.action@ == "notes"@,
            r.username@ == username@,
            r.lose@ == "all your existing notes"@,
    {
        Self::render_new("all your notes", "notes", username, "all your existing notes")
    }
}

/// Where a page for visitors without a session (log-in, sign-up) is asked for
/// while a session cookie is set: the empty notice that sends the browser to
/// `/`, which sorts the cookies out; `None` where no cookie is set.
pub fn redirect_home_if_cookie_set(has_username: bool, has_token: bool) -> (r: Option<NoticePage>)
    ensures
        r is Some <==> (has_username || has_token),
        r matches Some(p) ==> p.message@.len() == 0 && p.redirect,
{
    if has_username || has_token {
        Some(NoticePage::empty())
    } else {
        None
    }
}

} // verus!
