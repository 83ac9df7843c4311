//! The conversation between an operation of the library and the store.
//!
//! An operation starts as a `Step`. While the step asks, the caller carries out
//! the command on the store and hands the reply to `Task::resume`, which gives
//! the next step; when the step is done, it holds the operation's outcome.

use vstd::prelude::*;
use crate::codec::{bcrypt_accepts, bcrypt_verify};
use crate::error::{AuthFailure, Failure, LoginFailure, SignupFailure};
use crate::notes::{notes_view, show_notes, shown_notes, Note, NoteView};
use crate::store::{Command, CommandView, Reply, ReplyView, Tables};

verus! {

/// The two cookie values of a session: the username and the session secret.
#[derive(Debug)]
pub struct SessionCookies {
    pub username: String,
    pub secret: String,
}

/// What an operation waits for while its command is with the store.
#[allow(inconsistent_fields)]
#[derive(Debug)]
pub enum Task {
    /// The owner of the session key, to compare with `user`; with a password,
    /// a privileged action follows.
    CheckSession { user: String, key: String, password: Option<String> },
    /// The removal of a session found under another user's name.
    PurgeSession,
    /// The write of a new session of `user` whose secret is `secret`.
    StoreSession { user: String, secret: String },
    /// The removal of a session.
    RevokeSession,
    /// The creation of the credential record of `user`.
    CreateAccount { user: String, key: String, secret: String },
    /// The creation of the note list of `user`.
    CreateNotes { user: String, key: String, secret: String },
    /// The password hash of `user`, to log in with `password`.
    CheckLogin { user: String, password: String, key: String, secret: String },
    /// The password hash of `user`, to allow a privileged action.
    CheckPrivilege { user: String, password: String },
    /// The clearing of a note list.
    ClearNotes,
    /// The removal of the note list of `user`, before that of the account.
    DropNotes { user: String },
    /// The removal of a credential record.
    DropAccount,
    /// The append of `note` to a note list.
    PushNote { note: Note },
    /// The contents of a note list.
    ReadNotes,
    /// The length of a note list.
    CountNotes,
}

/// The result of an operation.
#[derive(Debug)]
pub enum Outcome {
    /// The session, and the privilege where one was asked for, belong to this user.
    User(String),
    /// A new session, whose cookies are to be set.
    Session(SessionCookies),
    /// Whether a session was removed.
    Removed(bool),
    Finished,
    Created(Note),
    /// A note list, newest first, rendered.
    Notes(Vec<Note>),
    Count(u64),
    /// Only one of the two session cookies was presented.
    StrayCookies,
    Failed(Failure),
}

/// One step of an operation.
#[derive(Debug)]
pub enum Step {
    /// The store is to carry out the command; its reply goes to the task.
    Ask(Command, Task),
    Done(Outcome),
}

#[allow(inconsistent_fields)]
pub enum TaskView {
    CheckSession { user: Seq<char>, key: Seq<char>, password: Option<Seq<char>> },
    PurgeSession,
    StoreSession { user: Seq<char>, secret: Seq<char> },
    RevokeSession,
    CreateAccount { user: Seq<char>, key: Seq<char>, secret: Seq<char> },
    CreateNotes { user: Seq<char>, key: Seq<char>, secret: Seq<char> },
    CheckLogin { user: Seq<char>, password: Seq<char>, key: Seq<char>, secret: Seq<char> },
    CheckPrivilege { user: Seq<char>, password: Seq<char> },
    ClearNotes,
    DropNotes { user: Seq<char> },
    DropAccount,
    PushNote { note: NoteView },
    ReadNotes,
    CountNotes,
}

pub enum OutcomeView {
    User(Seq<char>),
    /// The username and the secret.
    Session(Seq<char>, Seq<char>),
    Removed(bool),
    Finished,
    Created(NoteView),
    Notes(Seq<NoteView>),
    Count(nat),
    StrayCookies,
    Failed(Failure),
}

pub enum StepView {
    Ask(CommandView, TaskView),
    Done(OutcomeView),
}

impl View for Task {
    type V = TaskView;

    open spec fn view(&self) -> TaskView {
        match self {
            Task::CheckSession { user, key, password } => TaskView::CheckSession {
                user: user@,
                key: key@,
                password: match password {
                    Some(p) => Some(p@),
                    None => None,
                },
            },
            Task::PurgeSession => TaskView::PurgeSession,
            Task::StoreSession { user, secret } => TaskView::StoreSession { user: user@, secret: secret@ },
            Task::RevokeSession => TaskView::RevokeSession,
            Task::CreateAccount { user, key, secret } => TaskView::CreateAccount {
                user: user@,
                key: key@,
                secret: secret@,
            },
            Task::CreateNotes { user, key, secret } => TaskView::CreateNotes {
                user: user@,
                key: key@,
                secret: secret@,
            },
            Task::CheckLogin { user, password, key, secret } => TaskView::CheckLogin {
                user: user@,
                password: password@,
                key: key@,
                secret: secret@,
            },
            Task::CheckPrivilege { user, password } => TaskView::CheckPrivilege {
                user: user@,
                password: password@,
            },
            Task::ClearNotes => TaskView::ClearNotes,
            Task::DropNotes { user } => TaskView::DropNotes { user: user@ },
            Task::DropAccount => TaskView::DropAccount,
            Task::PushNote { note } => TaskView::PushNote { note: note@ },
            Task::ReadNotes => TaskView::ReadNotes,
            Task::CountNotes => TaskView::CountNotes,
        }
    }
}

impl View for Outcome {
    type V = OutcomeView;

    open spec fn view(&self) -> OutcomeView {
        match self {
            Outcome::User(u) => OutcomeView::User(u@),
            Outcome::Session(c) => OutcomeView::Session(c.username@, c.secret@),
            Outcome::Removed(b) => OutcomeView::Removed(*b),
            Outcome::Finished => OutcomeView::Finished,
            Outcome::Created(n) => OutcomeView::Created(n@),
            Outcome::Notes(v) => OutcomeView::Notes(notes_view(v@)),
            Outcome::Count(n) => OutcomeView::Count(*n as nat),
            Outcome::StrayCookies => OutcomeView::StrayCookies,
            Outcome::Failed(f) => OutcomeView::Failed(*f),
        }
    }
}

impl View for Step {
    type V = StepView;

    open spec fn view(&self) -> StepView {
        match self {
            Step::Ask(c, t) => StepView::Ask(c@, t@),
            Step::Done(o) => StepView::Done(o@),
        }
    }
}

pub open spec fn failed(f: Failure) -> StepView {
    StepView::Done(OutcomeView::Failed(f))
}

impl TaskView {
    /// The step that follows when the store answers `a`.
    pub open spec fn next(self, a: ReplyView) -> StepView {
        match self {
            TaskView::CheckSession { user, key, password } => match a {
                ReplyView::Value(Some(owner)) => if owner != user {
                    StepView::Ask(CommandView::Remove(key), TaskView::PurgeSession)
                } else {
                    match password {
                        None => StepView::Done(OutcomeView::User(user)),
                        Some(p) => StepView::Ask(
                            CommandView::Read(user),
                            TaskView::CheckPrivilege { user, password: p },
                        ),
                    }
                },
                ReplyView::Value(None) => failed(Failure::Auth(AuthFailure::InvalidSession)),
                _ => failed(Failure::Store),
            },
            TaskView::PurgeSession => failed(Failure::Auth(AuthFailure::InvalidSession)),
            TaskView::StoreSession { user, secret } => match a {
                ReplyView::Ack => StepView::Done(OutcomeView::Session(user, secret)),
                _ => failed(Failure::Store),
            },
            TaskView::RevokeSession => match a {
                ReplyView::Flag(b) => StepView::Done(OutcomeView::Removed(b)),
                _ => failed(Failure::Store),
            },
            TaskView::CreateAccount { user, key, secret } => match a {
                ReplyView::Flag(true) => StepView::Ask(
                    CommandView::ListCreate(user),
                    TaskView::CreateNotes { user, key, secret },
                ),
                ReplyView::Flag(false) => failed(Failure::Signup(SignupFailure::UsernameTaken)),
                _ => failed(Failure::Store),
            },
            TaskView::CreateNotes { user, key, secret } => match a {
                ReplyView::Ack => StepView::Ask(
                    CommandView::Write(key, user),
                    TaskView::StoreSession { user, secret },
                ),
                _ => failed(Failure::Store),
            },
            TaskView::CheckLogin { user, password, key, secret } => match a {
                ReplyView::Value(Some(hash)) => if bcrypt_accepts(password, hash) {
                    StepView::Ask(CommandView::Write(key, user), TaskView::StoreSession { user, secret })
                } else {
                    failed(Failure::Login(LoginFailure::WrongPassword))
                },
                ReplyView::Value(None) => failed(Failure::Login(LoginFailure::UnknownUser)),
                _ => failed(Failure::Store),
            },
            TaskView::CheckPrivilege { user, password } => match a {
                ReplyView::Value(Some(hash)) => if bcrypt_accepts(password, hash) {
                    StepView::Done(OutcomeView::User(user))
                } else {
                    failed(Failure::PrivilegedVerificationFailed)
                },
                ReplyView::Value(None) => failed(Failure::PrivilegedVerificationFailed),
                _ => failed(Failure::Store),
            },
            TaskView::ClearNotes => match a {
                ReplyView::Ack => StepView::Done(OutcomeView::Finished),
                _ => failed(Failure::Store),
            },
            TaskView::DropNotes { user } => match a {
                ReplyView::Flag(_) => StepView::Ask(CommandView::Remove(user), TaskView::DropAccount),
                _ => failed(Failure::Store),
            },
            TaskView::DropAccount => match a {
                ReplyView::Flag(_) => StepView::Done(OutcomeView::Finished),
                _ => failed(Failure::Store),
            },
            TaskView::PushNote { note } => match a {
                ReplyView::Ack => StepView::Done(OutcomeView::Created(note)),
                _ => failed(Failure::Store),
            },
            TaskView::ReadNotes => match a {
                ReplyView::Items(entries) => match shown_notes(entries) {
                    Some(notes) => StepView::Done(OutcomeView::Notes(notes)),
                    None => failed(Failure::Store),
                },
                _ => failed(Failure::Store),
            },
            TaskView::CountNotes => match a {
                ReplyView::Count(n) => StepView::Done(OutcomeView::Count(n)),
                _ => failed(Failure::Store),
            },
        }
    }
}

/// The tables and the outcome when `s` is carried out against a store that
/// holds `db`, in at most `fuel` commands; `None` where the fuel runs out first.
pub open spec fn run(db: Tables, s: StepView, fuel: nat) -> (Tables, Option<OutcomeView>)
    decreases fuel,
{
    match s {
        StepView::Done(o) => (db, Some(o)),
        StepView::Ask(c, t) => if fuel == 0 {
            (db, None)
        } else {
            run(db.apply(c), t.next(db.answer(c)), (fuel - 1) as nat)
        },
    }
}

fn fail(f: Failure) -> (r: Step)
    ensures
        r@ == failed(f),
{
    Step::Done(Outcome::Failed(f))
}

impl Task {
    /// The step that follows when the store replies `reply` to the command being waited on.
    pub fn resume(self, reply: Reply) -> (r: Step)
        ensures
            r@ == self@.next(reply@),
    {
        match self {
            Task::CheckSession { user, key, password } => match reply {
                Reply::Value(Some(owner)) => if owner != user {
                    Step::Ask(Command::Remove { key }, Task::PurgeSession)
                } else {
                    match password {
                        None => Step::Done(Outcome::User(user)),
                        Some(p) => Step::Ask(
                            Command::Read { key: user.clone() },
                            Task::CheckPrivilege { user, password: p },
                        ),
                    }
                },
                Reply::Value(None) => fail(Failure::Auth(AuthFailure::InvalidSession)),
                _ => fail(Failure::Store),
            },
            Task::PurgeSession => fail(Failure::Auth(AuthFailure::InvalidSession)),
            Task::StoreSession { user, secret } => match reply {
                Reply::Ack => Step::Done(Outcome::Session(SessionCookies { username: user, secret })),
                _ => fail(Failure::Store),
            },
            Task::RevokeSession => match reply {
                Reply::Flag(b) => Step::Done(Outcome::Removed(b)),
                _ => fail(Failure::Store),
            },
            Task::CreateAccount { user, key, secret } => match reply {
                Reply::Flag(true) => Step::Ask(
                    Command::ListCreate { owner: user.clone() },
                    Task::CreateNotes { user, key, secret },
                ),
                Reply::Flag(false) => fail(Failure::Signup(SignupFailure::UsernameTaken)),
                _ => fail(Failure::Store),
            },
            Task::CreateNotes { user, key, secret } => match reply {
                Reply::Ack => Step::Ask(
                    Command::Write { key, value: user.clone() },
                    Task::StoreSession { user, secret },
                ),
                _ => fail(Failure::Store),
            },
            Task::CheckLogin { user, password, key, secret } => match reply {
                Reply::Value(Some(hash)) => if bcrypt_verify(password.as_str(), hash.as_str()) {
                    Step::Ask(
                        Command::Write { key, value: user.clone() },
                        Task::StoreSession { user, secret },
                    )
                } else {
                    fail(Failure::Login(LoginFailure::WrongPassword))
                },
                Reply::Value(None) => fail(Failure::Login(LoginFailure::UnknownUser)),
                _ => fail(Failure::Store),
            },
            Task::CheckPrivilege { user, password } => match reply {
                Reply::Value(Some(hash)) => if bcrypt_verify(password.as_str(), hash.as_str()) {
                    Step::Done(Outcome::User(user))
                } else {
                    fail(Failure::PrivilegedVerificationFailed)
                },
                Reply::Value(None) => fail(Failure::PrivilegedVerificationFailed),
                _ => fail(Failure::Store),
            },
            Task::ClearNotes => match reply {
                Reply::Ack => Step::Done(Outcome::Finished),
                _ => fail(Failure::Store),
            },
            Task::DropNotes { user } => match reply {
                Reply::Flag(_) => Step::Ask(Command::Remove { key: user }, Task::DropAccount),
                _ => fail(Failure::Store),
            },
            Task::DropAccount => match reply {
                Reply::Flag(_) => Step::Done(Outcome::Finished),
                _ => fail(Failure::Store),
            },
            Task::PushNote { note } => match reply {
                Reply::Ack => Step::Done(Outcome::Created(note)),
                _ => fail(Failure::Store),
            },
            Task::ReadNotes => match reply {
                Reply::Items(entries) => match show_notes(&entries) {
                    Some(notes) => Step::Done(Outcome::Notes(notes)),
                    None => fail(Failure::Store),
                },
                _ => fail(Failure::Store),
            },
            Task::CountNotes => match reply {
                Reply::Count(n) => Step::Done(Outcome::Count(n)),
                _ => fail(Failure::Store),
            },
        }
    }
}

} // verus!
