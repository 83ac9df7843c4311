use std::collections::HashMap;

use jotsy::account::{delete_account, delete_notes, login_with, signup_with, verify_privileged, DeleteForm, Login, SignupForm};
use jotsy::codec::{bcrypt_hash, session_key};
use jotsy::error::{AuthFailure, Failure, LoginFailure, SignupFailure};
use jotsy::notes::{append, append_note, count, list, FormNote, Note};
use jotsy::protocol::{Outcome, Step, Task};
use jotsy::session::{issue, issue_with, logout, revoke, verify};
use jotsy::store::{Command, Reply};

#[derive(Default)]
struct MemStore {
    creds: HashMap<String, String>,
    lists: HashMap<String, Vec<String>>,
}

impl MemStore {
    fn perform(&mut self, cmd: Command) -> Reply {
        match cmd {
            Command::Read { key } => Reply::Value(self.creds.get(&key).cloned()),
            Command::Write { key, value } => {
                self.creds.insert(key, value);
                Reply::Ack
            }
            Command::Create { key, value } => {
                if self.creds.contains_key(&key) {
                    Reply::Flag(false)
                } else {
                    self.creds.insert(key, value);
                    Reply::Flag(true)
                }
            }
            Command::Remove { key } => Reply::Flag(self.creds.remove(&key).is_some()),
            Command::ListCreate { owner } => {
                self.lists.entry(owner).or_default();
                Reply::Ack
            }
            Command::ListPush { owner, entry } => match self.lists.get_mut(&owner) {
                Some(l) => {
                    l.push(entry);
                    Reply::Ack
                }
                None => Reply::Missing,
            },
            Command::ListClear { owner } => match self.lists.get_mut(&owner) {
                Some(l) => {
                    l.clear();
                    Reply::Ack
                }
                None => Reply::Missing,
            },
            Command::ListRead { owner } => match self.lists.get(&owner) {
                Some(l) => Reply::Items(l.clone()),
                None => Reply::Missing,
            },
            Command::ListLen { owner } => match self.lists.get(&owner) {
                Some(l) => Reply::Count(l.len() as u64),
                None => Reply::Missing,
            },
            Command::ListRemove { owner } => Reply::Flag(self.lists.remove(&owner).is_some()),
        }
    }

    fn drive(&mut self, mut step: Step) -> Outcome {
        loop {
            match step {
                Step::Ask(cmd, task) => {
                    let reply = self.perform(cmd);
                    step = task.resume(reply);
                }
                Step::Done(outcome) => return outcome,
            }
        }
    }
}

fn s(x: &str) -> String {
    x.to_string()
}

fn form(u: &str, p: &str, v: &str) -> SignupForm {
    SignupForm { username: s(u), password: s(p), vpassword: s(v) }
}

fn cookies(o: Outcome) -> (String, String) {
    match o {
        Outcome::Session(c) => (c.username, c.secret),
        other => panic!("no session: {:?}", other),
    }
}

fn signed_up(store: &mut MemStore, user: &str, password: &str) -> (String, String) {
    let hash = bcrypt_hash(password).unwrap();
    cookies(store.drive(signup_with(form(user, password, password), hash, s("secretsecret"))))
}

fn invalid_session(o: &Outcome) -> bool {
    matches!(o, Outcome::Failed(Failure::Auth(AuthFailure::InvalidSession)))
}

#[test]
fn issued_session_verifies() {
    let mut store = MemStore::default();
    let (u, secret) = cookies(store.drive(issue(s("alice123"))));
    assert_eq!(u, "alice123");
    assert_eq!(secret.chars().count(), 32);
    let key = session_key(&secret);
    assert_eq!(store.creds.get(&key), Some(&s("alice123")));
    assert!(!store.creds.contains_key(&secret));
    match store.drive(verify(Some(u), Some(secret))) {
        Outcome::User(name) => assert_eq!(name, "alice123"),
        other => panic!("{:?}", other),
    }
}

#[test]
fn revoked_session_is_invalid() {
    let mut store = MemStore::default();
    let (u, secret) = cookies(store.drive(issue_with(s("alice123"), s("tok"))));
    assert!(matches!(store.drive(revoke(&secret)), Outcome::Removed(true)));
    assert!(invalid_session(&store.drive(verify(Some(u), Some(secret.clone())))));
    assert!(matches!(store.drive(revoke(&secret)), Outcome::Removed(false)));
}

#[test]
fn forged_pair_purges_session() {
    let mut store = MemStore::default();
    let (_, secret) = cookies(store.drive(issue_with(s("owner1"), s("sharedsecret"))));
    assert!(invalid_session(&store.drive(verify(Some(s("mallory")), Some(secret.clone())))));
    assert!(store.creds.is_empty());
    assert!(invalid_session(&store.drive(verify(Some(s("owner1")), Some(secret)))));
}

#[test]
fn unknown_secret_is_invalid() {
    let mut store = MemStore::default();
    assert!(invalid_session(&store.drive(verify(Some(s("alice123")), Some(s("nothing"))))));
}

#[test]
fn missing_cookie_is_no_session() {
    let mut store = MemStore::default();
    for (u, t) in [(Some(s("a")), None), (None, Some(s("t"))), (None, None)] {
        assert!(matches!(store.drive(verify(u, t)), Outcome::Failed(Failure::Auth(AuthFailure::NoSession))));
    }
}

#[test]
fn signup_creates_account_notes_and_session() {
    let mut store = MemStore::default();
    let (u, secret) = signed_up(&mut store, "validname123", "password123");
    assert_eq!(u, "validname123");
    assert_eq!(secret, "secretsecret");
    assert_eq!(store.lists.get("validname123"), Some(&Vec::new()));
    assert_eq!(store.creds.get(&session_key("secretsecret")), Some(&s("validname123")));
    assert!(matches!(store.drive(verify(Some(u), Some(secret))), Outcome::User(_)));
}

#[test]
fn signup_twice_is_taken() {
    let mut store = MemStore::default();
    signed_up(&mut store, "validname123", "password123");
    store.drive(append_note(s("validname123"), Note::new(s("d"), s("kept"))));
    let creds_before = store.creds.clone();
    let lists_before = store.lists.clone();
    let out = store.drive(signup_with(form("validname123", "otherpass99", "otherpass99"), s("h2"), s("s2")));
    assert!(matches!(out, Outcome::Failed(Failure::Signup(SignupFailure::UsernameTaken))));
    assert_eq!(store.creds, creds_before);
    assert_eq!(store.lists, lists_before);
}

#[test]
fn signup_rules_come_first() {
    let mut store = MemStore::default();
    let cases = [
        (form("ab", "password123", "password123"), SignupFailure::UsernameTooShort),
        (form("validname123", "pw1", "pw2"), SignupFailure::PasswordMismatch),
        (form("validname123", "short", "short"), SignupFailure::PasswordTooShort),
        (form("bad name!", "password123", "password123"), SignupFailure::UsernameInvalidChars),
    ];
    for (f, want) in cases {
        match store.drive(signup_with(f, s("h"), s("t"))) {
            Outcome::Failed(Failure::Signup(got)) => assert_eq!(got, want),
            other => panic!("{:?}", other),
        }
    }
    assert!(store.creds.is_empty());
}

#[test]
fn deleted_name_signs_up_fresh() {
    let mut store = MemStore::default();
    signed_up(&mut store, "validname123", "password123");
    store.drive(append_note(s("validname123"), Note::new(s("d"), s("secret stuff"))));
    assert!(matches!(store.drive(delete_account(s("validname123"))), Outcome::Finished));
    assert!(!store.creds.contains_key("validname123"));
    assert!(!store.lists.contains_key("validname123"));
    let (u, _) = signed_up(&mut store, "validname123", "newpassword1");
    assert_eq!(u, "validname123");
    match store.drive(list(s("validname123"))) {
        Outcome::Notes(v) => assert!(v.is_empty()),
        other => panic!("{:?}", other),
    }
}

#[test]
fn appended_note_is_listed_first() {
    let mut store = MemStore::default();
    signed_up(&mut store, "validname123", "password123");
    store.drive(append_note(s("validname123"), Note::new(s("March 01, 2022 | 10:00 AM"), s("old"))));
    match store.drive(append(s("validname123"), FormNote { note: s("**new**") })) {
        Outcome::Created(n) => assert_eq!(n.body, "**new**"),
        other => panic!("{:?}", other),
    }
    match store.drive(list(s("validname123"))) {
        Outcome::Notes(v) => {
            assert_eq!(v.len(), 2);
            assert_eq!(v[0].body, "<p><strong>new</strong></p>\n");
            assert_eq!(v[1].body, "<p>old</p>\n");
            assert_eq!(v[1].date, "March 01, 2022 | 10:00 AM");
        }
        other => panic!("{:?}", other),
    }
    assert!(matches!(store.drive(count(s("validname123"))), Outcome::Count(2)));
}

#[test]
fn note_for_missing_list_is_store_failure() {
    let mut store = MemStore::default();
    let out = store.drive(append_note(s("nobody"), Note::new(s("d"), s("b"))));
    assert!(matches!(out, Outcome::Failed(Failure::Store)));
    assert!(matches!(store.drive(list(s("nobody"))), Outcome::Failed(Failure::Store)));
}

#[test]
fn unreadable_entry_is_store_failure() {
    let mut store = MemStore::default();
    store.lists.insert(s("validname123"), vec![s("not json")]);
    assert!(matches!(store.drive(list(s("validname123"))), Outcome::Failed(Failure::Store)));
}

#[test]
fn unexpected_reply_is_store_failure() {
    let step = Task::ReadNotes.resume(Reply::Ack);
    assert!(matches!(step, Step::Done(Outcome::Failed(Failure::Store))));
    let step = Task::RevokeSession.resume(Reply::Count(3));
    assert!(matches!(step, Step::Done(Outcome::Failed(Failure::Store))));
}

#[test]
fn login_checks_password() {
    let mut store = MemStore::default();
    signed_up(&mut store, "validname123", "password123");
    let ok = store.drive(login_with(Login { username: s("validname123"), password: s("password123") }, s("tok2")));
    let (u, secret) = cookies(ok);
    assert_eq!((u.as_str(), secret.as_str()), ("validname123", "tok2"));
    let wrong = store.drive(login_with(Login { username: s("validname123"), password: s("nope") }, s("tok3")));
    assert!(matches!(wrong, Outcome::Failed(Failure::Login(LoginFailure::WrongPassword))));
    assert!(!store.creds.contains_key(&session_key("tok3")));
    let unknown = store.drive(login_with(Login { username: s("someone99"), password: s("x") }, s("tok4")));
    assert!(matches!(unknown, Outcome::Failed(Failure::Login(LoginFailure::UnknownUser))));
}

#[test]
fn privileged_action_needs_password() {
    let mut store = MemStore::default();
    let (u, secret) = signed_up(&mut store, "validname123", "password123");
    let ok = store.drive(verify_privileged(Some(u.clone()), Some(secret.clone()), DeleteForm { password: s("password123") }));
    assert!(matches!(ok, Outcome::User(ref n) if n == "validname123"));
    let bad = store.drive(verify_privileged(Some(u), Some(secret), DeleteForm { password: s("wrongpass") }));
    assert!(matches!(bad, Outcome::Failed(Failure::PrivilegedVerificationFailed)));
    let none = store.drive(verify_privileged(None, None, DeleteForm { password: s("password123") }));
    assert!(matches!(none, Outcome::Failed(Failure::Auth(AuthFailure::NoSession))));
}

#[test]
fn privileged_action_on_deleted_account_fails() {
    let mut store = MemStore::default();
    store.drive(issue_with(s("ghostuser"), s("tok")));
    let out = store.drive(verify_privileged(Some(s("ghostuser")), Some(s("tok")), DeleteForm { password: s("whatever1") }));
    assert!(matches!(out, Outcome::Failed(Failure::PrivilegedVerificationFailed)));
}

#[test]
fn delete_notes_keeps_empty_list() {
    let mut store = MemStore::default();
    signed_up(&mut store, "validname123", "password123");
    store.drive(append_note(s("validname123"), Note::new(s("d"), s("b"))));
    assert!(matches!(store.drive(delete_notes(s("validname123"))), Outcome::Finished));
    assert_eq!(store.lists.get("validname123"), Some(&Vec::new()));
    assert!(store.creds.contains_key("validname123"));
}

#[test]
fn logout_cases() {
    let mut store = MemStore::default();
    let (u, secret) = cookies(store.drive(issue_with(s("alice123"), s("tok"))));
    assert!(matches!(store.drive(logout(Some(u.clone()), Some(secret.clone()))), Outcome::Removed(true)));
    assert!(matches!(store.drive(logout(Some(u.clone()), Some(secret))), Outcome::Removed(false)));
    assert!(matches!(store.drive(logout(Some(u), None)), Outcome::StrayCookies));
    assert!(matches!(store.drive(logout(None, Some(s("t")))), Outcome::StrayCookies));
    assert!(matches!(store.drive(logout(None, None)), Outcome::Failed(Failure::Auth(AuthFailure::NoSession))));
}
