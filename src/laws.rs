//! What holds across operations, over the model of the store's tables.

use vstd::prelude::*;
use crate::account::{delete_account_start, signup_refusal, signup_start};
use crate::codec::session_key_of;
use crate::error::{AuthFailure, Failure, SignupFailure};
use crate::notes::{append_start, list_start, markdown_html_of, note_fields_of, shown_note, shown_notes, NoteView};
use crate::protocol::{run, OutcomeView};
use crate::session::{issue_start, revoke_start, verify_start};
use crate::store::Tables;

verus! {

/// A session just issued to `user` with `secret` verifies, with the cookie
/// pair `user`, `secret`, as belonging to `user`.
pub proof fn issue_then_verify(db: Tables, user: Seq<char>, secret: Seq<char>)
    ensures
        run(db, issue_start(user, secret), 1).1 == Some(OutcomeView::Session(user, secret)),
        run(run(db, issue_start(user, secret), 1).0, verify_start(Some(user), Some(secret), None), 2).1
            == Some(OutcomeView::User(user)),
{
    reveal_with_fuel(run, 4);
    let key = session_key_of(secret);
    let db1 = run(db, issue_start(user, secret), 1).0;
    assert(db1.creds == db.creds.insert(key, user));
    assert(db1.lookup(key) == Some(user));
}

/// Once the session of `secret` is revoked, no cookie pair with `secret`
/// verifies: the check fails with `InvalidSession`.
pub proof fn revoke_then_verify(db: Tables, user: Seq<char>, secret: Seq<char>)
    ensures
        run(run(db, revoke_start(secret), 1).0, verify_start(Some(user), Some(secret), None), 2).1
            == Some(OutcomeView::Failed(Failure::Auth(AuthFailure::InvalidSession))),
{
    reveal_with_fuel(run, 4);
    let key = session_key_of(secret);
    let db1 = run(db, revoke_start(secret), 1).0;
    assert(db1.creds == db.creds.remove(key));
    assert(db1.lookup(key) is None);
}

/// A cookie pair whose secret belongs to a session of another user fails with
/// `InvalidSession` and removes that session, so that afterwards the owner's
/// own cookie pair fails with `InvalidSession` too.
pub proof fn forged_pair_revokes(db: Tables, owner: Seq<char>, other: Seq<char>, secret: Seq<char>)
    requires
        db.lookup(session_key_of(secret)) == Some(owner),
        other != owner,
    ensures
        run(db, verify_start(Some(other), Some(secret), None), 2).1
            == Some(OutcomeView::Failed(Failure::Auth(AuthFailure::InvalidSession))),
        run(run(db, verify_start(Some(other), Some(secret), None), 2).0, verify_start(Some(owner), Some(secret), None), 2).1
            == Some(OutcomeView::Failed(Failure::Auth(AuthFailure::InvalidSession))),
{
    reveal_with_fuel(run, 4);
    let key = session_key_of(secret);
    let db1 = run(db, verify_start(Some(other), Some(secret), None), 2).0;
    assert(db1.creds == db.creds.remove(key));
    assert(db1.lookup(key) is None);
}

/// Signing up a free name that passes the rules succeeds; signing it up again,
/// with any password that passes the rules, fails with `UsernameTaken` and
/// leaves both tables, the first account's credential and notes with them, as
/// they were.
pub proof fn signup_twice(
    db: Tables,
    user: Seq<char>,
    password: Seq<char>,
    hash: Seq<char>,
    secret: Seq<char>,
    password2: Seq<char>,
    hash2: Seq<char>,
    secret2: Seq<char>,
)
    requires
        !db.creds.contains_key(user),
        signup_refusal(user, password, password) is None,
        signup_refusal(user, password2, password2) is None,
    ensures
        run(db, signup_start(user, password, password, hash, secret), 3).1
            == Some(OutcomeView::Session(user, secret)),
        run(run(db, signup_start(user, password, password, hash, secret), 3).0, signup_start(user, password2, password2, hash2, secret2), 3)
            == (run(db, signup_start(user, password, password, hash, secret), 3).0,
                Some(OutcomeView::Failed(Failure::Signup(SignupFailure::UsernameTaken)))),
{
    reveal_with_fuel(run, 4);
    let db1 = run(db, signup_start(user, password, password, hash, secret), 3).0;
    assert(db1.creds.contains_key(user));
}

/// After an account is deleted, signing its name up again (with a form that
/// passes the rules) succeeds, and the new account's note list is empty.
pub proof fn delete_then_signup(
    db: Tables,
    user: Seq<char>,
    password: Seq<char>,
    hash: Seq<char>,
    secret: Seq<char>,
)
    requires
        signup_refusal(user, password, password) is None,
    ensures
        run(db, delete_account_start(user), 2).1 == Some(OutcomeView::Finished),
        run(run(db, delete_account_start(user), 2).0, signup_start(user, password, password, hash, secret), 3).1
            == Some(OutcomeView::Session(user, secret)),
        run(run(db, delete_account_start(user), 2).0, signup_start(user, password, password, hash, secret), 3).0.lists[user]
            == Seq::<Seq<char>>::empty(),
{
    reveal_with_fuel(run, 4);
    let db1 = run(db, delete_account_start(user), 2).0;
    assert(!db1.creds.contains_key(user));
    assert(!db1.lists.contains_key(user));
}

/// A note appended to a user's list is the first one that reading the list
/// shows, in the form its stored record reads back in. Where the record reads
/// back as the note itself, as `serde_json` guarantees for the records that
/// `encode_note` writes, that is the note with its body rendered to HTML.
pub proof fn append_then_list(db: Tables, user: Seq<char>, note: NoteView)
    requires
        db.lists.contains_key(user),
        shown_notes(db.lists[user]) is Some,
    ensures
        run(db, append_start(user, note), 1).1 == Some(OutcomeView::Created(note)),
        note_fields_of(note.record()) is Some ==> (run(run(db, append_start(user, note), 1).0, list_start(user), 1).1
            matches Some(OutcomeView::Notes(shown)) && shown.len() == db.lists[user].len() + 1
            && shown[0] == shown_note(note.record())),
        note_fields_of(note.record()) == Some(note) ==> (run(run(db, append_start(user, note), 1).0, list_start(user), 1).1
            matches Some(OutcomeView::Notes(shown))
            && shown[0] == (NoteView { date: note.date, body: markdown_html_of(note.body) })),
{
    reveal_with_fuel(run, 4);
    let db1 = run(db, append_start(user, note), 1).0;
    let entries = db1.lists[user];
    assert(entries == db.lists[user].push(note.record()));
    if note_fields_of(note.record()) is Some {
        assert forall|i: int| 0 <= i < entries.len() implies (#[trigger] note_fields_of(entries[i])) is Some by {
            if i < db.lists[user].len() {
                assert(entries[i] == db.lists[user][i]);
            }
        }
    }
}

} // verus!
