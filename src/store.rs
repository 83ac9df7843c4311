//! The key/value store as the library sees it: the commands it is sent, the
//! replies it gives, and a model of its two tables.
//!
//! The credentials table maps a username to its password hash and a session
//! key to the username that owns the session. The notes table maps a username
//! to the list of its serialized notes, oldest first.

use vstd::prelude::*;

verus! {

/// A command for the store.
#[derive(Debug)]
pub enum Command {
    /// Look a key up in the credentials table.
    Read { key: String },
    /// Set a key in the credentials table, replacing any earlier value.
    Write { key: String, value: String },
    /// Set a key in the credentials table only if it is absent; the reply says
    /// whether it was set.
    Create { key: String, value: String },
    /// Remove a key from the credentials table; the reply says whether it was there.
    Remove { key: String },
    /// Give `owner` an empty note list unless it already has one.
    ListCreate { owner: String },
    /// Append an entry to the note list of `owner`.
    ListPush { owner: String, entry: String },
    /// Empty the note list of `owner`, keeping the list itself.
    ListClear { owner: String },
    /// Read the note list of `owner`.
    ListRead { owner: String },
    /// Count the entries of the note list of `owner`.
    ListLen { owner: String },
    /// Remove the note list of `owner`; the reply says whether it was there.
    ListRemove { owner: String },
}

/// The store's reply to a command.
#[derive(Debug)]
pub enum Reply {
    Value(Option<String>),
    Flag(bool),
    Items(Vec<String>),
    Count(u64),
    /// The note list that the command names does not exist.
    Missing,
    Ack,
}

/// A command, with its strings as sequences of characters.
pub enum CommandView {
    Read(Seq<char>),
    Write(Seq<char>, Seq<char>),
    Create(Seq<char>, Seq<char>),
    Remove(Seq<char>),
    ListCreate(Seq<char>),
    ListPush(Seq<char>, Seq<char>),
    ListClear(Seq<char>),
    ListRead(Seq<char>),
    ListLen(Seq<char>),
    ListRemove(Seq<char>),
}

/// A reply, with its strings as sequences of characters.
pub enum ReplyView {
    Value(Option<Seq<char>>),
    Flag(bool),
    Items(Seq<Seq<char>>),
    Count(nat),
    Missing,
    Ack,
}

pub open spec fn opt_view(o: Option<String>) -> Option<Seq<char>> {
    match o {
        Some(s) => Some(s@),
        None => None,
    }
}

pub open spec fn strings_view(v: Seq<String>) -> Seq<Seq<char>> {
    v.map_values(|s: String| s@)
}

impl View for Command {
    type V = CommandView;

    open spec fn view(&self) -> CommandView {
        match self {
            Command::Read { key } => CommandView::Read(key@),
            Command::Write { key, value } => CommandView::Write(key@, value@),
            Command::Create { key, value } => CommandView::Create(key@, value@),
            Command::Remove { key } => CommandView::Remove(key@),
            Command::ListCreate { owner } => CommandView::ListCreate(owner@),
            Command::ListPush { owner, entry } => CommandView::ListPush(owner@, entry@),
            Command::ListClear { owner } => CommandView::ListClear(owner@),
            Command::ListRead { owner } => CommandView::ListRead(owner@),
            Command::ListLen { owner } => CommandView::ListLen(owner@),
            Command::ListRemove { owner } => CommandView::ListRemove(owner@),
        }
    }
}

impl View for Reply {
    type V = ReplyView;

    open spec fn view(&self) -> ReplyView {
        match self {
            Reply::Value(v) => ReplyView::Value(opt_view(*v)),
            Reply::Flag(b) => ReplyView::Flag(*b),
            Reply::Items(items) => ReplyView::Items(strings_view(items@)),
            Reply::Count(n) => ReplyView::Count(*n as nat),
            Reply::Missing => ReplyView::Missing,
            Reply::Ack => ReplyView::Ack,
        }
    }
}

/// The contents of the store's two tables.
pub struct Tables {
    pub creds: Map<Seq<char>, Seq<char>>,
    pub lists: Map<Seq<char>, Seq<Seq<char>>>,
}

impl Tables {
    /// The value of `key` in the credentials table, if any.
    pub open spec fn lookup(self, key: Seq<char>) -> Option<Seq<char>> {
        if self.creds.contains_key(key) {
            Some(self.creds[key])
        } else {
            None
        }
    }

    /// The tables after the store has carried out `c`.
    pub open spec fn apply(self, c: CommandView) -> Tables {
        match c {
            CommandView::Write(k, v) => Tables { creds: self.creds.insert(k, v), ..self },
            CommandView::Create(k, v) => if self.creds.contains_key(k) {
                self
            } else {
                Tables { creds: self.creds.insert(k, v), ..self }
            },
            CommandView::Remove(k) => Tables { creds: self.creds.remove(k), ..self },
            CommandView::ListCreate(o) => if self.lists.contains_key(o) {
                self
            } else {
                Tables { lists: self.lists.insert(o, Seq::empty()), ..self }
            },
            CommandView::ListPush(o, e) => if self.lists.contains_key(o) {
                Tables { lists: self.lists.insert(o, self.lists[o].push(e)), ..self }
            } else {
                self
            },
            CommandView::ListClear(o) => if self.lists.contains_key(o) {
                Tables { lists: self.lists.insert(o, Seq::empty()), ..self }
            } else {
                self
            },
            CommandView::ListRemove(o) => Tables { lists: self.lists.remove(o), ..self },
            _ => self,
        }
    }

    /// The reply that the store gives to `c` on these tables.
    pub open spec fn answer(self, c: CommandView) -> ReplyView {
        match c {
            CommandView::Read(k) => ReplyView::Value(self.lookup(k)),
            CommandView::Write(_, _) => ReplyView::Ack,
            CommandView::Create(k, _) => ReplyView::Flag(!self.creds.contains_key(k)),
            CommandView::Remove(k) => ReplyView::Flag(self.creds.contains_key(k)),
            CommandView::ListCreate(_) => ReplyView::Ack,
            CommandView::ListRemove(o) => ReplyView::Flag(self.lists.contains_key(o)),
            CommandView::ListPush(o, _) | CommandView::ListClear(o) => if self.lists.contains_key(o) {
                ReplyView::Ack
            } else {
                ReplyView::Missing
            },
            CommandView::ListRead(o) => if self.lists.contains_key(o) {
                ReplyView::Items(self.lists[o])
            } else {
                ReplyView::Missing
            },
            CommandView::ListLen(o) => if self.lists.contains_key(o) {
                ReplyView::Count(self.lists[o].len())
            } else {
                ReplyView::Missing
            },
        }
    }
}

} // verus!
