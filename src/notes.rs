//! Notes: how one is written to a user's note list and how the list is shown.

use vstd::prelude::*;
use comrak::{markdown_to_html, ComrakOptions};
use chrono::Local;
use crate::protocol::{Step, StepView, Task, TaskView};
use crate::store::{Command, CommandView};

verus! {

/// A note: when it was written and its text. In the store the text is the
/// Markdown source; when shown it is the rendered HTML.
#[derive(Clone, Debug, PartialEq, Eq)]
pub struct Note {
    pub date: String,
    pub body: String,
}

/// A note, with its strings as sequences of characters.
pub struct NoteView {
    pub date: Seq<char>,
    pub body: Seq<char>,
}

impl NoteView {
    /// The stored form of this note.
    pub open spec fn record(self) -> Seq<char> {
        note_record(self.date, self.body)
    }
}

impl View for Note {
    type V = NoteView;

    open spec fn view(&self) -> NoteView {
        NoteView { date: self.date@, body: self.body@ }
    }
}

impl Note {
    pub fn new(date: String, body: String) -> (r: Note)
        ensures
            r.date == date,
            r.body == body,
    {
        Note { date, body }
    }
}

/// A note as posted from the note form.
pub struct FormNote {
    pub note: String,
}

/// The HTML that the Markdown renderer makes of `md`.
pub uninterp spec fn markdown_html_of(md: Seq<char>) -> Seq<char>;

/// Relies on `comrak::markdown_to_html`, with strikethrough, tag filtering,
/// tables, autolinks, task lists, superscript, footnotes, description lists
/// and raw HTML switched on: the HTML for the Markdown `md`.
#[verifier::external_body]
pub fn md_to_html(md: &str) -> (r: String)
    ensures
        r@ == markdown_html_of(md@),
{
    let mut options = ComrakOptions::default();
    options.extension.strikethrough = true;
    options.extension.tagfilter = true;
    options.extension.table = true;
    options.extension.autolink = true;
    options.extension.tasklist = true;
    options.extension.superscript = true;
    options.extension.footnotes = true;
    options.extension.description_lists = true;
    options.render.unsafe_ = true;
    markdown_to_html(md, &options)
}

/// The JSON string literal for `s`: quoted, with the characters JSON reserves escaped.
pub uninterp spec fn json_string_of(s: Seq<char>) -> Seq<char>;

/// Relies on `serde_json::to_string` on a `&str`: the JSON string literal for `s`.
/// Writing into a `String` does not fail, so the error arm is never taken.
#[verifier::external_body]
fn json_string(s: &str) -> (r: String)
    ensures
        r@ == json_string_of(s@),
{
    serde_json::to_string(s).unwrap_or_default()
}

/// The stored form of a note: a JSON object with the string fields `date` and `body`.
pub open spec fn note_record(date: Seq<char>, body: Seq<char>) -> Seq<char> {
    "{\"date\":"@ + json_string_of(date) + ",\"body\":"@ + json_string_of(body) + "}"@
}

/// The string fields `date` and `body` of the JSON object `s`.
pub uninterp spec fn note_fields_of(s: Seq<char>) -> Option<NoteView>;

/// Relies on `serde_json::from_str` into a `serde_json::Value`: the fields
/// `date` and `body` of the JSON object `s` where both are strings, and `None`
/// otherwise. Parsing inverts `serde_json::to_string`, so a stored record gives
/// back the two strings it was written from.
#[verifier::external_body]
fn decode_note(s: &str) -> (r: Option<Note>)
    ensures
        r is Some <==> note_fields_of(s@) is Some,
        r matches Some(n) ==> note_fields_of(s@) == Some(n@),
        forall|n: NoteView| s@ == #[trigger] n.record() ==> r is Some && r->0@ == n,
{
    let v: serde_json::Value = serde_json::from_str(s).ok()?;
    let date = v.get("date")?.as_str()?;
    let body = v.get("body")?.as_str()?;
    Some(Note { date: date.to_string(), body: body.to_string() })
}

/// Relies on `chrono::Local::now` and its `format`: the local time now, written
/// as month name, day, year, then the time on a twelve-hour clock.
#[verifier::external_body]
fn timestamp_now() -> (r: String) {
    Local::now().format("%B %d, %Y | %I:%M %p").to_string()
}

/// Relies on `String::push_str`: appends `t` to `s`.
#[verifier::external_body]
fn push_str(s: &mut String, t: &str)
    ensures
        final(s)@ == old(s)@ + t@,
{
    s.push_str(t)
}

/// The stored form of `note`.
pub fn encode_note(note: &Note) -> (r: String)
    ensures
        r@ == note_record(note.date@, note.body@),
{
    let mut out = String::new();
    push_str(&mut out, "{\"date\":");
    let d = json_string(note.date.as_str());
    push_str(&mut out, d.as_str());
    push_str(&mut out, ",\"body\":");
    let b = json_string(note.body.as_str());
    push_str(&mut out, b.as_str());
    push_str(&mut out, "}");
    proof {
        assert(out@ =~= note_record(note.date@, note.body@));
    }
    out
}

/// How the stored record `entry` is shown: its date, and its body rendered to HTML.
pub open spec fn shown_note(entry: Seq<char>) -> NoteView {
    NoteView {
        date: note_fields_of(entry)->0.date,
        body: markdown_html_of(note_fields_of(entry)->0.body),
    }
}

/// How a stored note list is shown: newest first, each note rendered; `None`
/// where an entry is no note record.
pub open spec fn shown_notes(entries: Seq<Seq<char>>) -> Option<Seq<NoteView>> {
    if forall|i: int| 0 <= i < entries.len() ==> (#[trigger] note_fields_of(entries[i])) is Some {
        Some(Seq::new(entries.len(), |i: int| shown_note(entries[entries.len() - 1 - i])))
    } else {
        None
    }
}

pub open spec fn notes_view(v: Seq<Note>) -> Seq<NoteView> {
    v.map_values(|n: Note| n@)
}

/// Reads a stored note record back, with its body rendered to HTML.
pub fn new_from_json(entry: &str) -> (r: Option<Note>)
    ensures
        match r {
            Some(n) => note_fields_of(entry@) is Some && n@ == shown_note(entry@),
            None => note_fields_of(entry@) is None,
        },
{
    match decode_note(entry) {
        Some(stored) => {
            let html = md_to_html(stored.body.as_str());
            Some(Note::new(stored.date, html))
        },
        None => None,
    }
}

/// Shows a stored note list: newest first, each note rendered; `None` where an
/// entry is no note record.
pub fn show_notes(entries: &Vec<String>) -> (r: Option<Vec<Note>>)
    ensures
        match r {
            Some(v) => shown_notes(entries@.map_values(|s: String| s@)) == Some(notes_view(v@)),
            None => shown_notes(entries@.map_values(|s: String| s@)) is None,
        },
{
    let ghost es = entries@.map_values(|s: String| s@);
    let mut out: Vec<Note> = Vec::new();
    let mut i: usize = entries.len();
    while i > 0
        invariant
            i <= entries@.len(),
            es == entries@.map_values(|s: String| s@),
            out@.len() == entries@.len() - i,
            forall|k: int| i <= k < entries@.len() ==> (#[trigger] note_fields_of(es[k])) is Some,
            forall|j: int| 0 <= j < out@.len() ==>
                (#[trigger] out@[j])@ == shown_note(es[entries@.len() - 1 - j]),
        decreases i,
    {
        i = i - 1;
        assert(es[i as int] == entries@[i as int]@);
        match new_from_json(entries[i].as_str()) {
            Some(n) => {
                out.push(n);
            },
            None => {
                return None;
            },
        }
    }
    proof {
        assert(notes_view(out@) =~= Seq::new(es.len(), |j: int| shown_note(es[es.len() - 1 - j])));
    }
    Some(out)
}

/// Appending `note` to the note list of `username`.
pub open spec fn append_start(username: Seq<char>, note: NoteView) -> StepView {
    StepView::Ask(CommandView::ListPush(username, note.record()), TaskView::PushNote { note })
}

/// Reading the note list of `username`.
pub open spec fn list_start(username: Seq<char>) -> StepView {
    StepView::Ask(CommandView::ListRead(username), TaskView::ReadNotes)
}

/// Counting the notes of `username`.
pub open spec fn count_start(username: Seq<char>) -> StepView {
    StepView::Ask(CommandView::ListLen(username), TaskView::CountNotes)
}

/// Appends `note` to the note list of `username`; the outcome is the note.
pub fn append_note(username: String, note: Note) -> (r: Step)
    ensures
        r@ == append_start(username@, note@),
{
    let entry = encode_note(&note);
    Step::Ask(Command::ListPush { owner: username, entry }, Task::PushNote { note })
}

/// Appends a note with the text of `form`, dated now, to the note list of `username`.
pub fn append(username: String, form: FormNote) -> (r: Step)
    ensures
        exists|d: Seq<char>| r@ == append_start(username@, NoteView { date: d, body: form.note@ }),
{
    let date = timestamp_now();
    append_note(username, Note::new(date, form.note))
}

/// Reads the note list of `username`: newest first, each body rendered to HTML.
pub fn list(username: String) -> (r: Step)
    ensures
        r@ == list_start(username@),
{
    Step::Ask(Command::ListRead { owner: username }, Task::ReadNotes)
}

/// Counts the notes of `username`.
pub fn count(username: String) -> (r: Step)
    ensures
        r@ == count_start(username@),
{
    Step::Ask(Command::ListLen { owner: username }, Task::CountNotes)
}

} // verus!
