//! The projection of a record into the text of one row of the list. Fields
//! are read defensively: one that is missing, or is not of the wanted type,
//! falls back to a default and never fails the row.

use crate::record::{
    entries, entries_of, entry_of, lookup, object_of, render, rendered, text_of, Record,
};
use vstd::prelude::*;
use vstd::string::StringExecFns;
use vstd::string::StrSliceExecFns;

verus! {

/// How severe a record says it is, by its level name.
#[derive(Clone, Copy, Debug, PartialEq, Eq, Structural)]
pub enum Severity {
    Debug,
    Info,
    Notice,
    Warning,
    Error,
    Critical,
    Other,
}

/// One row of the list, as text.
#[derive(Debug)]
pub struct Row {
    pub datetime: String,
    /// The level name, filled with spaces to `LEVEL_WIDTH`.
    pub level: String,
    pub severity: Severity,
    /// The message, filled with spaces to `MESSAGE_WIDTH`.
    pub message: String,
    /// The extra key/value pairs, as `key = value` joined by `, `.
    pub context: String,
}

/// A row as a value.
pub struct RowView {
    pub datetime: Seq<char>,
    pub level: Seq<char>,
    pub severity: Severity,
    pub message: Seq<char>,
    pub context: Seq<char>,
}

impl View for Row {
    type V = RowView;

    open spec fn view(&self) -> RowView {
        RowView {
            datetime: self.datetime@,
            level: self.level@,
            severity: self.severity,
            message: self.message@,
            context: self.context@,
        }
    }
}

pub const LEVEL_WIDTH: usize = 9;

pub const MESSAGE_WIDTH: usize = 32;

/// `count` spaces.
pub open spec fn spaces(count: nat) -> Seq<char> {
    Seq::new(count, |i: int| ' ')
}

/// `text` with spaces added at its end until it has `width` characters; a
/// longer text is left as it is.
pub open spec fn padded(text: Seq<char>, width: nat) -> Seq<char> {
    if text.len() >= width {
        text
    } else {
        text + spaces((width - text.len()) as nat)
    }
}

/// The text that a record holds under `key`, or `fallback` where it holds
/// none or something that is no string.
pub open spec fn text_field(record: Record, key: Seq<char>, fallback: Seq<char>) -> Seq<char> {
    match entry_of(record, key) {
        Some(value) => match text_of(value) {
            Some(text) => text,
            None => fallback,
        },
        None => fallback,
    }
}

pub open spec fn severity_of(level: Seq<char>) -> Severity {
    if level == "DEBUG"@ {
        Severity::Debug
    } else if level == "INFO"@ {
        Severity::Info
    } else if level == "NOTICE"@ {
        Severity::Notice
    } else if level == "WARNING"@ {
        Severity::Warning
    } else if level == "ERROR"@ {
        Severity::Error
    } else if level == "CRITICAL"@ {
        Severity::Critical
    } else {
        Severity::Other
    }
}

/// One entry as `key = value`, the value as compact JSON.
pub open spec fn pair_text(entry: (Seq<char>, serde_json::Value)) -> Seq<char> {
    entry.0 + " = "@ + rendered(entry.1)
}

/// The entries as `key = value`, joined by `, `.
pub open spec fn joined(entries: Seq<(Seq<char>, serde_json::Value)>) -> Seq<char>
    decreases entries.len(),
{
    if entries.len() == 0 {
        Seq::empty()
    } else if entries.len() == 1 {
        pair_text(entries[0])
    } else {
        joined(entries.drop_last()) + ", "@ + pair_text(entries.last())
    }
}

/// The object that a record holds under `key`, if it holds one.
pub open spec fn object_field(record: Record, key: Seq<char>) -> Option<Record> {
    match entry_of(record, key) {
        Some(value) => object_of(value),
        None => None,
    }
}

/// The record's extra pairs as text; empty where it has none.
pub open spec fn context_text(record: Record) -> Seq<char> {
    match object_field(record, "context"@) {
        Some(object) => joined(entries_of(object)),
        None => Seq::empty(),
    }
}

/// The row that a record is shown as.
pub open spec fn projection(record: Record) -> RowView {
    let level = text_field(record, "level_name"@, "[NONE]"@);
    RowView {
        datetime: text_field(record, "datetime"@, "--------------------------------"@),
        level: padded(level, LEVEL_WIDTH as nat),
        severity: severity_of(level),
        message: padded(text_field(record, "message"@, ""@), MESSAGE_WIDTH as nat),
        context: context_text(record),
    }
}

/// The whole row on one line, its parts set apart by single spaces.
pub open spec fn row_line(row: RowView) -> Seq<char> {
    row.datetime + " "@ + row.level + " "@ + row.message + " "@ + row.context
}

/// Whether two texts are the same.
fn same_text(a: &str, b: &str) -> (same: bool)
    ensures
        same == (a@ == b@),
{
    String::from_str(a) == String::from_str(b)
}

pub fn pad(text: &str, width: usize) -> (out: String)
    ensures
        out@ == padded(text@, width as nat),
{
    let mut out = String::from_str(text);
    let mut count: usize = text.unicode_len();
    proof {
        reveal_strlit(" ");
        assert(text@ + spaces(0) == text@);
    }
    while count < width
        invariant
            " "@ == seq![' '],
            text@.len() <= count,
            text@.len() < width ==> count <= width,
            text@.len() >= width ==> count == text@.len(),
            out@ == text@ + spaces((count - text@.len()) as nat),
        decreases width - count,
    {
        proof {
            let filled = (count - text@.len()) as nat;
            assert(spaces(filled) + seq![' '] == spaces(filled + 1));
            assert((text@ + spaces(filled)) + seq![' '] == text@ + (spaces(filled) + seq![' ']));
        }
        out.append(" ");
        count += 1;
    }
    out
}

pub fn classify(level: &str) -> (severity: Severity)
    ensures
        severity == severity_of(level@),
{
    if same_text(level, "DEBUG") {
        Severity::Debug
    } else if same_text(level, "INFO") {
        Severity::Info
    } else if same_text(level, "NOTICE") {
        Severity::Notice
    } else if same_text(level, "WARNING") {
        Severity::Warning
    } else if same_text(level, "ERROR") {
        Severity::Error
    } else if same_text(level, "CRITICAL") {
        Severity::Critical
    } else {
        Severity::Other
    }
}

/// Reads the text under `key`, or hands out `fallback`.
pub fn text_or(record: &Record, key: &str, fallback: &str) -> (text: String)
    ensures
        text@ == text_field(*record, key@, fallback@),
{
    match lookup(record, key) {
        Some(value) => match value.as_str() {
            Some(text) => String::from_str(text),
            None => String::from_str(fallback),
        },
        None => String::from_str(fallback),
    }
}

/// Writes the entries of an object as `key = value`, joined by `, `.
pub fn flatten(object: &Record) -> (text: String)
    ensures
        text@ == joined(entries_of(*object)),
{
    let pairs = entries(object);
    let ghost all = entries_of(*object);
    let mut text = String::new();
    let mut i: usize = 0;
    while i < pairs.len()
        invariant
            0 <= i <= pairs@.len(),
            pairs@.len() == all.len(),
            forall|k: int|
                0 <= k < pairs@.len() ==> (#[trigger] pairs@[k]).0@ == all[k].0 && *pairs@[k].1
                    == all[k].1,
            text@ == joined(all.take(i as int)),
        decreases pairs@.len() - i,
    {
        let ghost before = all.take(i as int);
        let ghost now = all.take(i + 1);
        proof {
            assert(now.drop_last() == before);
            assert(now.last() == all[i as int]);
        }
        if i > 0 {
            text.append(", ");
        }
        let pair = &pairs[i];
        text.append(pair.0.as_str());
        text.append(" = ");
        let value = render(pair.1);
        text.append(value.as_str());
        proof {
            assert(pair.0@ + " = "@ + value@ == pair_text(all[i as int]));
            if i == 0 {
                assert(text@ == pair_text(all[i as int]));
                assert(now[0] == all[i as int]);
            } else {
                assert(text@ == joined(before) + ", "@ + pair_text(all[i as int]));
            }
        }
        i += 1;
    }
    assert(all.take(i as int) == all);
    text
}

/// The record's extra pairs as text: those of the object under `context`, or
/// nothing where the record has no such object.
pub fn context_of(record: &Record) -> (text: String)
    ensures
        text@ == context_text(*record),
{
    match lookup(record, "context") {
        Some(value) => match value.as_object() {
            Some(object) => flatten(object),
            None => String::new(),
        },
        None => String::new(),
    }
}

/// Projects a record into its row. The record is only read, so the same
/// record always gives the same row.
pub fn project(record: &Record) -> (row: Row)
    ensures
        row@ == projection(*record),
{
    let level = text_or(record, "level_name", "[NONE]");
    let message = text_or(record, "message", "");
    Row {
        datetime: text_or(record, "datetime", "--------------------------------"),
        level: pad(level.as_str(), LEVEL_WIDTH),
        severity: classify(level.as_str()),
        message: pad(message.as_str(), MESSAGE_WIDTH),
        context: context_of(record),
    }
}

impl Row {
    /// The whole row on one line.
    pub fn line(&self) -> (text: String)
        ensures
            text@ == row_line(self@),
    {
        let mut text = String::from_str(self.datetime.as_str());
        text.append(" ");
        text.append(self.level.as_str());
        text.append(" ");
        text.append(self.message.as_str());
        text.append(" ");
        text.append(self.context.as_str());
        text
    }
}

} // verus!
