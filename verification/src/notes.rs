//! Diagnostics: what the bridge and the store report of what they dropped,
//! and how a place inside a value is named.

use crate::dynamic::{DynamicModel, DynamicValue};
use crate::text::{hex, lossy, lossy_text, push_decimal, push_hex, push_signed, signed_decimal};
use crate::value::{GenericModel, GenericValue};
use vstd::prelude::*;
use vstd::string::*;

verus! {

/// What a diagnostic reports.
#[derive(Copy, Clone, PartialEq, Eq, Structural, Debug)]
pub enum NoteKind {
    /// The composite at the path carries an extension, which is not stored.
    ExtensionDropped,
    /// A key of the composite at the path has no stored form; its pair is not stored.
    KeyNotStored,
    /// The value at the path has no stored form; its pair is not stored.
    ValueNotStored,
    /// A key of the stored value at the path is no host value; its pair is left out.
    KeyNotRestored,
    /// The stored value at the path is no host value; it is left out.
    ValueNotRestored,
    /// Nothing usable was stored under the path; the state starts empty.
    NothingLoaded,
}

/// A diagnostic: what happened, and where.
#[derive(Debug, PartialEq, Eq)]
pub struct Diagnostic {
    pub kind: NoteKind,
    pub path: String,
}

/// A diagnostic as plain data.
pub struct Note {
    pub kind: NoteKind,
    pub path: Seq<char>,
}

impl View for Diagnostic {
    type V = Note;

    open spec fn view(&self) -> Note {
        Note { kind: self.kind, path: self.path@ }
    }
}

/// A list of diagnostics as plain data.
pub open spec fn notes_of(list: Seq<Diagnostic>) -> Seq<Note> {
    list.map_values(|d: Diagnostic| d@)
}

/// The sentence of a diagnostic.
pub open spec fn message_text(note: Note) -> Seq<char> {
    match note.kind {
        NoteKind::ExtensionDropped => "The value "@ + note.path
            + " has an extension, which cannot be stored and will not be persisted."@,
        NoteKind::KeyNotStored => "A key of "@ + note.path
            + " cannot be stored and will not be persisted."@,
        NoteKind::ValueNotStored => "The value of "@ + note.path
            + " cannot be stored and will not be persisted."@,
        NoteKind::KeyNotRestored => "A key of "@ + note.path
            + " is not a valid host value and will be ignored."@,
        NoteKind::ValueNotRestored => "The value of "@ + note.path
            + " is not a valid host value and will be ignored."@,
        NoteKind::NothingLoaded => "No stored state could be read from "@ + note.path
            + "; starting with empty state."@,
    }
}

impl Diagnostic {
    /// The diagnostic as a sentence for a log.
    pub fn message(&self) -> (text: String)
        ensures
            text@ == message_text(self@),
    {
        let (head, tail) = match self.kind {
            NoteKind::ExtensionDropped => (
                "The value ",
                " has an extension, which cannot be stored and will not be persisted.",
            ),
            NoteKind::KeyNotStored => ("A key of ", " cannot be stored and will not be persisted."),
            NoteKind::ValueNotStored => (
                "The value of ",
                " cannot be stored and will not be persisted.",
            ),
            NoteKind::KeyNotRestored => (
                "A key of ",
                " is not a valid host value and will be ignored.",
            ),
            NoteKind::ValueNotRestored => (
                "The value of ",
                " is not a valid host value and will be ignored.",
            ),
            NoteKind::NothingLoaded => (
                "No stored state could be read from ",
                "; starting with empty state.",
            ),
        };
        let mut text = String::from_str(head);
        text.append(self.path.as_str());
        text.append(tail);
        text
    }
}

/// Appends a diagnostic of `kind` at `path` to `notes`.
pub fn report(notes: &mut Vec<Diagnostic>, kind: NoteKind, path: &str)
    ensures
        notes_of(final(notes)@) == notes_of(old(notes)@).push(Note { kind, path: path@ }),
{
    notes.push(Diagnostic { kind, path: String::from_str(path) });
    assert(notes_of(notes@) =~= notes_of(old(notes)@).push(Note { kind, path: path@ }));
}

/// A float as it is named in a path: its bit pattern in hexadecimal.
pub open spec fn bits_text(bits: nat, digits: nat) -> Seq<char> {
    "0x"@ + hex(bits, digits)
}

/// How a key of the host is called by name.
pub open spec fn dynamic_key_name(key: DynamicModel) -> Seq<char> {
    match key {
        DynamicModel::Nil => "nil"@,
        DynamicModel::Boolean(b) => if b {
            "true"@
        } else {
            "false"@
        },
        DynamicModel::Integer(n) => signed_decimal(n as int),
        DynamicModel::Float(bits) => bits_text(bits as nat, 16),
        DynamicModel::Text(bytes) => "\""@ + lossy_text(bytes) + "\""@,
        DynamicModel::Composite(_, _) => "table"@,
        DynamicModel::Opaque => "<error>"@,
    }
}

/// The step that a key of the host adds to a path: a dot and the text for
/// a text key, the name in square brackets for any other.
pub open spec fn dynamic_key_seg(key: DynamicModel) -> Seq<char> {
    match key {
        DynamicModel::Text(bytes) => "."@ + lossy_text(bytes),
        DynamicModel::Opaque => "<error>"@,
        _ => "["@ + dynamic_key_name(key) + "]"@,
    }
}

/// How a stored key is called by name.
pub open spec fn generic_key_name(key: GenericModel) -> Seq<char> {
    match key {
        GenericModel::Nil => "nil"@,
        GenericModel::Boolean(b) => if b {
            "true"@
        } else {
            "false"@
        },
        GenericModel::Integer(n) => signed_decimal(n),
        GenericModel::Float32(bits) => bits_text(bits as nat, 8),
        GenericModel::Float64(bits) => bits_text(bits as nat, 16),
        GenericModel::Text(bytes) => "\""@ + lossy_text(bytes) + "\""@,
        GenericModel::Binary(bytes) => "\""@ + lossy_text(bytes) + "\""@,
        GenericModel::Array(_) => "table"@,
        GenericModel::Mapping(_) => "table"@,
        GenericModel::Extension(_, _) => "<error>"@,
    }
}

/// The step that a stored key adds to a path.
pub open spec fn generic_key_seg(key: GenericModel) -> Seq<char> {
    match key {
        GenericModel::Text(bytes) => "."@ + lossy_text(bytes),
        GenericModel::Binary(bytes) => "."@ + lossy_text(bytes),
        GenericModel::Extension(_, _) => "<error>"@,
        _ => "["@ + generic_key_name(key) + "]"@,
    }
}

/// The path under which a key itself is looked at.
pub open spec fn key_path(path: Seq<char>, name: Seq<char>) -> Seq<char> {
    path + ".<keyname "@ + name + ">"@
}

/// The path of the element at `index` of the array at `path`.
pub open spec fn index_path(path: Seq<char>, index: nat) -> Seq<char> {
    path + "["@ + signed_decimal(index as int) + "]"@
}

fn push_bits(text: &mut String, bits: u64, digits: u8)
    ensures
        final(text)@ == old(text)@ + bits_text(bits as nat, digits as nat),
{
    text.append("0x");
    push_hex(text, bits, digits);
    assert(text@ =~= old(text)@ + bits_text(bits as nat, digits as nat));
}

fn push_dynamic_name(text: &mut String, key: &DynamicValue)
    ensures
        final(text)@ == old(text)@ + dynamic_key_name(key@),
{
    match key {
        DynamicValue::Nil => text.append("nil"),
        DynamicValue::Boolean(b) => if *b {
            text.append("true")
        } else {
            text.append("false")
        },
        DynamicValue::Integer(n) => push_signed(text, *n),
        DynamicValue::Float(bits) => push_bits(text, *bits, 16),
        DynamicValue::Text(bytes) => {
            text.append("\"");
            text.append(lossy(bytes.as_slice()).as_str());
            text.append("\"");
            assert(text@ =~= old(text)@ + dynamic_key_name(key@));
        },
        DynamicValue::Composite(_) => text.append("table"),
        DynamicValue::Opaque => text.append("<error>"),
    }
}

fn push_generic_name(text: &mut String, key: &GenericValue)
    ensures
        final(text)@ == old(text)@ + generic_key_name(key@),
{
    match key {
        GenericValue::Nil => text.append("nil"),
        GenericValue::Boolean(b) => if *b {
            text.append("true")
        } else {
            text.append("false")
        },
        GenericValue::Integer(n) => match n.as_i64() {
            Some(small) => push_signed(text, small),
            None => match n {
                crate::value::GenericInt::Unsigned(large) => {
                    push_decimal(text, *large);
                },
                crate::value::GenericInt::Signed(small) => {
                    push_signed(text, *small);
                },
            },
        },
        GenericValue::Float32(bits) => push_bits(text, *bits as u64, 8),
        GenericValue::Float64(bits) => push_bits(text, *bits, 16),
        GenericValue::Text(bytes) => {
            text.append("\"");
            text.append(lossy(bytes.as_slice()).as_str());
            text.append("\"");
            assert(text@ =~= old(text)@ + generic_key_name(key@));
        },
        GenericValue::Binary(bytes) => {
            text.append("\"");
            text.append(lossy(bytes.as_slice()).as_str());
            text.append("\"");
            assert(text@ =~= old(text)@ + generic_key_name(key@));
        },
        GenericValue::Array(_) => text.append("table"),
        GenericValue::Mapping(_) => text.append("table"),
        GenericValue::Extension(_, _) => text.append("<error>"),
    }
}

/// The path under which the key `key` of the composite at `path` is looked at.
pub fn dynamic_key_path(path: &str, key: &DynamicValue) -> (text: String)
    ensures
        text@ == key_path(path@, dynamic_key_name(key@)),
{
    let mut text = String::from_str(path);
    text.append(".<keyname ");
    push_dynamic_name(&mut text, key);
    text.append(">");
    assert(text@ =~= key_path(path@, dynamic_key_name(key@)));
    text
}

/// The path of what the composite at `path` holds under `key`.
pub fn dynamic_child_path(path: &str, key: &DynamicValue) -> (text: String)
    ensures
        text@ == path@ + dynamic_key_seg(key@),
{
    let mut text = String::from_str(path);
    match key {
        DynamicValue::Text(bytes) => {
            text.append(".");
            text.append(lossy(bytes.as_slice()).as_str());
        },
        DynamicValue::Opaque => {
            text.append("<error>");
        },
        _ => {
            text.append("[");
            push_dynamic_name(&mut text, key);
            text.append("]");
        },
    }
    assert(text@ =~= path@ + dynamic_key_seg(key@));
    text
}

/// The path under which the key `key` of the mapping at `path` is looked at.
pub fn generic_key_path(path: &str, key: &GenericValue) -> (text: String)
    ensures
        text@ == key_path(path@, generic_key_name(key@)),
{
    let mut text = String::from_str(path);
    text.append(".<keyname ");
    push_generic_name(&mut text, key);
    text.append(">");
    assert(text@ =~= key_path(path@, generic_key_name(key@)));
    text
}

/// The path of what the mapping at `path` holds under `key`.
pub fn generic_child_path(path: &str, key: &GenericValue) -> (text: String)
    ensures
        text@ == path@ + generic_key_seg(key@),
{
    let mut text = String::from_str(path);
    match key {
        GenericValue::Text(bytes) => {
            text.append(".");
            text.append(lossy(bytes.as_slice()).as_str());
        },
        GenericValue::Binary(bytes) => {
            text.append(".");
            text.append(lossy(bytes.as_slice()).as_str());
        },
        GenericValue::Extension(_, _) => {
            text.append("<error>");
        },
        _ => {
            text.append("[");
            push_generic_name(&mut text, key);
            text.append("]");
        },
    }
    assert(text@ =~= path@ + generic_key_seg(key@));
    text
}

/// The path of the element at `index` of the array at `path`.
pub fn element_path(path: &str, index: usize) -> (text: String)
    ensures
        text@ == index_path(path@, index as nat),
{
    let mut text = String::from_str(path);
    text.append("[");
    push_decimal(&mut text, index as u64);
    text.append("]");
    assert(text@ =~= index_path(path@, index as nat));
    text
}

} // verus!
