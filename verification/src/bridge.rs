//! The bridge between the values of the host and the stored values.
//!
//! Storing turns a dynamic value into a generic one; restoring goes the
//! other way. Both work through a composite pair by pair: a pair of which
//! one side cannot be converted is left out and reported, and the rest is
//! converted all the same.

use crate::dynamic::{dynamic_pairs, Composite, DynamicModel, DynamicValue};
use crate::float::{widen, widen_single};
use crate::notes::{
    dynamic_child_path, dynamic_key_name, dynamic_key_path, dynamic_key_seg, element_path,
    generic_child_path, generic_key_name, generic_key_path, generic_key_seg, index_path,
    key_path, notes_of, report, Diagnostic, Note, NoteKind,
};
use crate::value::{generic_items, generic_pairs, GenericInt, GenericModel, GenericValue};
use vstd::prelude::*;

verus! {

/// The stored form of a dynamic value. Nil, booleans, integers, floats
/// and text have one; a composite has one made of those of its pairs
/// that have one on both sides; an opaque value has none.
pub open spec fn stored_form(value: DynamicModel) -> Option<GenericModel>
    decreases value, 0nat,
{
    match value {
        DynamicModel::Nil => Some(GenericModel::Nil),
        DynamicModel::Boolean(b) => Some(GenericModel::Boolean(b)),
        DynamicModel::Integer(n) => Some(GenericModel::Integer(n as int)),
        DynamicModel::Float(bits) => Some(GenericModel::Float64(bits)),
        DynamicModel::Text(bytes) => Some(GenericModel::Binary(bytes)),
        DynamicModel::Composite(pairs, _) => Some(
            GenericModel::Mapping(stored_pairs(pairs, pairs.len())),
        ),
        DynamicModel::Opaque => None,
    }
}

/// The stored forms of the first `n` pairs, without the pairs that have none.
pub open spec fn stored_pairs(pairs: Seq<(DynamicModel, DynamicModel)>, n: nat) -> Seq<
    (GenericModel, GenericModel),
>
    decreases pairs, n,
{
    if n == 0 || n > pairs.len() {
        Seq::empty()
    } else {
        let before = stored_pairs(pairs, (n - 1) as nat);
        match (stored_form(pairs[n - 1].0), stored_form(pairs[n - 1].1)) {
            (Some(key), Some(value)) => before.push((key, value)),
            _ => before,
        }
    }
}

/// What is reported of one pair once both its sides were looked at:
/// nothing where both were converted, else the side that was not, the key
/// first.
pub open spec fn pair_note(
    key_done: bool,
    value_done: bool,
    key_kind: NoteKind,
    value_kind: NoteKind,
    path: Seq<char>,
    child: Seq<char>,
) -> Seq<Note> {
    if !key_done {
        seq![Note { kind: key_kind, path }]
    } else if !value_done {
        seq![Note { kind: value_kind, path: child }]
    } else {
        Seq::empty()
    }
}

/// What storing `value`, which stands at `path`, reports, in order.
pub open spec fn storing_notes(value: DynamicModel, path: Seq<char>) -> Seq<Note>
    decreases value, 0nat,
{
    match value {
        DynamicModel::Composite(pairs, extension) => {
            let first = if extension {
                seq![Note { kind: NoteKind::ExtensionDropped, path }]
            } else {
                Seq::empty()
            };
            first + storing_pair_notes(pairs, pairs.len(), path)
        },
        _ => Seq::empty(),
    }
}

/// What storing the first `n` pairs of the composite at `path` reports:
/// for each pair what its key reports, what its value reports, and then
/// what is reported of the pair.
pub open spec fn storing_pair_notes(
    pairs: Seq<(DynamicModel, DynamicModel)>,
    n: nat,
    path: Seq<char>,
) -> Seq<Note>
    decreases pairs, n,
{
    if n == 0 || n > pairs.len() {
        Seq::empty()
    } else {
        let key = pairs[n - 1].0;
        let value = pairs[n - 1].1;
        let child = path + dynamic_key_seg(key);
        storing_pair_notes(pairs, (n - 1) as nat, path) + storing_notes(
            key,
            key_path(path, dynamic_key_name(key)),
        ) + storing_notes(value, child) + pair_note(
            stored_form(key) is Some,
            stored_form(value) is Some,
            NoteKind::KeyNotStored,
            NoteKind::ValueNotStored,
            path,
            child,
        )
    }
}

/// Copies bytes.
fn copy_bytes(bytes: &Vec<u8>) -> (copy: Vec<u8>)
    ensures
        copy@ == bytes@,
{
    let mut copy: Vec<u8> = Vec::new();
    let mut i: usize = 0;
    while i < bytes.len()
        invariant
            i <= bytes.len(),
            copy@ == bytes@.subrange(0, i as int),
        decreases bytes.len() - i,
    {
        copy.push(bytes[i]);
        i += 1;
    }
    assert(bytes@.subrange(0, bytes.len() as int) =~= bytes@);
    copy
}

/// Stores the pairs of a composite that stands at `path`.
fn encode_pairs(pairs: &Vec<(DynamicValue, DynamicValue)>, path: &str, notes: &mut Vec<Diagnostic>) -> (stored:
    Vec<(GenericValue, GenericValue)>)
    ensures
        generic_pairs(stored@) == stored_pairs(dynamic_pairs(pairs@), pairs@.len()),
        notes_of(final(notes)@) == notes_of(old(notes)@) + storing_pair_notes(
            dynamic_pairs(pairs@),
            pairs@.len(),
            path@,
        ),
    decreases pairs, 0nat,
{
    let ghost model = dynamic_pairs(pairs@);
    let mut stored: Vec<(GenericValue, GenericValue)> = Vec::new();
    let mut i: usize = 0;
    assert(generic_pairs(stored@) =~= stored_pairs(model, 0));
    assert(notes_of(notes@) =~= notes_of(old(notes)@) + storing_pair_notes(model, 0, path@));
    while i < pairs.len()
        invariant
            i <= pairs.len(),
            model == dynamic_pairs(pairs@),
            generic_pairs(stored@) == stored_pairs(model, i as nat),
            notes_of(notes@) == notes_of(old(notes)@) + storing_pair_notes(model, i as nat, path@),
        decreases pairs.len() - i,
    {
        let ghost before = notes_of(notes@);
        let ghost done = generic_pairs(stored@);
        let key = &pairs[i].0;
        let value = &pairs[i].1;
        let name_path = dynamic_key_path(path, key);
        let child = dynamic_child_path(path, key);
        let stored_key = encode(key, name_path.as_str(), notes);
        let stored_value = encode(value, child.as_str(), notes);
        match (stored_key, stored_value) {
            (Some(k), Some(v)) => {
                stored.push((k, v));
                assert(generic_pairs(stored@) =~= done.push((k@, v@)));
            },
            (None, _) => {
                report(notes, NoteKind::KeyNotStored, path);
            },
            (Some(_), None) => {
                report(notes, NoteKind::ValueNotStored, child.as_str());
            },
        }
        proof {
            assert(model[i as int] == (key@, value@));
            assert(notes_of(notes@) =~= before + storing_notes(
                key@,
                key_path(path@, dynamic_key_name(key@)),
            ) + storing_notes(value@, child@) + pair_note(
                stored_form(key@) is Some,
                stored_form(value@) is Some,
                NoteKind::KeyNotStored,
                NoteKind::ValueNotStored,
                path@,
                child@,
            ));
        }
        i += 1;
    }
    stored
}

/// Stores `value`, which stands at `path`. What cannot be stored inside a
/// composite is left out of it and reported in `notes`; a value that
/// cannot be stored itself gives nothing, and that is for the caller to
/// report.
pub fn encode(value: &DynamicValue, path: &str, notes: &mut Vec<Diagnostic>) -> (stored: Option<
    GenericValue,
>)
    ensures
        match stored {
            Some(generic) => stored_form(value@) == Some(generic@),
            None => stored_form(value@) is None,
        },
        notes_of(final(notes)@) == notes_of(old(notes)@) + storing_notes(value@, path@),
    decreases value, 1nat,
{
    match value {
        DynamicValue::Nil => Some(GenericValue::Nil),
        DynamicValue::Boolean(b) => Some(GenericValue::Boolean(*b)),
        DynamicValue::Integer(n) => Some(GenericValue::Integer(GenericInt::from_i64(*n))),
        DynamicValue::Float(bits) => Some(GenericValue::Float64(*bits)),
        DynamicValue::Text(bytes) => Some(GenericValue::Binary(copy_bytes(bytes))),
        DynamicValue::Composite(composite) => Some(to_rmpv(composite, path, notes)),
        DynamicValue::Opaque => None,
    }
}

/// Stores a composite, which stands at `path`. This always gives a
/// mapping: the pairs that can be stored, in their order.
pub fn to_rmpv(table: &Composite, path: &str, notes: &mut Vec<Diagnostic>) -> (stored: GenericValue)
    ensures
        stored_form(table@) == Some(stored@),
        stored@ is Mapping,
        notes_of(final(notes)@) == notes_of(old(notes)@) + storing_notes(table@, path@),
    decreases table, 1nat,
{
    if table.extension {
        report(notes, NoteKind::ExtensionDropped, path);
    }
    let stored = encode_pairs(&table.pairs, path, notes);
    GenericValue::Mapping(stored)
}

/// The host value that a stored value stands for. An integer has one
/// where it fits 64 signed bits; a single widens to a double; text and
/// binary both become text of the host; an array becomes a composite keyed
/// by position, from zero; an extension has none.
pub open spec fn restored_form(stored: GenericModel) -> Option<DynamicModel>
    decreases stored, 0nat,
{
    match stored {
        GenericModel::Nil => Some(DynamicModel::Nil),
        GenericModel::Boolean(b) => Some(DynamicModel::Boolean(b)),
        GenericModel::Integer(n) => if i64::MIN <= n <= i64::MAX {
            Some(DynamicModel::Integer(n as i64))
        } else {
            None
        },
        GenericModel::Float32(bits) => Some(DynamicModel::Float(widen(bits))),
        GenericModel::Float64(bits) => Some(DynamicModel::Float(bits)),
        GenericModel::Text(bytes) => Some(DynamicModel::Text(bytes)),
        GenericModel::Binary(bytes) => Some(DynamicModel::Text(bytes)),
        GenericModel::Array(items) => Some(
            DynamicModel::Composite(restored_items(items, items.len()), false),
        ),
        GenericModel::Mapping(pairs) => Some(
            DynamicModel::Composite(restored_pairs(pairs, pairs.len()), false),
        ),
        GenericModel::Extension(_, _) => None,
    }
}

/// The element at `index` of an array as a pair of the host: its position
/// and its value. There is none where the element stands for no host value
/// or the position is no integer of the host.
pub open spec fn restored_item(items: Seq<GenericModel>, index: int) -> Option<
    (DynamicModel, DynamicModel),
>
    decreases items, 0nat,
{
    if 0 <= index < items.len() && index <= i64::MAX {
        match restored_form(items[index]) {
            Some(value) => Some((DynamicModel::Integer(index as i64), value)),
            None => None,
        }
    } else {
        None
    }
}

/// The first `n` elements of an array as pairs of the host.
pub open spec fn restored_items(items: Seq<GenericModel>, n: nat) -> Seq<
    (DynamicModel, DynamicModel),
>
    decreases items, n,
{
    if n == 0 || n > items.len() {
        Seq::empty()
    } else {
        let before = restored_items(items, (n - 1) as nat);
        match restored_item(items, n - 1) {
            Some(pair) => before.push(pair),
            None => before,
        }
    }
}

/// The first `n` pairs of a mapping as pairs of the host, without the
/// pairs of which one side stands for no host value.
pub open spec fn restored_pairs(pairs: Seq<(GenericModel, GenericModel)>, n: nat) -> Seq<
    (DynamicModel, DynamicModel),
>
    decreases pairs, n,
{
    if n == 0 || n > pairs.len() {
        Seq::empty()
    } else {
        let before = restored_pairs(pairs, (n - 1) as nat);
        match (restored_form(pairs[n - 1].0), restored_form(pairs[n - 1].1)) {
            (Some(key), Some(value)) => before.push((key, value)),
            _ => before,
        }
    }
}

/// What restoring `stored`, which stands at `path`, reports, in order.
pub open spec fn restoring_notes(stored: GenericModel, path: Seq<char>) -> Seq<Note>
    decreases stored, 0nat,
{
    match stored {
        GenericModel::Array(items) => restoring_item_notes(items, items.len(), path),
        GenericModel::Mapping(pairs) => restoring_pair_notes(pairs, pairs.len(), path),
        _ => Seq::empty(),
    }
}

/// What restoring the first `n` elements of the array at `path` reports:
/// for each element what it reports itself, and then the element where it
/// was left out.
pub open spec fn restoring_item_notes(items: Seq<GenericModel>, n: nat, path: Seq<char>) -> Seq<Note>
    decreases items, n,
{
    if n == 0 || n > items.len() {
        Seq::empty()
    } else {
        let at = index_path(path, (n - 1) as nat);
        let left_out = if restored_item(items, n - 1) is None {
            seq![Note { kind: NoteKind::ValueNotRestored, path: at }]
        } else {
            Seq::empty()
        };
        restoring_item_notes(items, (n - 1) as nat, path) + restoring_notes(items[n - 1], at)
            + left_out
    }
}

/// What restoring the first `n` pairs of the mapping at `path` reports:
/// for each pair what its key reports, what its value reports, and then
/// what is reported of the pair.
pub open spec fn restoring_pair_notes(
    pairs: Seq<(GenericModel, GenericModel)>,
    n: nat,
    path: Seq<char>,
) -> Seq<Note>
    decreases pairs, n,
{
    if n == 0 || n > pairs.len() {
        Seq::empty()
    } else {
        let key = pairs[n - 1].0;
        let value = pairs[n - 1].1;
        let child = path + generic_key_seg(key);
        restoring_pair_notes(pairs, (n - 1) as nat, path) + restoring_notes(
            key,
            key_path(path, generic_key_name(key)),
        ) + restoring_notes(value, child) + pair_note(
            restored_form(key) is Some,
            restored_form(value) is Some,
            NoteKind::KeyNotRestored,
            NoteKind::ValueNotRestored,
            path,
            child,
        )
    }
}

/// Restores the elements of an array that stands at `path`.
fn decode_items(items: &Vec<GenericValue>, path: &str, notes: &mut Vec<Diagnostic>) -> (restored:
    Vec<(DynamicValue, DynamicValue)>)
    ensures
        dynamic_pairs(restored@) == restored_items(generic_items(items@), items@.len()),
        notes_of(final(notes)@) == notes_of(old(notes)@) + restoring_item_notes(
            generic_items(items@),
            items@.len(),
            path@,
        ),
    decreases items, 0nat,
{
    let ghost model = generic_items(items@);
    let mut restored: Vec<(DynamicValue, DynamicValue)> = Vec::new();
    let mut i: usize = 0;
    assert(dynamic_pairs(restored@) =~= restored_items(model, 0));
    assert(notes_of(notes@) =~= notes_of(old(notes)@) + restoring_item_notes(model, 0, path@));
    while i < items.len()
        invariant
            i <= items.len(),
            model == generic_items(items@),
            dynamic_pairs(restored@) == restored_items(model, i as nat),
            notes_of(notes@) == notes_of(old(notes)@) + restoring_item_notes(
                model,
                i as nat,
                path@,
            ),
        decreases items.len() - i,
    {
        let ghost before = notes_of(notes@);
        let ghost done = dynamic_pairs(restored@);
        let at = element_path(path, i);
        let value = decode(&items[i], at.as_str(), notes);
        let position: u64 = i as u64;
        assert(model[i as int] == items@[i as int]@);
        match value {
            Some(v) => {
                if position <= 0x7fff_ffff_ffff_ffff {
                    let key = DynamicValue::Integer(position as i64);
                    restored.push((key, v));
                    assert(dynamic_pairs(restored@) =~= done.push((key@, v@)));
                } else {
                    report(notes, NoteKind::ValueNotRestored, at.as_str());
                }
            },
            None => {
                report(notes, NoteKind::ValueNotRestored, at.as_str());
            },
        }
        proof {
            let left_out = if restored_item(model, i as int) is None {
                seq![Note { kind: NoteKind::ValueNotRestored, path: at@ }]
            } else {
                Seq::empty()
            };
            assert(notes_of(notes@) =~= before + restoring_notes(model[i as int], at@) + left_out);
        }
        i += 1;
    }
    restored
}

/// Restores the pairs of a mapping that stands at `path`.
fn decode_pairs(pairs: &Vec<(GenericValue, GenericValue)>, path: &str, notes: &mut Vec<Diagnostic>) -> (restored:
    Vec<(DynamicValue, DynamicValue)>)
    ensures
        dynamic_pairs(restored@) == restored_pairs(generic_pairs(pairs@), pairs@.len()),
        notes_of(final(notes)@) == notes_of(old(notes)@) + restoring_pair_notes(
            generic_pairs(pairs@),
            pairs@.len(),
            path@,
        ),
    decreases pairs, 0nat,
{
    let ghost model = generic_pairs(pairs@);
    let mut restored: Vec<(DynamicValue, DynamicValue)> = Vec::new();
    let mut i: usize = 0;
    assert(dynamic_pairs(restored@) =~= restored_pairs(model, 0));
    assert(notes_of(notes@) =~= notes_of(old(notes)@) + restoring_pair_notes(model, 0, path@));
    while i < pairs.len()
        invariant
            i <= pairs.len(),
            model == generic_pairs(pairs@),
            dynamic_pairs(restored@) == restored_pairs(model, i as nat),
            notes_of(notes@) == notes_of(old(notes)@) + restoring_pair_notes(
                model,
                i as nat,
                path@,
            ),
        decreases pairs.len() - i,
    {
        let ghost before = notes_of(notes@);
        let ghost done = dynamic_pairs(restored@);
        let key = &pairs[i].0;
        let value = &pairs[i].1;
        let name_path = generic_key_path(path, key);
        let child = generic_child_path(path, key);
        let restored_key = decode(key, name_path.as_str(), notes);
        let restored_value = decode(value, child.as_str(), notes);
        match (restored_key, restored_value) {
            (Some(k), Some(v)) => {
                restored.push((k, v));
                assert(dynamic_pairs(restored@) =~= done.push((k@, v@)));
            },
            (None, _) => {
                report(notes, NoteKind::KeyNotRestored, path);
            },
            (Some(_), None) => {
                report(notes, NoteKind::ValueNotRestored, child.as_str());
            },
        }
        proof {
            assert(model[i as int] == (key@, value@));
            assert(notes_of(notes@) =~= before + restoring_notes(
                key@,
                key_path(path@, generic_key_name(key@)),
            ) + restoring_notes(value@, child@) + pair_note(
                restored_form(key@) is Some,
                restored_form(value@) is Some,
                NoteKind::KeyNotRestored,
                NoteKind::ValueNotRestored,
                path@,
                child@,
            ));
        }
        i += 1;
    }
    restored
}

/// Restores `stored`, which stands at `path`. What stands for no host
/// value inside an array or a mapping is left out of the composite and
/// reported in `notes`; a value that stands for no host value itself gives
/// nothing, and that is for the caller to report.
pub fn decode(stored: &GenericValue, path: &str, notes: &mut Vec<Diagnostic>) -> (restored: Option<
    DynamicValue,
>)
    ensures
        match restored {
            Some(value) => restored_form(stored@) == Some(value@),
            None => restored_form(stored@) is None,
        },
        notes_of(final(notes)@) == notes_of(old(notes)@) + restoring_notes(stored@, path@),
    decreases stored, 1nat,
{
    match stored {
        GenericValue::Nil => Some(DynamicValue::Nil),
        GenericValue::Boolean(b) => Some(DynamicValue::Boolean(*b)),
        GenericValue::Integer(n) => match n.as_i64() {
            Some(small) => Some(DynamicValue::Integer(small)),
            None => None,
        },
        GenericValue::Float32(bits) => Some(DynamicValue::Float(widen_single(*bits))),
        GenericValue::Float64(bits) => Some(DynamicValue::Float(*bits)),
        GenericValue::Text(bytes) => Some(DynamicValue::Text(copy_bytes(bytes))),
        GenericValue::Binary(bytes) => Some(DynamicValue::Text(copy_bytes(bytes))),
        GenericValue::Array(items) => {
            let pairs = decode_items(items, path, notes);
            Some(DynamicValue::Composite(Composite { pairs, extension: false }))
        },
        GenericValue::Mapping(pairs) => Some(
            DynamicValue::Composite(from_rmpv(pairs, path, notes)),
        ),
        GenericValue::Extension(_, _) => None,
    }
}

/// Restores the pairs of a mapping, which stands at `path`, as a
/// composite. This always gives a composite: the pairs that stand for
/// host values, in their order. A key that the mapping holds twice is
/// restored twice; a host that keeps one value for each key takes the
/// pairs over in order, so that the later one stays.
pub fn from_rmpv(map: &Vec<(GenericValue, GenericValue)>, path: &str, notes: &mut Vec<Diagnostic>) -> (table:
    Composite)
    ensures
        restored_form(GenericModel::Mapping(generic_pairs(map@))) == Some(table@),
        notes_of(final(notes)@) == notes_of(old(notes)@) + restoring_notes(
            GenericModel::Mapping(generic_pairs(map@)),
            path@,
        ),
    decreases map, 1nat,
{
    let pairs = decode_pairs(map, path, notes);
    Composite { pairs, extension: false }
}

} // verus!
