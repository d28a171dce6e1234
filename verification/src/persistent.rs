//! The persistent store: the state that outlives a run.
//!
//! The state is one composite. It is restored once, from the one stored
//! value that was read when the host started, and stored once, as one
//! mapping, when the host shuts down. Reading and writing the file is not
//! done here: `load` takes the bytes that were read, `save` gives the value
//! that is to be written.

use crate::bridge::{
    from_rmpv, restored_form, restoring_notes, stored_form, storing_notes, to_rmpv,
};
use crate::bridge_laws::{law_round_trip, plain};
use crate::codec::{unpack, unpacked};
use crate::dynamic::{Composite, DynamicModel};
use crate::notes::{notes_of, report, Diagnostic, Note, NoteKind};
use crate::value::{GenericModel, GenericValue};
use vstd::prelude::*;

verus! {

/// The name under which the state itself goes in paths.
pub const ROOT: &'static str = "<root>";

/// The state that the host starts with, from what was read: the composite
/// that a stored mapping stands for, and an empty composite where nothing
/// was read or what was read is no mapping.
pub open spec fn loaded_state(stored: Option<GenericModel>) -> DynamicModel {
    match stored {
        Some(GenericModel::Mapping(pairs)) => restored_form(GenericModel::Mapping(pairs))->0,
        _ => DynamicModel::Composite(Seq::empty(), false),
    }
}

/// What loading reports: what restoring the mapping reports, or the one
/// warning that nothing usable was found at `location`.
pub open spec fn loading_notes(stored: Option<GenericModel>, location: Seq<char>) -> Seq<Note> {
    match stored {
        Some(GenericModel::Mapping(pairs)) => restoring_notes(GenericModel::Mapping(pairs), ROOT@),
        _ => seq![Note { kind: NoteKind::NothingLoaded, path: location }],
    }
}

/// The state that survives between runs.
pub struct PersistentStore {}

impl PersistentStore {
    /// The state to start with. `contents` holds the bytes of the file at
    /// `location`, or nothing where there was no file or it could not be
    /// read. This never fails: where the bytes hold no stored mapping, the
    /// state starts empty and one warning says so.
    pub fn load(contents: Option<&[u8]>, location: &str, notes: &mut Vec<Diagnostic>) -> (state:
        Composite)
        ensures
            state@ == loaded_state(
                match contents {
                    Some(bytes) => unpacked(bytes@),
                    None => None,
                },
            ),
            notes_of(final(notes)@) == notes_of(old(notes)@) + loading_notes(
                match contents {
                    Some(bytes) => unpacked(bytes@),
                    None => None,
                },
                location@,
            ),
    {
        let stored = match contents {
            Some(bytes) => unpack(bytes),
            None => None,
        };
        PersistentStore::restore(stored.as_ref(), location, notes)
    }

    /// The state to start with, from the value that was read at `location`,
    /// if one was read. A mapping is restored; anything else, or nothing,
    /// gives the empty state and one warning.
    pub fn restore(stored: Option<&GenericValue>, location: &str, notes: &mut Vec<Diagnostic>) -> (state:
        Composite)
        ensures
            state@ == loaded_state(
                match stored {
                    Some(value) => Some(value@),
                    None => None,
                },
            ),
            notes_of(final(notes)@) == notes_of(old(notes)@) + loading_notes(
                match stored {
                    Some(value) => Some(value@),
                    None => None,
                },
                location@,
            ),
    {
        match stored {
            Some(GenericValue::Mapping(pairs)) => from_rmpv(pairs, ROOT, notes),
            _ => {
                report(notes, NoteKind::NothingLoaded, location);
                Composite::new()
            },
        }
    }

    /// The value to write: the mapping that stands for `state`.
    pub fn save(state: &Composite, notes: &mut Vec<Diagnostic>) -> (stored: GenericValue)
        ensures
            stored_form(state@) == Some(stored@),
            stored@ is Mapping,
            notes_of(final(notes)@) == notes_of(old(notes)@) + storing_notes(state@, ROOT@),
    {
        to_rmpv(state, ROOT, notes)
    }
}

/// Where nothing was read, the state starts as the empty composite, and
/// the one thing reported is that nothing was loaded.
pub proof fn law_nothing_stored(location: Seq<char>)
    ensures
        loaded_state(None) == DynamicModel::Composite(Seq::empty(), false),
        loading_notes(None, location) == seq![
            Note { kind: NoteKind::NothingLoaded, path: location },
        ],
{
}

/// What was saved is loaded again: a plain composite comes back from its
/// stored form as it was, and neither saving nor loading reports anything.
pub proof fn law_save_then_load(state: DynamicModel, location: Seq<char>)
    requires
        state is Composite,
        plain(state),
    ensures
        stored_form(state) is Some,
        storing_notes(state, ROOT@) == Seq::<Note>::empty(),
        loaded_state(stored_form(state)) == state,
        loading_notes(stored_form(state), location) == Seq::<Note>::empty(),
{
    law_round_trip(state, ROOT@, ROOT@);
}

} // verus!
