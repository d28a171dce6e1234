//! What holds of the bridge for every value.

use crate::bridge::{
    pair_note, restored_form, restored_pairs, restoring_notes, restoring_pair_notes, stored_form,
    stored_pairs, storing_notes, storing_pair_notes,
};
use crate::dynamic::DynamicModel;
use crate::notes::{
    dynamic_key_name, dynamic_key_seg, generic_key_name, generic_key_seg, key_path, Note,
    NoteKind,
};
use crate::value::GenericModel;
use vstd::prelude::*;

verus! {

/// A value made of nil, booleans, integers, floats and text alone, or a
/// composite of such values that carries no extension.
pub open spec fn plain(value: DynamicModel) -> bool
    decreases value,
{
    match value {
        DynamicModel::Composite(pairs, extension) => !extension && forall|i: int|
            0 <= i < pairs.len() ==> plain((#[trigger] pairs[i]).0) && plain(pairs[i].1),
        DynamicModel::Opaque => false,
        _ => true,
    }
}

/// Every side of every pair is plain.
pub open spec fn plain_sides(pairs: Seq<(DynamicModel, DynamicModel)>) -> bool {
    forall|i: int| 0 <= i < pairs.len() ==> plain((#[trigger] pairs[i]).0) && plain(pairs[i].1)
}

/// The stored forms of all pairs of a list, side by side. Meaningful for
/// the pairs of which both sides have a stored form.
pub open spec fn stored_sides(pairs: Seq<(DynamicModel, DynamicModel)>) -> Seq<
    (GenericModel, GenericModel),
> {
    Seq::new(pairs.len(), |i: int| (stored_form(pairs[i].0)->0, stored_form(pairs[i].1)->0))
}

/// A plain value has a stored form, storing it reports nothing, and
/// restoring the stored form gives the value back and reports nothing.
pub proof fn law_round_trip(value: DynamicModel, path: Seq<char>, back: Seq<char>)
    requires
        plain(value),
    ensures
        stored_form(value) is Some,
        storing_notes(value, path) == Seq::<Note>::empty(),
        restored_form(stored_form(value)->0) == Some(value),
        restoring_notes(stored_form(value)->0, back) == Seq::<Note>::empty(),
    decreases value, 0nat,
{
    match value {
        DynamicModel::Composite(pairs, extension) => {
            lemma_round_trip_pairs(pairs, pairs.len(), path, back);
            assert(pairs.take(pairs.len() as int) =~= pairs);
            assert(stored_sides(pairs).take(pairs.len() as int) =~= stored_sides(pairs));
        },
        _ => {},
    }
}

/// The round trip of the first `n` pairs of a list of plain pairs.
proof fn lemma_round_trip_pairs(
    pairs: Seq<(DynamicModel, DynamicModel)>,
    n: nat,
    path: Seq<char>,
    back: Seq<char>,
)
    requires
        plain_sides(pairs),
        n <= pairs.len(),
    ensures
        stored_pairs(pairs, n) == stored_sides(pairs).take(n as int),
        storing_pair_notes(pairs, n, path) == Seq::<Note>::empty(),
        restored_pairs(stored_sides(pairs), n) == pairs.take(n as int),
        restoring_pair_notes(stored_sides(pairs), n, back) == Seq::<Note>::empty(),
    decreases pairs, n,
{
    let sides = stored_sides(pairs);
    if n == 0 {
        assert(stored_pairs(pairs, n) =~= sides.take(0));
        assert(restored_pairs(sides, n) =~= pairs.take(0));
    } else {
        let key = pairs[n - 1].0;
        let value = pairs[n - 1].1;
        lemma_round_trip_pairs(pairs, (n - 1) as nat, path, back);
        law_round_trip(
            key,
            key_path(path, dynamic_key_name(key)),
            key_path(back, generic_key_name(sides[n - 1].0)),
        );
        law_round_trip(value, path + dynamic_key_seg(key), back + generic_key_seg(sides[n - 1].0));
        assert(sides.take(n as int) =~= sides.take(n - 1).push(sides[n - 1]));
        assert(pairs.take(n as int) =~= pairs.take(n - 1).push(pairs[n - 1]));
    }
}

/// Of the pairs of a composite, one holds a value without a stored form
/// and all else is plain. Then storing keeps every other pair, in order,
/// and reports that one value and nothing else.
pub proof fn law_one_value_dropped(
    pairs: Seq<(DynamicModel, DynamicModel)>,
    at: int,
    path: Seq<char>,
)
    requires
        0 <= at < pairs.len(),
        plain(pairs[at].0),
        pairs[at].1 is Opaque,
        forall|i: int|
            0 <= i < pairs.len() && i != at ==> plain((#[trigger] pairs[i]).0) && plain(
                pairs[i].1,
            ),
    ensures
        stored_form(DynamicModel::Composite(pairs, false)) == Some(
            GenericModel::Mapping(stored_sides(pairs).remove(at)),
        ),
        stored_sides(pairs).remove(at).len() == pairs.len() - 1,
        storing_notes(DynamicModel::Composite(pairs, false), path) == seq![
            Note { kind: NoteKind::ValueNotStored, path: path + dynamic_key_seg(pairs[at].0) },
        ],
{
    lemma_one_value_dropped(pairs, at, path, pairs.len());
    assert(stored_sides(pairs).take(pairs.len() as int) =~= stored_sides(pairs));
}

proof fn lemma_one_value_dropped(
    pairs: Seq<(DynamicModel, DynamicModel)>,
    at: int,
    path: Seq<char>,
    n: nat,
)
    requires
        0 <= at < pairs.len(),
        n <= pairs.len(),
        plain(pairs[at].0),
        pairs[at].1 is Opaque,
        forall|i: int|
            0 <= i < pairs.len() && i != at ==> plain((#[trigger] pairs[i]).0) && plain(
                pairs[i].1,
            ),
    ensures
        n <= at ==> stored_pairs(pairs, n) == stored_sides(pairs).take(n as int),
        n <= at ==> storing_pair_notes(pairs, n, path) == Seq::<Note>::empty(),
        n > at ==> stored_pairs(pairs, n) == stored_sides(pairs).take(n as int).remove(at),
        n > at ==> storing_pair_notes(pairs, n, path) == seq![
            Note { kind: NoteKind::ValueNotStored, path: path + dynamic_key_seg(pairs[at].0) },
        ],
    decreases n,
{
    let sides = stored_sides(pairs);
    if n == 0 {
        assert(stored_pairs(pairs, n) =~= sides.take(0));
    } else {
        let key = pairs[n - 1].0;
        let value = pairs[n - 1].1;
        lemma_one_value_dropped(pairs, at, path, (n - 1) as nat);
        law_round_trip(key, key_path(path, dynamic_key_name(key)), path);
        let dropped = seq![
            Note { kind: NoteKind::ValueNotStored, path: path + dynamic_key_seg(pairs[at].0) },
        ];
        if n - 1 == at {
            assert(sides.take(n as int).remove(at) =~= sides.take(n - 1));
            let child = path + dynamic_key_seg(key);
            assert(storing_notes(value, child) =~= Seq::<Note>::empty());
            assert(stored_form(value) is None);
            assert(stored_form(key) is Some);
            assert(pair_note(
                true,
                false,
                NoteKind::KeyNotStored,
                NoteKind::ValueNotStored,
                path,
                child,
            ) =~= dropped);
            assert(storing_pair_notes(pairs, (n - 1) as nat, path) =~= Seq::<Note>::empty());
            assert(storing_pair_notes(pairs, n, path) =~= dropped);
        } else {
            law_round_trip(value, path + dynamic_key_seg(key), path);
            if n - 1 < at {
                assert(sides.take(n as int) =~= sides.take(n - 1).push(sides[n - 1]));
            } else {
                assert(sides.take(n as int).remove(at) =~= sides.take(n - 1).remove(at).push(
                    sides[n - 1],
                ));
                assert(storing_pair_notes(pairs, n, path) =~= dropped);
            }
        }
    }
}

} // verus!
