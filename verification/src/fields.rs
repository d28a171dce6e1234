//! The field table of a request or a response: an ordered list of named
//! values in which every name occurs once. Writing a name that is already
//! there replaces its value in place; a new name goes to the end.

use crate::text::same_text;
use vstd::prelude::*;

verus! {

/// Some entry of `pairs` is named `name`.
pub open spec fn holds(pairs: Seq<(Seq<char>, Seq<char>)>, name: Seq<char>) -> bool {
    exists|i: int| 0 <= i < pairs.len() && (#[trigger] pairs[i]).0 == name
}

/// Where the entry named `name` stands. Meaningful when `holds(pairs, name)`.
pub open spec fn position(pairs: Seq<(Seq<char>, Seq<char>)>, name: Seq<char>) -> int {
    choose|i: int| 0 <= i < pairs.len() && (#[trigger] pairs[i]).0 == name
}

/// No name occurs twice.
pub open spec fn distinct(pairs: Seq<(Seq<char>, Seq<char>)>) -> bool {
    forall|i: int, j: int|
        0 <= i < j < pairs.len() ==> (#[trigger] pairs[i]).0 != (#[trigger] pairs[j]).0
}

/// The value stored under `name`.
pub open spec fn lookup(pairs: Seq<(Seq<char>, Seq<char>)>, name: Seq<char>) -> Option<Seq<char>> {
    if holds(pairs, name) {
        Some(pairs[position(pairs, name)].1)
    } else {
        None
    }
}

/// `pairs` after writing `value` under `name`.
pub open spec fn put(pairs: Seq<(Seq<char>, Seq<char>)>, name: Seq<char>, value: Seq<char>) -> Seq<
    (Seq<char>, Seq<char>),
> {
    if holds(pairs, name) {
        pairs.update(position(pairs, name), (name, value))
    } else {
        pairs.push((name, value))
    }
}

/// `pairs` after writing every item of `items`, first to last.
pub open spec fn put_all(
    pairs: Seq<(Seq<char>, Seq<char>)>,
    items: Seq<(Seq<char>, Seq<char>)>,
) -> Seq<(Seq<char>, Seq<char>)>
    decreases items.len(),
{
    if items.len() == 0 {
        pairs
    } else {
        put_all(put(pairs, items[0].0, items[0].1), items.drop_first())
    }
}

/// The table read as a mapping from name to value.
pub open spec fn as_map(pairs: Seq<(Seq<char>, Seq<char>)>) -> Map<Seq<char>, Seq<char>> {
    Map::new(|name: Seq<char>| holds(pairs, name), |name: Seq<char>| pairs[position(pairs, name)].1)
}

/// In a table without repeated names, the entry at `i` is the one its name finds.
pub proof fn lemma_position(pairs: Seq<(Seq<char>, Seq<char>)>, i: int)
    requires
        distinct(pairs),
        0 <= i < pairs.len(),
    ensures
        holds(pairs, pairs[i].0),
        position(pairs, pairs[i].0) == i,
{
    let name = pairs[i].0;
    let p = position(pairs, name);
    assert(0 <= p < pairs.len() && pairs[p].0 == name);
    if p < i {
        assert(pairs[p].0 != pairs[i].0);
    } else if i < p {
        assert(pairs[i].0 != pairs[p].0);
    }
}

/// Writing keeps names unique.
pub proof fn lemma_put_distinct(pairs: Seq<(Seq<char>, Seq<char>)>, name: Seq<char>, value: Seq<char>)
    requires
        distinct(pairs),
    ensures
        distinct(put(pairs, name, value)),
{
    let after = put(pairs, name, value);
    if holds(pairs, name) {
        let p = position(pairs, name);
        assert forall|i: int, j: int| 0 <= i < j < after.len() implies (#[trigger] after[i]).0
            != (#[trigger] after[j]).0 by {
            assert(after[i].0 == pairs[i].0);
            assert(after[j].0 == pairs[j].0);
        }
    } else {
        assert forall|i: int, j: int| 0 <= i < j < after.len() implies (#[trigger] after[i]).0
            != (#[trigger] after[j]).0 by {
            if j == pairs.len() {
                assert(pairs[i].0 != name);
            } else {
                assert(after[i].0 == pairs[i].0);
                assert(after[j].0 == pairs[j].0);
            }
        }
    }
}

/// Writing every item of a list keeps names unique.
pub proof fn lemma_put_all_distinct(
    pairs: Seq<(Seq<char>, Seq<char>)>,
    items: Seq<(Seq<char>, Seq<char>)>,
)
    requires
        distinct(pairs),
    ensures
        distinct(put_all(pairs, items)),
    decreases items.len(),
{
    if items.len() > 0 {
        lemma_put_distinct(pairs, items[0].0, items[0].1);
        lemma_put_all_distinct(put(pairs, items[0].0, items[0].1), items.drop_first());
    }
}

/// A write is read back: after `put`, the name holds the value written.
pub proof fn law_put_then_lookup(pairs: Seq<(Seq<char>, Seq<char>)>, name: Seq<char>, value: Seq<char>)
    requires
        distinct(pairs),
    ensures
        lookup(put(pairs, name, value), name) == Some(value),
{
    let after = put(pairs, name, value);
    lemma_put_distinct(pairs, name, value);
    if holds(pairs, name) {
        let p = position(pairs, name);
        assert(after[p] == (name, value));
        lemma_position(after, p);
    } else {
        let p = pairs.len() as int;
        assert(after[p] == (name, value));
        lemma_position(after, p);
    }
}

/// A write leaves every other name as it was.
pub proof fn law_put_keeps_others(
    pairs: Seq<(Seq<char>, Seq<char>)>,
    name: Seq<char>,
    value: Seq<char>,
    other: Seq<char>,
)
    requires
        distinct(pairs),
        other != name,
    ensures
        lookup(put(pairs, name, value), other) == lookup(pairs, other),
{
    let after = put(pairs, name, value);
    lemma_put_distinct(pairs, name, value);
    if holds(pairs, other) {
        let q = position(pairs, other);
        assert(after[q] == pairs[q]);
        lemma_position(pairs, q);
        lemma_position(after, q);
    } else {
        if holds(after, other) {
            let q = position(after, other);
            if q < pairs.len() {
                assert(pairs[q].0 == other);
            }
            assert(false);
        }
    }
}

/// The value of the last item of `items` that is named `name`.
pub open spec fn last_value(items: Seq<(Seq<char>, Seq<char>)>, name: Seq<char>) -> Option<
    Seq<char>,
>
    decreases items.len(),
{
    if items.len() == 0 {
        None
    } else {
        match last_value(items.drop_first(), name) {
            Some(value) => Some(value),
            None => if items[0].0 == name {
                Some(items[0].1)
            } else {
                None
            },
        }
    }
}

/// The last write wins: after writing a list of items, a name holds the
/// value of the last item that bears it, and what it held before where no
/// item bears it.
pub proof fn law_last_write_wins(
    pairs: Seq<(Seq<char>, Seq<char>)>,
    items: Seq<(Seq<char>, Seq<char>)>,
    name: Seq<char>,
)
    requires
        distinct(pairs),
    ensures
        lookup(put_all(pairs, items), name) == match last_value(items, name) {
            Some(value) => Some(value),
            None => lookup(pairs, name),
        },
    decreases items.len(),
{
    if items.len() > 0 {
        let first = put(pairs, items[0].0, items[0].1);
        lemma_put_distinct(pairs, items[0].0, items[0].1);
        law_last_write_wins(first, items.drop_first(), name);
        if items[0].0 == name {
            law_put_then_lookup(pairs, items[0].0, items[0].1);
        } else {
            law_put_keeps_others(pairs, items[0].0, items[0].1, name);
        }
    }
}

/// Read as a mapping, a write is an insertion.
pub proof fn law_put_is_insert(pairs: Seq<(Seq<char>, Seq<char>)>, name: Seq<char>, value: Seq<char>)
    requires
        distinct(pairs),
    ensures
        as_map(put(pairs, name, value)) == as_map(pairs).insert(name, value),
{
    let after = put(pairs, name, value);
    let left = as_map(after);
    let right = as_map(pairs).insert(name, value);
    assert forall|k: Seq<char>| left.dom().contains(k) == right.dom().contains(k) by {
        if k == name {
            law_put_then_lookup(pairs, name, value);
        } else {
            law_put_keeps_others(pairs, name, value, k);
        }
    }
    assert forall|k: Seq<char>| left.dom().contains(k) implies left[k] == right[k] by {
        if k == name {
            law_put_then_lookup(pairs, name, value);
        } else {
            law_put_keeps_others(pairs, name, value, k);
        }
    }
    assert(left =~= right);
}

/// The entries of a table as plain text.
spec fn texts(entries: Seq<(String, String)>) -> Seq<(Seq<char>, Seq<char>)> {
    entries.map_values(|e: (String, String)| (e.0@, e.1@))
}

/// An ordered table of named text values with unique names.
pub struct FieldMap {
    entries: Vec<(String, String)>,
}

impl View for FieldMap {
    type V = Map<Seq<char>, Seq<char>>;

    open spec fn view(&self) -> Map<Seq<char>, Seq<char>> {
        as_map(self.pairs())
    }
}

impl FieldMap {
    /// The entries in order, each as (name, value).
    pub closed spec fn pairs(&self) -> Seq<(Seq<char>, Seq<char>)> {
        texts(self.entries@)
    }

    #[verifier::type_invariant]
    spec fn names_unique(&self) -> bool {
        distinct(self.pairs())
    }

    /// An empty table.
    pub fn new() -> (table: FieldMap)
        ensures
            table.pairs() == Seq::<(Seq<char>, Seq<char>)>::empty(),
            distinct(table.pairs()),
    {
        let table = FieldMap { entries: Vec::new() };
        assert(table.pairs() =~= Seq::<(Seq<char>, Seq<char>)>::empty());
        table
    }

    /// No name occurs twice: every table keeps to that.
    pub fn unique(&self)
        ensures
            distinct(self.pairs()),
    {
        proof {
            use_type_invariant(self);
        }
    }

    /// How many entries the table has.
    pub fn len(&self) -> (n: usize)
        ensures
            n == self.pairs().len(),
    {
        self.entries.len()
    }

    fn find(&self, name: &str) -> (found: Option<usize>)
        ensures
            distinct(self.pairs()),
            match found {
                Some(i) => holds(self.pairs(), name@) && position(self.pairs(), name@) == i && i
                    < self.pairs().len(),
                None => !holds(self.pairs(), name@),
            },
    {
        proof {
            use_type_invariant(self);
        }
        let mut i: usize = 0;
        while i < self.entries.len()
            invariant
                i <= self.entries.len(),
                distinct(self.pairs()),
                forall|j: int| 0 <= j < i ==> (#[trigger] self.pairs()[j]).0 != name@,
            decreases self.entries.len() - i,
        {
            assert(self.pairs()[i as int].0 == self.entries@[i as int].0@);
            if same_text(self.entries[i].0.as_str(), name) {
                proof {
                    lemma_position(self.pairs(), i as int);
                }
                return Some(i);
            }
            i += 1;
        }
        None
    }

    /// The value stored under `name`, if the table has that name.
    pub fn get(&self, name: &str) -> (value: Option<&str>)
        ensures
            match value {
                Some(v) => lookup(self.pairs(), name@) == Some(v@),
                None => lookup(self.pairs(), name@) is None,
            },
    {
        match self.find(name) {
            Some(i) => Some(self.entries[i].1.as_str()),
            None => None,
        }
    }

    /// The table after writing `value` under `name`: in place where the name
    /// is already there, at the end where it is new.
    pub fn insert(self, name: String, value: String) -> (table: FieldMap)
        ensures
            table.pairs() == put(self.pairs(), name@, value@),
            distinct(self.pairs()),
            distinct(table.pairs()),
    {
        let found = self.find(name.as_str());
        proof {
            lemma_put_distinct(self.pairs(), name@, value@);
        }
        let mut entries = self.entries;
        match found {
            Some(i) => {
                entries.set(i, (name, value));
            },
            None => {
                entries.push((name, value));
            },
        }
        assert(texts(entries@) =~= put(self.pairs(), name@, value@));
        FieldMap { entries }
    }

    /// The name of the entry at `index`.
    pub fn name_at(&self, index: usize) -> (name: &str)
        requires
            index < self.pairs().len(),
        ensures
            name@ == self.pairs()[index as int].0,
    {
        self.entries[index].0.as_str()
    }

    /// The value of the entry at `index`.
    pub fn value_at(&self, index: usize) -> (value: &str)
        requires
            index < self.pairs().len(),
        ensures
            value@ == self.pairs()[index as int].1,
    {
        self.entries[index].1.as_str()
    }

    /// The names in the table, in order.
    pub fn names(&self) -> (names: Vec<&str>)
        ensures
            names@.len() == self.pairs().len(),
            forall|i: int| 0 <= i < names@.len() ==> (#[trigger] names@[i])@ == self.pairs()[i].0,
    {
        let mut names: Vec<&str> = Vec::new();
        let mut i: usize = 0;
        while i < self.entries.len()
            invariant
                i <= self.entries.len(),
                names@.len() == i,
                forall|j: int| 0 <= j < i ==> (#[trigger] names@[j])@ == self.pairs()[j].0,
            decreases self.entries.len() - i,
        {
            names.push(self.entries[i].0.as_str());
            i += 1;
        }
        names
    }
}

} // verus!
