//! The dynamic value: what the scripting host hands over and takes back.

use vstd::prelude::*;

verus! {

/// A value of the host. A float is held as the bit pattern of its IEEE 754
/// double. `Opaque` stands for everything that has no stored form: a
/// callable, a handle, a thread of the host.
#[derive(Debug, PartialEq, Eq)]
pub enum DynamicValue {
    Nil,
    Boolean(bool),
    Integer(i64),
    Float(u64),
    Text(Vec<u8>),
    Composite(Composite),
    Opaque,
}

/// A composite of the host: its pairs in the order in which the host hands
/// them out, and whether it carries an extension that cannot be stored.
#[derive(Debug, PartialEq, Eq)]
pub struct Composite {
    pub pairs: Vec<(DynamicValue, DynamicValue)>,
    pub extension: bool,
}

/// What a dynamic value is, apart from how it lies in memory.
pub enum DynamicModel {
    Nil,
    Boolean(bool),
    Integer(i64),
    Float(u64),
    Text(Seq<u8>),
    Composite(Seq<(DynamicModel, DynamicModel)>, bool),
    Opaque,
}

/// The models of a list of pairs.
pub open spec fn dynamic_pairs(pairs: Seq<(DynamicValue, DynamicValue)>) -> Seq<
    (DynamicModel, DynamicModel),
>
    decreases pairs,
{
    Seq::new(
        pairs.len(),
        |i: int|
            if 0 <= i < pairs.len() {
                (pairs[i].0.view(), pairs[i].1.view())
            } else {
                (DynamicModel::Nil, DynamicModel::Nil)
            },
    )
}

impl View for DynamicValue {
    type V = DynamicModel;

    open spec fn view(&self) -> DynamicModel
        decreases self,
    {
        match self {
            DynamicValue::Nil => DynamicModel::Nil,
            DynamicValue::Boolean(b) => DynamicModel::Boolean(*b),
            DynamicValue::Integer(n) => DynamicModel::Integer(*n),
            DynamicValue::Float(bits) => DynamicModel::Float(*bits),
            DynamicValue::Text(bytes) => DynamicModel::Text(bytes@),
            DynamicValue::Composite(c) => DynamicModel::Composite(
                dynamic_pairs(c.pairs@),
                c.extension,
            ),
            DynamicValue::Opaque => DynamicModel::Opaque,
        }
    }
}

impl View for Composite {
    type V = DynamicModel;

    open spec fn view(&self) -> DynamicModel {
        DynamicModel::Composite(dynamic_pairs(self.pairs@), self.extension)
    }
}

impl Composite {
    /// A composite without pairs and without an extension.
    pub fn new() -> (composite: Composite)
        ensures
            composite@ == DynamicModel::Composite(Seq::empty(), false),
    {
        let composite = Composite { pairs: Vec::new(), extension: false };
        assert(dynamic_pairs(composite.pairs@) =~= Seq::empty());
        composite
    }
}

} // verus!
