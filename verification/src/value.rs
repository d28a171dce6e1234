//! The generic value: the self-describing shape in which state is stored.

use vstd::prelude::*;

verus! {

/// An integer of the stored format: anything from the least signed to the
/// greatest unsigned 64-bit number.
#[derive(Copy, Clone, Debug, PartialEq, Eq)]
pub enum GenericInt {
    Unsigned(u64),
    Signed(i64),
}

impl GenericInt {
    /// The number that is meant.
    pub open spec fn value(self) -> int {
        match self {
            GenericInt::Unsigned(n) => n as int,
            GenericInt::Signed(n) => n as int,
        }
    }

    /// The integer `n`.
    pub fn from_i64(n: i64) -> (number: GenericInt)
        ensures
            number.value() == n,
    {
        if n >= 0 {
            GenericInt::Unsigned(n as u64)
        } else {
            GenericInt::Signed(n)
        }
    }

    /// The number fits a signed 64-bit integer.
    pub fn is_i64(&self) -> (fits: bool)
        ensures
            fits == (i64::MIN <= self.value() <= i64::MAX),
    {
        match self {
            GenericInt::Unsigned(n) => *n <= 0x7fff_ffff_ffff_ffff,
            GenericInt::Signed(_) => true,
        }
    }

    /// The number as a signed 64-bit integer, where it fits one.
    pub fn as_i64(&self) -> (number: Option<i64>)
        ensures
            match number {
                Some(n) => n == self.value(),
                None => !(i64::MIN <= self.value() <= i64::MAX),
            },
    {
        match self {
            GenericInt::Unsigned(n) => if *n <= 0x7fff_ffff_ffff_ffff {
                Some(*n as i64)
            } else {
                None
            },
            GenericInt::Signed(n) => Some(*n),
        }
    }
}

/// A stored value. Floats are held as their IEEE 754 bit patterns. A mapping
/// is a list of pairs as they were stored: keys may repeat.
#[derive(Debug, PartialEq, Eq)]
pub enum GenericValue {
    Nil,
    Boolean(bool),
    Integer(GenericInt),
    Float32(u32),
    Float64(u64),
    /// Bytes marked as text.
    Text(Vec<u8>),
    Binary(Vec<u8>),
    Array(Vec<GenericValue>),
    Mapping(Vec<(GenericValue, GenericValue)>),
    /// A value of an application-defined kind: its tag and its bytes.
    Extension(i8, Vec<u8>),
}

/// What a stored value is, apart from how it lies in memory.
pub enum GenericModel {
    Nil,
    Boolean(bool),
    Integer(int),
    Float32(u32),
    Float64(u64),
    Text(Seq<u8>),
    Binary(Seq<u8>),
    Array(Seq<GenericModel>),
    Mapping(Seq<(GenericModel, GenericModel)>),
    Extension(i8, Seq<u8>),
}

/// The models of a list of values.
pub open spec fn generic_items(items: Seq<GenericValue>) -> Seq<GenericModel>
    decreases items,
{
    Seq::new(items.len(), |i: int| if 0 <= i < items.len() { items[i].view() } else { GenericModel::Nil })
}

/// The models of a list of pairs.
pub open spec fn generic_pairs(pairs: Seq<(GenericValue, GenericValue)>) -> Seq<
    (GenericModel, GenericModel),
>
    decreases pairs,
{
    Seq::new(
        pairs.len(),
        |i: int|
            if 0 <= i < pairs.len() {
                (pairs[i].0.view(), pairs[i].1.view())
            } else {
                (GenericModel::Nil, GenericModel::Nil)
            },
    )
}

impl View for GenericValue {
    type V = GenericModel;

    open spec fn view(&self) -> GenericModel
        decreases self,
    {
        match self {
            GenericValue::Nil => GenericModel::Nil,
            GenericValue::Boolean(b) => GenericModel::Boolean(*b),
            GenericValue::Integer(n) => GenericModel::Integer(n.value()),
            GenericValue::Float32(bits) => GenericModel::Float32(*bits),
            GenericValue::Float64(bits) => GenericModel::Float64(*bits),
            GenericValue::Text(bytes) => GenericModel::Text(bytes@),
            GenericValue::Binary(bytes) => GenericModel::Binary(bytes@),
            GenericValue::Array(items) => GenericModel::Array(generic_items(items@)),
            GenericValue::Mapping(pairs) => GenericModel::Mapping(generic_pairs(pairs@)),
            GenericValue::Extension(tag, bytes) => GenericModel::Extension(*tag, bytes@),
        }
    }
}

} // verus!
