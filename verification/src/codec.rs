//! Reading a stored value from its bytes, by `rmpv`.

use crate::value::{GenericInt, GenericModel, GenericValue};
use rmpv::{Integer, Value};
use vstd::prelude::*;

verus! {

/// `rmpv::Value`, a value as `rmpv` reads it.
#[verifier::external_type_specification]
#[verifier::external_body]
pub struct ExValue(Value);

/// `rmpv::Integer`, an integer as `rmpv` reads it.
#[verifier::external_type_specification]
#[verifier::external_body]
pub struct ExInteger(Integer);

/// The value that `rmpv::decode::read_value` reads from the front of
/// `bytes`, or nothing where it reports an error.
pub uninterp spec fn unpacked(bytes: Seq<u8>) -> Option<GenericModel>;

/// Moves an integer of `rmpv` into one of this library: unsigned where
/// `as_u64` gives it, signed where only `as_i64` does. Every integer of
/// `rmpv` is one or the other, so the zero is never taken.
#[verifier::external_body]
fn import_integer(number: Integer) -> GenericInt {
    match number.as_u64() {
        Some(n) => GenericInt::Unsigned(n),
        None => GenericInt::Signed(number.as_i64().unwrap_or(0)),
    }
}

/// Moves a value of `rmpv` into one of this library, variant by variant; a
/// float goes over as its bits, a string as its bytes.
#[verifier::external_body]
fn import(value: Value) -> GenericValue {
    match value {
        Value::Nil => GenericValue::Nil,
        Value::Boolean(b) => GenericValue::Boolean(b),
        Value::Integer(n) => GenericValue::Integer(import_integer(n)),
        Value::F32(x) => GenericValue::Float32(x.to_bits()),
        Value::F64(x) => GenericValue::Float64(x.to_bits()),
        Value::String(s) => GenericValue::Text(s.into_bytes()),
        Value::Binary(b) => GenericValue::Binary(b),
        Value::Array(a) => GenericValue::Array(a.into_iter().map(import).collect()),
        Value::Map(m) => GenericValue::Mapping(m.into_iter().map(import_pair).collect()),
        Value::Ext(t, b) => GenericValue::Extension(t, b),
    }
}

/// Moves a pair of values of `rmpv` into this library's type, side by side.
/// What each side becomes is `import`'s matter, and is claimed as a whole
/// where `unpack` names what was read.
fn import_pair(pair: (Value, Value)) -> (GenericValue, GenericValue) {
    (import(pair.0), import(pair.1))
}

/// `rmpv::decode::read_value` on `bytes`: the one value that stands at
/// their front, moved into this library's type, or nothing where the
/// bytes are no well-formed value. Bytes after the value are not looked at.
#[verifier::external_body]
pub(crate) fn unpack(bytes: &[u8]) -> (value: Option<GenericValue>)
    ensures
        match value {
            Some(v) => unpacked(bytes@) == Some(v@),
            None => unpacked(bytes@) is None,
        },
{
    let mut rest = bytes;
    match rmpv::decode::read_value(&mut rest) {
        Ok(value) => Some(import(value)),
        Err(_) => None,
    }
}

} // verus!
