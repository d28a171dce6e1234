//! Requests: the parsed form of what the host sends.

use crate::fields::{distinct, lemma_put_all_distinct, lookup, put_all, FieldMap};
use crate::grammar::{fields_from, first_header, keyword, Header};
use crate::number::{integer_within, parse_signed, parse_unsigned};
use crate::scan::{find_fields, find_header};
use crate::text::{same_text, to_chars};
use vstd::prelude::*;

pub mod typed;

verus! {

/// The verb of a request.
#[derive(Copy, Clone, Debug, PartialEq, Eq, Structural)]
pub enum Method {
    Get,
    Notify,
    Teach,
}

/// The method that a keyword names.
pub open spec fn method_of(word: Seq<char>) -> Option<Method> {
    if word == keyword(Method::Get) {
        Some(Method::Get)
    } else if word == keyword(Method::Notify) {
        Some(Method::Notify)
    } else if word == keyword(Method::Teach) {
        Some(Method::Teach)
    } else {
        None
    }
}

impl std::str::FromStr for Method {
    type Err = ();

    /// The method that the keyword `text` names: `GET`, `NOTIFY` or `TEACH`,
    /// in upper case. Any other text names none.
    fn from_str(text: &str) -> (method: Result<Method, ()>)
        ensures
            match method {
                Ok(m) => method_of(text@) == Some(m),
                Err(_) => method_of(text@) is None,
            },
    {
        Method::from_keyword(text)
    }
}

impl Method {
    /// The method that the keyword `text` names. Keywords are upper case.
    pub fn from_keyword(text: &str) -> (method: Result<Method, ()>)
        ensures
            match method {
                Ok(m) => method_of(text@) == Some(m),
                Err(_) => method_of(text@) is None,
            },
    {
        if same_text(text, "GET") {
            Ok(Method::Get)
        } else if same_text(text, "NOTIFY") {
            Ok(Method::Notify)
        } else if same_text(text, "TEACH") {
            Ok(Method::Teach)
        } else {
            Err(())
        }
    }

    /// The keyword that stands for the method on the wire.
    pub fn as_str(&self) -> (word: &'static str)
        ensures
            word@ == keyword(*self),
    {
        match self {
            Method::Get => "GET",
            Method::Notify => "NOTIFY",
            Method::Teach => "TEACH",
        }
    }
}

/// A request as the host sent it: a method, a protocol version and a table
/// of fields.
pub struct Request {
    method: Method,
    version: String,
    fields: FieldMap,
}

impl Request {
    /// The method and the version.
    pub closed spec fn header(&self) -> Header {
        Header { method: self.method, version: self.version@ }
    }

    /// The fields in the order in which their names first appeared.
    pub closed spec fn pairs(&self) -> Seq<(Seq<char>, Seq<char>)> {
        self.fields.pairs()
    }

    /// Reads a request. The first line of `text` that is a header line, be
    /// it the first line or a later one, gives the method and the version.
    /// Every line of `text` that is a field line, before the header or
    /// after it, is written to the table, so that of two fields with one
    /// name the later one stays. Without a header line there is no request.
    pub fn parse(text: &str) -> (parsed: Result<Request, ()>)
        ensures
            match parsed {
                Ok(request) => {
                    &&& first_header(text@, 0) == Some(request.header())
                    &&& request.pairs() == put_all(Seq::empty(), fields_from(text@, 0))
                    &&& distinct(request.pairs())
                },
                Err(_) => first_header(text@, 0) is None,
            },
    {
        let chars = to_chars(text);
        match find_header(&chars) {
            Some((method, version)) => {
                let fields = find_fields(&chars);
                proof {
                    lemma_put_all_distinct(Seq::empty(), fields_from(text@, 0));
                }
                Ok(Request { method, version, fields })
            },
            None => Err(()),
        }
    }

    pub fn method(&self) -> (method: Method)
        ensures
            method == self.header().method,
    {
        self.method
    }

    pub fn version(&self) -> (version: &str)
        ensures
            version@ == self.header().version,
    {
        self.version.as_str()
    }

    /// The table of fields. No name occurs twice in it.
    pub fn fields(&self) -> (fields: &FieldMap)
        ensures
            fields.pairs() == self.pairs(),
            distinct(self.pairs()),
    {
        self.fields.unique();
        &self.fields
    }

    /// The field names, in the order of the table.
    pub fn fields_iter(&self) -> (names: Vec<&str>)
        ensures
            names@.len() == self.pairs().len(),
            forall|i: int| 0 <= i < names@.len() ==> (#[trigger] names@[i])@ == self.pairs()[i].0,
    {
        self.fields.names()
    }

    /// The value of the field named `field`, if the request has it.
    pub fn get_field(&self, field: &str) -> (value: Option<&str>)
        ensures
            match value {
                Some(v) => lookup(self.pairs(), field@) == Some(v@),
                None => lookup(self.pairs(), field@) is None,
            },
    {
        self.fields.get(field)
    }

    /// The request with its common fields taken out and its event sorted.
    pub fn as_typed(&self) -> (typed: typed::TypedRequest<'_>)
        ensures
            typed.header() == self.header(),
            typed.common() == (
                lookup(self.pairs(), "Sender"@),
                lookup(self.pairs(), "Charset"@),
                lookup(self.pairs(), "SecurityLevel"@),
                lookup(self.pairs(), "ID"@),
            ),
            typed.kind_spec().agrees(self.pairs()),
    {
        typed::TypedRequest::from_untyped(self)
    }
}

/// A type that a field of a request can be read as. The field may be
/// missing: the type says whether that is an error.
pub trait FromRequestField<'a>: Sized {
    /// `field` is what reading `value` gives. For most types one result
    /// alone is that; a text that is copied is known by what it holds.
    spec fn reads(value: Option<&'a str>, field: Result<Self, ()>) -> bool;

    fn from_request_field(value: Option<&'a str>) -> (field: Result<Self, ()>)
        ensures
            Self::reads(value, field),
    ;
}

/// The text of the field as it is. The field has to be there.
impl<'a> FromRequestField<'a> for &'a str {
    open spec fn reads(value: Option<&'a str>, field: Result<Self, ()>) -> bool {
        field == (match value {
            Some(s) => Ok(s),
            None => Err(()),
        })
    }

    fn from_request_field(value: Option<&'a str>) -> (field: Result<Self, ()>)
        ensures
            Self::reads(value, field),
    {
        match value {
            Some(s) => Ok(s),
            None => Err(()),
        }
    }
}

/// The text of the field, copied. The field has to be there.
impl<'a> FromRequestField<'a> for String {
    open spec fn reads(value: Option<&'a str>, field: Result<Self, ()>) -> bool {
        match value {
            Some(s) => field is Ok && field->Ok_0@ == s@,
            None => field is Err,
        }
    }

    fn from_request_field(value: Option<&'a str>) -> (field: Result<Self, ()>)
        ensures
            Self::reads(value, field),
    {
        match value {
            Some(s) => Ok(s.to_owned()),
            None => Err(()),
        }
    }
}

/// A field that may be missing: nothing where it is, else what `T` reads.
impl<'a, T> FromRequestField<'a> for Option<T> where T: FromRequestField<'a> {
    open spec fn reads(value: Option<&'a str>, field: Result<Self, ()>) -> bool {
        match value {
            Some(v) => match field {
                Ok(Some(r)) => T::reads(Some(v), Ok(r)),
                Ok(None) => false,
                Err(e) => T::reads(Some(v), Err(e)),
            },
            None => field == Ok::<Option<T>, ()>(None),
        }
    }

    fn from_request_field(value: Option<&'a str>) -> (field: Result<Self, ()>)
        ensures
            Self::reads(value, field),
    {
        match value {
            Some(v) => match T::from_request_field(Some(v)) {
                Ok(r) => Ok(Some(r)),
                Err(e) => Err(e),
            },
            None => Ok(None),
        }
    }
}

/// One character: the field has to hold exactly one.
impl<'a> FromRequestField<'a> for char {
    open spec fn reads(value: Option<&'a str>, field: Result<Self, ()>) -> bool {
        field == (match value {
            Some(s) => if s@.len() == 1 {
                Ok(s@[0])
            } else {
                Err(())
            },
            None => Err(()),
        })
    }

    fn from_request_field(value: Option<&'a str>) -> (field: Result<Self, ()>)
        ensures
            Self::reads(value, field),
    {
        match value {
            Some(s) => {
                let chars = to_chars(s);
                if chars.len() == 1 {
                    Ok(chars[0])
                } else {
                    Err(())
                }
            },
            None => Err(()),
        }
    }
}

/// A whole number that fits `u8`, in decimal.
impl<'a> FromRequestField<'a> for u8 {
    open spec fn reads(value: Option<&'a str>, field: Result<Self, ()>) -> bool {
        field == (match value {
            Some(s) => match integer_within(s@, false, 0, u8::MAX as int) {
                Some(n) => Ok(n as u8),
                None => Err(()),
            },
            None => Err(()),
        })
    }

    fn from_request_field(value: Option<&'a str>) -> (field: Result<Self, ()>)
        ensures
            Self::reads(value, field),
    {
        match value {
            Some(s) => match parse_unsigned(s, u8::MAX as u128) {
                Some(n) => Ok(n as u8),
                None => Err(()),
            },
            None => Err(()),
        }
    }
}

/// A whole number that fits `u16`, in decimal.
impl<'a> FromRequestField<'a> for u16 {
    open spec fn reads(value: Option<&'a str>, field: Result<Self, ()>) -> bool {
        field == (match value {
            Some(s) => match integer_within(s@, false, 0, u16::MAX as int) {
                Some(n) => Ok(n as u16),
                None => Err(()),
            },
            None => Err(()),
        })
    }

    fn from_request_field(value: Option<&'a str>) -> (field: Result<Self, ()>)
        ensures
            Self::reads(value, field),
    {
        match value {
            Some(s) => match parse_unsigned(s, u16::MAX as u128) {
                Some(n) => Ok(n as u16),
                None => Err(()),
            },
            None => Err(()),
        }
    }
}

/// A whole number that fits `u32`, in decimal.
impl<'a> FromRequestField<'a> for u32 {
    open spec fn reads(value: Option<&'a str>, field: Result<Self, ()>) -> bool {
        field == (match value {
            Some(s) => match integer_within(s@, false, 0, u32::MAX as int) {
                Some(n) => Ok(n as u32),
                None => Err(()),
            },
            None => Err(()),
        })
    }

    fn from_request_field(value: Option<&'a str>) -> (field: Result<Self, ()>)
        ensures
            Self::reads(value, field),
    {
        match value {
            Some(s) => match parse_unsigned(s, u32::MAX as u128) {
                Some(n) => Ok(n as u32),
                None => Err(()),
            },
            None => Err(()),
        }
    }
}

/// A whole number that fits `u64`, in decimal.
impl<'a> FromRequestField<'a> for u64 {
    open spec fn reads(value: Option<&'a str>, field: Result<Self, ()>) -> bool {
        field == (match value {
            Some(s) => match integer_within(s@, false, 0, u64::MAX as int) {
                Some(n) => Ok(n as u64),
                None => Err(()),
            },
            None => Err(()),
        })
    }

    fn from_request_field(value: Option<&'a str>) -> (field: Result<Self, ()>)
        ensures
            Self::reads(value, field),
    {
        match value {
            Some(s) => match parse_unsigned(s, u64::MAX as u128) {
                Some(n) => Ok(n as u64),
                None => Err(()),
            },
            None => Err(()),
        }
    }
}

/// A whole number that fits `u128`, in decimal.
impl<'a> FromRequestField<'a> for u128 {
    open spec fn reads(value: Option<&'a str>, field: Result<Self, ()>) -> bool {
        field == (match value {
            Some(s) => match integer_within(s@, false, 0, u128::MAX as int) {
                Some(n) => Ok(n as u128),
                None => Err(()),
            },
            None => Err(()),
        })
    }

    fn from_request_field(value: Option<&'a str>) -> (field: Result<Self, ()>)
        ensures
            Self::reads(value, field),
    {
        match value {
            Some(s) => match parse_unsigned(s, u128::MAX as u128) {
                Some(n) => Ok(n as u128),
                None => Err(()),
            },
            None => Err(()),
        }
    }
}

/// A whole number that fits `usize`, in decimal.
impl<'a> FromRequestField<'a> for usize {
    open spec fn reads(value: Option<&'a str>, field: Result<Self, ()>) -> bool {
        field == (match value {
            Some(s) => match integer_within(s@, false, 0, usize::MAX as int) {
                Some(n) => Ok(n as usize),
                None => Err(()),
            },
            None => Err(()),
        })
    }

    fn from_request_field(value: Option<&'a str>) -> (field: Result<Self, ()>)
        ensures
            Self::reads(value, field),
    {
        match value {
            Some(s) => match parse_unsigned(s, usize::MAX as u128) {
                Some(n) => Ok(n as usize),
                None => Err(()),
            },
            None => Err(()),
        }
    }
}

/// A whole number that fits `i8`, in decimal.
impl<'a> FromRequestField<'a> for i8 {
    open spec fn reads(value: Option<&'a str>, field: Result<Self, ()>) -> bool {
        field == (match value {
            Some(s) => match integer_within(s@, true, i8::MIN as int, i8::MAX as int) {
                Some(n) => Ok(n as i8),
                None => Err(()),
            },
            None => Err(()),
        })
    }

    fn from_request_field(value: Option<&'a str>) -> (field: Result<Self, ()>)
        ensures
            Self::reads(value, field),
    {
        match value {
            Some(s) => match parse_signed(s, i8::MIN as i128, i8::MAX as i128) {
                Some(n) => Ok(n as i8),
                None => Err(()),
            },
            None => Err(()),
        }
    }
}

/// A whole number that fits `i16`, in decimal.
impl<'a> FromRequestField<'a> for i16 {
    open spec fn reads(value: Option<&'a str>, field: Result<Self, ()>) -> bool {
        field == (match value {
            Some(s) => match integer_within(s@, true, i16::MIN as int, i16::MAX as int) {
                Some(n) => Ok(n as i16),
                None => Err(()),
            },
            None => Err(()),
        })
    }

    fn from_request_field(value: Option<&'a str>) -> (field: Result<Self, ()>)
        ensures
            Self::reads(value, field),
    {
        match value {
            Some(s) => match parse_signed(s, i16::MIN as i128, i16::MAX as i128) {
                Some(n) => Ok(n as i16),
                None => Err(()),
            },
            None => Err(()),
        }
    }
}

/// A whole number that fits `i32`, in decimal.
impl<'a> FromRequestField<'a> for i32 {
    open spec fn reads(value: Option<&'a str>, field: Result<Self, ()>) -> bool {
        field == (match value {
            Some(s) => match integer_within(s@, true, i32::MIN as int, i32::MAX as int) {
                Some(n) => Ok(n as i32),
                None => Err(()),
            },
            None => Err(()),
        })
    }

    fn from_request_field(value: Option<&'a str>) -> (field: Result<Self, ()>)
        ensures
            Self::reads(value, field),
    {
        match value {
            Some(s) => match parse_signed(s, i32::MIN as i128, i32::MAX as i128) {
                Some(n) => Ok(n as i32),
                None => Err(()),
            },
            None => Err(()),
        }
    }
}

/// A whole number that fits `i64`, in decimal.
impl<'a> FromRequestField<'a> for i64 {
    open spec fn reads(value: Option<&'a str>, field: Result<Self, ()>) -> bool {
        field == (match value {
            Some(s) => match integer_within(s@, true, i64::MIN as int, i64::MAX as int) {
                Some(n) => Ok(n as i64),
                None => Err(()),
            },
            None => Err(()),
        })
    }

    fn from_request_field(value: Option<&'a str>) -> (field: Result<Self, ()>)
        ensures
            Self::reads(value, field),
    {
        match value {
            Some(s) => match parse_signed(s, i64::MIN as i128, i64::MAX as i128) {
                Some(n) => Ok(n as i64),
                None => Err(()),
            },
            None => Err(()),
        }
    }
}

/// A whole number that fits `i128`, in decimal.
impl<'a> FromRequestField<'a> for i128 {
    open spec fn reads(value: Option<&'a str>, field: Result<Self, ()>) -> bool {
        field == (match value {
            Some(s) => match integer_within(s@, true, i128::MIN as int, i128::MAX as int) {
                Some(n) => Ok(n as i128),
                None => Err(()),
            },
            None => Err(()),
        })
    }

    fn from_request_field(value: Option<&'a str>) -> (field: Result<Self, ()>)
        ensures
            Self::reads(value, field),
    {
        match value {
            Some(s) => match parse_signed(s, i128::MIN as i128, i128::MAX as i128) {
                Some(n) => Ok(n as i128),
                None => Err(()),
            },
            None => Err(()),
        }
    }
}

/// A whole number that fits `isize`, in decimal.
impl<'a> FromRequestField<'a> for isize {
    open spec fn reads(value: Option<&'a str>, field: Result<Self, ()>) -> bool {
        field == (match value {
            Some(s) => match integer_within(s@, true, isize::MIN as int, isize::MAX as int) {
                Some(n) => Ok(n as isize),
                None => Err(()),
            },
            None => Err(()),
        })
    }

    fn from_request_field(value: Option<&'a str>) -> (field: Result<Self, ()>)
        ensures
            Self::reads(value, field),
    {
        match value {
            Some(s) => match parse_signed(s, isize::MIN as i128, isize::MAX as i128) {
                Some(n) => Ok(n as isize),
                None => Err(()),
            },
            None => Err(()),
        }
    }
}

} // verus!
