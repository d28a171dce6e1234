//! Responses: what goes back to the host, and how it is written on the wire.

use crate::fields::{distinct, lookup, put, FieldMap};
use crate::request::FromRequestField;
use vstd::prelude::*;
use vstd::string::*;

verus! {

/// The protocol version that every response announces.
pub const SHIORI_VERSION: &'static str = "3.0";

/// The outcome that a response reports.
#[derive(Copy, Clone, Debug, PartialEq, Eq, Structural)]
pub enum ResponseStatus {
    OK,
    NoContent,
    NotEnough,
    Advice,
    BadRequest,
    InternalServerError,
}

/// The code and the phrase under which a status goes on the wire.
pub open spec fn status_text(status: ResponseStatus) -> Seq<char> {
    match status {
        ResponseStatus::OK => "200 OK"@,
        ResponseStatus::NoContent => "204 No Content"@,
        ResponseStatus::NotEnough => "311 Not Enough"@,
        ResponseStatus::Advice => "312 Advice"@,
        ResponseStatus::BadRequest => "400 Bad Request"@,
        ResponseStatus::InternalServerError => "500 Internal Server Error"@,
    }
}

/// The number of a status.
pub open spec fn status_code(status: ResponseStatus) -> u32 {
    match status {
        ResponseStatus::OK => 200,
        ResponseStatus::NoContent => 204,
        ResponseStatus::NotEnough => 311,
        ResponseStatus::Advice => 312,
        ResponseStatus::BadRequest => 400,
        ResponseStatus::InternalServerError => 500,
    }
}

/// The status that goes by the number `code`.
pub open spec fn status_of_code(code: u32) -> Option<ResponseStatus> {
    if code == 200 {
        Some(ResponseStatus::OK)
    } else if code == 204 {
        Some(ResponseStatus::NoContent)
    } else if code == 311 {
        Some(ResponseStatus::NotEnough)
    } else if code == 312 {
        Some(ResponseStatus::Advice)
    } else if code == 400 {
        Some(ResponseStatus::BadRequest)
    } else if code == 500 {
        Some(ResponseStatus::InternalServerError)
    } else {
        None
    }
}

/// The status reports a failure.
pub open spec fn status_is_error(status: ResponseStatus) -> bool {
    status == ResponseStatus::BadRequest || status == ResponseStatus::InternalServerError
}

impl ResponseStatus {
    pub fn as_str(&self) -> (text: String)
        ensures
            text@ == status_text(*self),
    {
        let text = match self {
            ResponseStatus::OK => "200 OK",
            ResponseStatus::NoContent => "204 No Content",
            ResponseStatus::NotEnough => "311 Not Enough",
            ResponseStatus::Advice => "312 Advice",
            ResponseStatus::BadRequest => "400 Bad Request",
            ResponseStatus::InternalServerError => "500 Internal Server Error",
        };
        String::from_str(text)
    }

    pub fn is_error(&self) -> (error: bool)
        ensures
            error == status_is_error(*self),
    {
        match self {
            ResponseStatus::BadRequest | ResponseStatus::InternalServerError => true,
            _ => false,
        }
    }

    /// The number of the status.
    pub fn code(&self) -> (code: u32)
        ensures
            code == status_code(*self),
    {
        match self {
            ResponseStatus::OK => 200,
            ResponseStatus::NoContent => 204,
            ResponseStatus::NotEnough => 311,
            ResponseStatus::Advice => 312,
            ResponseStatus::BadRequest => 400,
            ResponseStatus::InternalServerError => 500,
        }
    }

    /// The status with the number `code`, if there is one.
    pub fn from_code(code: u32) -> (status: Option<ResponseStatus>)
        ensures
            status == status_of_code(code),
    {
        if code == 200 {
            Some(ResponseStatus::OK)
        } else if code == 204 {
            Some(ResponseStatus::NoContent)
        } else if code == 311 {
            Some(ResponseStatus::NotEnough)
        } else if code == 312 {
            Some(ResponseStatus::Advice)
        } else if code == 400 {
            Some(ResponseStatus::BadRequest)
        } else if code == 500 {
            Some(ResponseStatus::InternalServerError)
        } else {
            None
        }
    }
}

/// What a builder holds: the status, once one was set, and the fields.
pub struct Draft {
    pub status: Option<ResponseStatus>,
    pub pairs: Seq<(Seq<char>, Seq<char>)>,
}

impl Draft {
    /// The draft that a new builder starts from.
    pub open spec fn fresh() -> Draft {
        Draft { status: None, pairs: Seq::empty() }
    }

    pub open spec fn with_status(self, status: ResponseStatus) -> Draft {
        Draft { status: Some(status), pairs: self.pairs }
    }

    pub open spec fn with_field(self, name: Seq<char>, value: Seq<char>) -> Draft {
        Draft { status: self.status, pairs: put(self.pairs, name, value) }
    }

    /// What building gives: the status and the fields, if a status was set.
    pub open spec fn built(self) -> Option<(ResponseStatus, Seq<(Seq<char>, Seq<char>)>)> {
        match self.status {
            Some(status) => Some((status, self.pairs)),
            None => None,
        }
    }

    /// The draft after writing every field of `items`, first to last.
    pub open spec fn with_fields(self, items: Seq<(Seq<char>, Seq<char>)>) -> Draft
        decreases items.len(),
    {
        if items.len() == 0 {
            self
        } else {
            self.with_field(items[0].0, items[0].1).with_fields(items.drop_first())
        }
    }
}

/// Collects the parts of a response. A response needs a status: without
/// one, `build` gives nothing.
pub struct ResponseBuilder {
    status: Option<ResponseStatus>,
    fields: FieldMap,
}

impl View for ResponseBuilder {
    type V = Draft;

    closed spec fn view(&self) -> Draft {
        Draft { status: self.status, pairs: self.fields.pairs() }
    }
}

impl ResponseBuilder {
    pub fn new() -> (builder: ResponseBuilder)
        ensures
            builder@ == Draft::fresh(),
    {
        ResponseBuilder { status: None, fields: FieldMap::new() }
    }

    /// Sets the status; one set before is replaced.
    pub fn with_status(self, status: ResponseStatus) -> (builder: ResponseBuilder)
        ensures
            builder@ == self@.with_status(status),
    {
        ResponseBuilder { status: Some(status), fields: self.fields }
    }

    /// Writes a field; a value written under the same name before is replaced.
    pub fn with_field(self, field_name: &str, value: &str) -> (builder: ResponseBuilder)
        ensures
            builder@ == self@.with_field(field_name@, value@),
    {
        let fields = self.fields.insert(String::from_str(field_name), String::from_str(value));
        ResponseBuilder { status: self.status, fields }
    }

    /// The response, if a status was set.
    pub fn build(self) -> (response: Option<Response>)
        ensures
            match response {
                Some(r) => self@.built() == Some((r.status_spec(), r.pairs())) && distinct(
                    r.pairs(),
                ),
                None => self@.built() is None,
            },
    {
        self.fields.unique();
        match self.status {
            Some(status) => Some(Response { status, fields: self.fields }),
            None => None,
        }
    }
}

/// The lines of the fields, each closed by a carriage return and a line feed.
pub open spec fn field_lines(pairs: Seq<(Seq<char>, Seq<char>)>) -> Seq<char>
    decreases pairs.len(),
{
    if pairs.len() == 0 {
        Seq::empty()
    } else {
        field_lines(pairs.drop_last()) + pairs.last().0 + ": "@ + pairs.last().1 + "\r\n"@
    }
}

/// A response on the wire: the status line, the field lines in the order of
/// the table, and a blank line.
pub open spec fn wire_text(status: ResponseStatus, pairs: Seq<(Seq<char>, Seq<char>)>) -> Seq<char> {
    "SHIORI/"@ + SHIORI_VERSION@ + " "@ + status_text(status) + "\r\n"@ + field_lines(pairs)
        + "\r\n"@
}

/// A reply to the host: a status and a table of fields.
pub struct Response {
    status: ResponseStatus,
    fields: FieldMap,
}

impl Response {
    pub closed spec fn status_spec(&self) -> ResponseStatus {
        self.status
    }

    /// The fields in the order in which their names were first written.
    pub closed spec fn pairs(&self) -> Seq<(Seq<char>, Seq<char>)> {
        self.fields.pairs()
    }

    /// The field names, in the order of the table.
    pub fn fields_iter(&self) -> (names: Vec<&str>)
        ensures
            names@.len() == self.pairs().len(),
            forall|i: int| 0 <= i < names@.len() ==> (#[trigger] names@[i])@ == self.pairs()[i].0,
    {
        self.fields.names()
    }

    /// The field named `field` read as a `T`, if the response has the
    /// field. Reading may fail: that is the inner result.
    pub fn get_field<'a, T: FromRequestField<'a>>(&'a self, field: &str) -> (value: Option<
        Result<T, ()>,
    >)
        ensures
            match value {
                Some(read) => exists|text: &'a str|
                    lookup(self.pairs(), field@) == Some(text@) && #[trigger] T::reads(
                        Some(text),
                        read,
                    ),
                None => lookup(self.pairs(), field@) is None,
            },
    {
        match self.fields.get(field) {
            Some(text) => Some(T::from_request_field(Some(text))),
            None => None,
        }
    }

    #[verifier::when_used_as_spec(status_spec)]
    pub fn status(&self) -> (status: ResponseStatus)
        ensures
            status == self.status_spec(),
    {
        self.status
    }

    /// The response as it goes on the wire.
    pub fn to_wire(&self) -> (text: String)
        ensures
            text@ == wire_text(self.status_spec(), self.pairs()),
    {
        let mut text = String::from_str("SHIORI/");
        text.append(SHIORI_VERSION);
        text.append(" ");
        text.append(self.status.as_str().as_str());
        text.append("\r\n");
        let ghost head = text@;
        let n = self.fields.len();
        let mut i: usize = 0;
        while i < n
            invariant
                n == self.pairs().len(),
                i <= n,
                text@ == head + field_lines(self.pairs().take(i as int)),
            decreases n - i,
        {
            text.append(self.fields.name_at(i));
            text.append(": ");
            text.append(self.fields.value_at(i));
            text.append("\r\n");
            proof {
                let before = self.pairs().take(i as int);
                let after = self.pairs().take(i + 1);
                assert(after.drop_last() =~= before);
                assert(after.last() == self.pairs()[i as int]);
            }
            i += 1;
        }
        assert(self.pairs().take(n as int) =~= self.pairs());
        text.append("\r\n");
        text
    }
}

/// A status is found again by its number.
pub proof fn law_code_round_trip(status: ResponseStatus)
    ensures
        status_of_code(status_code(status)) == Some(status),
{
}

/// Writing fields never sets a status.
pub proof fn lemma_fields_keep_status(draft: Draft, items: Seq<(Seq<char>, Seq<char>)>)
    ensures
        draft.with_fields(items).status == draft.status,
    decreases items.len(),
{
    if items.len() > 0 {
        lemma_fields_keep_status(draft.with_field(items[0].0, items[0].1), items.drop_first());
    }
}

/// Without a status there is nothing to build: a new builder gives nothing,
/// and so does one that was given fields only, however many.
pub proof fn law_no_status_no_response(items: Seq<(Seq<char>, Seq<char>)>)
    ensures
        Draft::fresh().built() is None,
        Draft::fresh().with_fields(items).built() is None,
{
    lemma_fields_keep_status(Draft::fresh(), items);
}

/// Once a status is set there is a response, with the status set last and
/// the fields written so far.
pub proof fn law_status_gives_response(draft: Draft, status: ResponseStatus)
    ensures
        draft.with_status(status).built() == Some((status, draft.pairs)),
{
}

/// Whatever the status and the fields, the wire text ends with a blank line:
/// a carriage return and a line feed that close the last line, and a second
/// pair after them.
pub proof fn law_wire_ends_blank(status: ResponseStatus, pairs: Seq<(Seq<char>, Seq<char>)>)
    ensures
        ({
            let text = wire_text(status, pairs);
            text.len() >= 4 && text.subrange(text.len() - 4, text.len() as int) == "\r\n\r\n"@
        }),
{
    reveal_strlit("\r\n");
    reveal_strlit("\r\n\r\n");
    let text = wire_text(status, pairs);
    // The status line ends the text where there are no fields; the last
    // field line does where there are.
    assert(text.subrange(text.len() - 4, text.len() as int) =~= "\r\n\r\n"@);
}

} // verus!
