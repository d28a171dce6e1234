//! From the text of a request to the text of the reply.

use crate::fields::put;
use crate::grammar::first_header;
use crate::request::{Method, Request};
use crate::response::{
    status_is_error, status_of_code, wire_text, Response, ResponseBuilder, ResponseStatus,
};
use std::path::PathBuf;
use vstd::prelude::*;

verus! {

/// A path in the file system, as the host hands it over.
#[verifier::external_type_specification]
#[verifier::external_body]
pub struct ExPathBuf(PathBuf);

/// What answers the host's requests. The three operations are called in a
/// fixed order: `load` once, `respond` any number of times, `unload` once.
pub trait Shiori {
    /// What `load` reports where it fails.
    type LoadError;

    /// What `unload` reports where it fails.
    type UnloadError;

    /// Starts up in the directory `path`.
    fn load(path: PathBuf) -> Result<Self, Self::LoadError> where Self: Sized;

    /// Answers one request.
    fn respond(&mut self, request: Request) -> Response;

    /// Shuts down. A failure, such as state that could not be saved, is
    /// handed to the caller. By default there is nothing to do.
    fn unload(&mut self) -> Result<(), Self::UnloadError> {
        Ok(())
    }
}

/// Answers one request: reads it, lets `shiori` respond, and writes the
/// response as wire text. A text without a header is not answered.
pub fn handle_request<S: Shiori>(request: &str, shiori: &mut S) -> (reply: Result<String, ()>)
    ensures
        match reply {
            Ok(text) => first_header(request@, 0) is Some && exists|
                status: ResponseStatus,
                pairs: Seq<(Seq<char>, Seq<char>)>,
            | text@ == #[trigger] wire_text(status, pairs),
            Err(_) => first_header(request@, 0) is None,
        },
{
    match Request::parse(request) {
        Ok(parsed) => {
            let response = shiori.respond(parsed);
            let text = response.to_wire();
            assert(text@ == wire_text(response.status_spec(), response.pairs()));
            Ok(text)
        },
        Err(_) => Err(()),
    }
}

/// The reply that is sent where a request could not be read.
pub fn bad_request() -> (text: String)
    ensures
        text@ == wire_text(ResponseStatus::BadRequest, Seq::empty()),
{
    ResponseBuilder::new().with_status(ResponseStatus::BadRequest).build().unwrap().to_wire()
}

/// The status of a reply, from what the script gave: the status that goes
/// by its code; an internal error where the code is unknown or the script
/// gave nothing.
pub open spec fn script_status(outcome: Option<(Option<Seq<char>>, u32)>) -> ResponseStatus {
    match outcome {
        Some((_, code)) => match status_of_code(code) {
            Some(status) => status,
            None => ResponseStatus::InternalServerError,
        },
        None => ResponseStatus::InternalServerError,
    }
}

/// The fields of a reply. Every reply names its character set. A reply to
/// a GET that reports no failure also names the sender and, where the
/// script gave a text, carries it as its value.
pub open spec fn script_fields(
    method: Method,
    sender: Seq<char>,
    outcome: Option<(Option<Seq<char>>, u32)>,
) -> Seq<(Seq<char>, Seq<char>)> {
    let base = seq![("Charset"@, "UTF-8"@)];
    if status_is_error(script_status(outcome)) || method != Method::Get {
        base
    } else {
        let named = put(base, "Sender"@, sender);
        match outcome {
            Some((Some(text), _)) => put(named, "Value"@, text),
            _ => named,
        }
    }
}

/// What the script gave, as plain text.
pub open spec fn outcome_view(outcome: Option<(Option<String>, u32)>) -> Option<
    (Option<Seq<char>>, u32),
> {
    match outcome {
        Some((Some(text), code)) => Some((Some(text@), code)),
        Some((None, code)) => Some((None, code)),
        None => None,
    }
}

/// The response to a request of `method`, from what the script gave: a
/// text, if any, and a status code; or nothing, where running the script
/// failed.
pub fn script_response(method: Method, sender: &str, outcome: Option<(Option<String>, u32)>) -> (response:
    Response)
    ensures
        response.status_spec() == script_status(outcome_view(outcome)),
        response.pairs() == script_fields(method, sender@, outcome_view(outcome)),
{
    let mut builder = ResponseBuilder::new().with_field("Charset", "UTF-8");
    assert(builder@.pairs =~= seq![("Charset"@, "UTF-8"@)]);
    let mut status = ResponseStatus::InternalServerError;
    match outcome {
        Some((text, code)) => {
            match ResponseStatus::from_code(code) {
                Some(known) => {
                    status = known;
                },
                None => {},
            }
            if !status.is_error() && method == Method::Get {
                builder = builder.with_field("Sender", sender);
                match text {
                    Some(value) => {
                        builder = builder.with_field("Value", value.as_str());
                    },
                    None => {},
                }
            }
        },
        None => {},
    }
    builder.with_status(status).build().unwrap()
}

} // verus!
