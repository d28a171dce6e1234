//! A responder core for the SHIORI request/response protocol, with the value
//! bridge that lets a scripting host keep state between runs.
//!
//! * [`request`] reads what the host sends, by the rules of [`grammar`];
//!   [`request::typed`] reads a request as one of the known events.
//! * [`response`] collects a reply and writes it as wire text;
//!   [`dispatch`] goes from request text to reply text.
//! * [`dynamic`] and [`value`] are the two shapes of a value: as the host
//!   holds it and as it is stored. [`bridge`] converts between them and
//!   reports what it had to leave out as [`notes`]; [`bridge_laws`] says
//!   what holds of every conversion.
//! * [`persistent`] is the state that outlives a run; [`codec`] reads it
//!   from its bytes.
//!
//! Nothing here touches a file, a script engine or the host's memory: the
//! caller reads and writes, and hands over plain values.

pub mod bridge;
pub mod bridge_laws;
pub mod codec;
pub mod dispatch;
pub mod dynamic;
pub mod fields;
pub mod float;
pub mod grammar;
pub mod notes;
pub mod number;
pub mod persistent;
pub mod request;
pub mod response;
mod scan;
pub mod text;
pub mod value;

pub use crate::dispatch::Shiori;
pub use crate::request::Request;
pub use crate::response::{Response, SHIORI_VERSION};
