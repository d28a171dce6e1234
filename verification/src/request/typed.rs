//! Requests read as one of the events that the host announces.
//!
//! An event is known by the field `ID`. What it tells stands in the fields
//! `Reference0`, `Reference1` and so on; each kind of event says which of
//! them it needs and how it reads them.

use crate::fields::lookup;
use crate::grammar::Header;
use crate::number::integer_within;
use crate::request::{FromRequestField, Method, Request};
use crate::text::same_text;
use vstd::prelude::*;

verus! {

/// The text of a field that may be missing.
pub open spec fn text_of(value: Option<&str>) -> Option<Seq<char>> {
    match value {
        Some(s) => Some(s@),
        None => None,
    }
}

/// The table names the event `id`.
pub open spec fn has_id(pairs: Seq<(Seq<char>, Seq<char>)>, id: Seq<char>) -> bool {
    lookup(pairs, "ID"@) == Some(id)
}

fn id_is(untyped: &Request, id: &str) -> (yes: bool)
    ensures
        yes == has_id(untyped.pairs(), id@),
{
    match untyped.get_field("ID") {
        Some(found) => same_text(found, id),
        None => false,
    }
}

/// The count that the field `name` holds: a whole number that fits `usize`.
pub open spec fn count_at(pairs: Seq<(Seq<char>, Seq<char>)>, name: Seq<char>) -> Option<int> {
    match lookup(pairs, name) {
        Some(text) => integer_within(text, false, 0, usize::MAX as int),
        None => None,
    }
}

/// A kind of event that a request can be read as.
pub trait RequestType<'u>: Sized {
    /// The identifier of the event.
    const ID: &'static str;

    /// Every field that the event needs is there and well formed.
    spec fn readable(pairs: Seq<(Seq<char>, Seq<char>)>) -> bool;

    /// The event holds what the fields say.
    spec fn matches(&self, pairs: Seq<(Seq<char>, Seq<char>)>) -> bool;

    /// Reads the request as this kind of event. That fails where the
    /// request names another event, or a field that the event needs is
    /// missing or malformed.
    fn from_untyped(untyped: &'u Request) -> (event: Result<Self, ()>)
        ensures
            match event {
                Ok(e) => has_id(untyped.pairs(), Self::ID@) && Self::readable(untyped.pairs())
                    && e.matches(untyped.pairs()),
                Err(_) => !(has_id(untyped.pairs(), Self::ID@) && Self::readable(
                    untyped.pairs(),
                )),
            },
    ;
}

/// Who asked the ghost to close.
#[derive(Copy, Clone, Debug, PartialEq, Eq, Structural)]
pub enum CloseReason {
    User,
    System,
}

/// The reason that a text names.
pub open spec fn close_reason_of(text: Seq<char>) -> Option<CloseReason> {
    if text == "user"@ {
        Some(CloseReason::User)
    } else if text == "system"@ {
        Some(CloseReason::System)
    } else {
        None
    }
}

/// The reason that the field `name` holds.
pub open spec fn close_reason_at(pairs: Seq<(Seq<char>, Seq<char>)>, name: Seq<char>) -> Option<
    CloseReason,
> {
    match lookup(pairs, name) {
        Some(text) => close_reason_of(text),
        None => None,
    }
}

impl<'a> FromRequestField<'a> for CloseReason {
    open spec fn reads(value: Option<&'a str>, field: Result<Self, ()>) -> bool {
        field == (match value {
            Some(s) => match close_reason_of(s@) {
                Some(reason) => Ok(reason),
                None => Err(()),
            },
            None => Err(()),
        })
    }

    fn from_request_field(value: Option<&'a str>) -> (field: Result<Self, ()>) {
        match value {
            Some(s) => if same_text(s, "user") {
                Ok(CloseReason::User)
            } else if same_text(s, "system") {
                Ok(CloseReason::System)
            } else {
                Err(())
            },
            None => Err(()),
        }
    }
}

/// How one ghost came to take over from another.
#[derive(Copy, Clone, Debug, PartialEq, Eq, Structural)]
pub enum SwitchType {
    Manual,
    Automatic,
}

/// The way of switching that a text names.
pub open spec fn switch_type_of(text: Seq<char>) -> Option<SwitchType> {
    if text == "manual"@ {
        Some(SwitchType::Manual)
    } else if text == "automatic"@ {
        Some(SwitchType::Automatic)
    } else {
        None
    }
}

/// The way of switching that the field `name` holds.
pub open spec fn switch_type_at(pairs: Seq<(Seq<char>, Seq<char>)>, name: Seq<char>) -> Option<
    SwitchType,
> {
    match lookup(pairs, name) {
        Some(text) => switch_type_of(text),
        None => None,
    }
}

impl<'a> FromRequestField<'a> for SwitchType {
    open spec fn reads(value: Option<&'a str>, field: Result<Self, ()>) -> bool {
        field == (match value {
            Some(s) => match switch_type_of(s@) {
                Some(switch) => Ok(switch),
                None => Err(()),
            },
            None => Err(()),
        })
    }

    fn from_request_field(value: Option<&'a str>) -> (field: Result<Self, ()>) {
        match value {
            Some(s) => if same_text(s, "manual") {
                Ok(SwitchType::Manual)
            } else if same_text(s, "automatic") {
                Ok(SwitchType::Automatic)
            } else {
                Err(())
            },
            None => Err(()),
        }
    }
}

/// The ghost starts for the first time.
pub struct OnFirstBoot {
    /// `Reference0`.
    pub times_uninstalled: usize,
}

impl<'u> RequestType<'u> for OnFirstBoot {
    const ID: &'static str = "OnFirstBoot";

    open spec fn readable(pairs: Seq<(Seq<char>, Seq<char>)>) -> bool {
        count_at(pairs, "Reference0"@) is Some
    }

    open spec fn matches(&self, pairs: Seq<(Seq<char>, Seq<char>)>) -> bool {
        count_at(pairs, "Reference0"@) == Some(self.times_uninstalled as int)
    }

    fn from_untyped(untyped: &'u Request) -> (event: Result<Self, ()>)
        ensures
            match event {
                Ok(e) => has_id(untyped.pairs(), Self::ID@) && Self::readable(untyped.pairs())
                    && e.matches(untyped.pairs()),
                Err(_) => !(has_id(untyped.pairs(), Self::ID@) && Self::readable(
                    untyped.pairs(),
                )),
            },
    {
        if !id_is(untyped, Self::ID) {
            return Err(());
        }
        let read0: Result<usize, ()> = FromRequestField::from_request_field(
            untyped.get_field("Reference0"),
        );
        let field0 = match read0 {
            Ok(field) => field,
            Err(_) => {
                return Err(());
            },
        };
        Ok(OnFirstBoot { times_uninstalled: field0 })
    }
}

/// The ghost starts.
pub struct OnBoot<'u> {
    /// `Reference0`.
    pub shell: &'u str,
}

impl<'u> RequestType<'u> for OnBoot<'u> {
    const ID: &'static str = "OnBoot";

    open spec fn readable(pairs: Seq<(Seq<char>, Seq<char>)>) -> bool {
        lookup(pairs, "Reference0"@) is Some
    }

    open spec fn matches(&self, pairs: Seq<(Seq<char>, Seq<char>)>) -> bool {
        lookup(pairs, "Reference0"@) == Some(self.shell@)
    }

    fn from_untyped(untyped: &'u Request) -> (event: Result<Self, ()>)
        ensures
            match event {
                Ok(e) => has_id(untyped.pairs(), Self::ID@) && Self::readable(untyped.pairs())
                    && e.matches(untyped.pairs()),
                Err(_) => !(has_id(untyped.pairs(), Self::ID@) && Self::readable(
                    untyped.pairs(),
                )),
            },
    {
        if !id_is(untyped, Self::ID) {
            return Err(());
        }
        let read0: Result<&'u str, ()> = FromRequestField::from_request_field(
            untyped.get_field("Reference0"),
        );
        let field0 = match read0 {
            Ok(field) => field,
            Err(_) => {
                return Err(());
            },
        };
        Ok(OnBoot { shell: field0 })
    }
}

/// The ghost is asked to close.
pub struct OnClose {
    /// `Reference0`.
    pub reason: CloseReason,
}

impl<'u> RequestType<'u> for OnClose {
    const ID: &'static str = "OnClose";

    open spec fn readable(pairs: Seq<(Seq<char>, Seq<char>)>) -> bool {
        close_reason_at(pairs, "Reference0"@) is Some
    }

    open spec fn matches(&self, pairs: Seq<(Seq<char>, Seq<char>)>) -> bool {
        close_reason_at(pairs, "Reference0"@) == Some(self.reason)
    }

    fn from_untyped(untyped: &'u Request) -> (event: Result<Self, ()>)
        ensures
            match event {
                Ok(e) => has_id(untyped.pairs(), Self::ID@) && Self::readable(untyped.pairs())
                    && e.matches(untyped.pairs()),
                Err(_) => !(has_id(untyped.pairs(), Self::ID@) && Self::readable(
                    untyped.pairs(),
                )),
            },
    {
        if !id_is(untyped, Self::ID) {
            return Err(());
        }
        let read0: Result<CloseReason, ()> = FromRequestField::from_request_field(
            untyped.get_field("Reference0"),
        );
        let field0 = match read0 {
            Ok(field) => field,
            Err(_) => {
                return Err(());
            },
        };
        Ok(OnClose { reason: field0 })
    }
}

/// All ghosts are asked to close.
pub struct OnCloseAll {
    /// `Reference0`.
    pub reason: CloseReason,
}

impl<'u> RequestType<'u> for OnCloseAll {
    const ID: &'static str = "OnCloseAll";

    open spec fn readable(pairs: Seq<(Seq<char>, Seq<char>)>) -> bool {
        close_reason_at(pairs, "Reference0"@) is Some
    }

    open spec fn matches(&self, pairs: Seq<(Seq<char>, Seq<char>)>) -> bool {
        close_reason_at(pairs, "Reference0"@) == Some(self.reason)
    }

    fn from_untyped(untyped: &'u Request) -> (event: Result<Self, ()>)
        ensures
            match event {
                Ok(e) => has_id(untyped.pairs(), Self::ID@) && Self::readable(untyped.pairs())
                    && e.matches(untyped.pairs()),
                Err(_) => !(has_id(untyped.pairs(), Self::ID@) && Self::readable(
                    untyped.pairs(),
                )),
            },
    {
        if !id_is(untyped, Self::ID) {
            return Err(());
        }
        let read0: Result<CloseReason, ()> = FromRequestField::from_request_field(
            untyped.get_field("Reference0"),
        );
        let field0 = match read0 {
            Ok(field) => field,
            Err(_) => {
                return Err(());
            },
        };
        Ok(OnCloseAll { reason: field0 })
    }
}

/// This ghost took over from another.
pub struct OnGhostChanged<'u> {
    /// `Reference0`.
    pub last_ghost_sakura: &'u str,
    /// `Reference1`.
    pub last_script: &'u str,
    /// `Reference2`.
    pub last_ghost: Option<&'u str>,
    /// `Reference3`.
    pub last_ghost_path: Option<&'u str>,
    /// `Reference7`.
    pub shell: Option<&'u str>,
}

impl<'u> RequestType<'u> for OnGhostChanged<'u> {
    const ID: &'static str = "OnGhostChanged";

    open spec fn readable(pairs: Seq<(Seq<char>, Seq<char>)>) -> bool {
        &&& lookup(pairs, "Reference0"@) is Some
        &&& lookup(pairs, "Reference1"@) is Some
    }

    open spec fn matches(&self, pairs: Seq<(Seq<char>, Seq<char>)>) -> bool {
        &&& lookup(pairs, "Reference0"@) == Some(self.last_ghost_sakura@)
        &&& lookup(pairs, "Reference1"@) == Some(self.last_script@)
        &&& lookup(pairs, "Reference2"@) == text_of(self.last_ghost)
        &&& lookup(pairs, "Reference3"@) == text_of(self.last_ghost_path)
        &&& lookup(pairs, "Reference7"@) == text_of(self.shell)
    }

    fn from_untyped(untyped: &'u Request) -> (event: Result<Self, ()>)
        ensures
            match event {
                Ok(e) => has_id(untyped.pairs(), Self::ID@) && Self::readable(untyped.pairs())
                    && e.matches(untyped.pairs()),
                Err(_) => !(has_id(untyped.pairs(), Self::ID@) && Self::readable(
                    untyped.pairs(),
                )),
            },
    {
        if !id_is(untyped, Self::ID) {
            return Err(());
        }
        let read0: Result<&'u str, ()> = FromRequestField::from_request_field(
            untyped.get_field("Reference0"),
        );
        let field0 = match read0 {
            Ok(field) => field,
            Err(_) => {
                return Err(());
            },
        };
        let read1: Result<&'u str, ()> = FromRequestField::from_request_field(
            untyped.get_field("Reference1"),
        );
        let field1 = match read1 {
            Ok(field) => field,
            Err(_) => {
                return Err(());
            },
        };
        let read2: Result<Option<&'u str>, ()> = FromRequestField::from_request_field(
            untyped.get_field("Reference2"),
        );
        let field2 = match read2 {
            Ok(field) => field,
            Err(_) => {
                return Err(());
            },
        };
        let read3: Result<Option<&'u str>, ()> = FromRequestField::from_request_field(
            untyped.get_field("Reference3"),
        );
        let field3 = match read3 {
            Ok(field) => field,
            Err(_) => {
                return Err(());
            },
        };
        let read7: Result<Option<&'u str>, ()> = FromRequestField::from_request_field(
            untyped.get_field("Reference7"),
        );
        let field7 = match read7 {
            Ok(field) => field,
            Err(_) => {
                return Err(());
            },
        };
        Ok(OnGhostChanged { last_ghost_sakura: field0, last_script: field1, last_ghost: field2, last_ghost_path: field3, shell: field7 })
    }
}

/// This ghost is about to hand over to another.
pub struct OnGhostChanging<'u> {
    /// `Reference0`.
    pub new_ghost_sakura: &'u str,
    /// `Reference1`.
    pub switch_type: SwitchType,
    /// `Reference2`.
    pub new_ghost_name: Option<&'u str>,
    /// `Reference3`.
    pub new_ghost_path: Option<&'u str>,
}

impl<'u> RequestType<'u> for OnGhostChanging<'u> {
    const ID: &'static str = "OnGhostChanging";

    open spec fn readable(pairs: Seq<(Seq<char>, Seq<char>)>) -> bool {
        &&& lookup(pairs, "Reference0"@) is Some
        &&& switch_type_at(pairs, "Reference1"@) is Some
    }

    open spec fn matches(&self, pairs: Seq<(Seq<char>, Seq<char>)>) -> bool {
        &&& lookup(pairs, "Reference0"@) == Some(self.new_ghost_sakura@)
        &&& switch_type_at(pairs, "Reference1"@) == Some(self.switch_type)
        &&& lookup(pairs, "Reference2"@) == text_of(self.new_ghost_name)
        &&& lookup(pairs, "Reference3"@) == text_of(self.new_ghost_path)
    }

    fn from_untyped(untyped: &'u Request) -> (event: Result<Self, ()>)
        ensures
            match event {
                Ok(e) => has_id(untyped.pairs(), Self::ID@) && Self::readable(untyped.pairs())
                    && e.matches(untyped.pairs()),
                Err(_) => !(has_id(untyped.pairs(), Self::ID@) && Self::readable(
                    untyped.pairs(),
                )),
            },
    {
        if !id_is(untyped, Self::ID) {
            return Err(());
        }
        let read0: Result<&'u str, ()> = FromRequestField::from_request_field(
            untyped.get_field("Reference0"),
        );
        let field0 = match read0 {
            Ok(field) => field,
            Err(_) => {
                return Err(());
            },
        };
        let read1: Result<SwitchType, ()> = FromRequestField::from_request_field(
            untyped.get_field("Reference1"),
        );
        let field1 = match read1 {
            Ok(field) => field,
            Err(_) => {
                return Err(());
            },
        };
        let read2: Result<Option<&'u str>, ()> = FromRequestField::from_request_field(
            untyped.get_field("Reference2"),
        );
        let field2 = match read2 {
            Ok(field) => field,
            Err(_) => {
                return Err(());
            },
        };
        let read3: Result<Option<&'u str>, ()> = FromRequestField::from_request_field(
            untyped.get_field("Reference3"),
        );
        let field3 = match read3 {
            Ok(field) => field,
            Err(_) => {
                return Err(());
            },
        };
        Ok(OnGhostChanging { new_ghost_sakura: field0, switch_type: field1, new_ghost_name: field2, new_ghost_path: field3 })
    }
}

/// This ghost was called by another.
pub struct OnGhostCalled<'u> {
    /// `Reference0`.
    pub calling_ghost_sakura: &'u str,
    /// `Reference1`.
    pub calling_script: &'u str,
    /// `Reference2`.
    pub calling_ghost: &'u str,
    /// `Reference3`.
    pub calling_ghost_path: &'u str,
    /// `Reference7`.
    pub shell: &'u str,
}

impl<'u> RequestType<'u> for OnGhostCalled<'u> {
    const ID: &'static str = "OnGhostCalled";

    open spec fn readable(pairs: Seq<(Seq<char>, Seq<char>)>) -> bool {
        &&& lookup(pairs, "Reference0"@) is Some
        &&& lookup(pairs, "Reference1"@) is Some
        &&& lookup(pairs, "Reference2"@) is Some
        &&& lookup(pairs, "Reference3"@) is Some
        &&& lookup(pairs, "Reference7"@) is Some
    }

    open spec fn matches(&self, pairs: Seq<(Seq<char>, Seq<char>)>) -> bool {
        &&& lookup(pairs, "Reference0"@) == Some(self.calling_ghost_sakura@)
        &&& lookup(pairs, "Reference1"@) == Some(self.calling_script@)
        &&& lookup(pairs, "Reference2"@) == Some(self.calling_ghost@)
        &&& lookup(pairs, "Reference3"@) == Some(self.calling_ghost_path@)
        &&& lookup(pairs, "Reference7"@) == Some(self.shell@)
    }

    fn from_untyped(untyped: &'u Request) -> (event: Result<Self, ()>)
        ensures
            match event {
                Ok(e) => has_id(untyped.pairs(), Self::ID@) && Self::readable(untyped.pairs())
                    && e.matches(untyped.pairs()),
                Err(_) => !(has_id(untyped.pairs(), Self::ID@) && Self::readable(
                    untyped.pairs(),
                )),
            },
    {
        if !id_is(untyped, Self::ID) {
            return Err(());
        }
        let read0: Result<&'u str, ()> = FromRequestField::from_request_field(
            untyped.get_field("Reference0"),
        );
        let field0 = match read0 {
            Ok(field) => field,
            Err(_) => {
                return Err(());
            },
        };
        let read1: Result<&'u str, ()> = FromRequestField::from_request_field(
            untyped.get_field("Reference1"),
        );
        let field1 = match read1 {
            Ok(field) => field,
            Err(_) => {
                return Err(());
            },
        };
        let read2: Result<&'u str, ()> = FromRequestField::from_request_field(
            untyped.get_field("Reference2"),
        );
        let field2 = match read2 {
            Ok(field) => field,
            Err(_) => {
                return Err(());
            },
        };
        let read3: Result<&'u str, ()> = FromRequestField::from_request_field(
            untyped.get_field("Reference3"),
        );
        let field3 = match read3 {
            Ok(field) => field,
            Err(_) => {
                return Err(());
            },
        };
        let read7: Result<&'u str, ()> = FromRequestField::from_request_field(
            untyped.get_field("Reference7"),
        );
        let field7 = match read7 {
            Ok(field) => field,
            Err(_) => {
                return Err(());
            },
        };
        Ok(OnGhostCalled { calling_ghost_sakura: field0, calling_script: field1, calling_ghost: field2, calling_ghost_path: field3, shell: field7 })
    }
}

/// This ghost is calling another.
pub struct OnGhostCalling<'u> {
    /// `Reference0`.
    pub called_ghost_sakura: &'u str,
    /// `Reference1`.
    pub switch_type: SwitchType,
    /// `Reference2`.
    pub called_ghost_name: &'u str,
    /// `Reference3`.
    pub called_ghost_path: &'u str,
}

impl<'u> RequestType<'u> for OnGhostCalling<'u> {
    const ID: &'static str = "OnGhostCalling";

    open spec fn readable(pairs: Seq<(Seq<char>, Seq<char>)>) -> bool {
        &&& lookup(pairs, "Reference0"@) is Some
        &&& switch_type_at(pairs, "Reference1"@) is Some
        &&& lookup(pairs, "Reference2"@) is Some
        &&& lookup(pairs, "Reference3"@) is Some
    }

    open spec fn matches(&self, pairs: Seq<(Seq<char>, Seq<char>)>) -> bool {
        &&& lookup(pairs, "Reference0"@) == Some(self.called_ghost_sakura@)
        &&& switch_type_at(pairs, "Reference1"@) == Some(self.switch_type)
        &&& lookup(pairs, "Reference2"@) == Some(self.called_ghost_name@)
        &&& lookup(pairs, "Reference3"@) == Some(self.called_ghost_path@)
    }

    fn from_untyped(untyped: &'u Request) -> (event: Result<Self, ()>)
        ensures
            match event {
                Ok(e) => has_id(untyped.pairs(), Self::ID@) && Self::readable(untyped.pairs())
                    && e.matches(untyped.pairs()),
                Err(_) => !(has_id(untyped.pairs(), Self::ID@) && Self::readable(
                    untyped.pairs(),
                )),
            },
    {
        if !id_is(untyped, Self::ID) {
            return Err(());
        }
        let read0: Result<&'u str, ()> = FromRequestField::from_request_field(
            untyped.get_field("Reference0"),
        );
        let field0 = match read0 {
            Ok(field) => field,
            Err(_) => {
                return Err(());
            },
        };
        let read1: Result<SwitchType, ()> = FromRequestField::from_request_field(
            untyped.get_field("Reference1"),
        );
        let field1 = match read1 {
            Ok(field) => field,
            Err(_) => {
                return Err(());
            },
        };
        let read2: Result<&'u str, ()> = FromRequestField::from_request_field(
            untyped.get_field("Reference2"),
        );
        let field2 = match read2 {
            Ok(field) => field,
            Err(_) => {
                return Err(());
            },
        };
        let read3: Result<&'u str, ()> = FromRequestField::from_request_field(
            untyped.get_field("Reference3"),
        );
        let field3 = match read3 {
            Ok(field) => field,
            Err(_) => {
                return Err(());
            },
        };
        Ok(OnGhostCalling { called_ghost_sakura: field0, switch_type: field1, called_ghost_name: field2, called_ghost_path: field3 })
    }
}

/// The ghost that this one called has started.
pub struct OnGhostCallComplete<'u> {
    /// `Reference0`.
    pub calling_ghost_sakura: &'u str,
    /// `Reference1`.
    pub calling_script: &'u str,
    /// `Reference2`.
    pub calling_ghost: &'u str,
    /// `Reference7`.
    pub calling_shell: &'u str,
}

impl<'u> RequestType<'u> for OnGhostCallComplete<'u> {
    const ID: &'static str = "OnGhostCallComplete";

    open spec fn readable(pairs: Seq<(Seq<char>, Seq<char>)>) -> bool {
        &&& lookup(pairs, "Reference0"@) is Some
        &&& lookup(pairs, "Reference1"@) is Some
        &&& lookup(pairs, "Reference2"@) is Some
        &&& lookup(pairs, "Reference7"@) is Some
    }

    open spec fn matches(&self, pairs: Seq<(Seq<char>, Seq<char>)>) -> bool {
        &&& lookup(pairs, "Reference0"@) == Some(self.calling_ghost_sakura@)
        &&& lookup(pairs, "Reference1"@) == Some(self.calling_script@)
        &&& lookup(pairs, "Reference2"@) == Some(self.calling_ghost@)
        &&& lookup(pairs, "Reference7"@) == Some(self.calling_shell@)
    }

    fn from_untyped(untyped: &'u Request) -> (event: Result<Self, ()>)
        ensures
            match event {
                Ok(e) => has_id(untyped.pairs(), Self::ID@) && Self::readable(untyped.pairs())
                    && e.matches(untyped.pairs()),
                Err(_) => !(has_id(untyped.pairs(), Self::ID@) && Self::readable(
                    untyped.pairs(),
                )),
            },
    {
        if !id_is(untyped, Self::ID) {
            return Err(());
        }
        let read0: Result<&'u str, ()> = FromRequestField::from_request_field(
            untyped.get_field("Reference0"),
        );
        let field0 = match read0 {
            Ok(field) => field,
            Err(_) => {
                return Err(());
            },
        };
        let read1: Result<&'u str, ()> = FromRequestField::from_request_field(
            untyped.get_field("Reference1"),
        );
        let field1 = match read1 {
            Ok(field) => field,
            Err(_) => {
                return Err(());
            },
        };
        let read2: Result<&'u str, ()> = FromRequestField::from_request_field(
            untyped.get_field("Reference2"),
        );
        let field2 = match read2 {
            Ok(field) => field,
            Err(_) => {
                return Err(());
            },
        };
        let read7: Result<&'u str, ()> = FromRequestField::from_request_field(
            untyped.get_field("Reference7"),
        );
        let field7 = match read7 {
            Ok(field) => field,
            Err(_) => {
                return Err(());
            },
        };
        Ok(OnGhostCallComplete { calling_ghost_sakura: field0, calling_script: field1, calling_ghost: field2, calling_shell: field7 })
    }
}

/// Another ghost has started.
pub struct OnOtherGhostBooted<'u> {
    /// `Reference0`.
    pub booted_ghost_sakura: &'u str,
    /// `Reference1`.
    pub booted_script: &'u str,
    /// `Reference2`.
    pub booted_ghost: &'u str,
    /// `Reference7`.
    pub booted_shell: &'u str,
}

impl<'u> RequestType<'u> for OnOtherGhostBooted<'u> {
    const ID: &'static str = "OnOtherGhostBooted";

    open spec fn readable(pairs: Seq<(Seq<char>, Seq<char>)>) -> bool {
        &&& lookup(pairs, "Reference0"@) is Some
        &&& lookup(pairs, "Reference1"@) is Some
        &&& lookup(pairs, "Reference2"@) is Some
        &&& lookup(pairs, "Reference7"@) is Some
    }

    open spec fn matches(&self, pairs: Seq<(Seq<char>, Seq<char>)>) -> bool {
        &&& lookup(pairs, "Reference0"@) == Some(self.booted_ghost_sakura@)
        &&& lookup(pairs, "Reference1"@) == Some(self.booted_script@)
        &&& lookup(pairs, "Reference2"@) == Some(self.booted_ghost@)
        &&& lookup(pairs, "Reference7"@) == Some(self.booted_shell@)
    }

    fn from_untyped(untyped: &'u Request) -> (event: Result<Self, ()>)
        ensures
            match event {
                Ok(e) => has_id(untyped.pairs(), Self::ID@) && Self::readable(untyped.pairs())
                    && e.matches(untyped.pairs()),
                Err(_) => !(has_id(untyped.pairs(), Self::ID@) && Self::readable(
                    untyped.pairs(),
                )),
            },
    {
        if !id_is(untyped, Self::ID) {
            return Err(());
        }
        let read0: Result<&'u str, ()> = FromRequestField::from_request_field(
            untyped.get_field("Reference0"),
        );
        let field0 = match read0 {
            Ok(field) => field,
            Err(_) => {
                return Err(());
            },
        };
        let read1: Result<&'u str, ()> = FromRequestField::from_request_field(
            untyped.get_field("Reference1"),
        );
        let field1 = match read1 {
            Ok(field) => field,
            Err(_) => {
                return Err(());
            },
        };
        let read2: Result<&'u str, ()> = FromRequestField::from_request_field(
            untyped.get_field("Reference2"),
        );
        let field2 = match read2 {
            Ok(field) => field,
            Err(_) => {
                return Err(());
            },
        };
        let read7: Result<&'u str, ()> = FromRequestField::from_request_field(
            untyped.get_field("Reference7"),
        );
        let field7 = match read7 {
            Ok(field) => field,
            Err(_) => {
                return Err(());
            },
        };
        Ok(OnOtherGhostBooted { booted_ghost_sakura: field0, booted_script: field1, booted_ghost: field2, booted_shell: field7 })
    }
}

/// Another ghost has handed over.
pub struct OnOtherGhostChanged<'u> {
    /// `Reference0`.
    pub last_ghost_sakura: &'u str,
    /// `Reference1`.
    pub new_ghost_sakura: &'u str,
    /// `Reference2`.
    pub last_ghost_script: &'u str,
    /// `Reference3`.
    pub new_ghost_script: &'u str,
    /// `Reference4`.
    pub last_ghost: &'u str,
    /// `Reference5`.
    pub new_ghost: &'u str,
    /// `Reference14`.
    pub last_shell: &'u str,
    /// `Reference15`.
    pub new_shell: &'u str,
}

impl<'u> RequestType<'u> for OnOtherGhostChanged<'u> {
    const ID: &'static str = "OnOtherGhostChanged";

    open spec fn readable(pairs: Seq<(Seq<char>, Seq<char>)>) -> bool {
        &&& lookup(pairs, "Reference0"@) is Some
        &&& lookup(pairs, "Reference1"@) is Some
        &&& lookup(pairs, "Reference2"@) is Some
        &&& lookup(pairs, "Reference3"@) is Some
        &&& lookup(pairs, "Reference4"@) is Some
        &&& lookup(pairs, "Reference5"@) is Some
        &&& lookup(pairs, "Reference14"@) is Some
        &&& lookup(pairs, "Reference15"@) is Some
    }

    open spec fn matches(&self, pairs: Seq<(Seq<char>, Seq<char>)>) -> bool {
        &&& lookup(pairs, "Reference0"@) == Some(self.last_ghost_sakura@)
        &&& lookup(pairs, "Reference1"@) == Some(self.new_ghost_sakura@)
        &&& lookup(pairs, "Reference2"@) == Some(self.last_ghost_script@)
        &&& lookup(pairs, "Reference3"@) == Some(self.new_ghost_script@)
        &&& lookup(pairs, "Reference4"@) == Some(self.last_ghost@)
        &&& lookup(pairs, "Reference5"@) == Some(self.new_ghost@)
        &&& lookup(pairs, "Reference14"@) == Some(self.last_shell@)
        &&& lookup(pairs, "Reference15"@) == Some(self.new_shell@)
    }

    fn from_untyped(untyped: &'u Request) -> (event: Result<Self, ()>)
        ensures
            match event {
                Ok(e) => has_id(untyped.pairs(), Self::ID@) && Self::readable(untyped.pairs())
                    && e.matches(untyped.pairs()),
                Err(_) => !(has_id(untyped.pairs(), Self::ID@) && Self::readable(
                    untyped.pairs(),
                )),
            },
    {
        if !id_is(untyped, Self::ID) {
            return Err(());
        }
        let read0: Result<&'u str, ()> = FromRequestField::from_request_field(
            untyped.get_field("Reference0"),
        );
        let field0 = match read0 {
            Ok(field) => field,
            Err(_) => {
                return Err(());
            },
        };
        let read1: Result<&'u str, ()> = FromRequestField::from_request_field(
            untyped.get_field("Reference1"),
        );
        let field1 = match read1 {
            Ok(field) => field,
            Err(_) => {
                return Err(());
            },
        };
        let read2: Result<&'u str, ()> = FromRequestField::from_request_field(
            untyped.get_field("Reference2"),
        );
        let field2 = match read2 {
            Ok(field) => field,
            Err(_) => {
                return Err(());
            },
        };
        let read3: Result<&'u str, ()> = FromRequestField::from_request_field(
            untyped.get_field("Reference3"),
        );
        let field3 = match read3 {
            Ok(field) => field,
            Err(_) => {
                return Err(());
            },
        };
        let read4: Result<&'u str, ()> = FromRequestField::from_request_field(
            untyped.get_field("Reference4"),
        );
        let field4 = match read4 {
            Ok(field) => field,
            Err(_) => {
                return Err(());
            },
        };
        let read5: Result<&'u str, ()> = FromRequestField::from_request_field(
            untyped.get_field("Reference5"),
        );
        let field5 = match read5 {
            Ok(field) => field,
            Err(_) => {
                return Err(());
            },
        };
        let read14: Result<&'u str, ()> = FromRequestField::from_request_field(
            untyped.get_field("Reference14"),
        );
        let field14 = match read14 {
            Ok(field) => field,
            Err(_) => {
                return Err(());
            },
        };
        let read15: Result<&'u str, ()> = FromRequestField::from_request_field(
            untyped.get_field("Reference15"),
        );
        let field15 = match read15 {
            Ok(field) => field,
            Err(_) => {
                return Err(());
            },
        };
        Ok(OnOtherGhostChanged { last_ghost_sakura: field0, new_ghost_sakura: field1, last_ghost_script: field2, new_ghost_script: field3, last_ghost: field4, new_ghost: field5, last_shell: field14, new_shell: field15 })
    }
}

/// Another ghost has closed.
pub struct OnOtherGhostClosed<'u> {
    /// `Reference0`.
    pub closed_ghost_sakura: &'u str,
    /// `Reference1`.
    pub closed_script: &'u str,
    /// `Reference2`.
    pub closed_ghost: &'u str,
    /// `Reference7`.
    pub closed_shell: &'u str,
}

impl<'u> RequestType<'u> for OnOtherGhostClosed<'u> {
    const ID: &'static str = "OnOtherGhostClosed";

    open spec fn readable(pairs: Seq<(Seq<char>, Seq<char>)>) -> bool {
        &&& lookup(pairs, "Reference0"@) is Some
        &&& lookup(pairs, "Reference1"@) is Some
        &&& lookup(pairs, "Reference2"@) is Some
        &&& lookup(pairs, "Reference7"@) is Some
    }

    open spec fn matches(&self, pairs: Seq<(Seq<char>, Seq<char>)>) -> bool {
        &&& lookup(pairs, "Reference0"@) == Some(self.closed_ghost_sakura@)
        &&& lookup(pairs, "Reference1"@) == Some(self.closed_script@)
        &&& lookup(pairs, "Reference2"@) == Some(self.closed_ghost@)
        &&& lookup(pairs, "Reference7"@) == Some(self.closed_shell@)
    }

    fn from_untyped(untyped: &'u Request) -> (event: Result<Self, ()>)
        ensures
            match event {
                Ok(e) => has_id(untyped.pairs(), Self::ID@) && Self::readable(untyped.pairs())
                    && e.matches(untyped.pairs()),
                Err(_) => !(has_id(untyped.pairs(), Self::ID@) && Self::readable(
                    untyped.pairs(),
                )),
            },
    {
        if !id_is(untyped, Self::ID) {
            return Err(());
        }
        let read0: Result<&'u str, ()> = FromRequestField::from_request_field(
            untyped.get_field("Reference0"),
        );
        let field0 = match read0 {
            Ok(field) => field,
            Err(_) => {
                return Err(());
            },
        };
        let read1: Result<&'u str, ()> = FromRequestField::from_request_field(
            untyped.get_field("Reference1"),
        );
        let field1 = match read1 {
            Ok(field) => field,
            Err(_) => {
                return Err(());
            },
        };
        let read2: Result<&'u str, ()> = FromRequestField::from_request_field(
            untyped.get_field("Reference2"),
        );
        let field2 = match read2 {
            Ok(field) => field,
            Err(_) => {
                return Err(());
            },
        };
        let read7: Result<&'u str, ()> = FromRequestField::from_request_field(
            untyped.get_field("Reference7"),
        );
        let field7 = match read7 {
            Ok(field) => field,
            Err(_) => {
                return Err(());
            },
        };
        Ok(OnOtherGhostClosed { closed_ghost_sakura: field0, closed_script: field1, closed_ghost: field2, closed_shell: field7 })
    }
}

/// The shell was changed.
pub struct OnShellChanged<'u> {
    /// `Reference0`.
    pub current_shell: &'u str,
    /// `Reference1`.
    pub ghost_name: Option<&'u str>,
    /// `Reference2`.
    pub current_shell_path: Option<&'u str>,
}

impl<'u> RequestType<'u> for OnShellChanged<'u> {
    const ID: &'static str = "OnShellChanged";

    open spec fn readable(pairs: Seq<(Seq<char>, Seq<char>)>) -> bool {
        lookup(pairs, "Reference0"@) is Some
    }

    open spec fn matches(&self, pairs: Seq<(Seq<char>, Seq<char>)>) -> bool {
        &&& lookup(pairs, "Reference0"@) == Some(self.current_shell@)
        &&& lookup(pairs, "Reference1"@) == text_of(self.ghost_name)
        &&& lookup(pairs, "Reference2"@) == text_of(self.current_shell_path)
    }

    fn from_untyped(untyped: &'u Request) -> (event: Result<Self, ()>)
        ensures
            match event {
                Ok(e) => has_id(untyped.pairs(), Self::ID@) && Self::readable(untyped.pairs())
                    && e.matches(untyped.pairs()),
                Err(_) => !(has_id(untyped.pairs(), Self::ID@) && Self::readable(
                    untyped.pairs(),
                )),
            },
    {
        if !id_is(untyped, Self::ID) {
            return Err(());
        }
        let read0: Result<&'u str, ()> = FromRequestField::from_request_field(
            untyped.get_field("Reference0"),
        );
        let field0 = match read0 {
            Ok(field) => field,
            Err(_) => {
                return Err(());
            },
        };
        let read1: Result<Option<&'u str>, ()> = FromRequestField::from_request_field(
            untyped.get_field("Reference1"),
        );
        let field1 = match read1 {
            Ok(field) => field,
            Err(_) => {
                return Err(());
            },
        };
        let read2: Result<Option<&'u str>, ()> = FromRequestField::from_request_field(
            untyped.get_field("Reference2"),
        );
        let field2 = match read2 {
            Ok(field) => field,
            Err(_) => {
                return Err(());
            },
        };
        Ok(OnShellChanged { current_shell: field0, ghost_name: field1, current_shell_path: field2 })
    }
}

/// The shell is about to change.
pub struct OnShellChanging<'u> {
    /// `Reference0`.
    pub new_shell: &'u str,
    /// `Reference1`.
    pub last_shell: Option<&'u str>,
    /// `Reference2`.
    pub new_shell_path: Option<&'u str>,
}

impl<'u> RequestType<'u> for OnShellChanging<'u> {
    const ID: &'static str = "OnShellChanging";

    open spec fn readable(pairs: Seq<(Seq<char>, Seq<char>)>) -> bool {
        lookup(pairs, "Reference0"@) is Some
    }

    open spec fn matches(&self, pairs: Seq<(Seq<char>, Seq<char>)>) -> bool {
        &&& lookup(pairs, "Reference0"@) == Some(self.new_shell@)
        &&& lookup(pairs, "Reference1"@) == text_of(self.last_shell)
        &&& lookup(pairs, "Reference2"@) == text_of(self.new_shell_path)
    }

    fn from_untyped(untyped: &'u Request) -> (event: Result<Self, ()>)
        ensures
            match event {
                Ok(e) => has_id(untyped.pairs(), Self::ID@) && Self::readable(untyped.pairs())
                    && e.matches(untyped.pairs()),
                Err(_) => !(has_id(untyped.pairs(), Self::ID@) && Self::readable(
                    untyped.pairs(),
                )),
            },
    {
        if !id_is(untyped, Self::ID) {
            return Err(());
        }
        let read0: Result<&'u str, ()> = FromRequestField::from_request_field(
            untyped.get_field("Reference0"),
        );
        let field0 = match read0 {
            Ok(field) => field,
            Err(_) => {
                return Err(());
            },
        };
        let read1: Result<Option<&'u str>, ()> = FromRequestField::from_request_field(
            untyped.get_field("Reference1"),
        );
        let field1 = match read1 {
            Ok(field) => field,
            Err(_) => {
                return Err(());
            },
        };
        let read2: Result<Option<&'u str>, ()> = FromRequestField::from_request_field(
            untyped.get_field("Reference2"),
        );
        let field2 = match read2 {
            Ok(field) => field,
            Err(_) => {
                return Err(());
            },
        };
        Ok(OnShellChanging { new_shell: field0, last_shell: field1, new_shell_path: field2 })
    }
}

/// A dress-up part was put on or taken off.
pub struct OnDressupChanged<'u> {
    /// `Reference0`.
    pub character: &'u str,
    /// `Reference1`.
    pub part: &'u str,
    /// `Reference2`.
    pub valid: usize,
    /// `Reference3`.
    pub category: Option<&'u str>,
}

impl<'u> RequestType<'u> for OnDressupChanged<'u> {
    const ID: &'static str = "OnDressupChanged";

    open spec fn readable(pairs: Seq<(Seq<char>, Seq<char>)>) -> bool {
        &&& lookup(pairs, "Reference0"@) is Some
        &&& lookup(pairs, "Reference1"@) is Some
        &&& count_at(pairs, "Reference2"@) is Some
    }

    open spec fn matches(&self, pairs: Seq<(Seq<char>, Seq<char>)>) -> bool {
        &&& lookup(pairs, "Reference0"@) == Some(self.character@)
        &&& lookup(pairs, "Reference1"@) == Some(self.part@)
        &&& count_at(pairs, "Reference2"@) == Some(self.valid as int)
        &&& lookup(pairs, "Reference3"@) == text_of(self.category)
    }

    fn from_untyped(untyped: &'u Request) -> (event: Result<Self, ()>)
        ensures
            match event {
                Ok(e) => has_id(untyped.pairs(), Self::ID@) && Self::readable(untyped.pairs())
                    && e.matches(untyped.pairs()),
                Err(_) => !(has_id(untyped.pairs(), Self::ID@) && Self::readable(
                    untyped.pairs(),
                )),
            },
    {
        if !id_is(untyped, Self::ID) {
            return Err(());
        }
        let read0: Result<&'u str, ()> = FromRequestField::from_request_field(
            untyped.get_field("Reference0"),
        );
        let field0 = match read0 {
            Ok(field) => field,
            Err(_) => {
                return Err(());
            },
        };
        let read1: Result<&'u str, ()> = FromRequestField::from_request_field(
            untyped.get_field("Reference1"),
        );
        let field1 = match read1 {
            Ok(field) => field,
            Err(_) => {
                return Err(());
            },
        };
        let read2: Result<usize, ()> = FromRequestField::from_request_field(
            untyped.get_field("Reference2"),
        );
        let field2 = match read2 {
            Ok(field) => field,
            Err(_) => {
                return Err(());
            },
        };
        let read3: Result<Option<&'u str>, ()> = FromRequestField::from_request_field(
            untyped.get_field("Reference3"),
        );
        let field3 = match read3 {
            Ok(field) => field,
            Err(_) => {
                return Err(());
            },
        };
        Ok(OnDressupChanged { character: field0, part: field1, valid: field2, category: field3 })
    }
}

/// The balloon was changed.
pub struct OnBalloonChange<'u> {
    /// `Reference0`.
    pub new_balloon: &'u str,
    /// `Reference1`.
    pub new_balloon_path: &'u str,
}

impl<'u> RequestType<'u> for OnBalloonChange<'u> {
    const ID: &'static str = "OnBalloonChange";

    open spec fn readable(pairs: Seq<(Seq<char>, Seq<char>)>) -> bool {
        &&& lookup(pairs, "Reference0"@) is Some
        &&& lookup(pairs, "Reference1"@) is Some
    }

    open spec fn matches(&self, pairs: Seq<(Seq<char>, Seq<char>)>) -> bool {
        &&& lookup(pairs, "Reference0"@) == Some(self.new_balloon@)
        &&& lookup(pairs, "Reference1"@) == Some(self.new_balloon_path@)
    }

    fn from_untyped(untyped: &'u Request) -> (event: Result<Self, ()>)
        ensures
            match event {
                Ok(e) => has_id(untyped.pairs(), Self::ID@) && Self::readable(untyped.pairs())
                    && e.matches(untyped.pairs()),
                Err(_) => !(has_id(untyped.pairs(), Self::ID@) && Self::readable(
                    untyped.pairs(),
                )),
            },
    {
        if !id_is(untyped, Self::ID) {
            return Err(());
        }
        let read0: Result<&'u str, ()> = FromRequestField::from_request_field(
            untyped.get_field("Reference0"),
        );
        let field0 = match read0 {
            Ok(field) => field,
            Err(_) => {
                return Err(());
            },
        };
        let read1: Result<&'u str, ()> = FromRequestField::from_request_field(
            untyped.get_field("Reference1"),
        );
        let field1 = match read1 {
            Ok(field) => field,
            Err(_) => {
                return Err(());
            },
        };
        Ok(OnBalloonChange { new_balloon: field0, new_balloon_path: field1 })
    }
}

/// The window was restored.
pub struct OnWindowStateRestore;

impl<'u> RequestType<'u> for OnWindowStateRestore {
    const ID: &'static str = "OnWindowStateRestore";

    open spec fn readable(pairs: Seq<(Seq<char>, Seq<char>)>) -> bool {
        true
    }

    open spec fn matches(&self, pairs: Seq<(Seq<char>, Seq<char>)>) -> bool {
        true
    }

    fn from_untyped(untyped: &'u Request) -> (event: Result<Self, ()>)
        ensures
            match event {
                Ok(e) => has_id(untyped.pairs(), Self::ID@) && Self::readable(untyped.pairs())
                    && e.matches(untyped.pairs()),
                Err(_) => !(has_id(untyped.pairs(), Self::ID@) && Self::readable(
                    untyped.pairs(),
                )),
            },
    {
        if !id_is(untyped, Self::ID) {
            return Err(());
        }
        Ok(OnWindowStateRestore)
    }
}

/// The window was minimized.
pub struct OnWindowStateMinimize;

impl<'u> RequestType<'u> for OnWindowStateMinimize {
    const ID: &'static str = "OnWindowStateMinimize";

    open spec fn readable(pairs: Seq<(Seq<char>, Seq<char>)>) -> bool {
        true
    }

    open spec fn matches(&self, pairs: Seq<(Seq<char>, Seq<char>)>) -> bool {
        true
    }

    fn from_untyped(untyped: &'u Request) -> (event: Result<Self, ()>)
        ensures
            match event {
                Ok(e) => has_id(untyped.pairs(), Self::ID@) && Self::readable(untyped.pairs())
                    && e.matches(untyped.pairs()),
                Err(_) => !(has_id(untyped.pairs(), Self::ID@) && Self::readable(
                    untyped.pairs(),
                )),
            },
    {
        if !id_is(untyped, Self::ID) {
            return Err(());
        }
        Ok(OnWindowStateMinimize)
    }
}

/// A full-screen application was minimized.
pub struct OnFullScreenAppMinimize;

impl<'u> RequestType<'u> for OnFullScreenAppMinimize {
    const ID: &'static str = "OnFullScreenAppMinimize";

    open spec fn readable(pairs: Seq<(Seq<char>, Seq<char>)>) -> bool {
        true
    }

    open spec fn matches(&self, pairs: Seq<(Seq<char>, Seq<char>)>) -> bool {
        true
    }

    fn from_untyped(untyped: &'u Request) -> (event: Result<Self, ()>)
        ensures
            match event {
                Ok(e) => has_id(untyped.pairs(), Self::ID@) && Self::readable(untyped.pairs())
                    && e.matches(untyped.pairs()),
                Err(_) => !(has_id(untyped.pairs(), Self::ID@) && Self::readable(
                    untyped.pairs(),
                )),
            },
    {
        if !id_is(untyped, Self::ID) {
            return Err(());
        }
        Ok(OnFullScreenAppMinimize)
    }
}

/// A full-screen application was restored.
pub struct OnFullScreenAppRestore;

impl<'u> RequestType<'u> for OnFullScreenAppRestore {
    const ID: &'static str = "OnFullScreenAppRestore";

    open spec fn readable(pairs: Seq<(Seq<char>, Seq<char>)>) -> bool {
        true
    }

    open spec fn matches(&self, pairs: Seq<(Seq<char>, Seq<char>)>) -> bool {
        true
    }

    fn from_untyped(untyped: &'u Request) -> (event: Result<Self, ()>)
        ensures
            match event {
                Ok(e) => has_id(untyped.pairs(), Self::ID@) && Self::readable(untyped.pairs())
                    && e.matches(untyped.pairs()),
                Err(_) => !(has_id(untyped.pairs(), Self::ID@) && Self::readable(
                    untyped.pairs(),
                )),
            },
    {
        if !id_is(untyped, Self::ID) {
            return Err(());
        }
        Ok(OnFullScreenAppRestore)
    }
}

/// A request sorted by the event that it announces.
pub enum RequestKind<'u> {
    OnFirstBoot(OnFirstBoot),
    OnBoot(OnBoot<'u>),
    OnClose(OnClose),
    OnCloseAll(OnCloseAll),
    OnGhostChanged(OnGhostChanged<'u>),
    OnGhostChanging(OnGhostChanging<'u>),
    OnGhostCalled(OnGhostCalled<'u>),
    OnGhostCalling(OnGhostCalling<'u>),
    OnGhostCallComplete(OnGhostCallComplete<'u>),
    OnOtherGhostBooted(OnOtherGhostBooted<'u>),
    OnOtherGhostChanged(OnOtherGhostChanged<'u>),
    OnOtherGhostClosed(OnOtherGhostClosed<'u>),
    OnShellChanged(OnShellChanged<'u>),
    OnShellChanging(OnShellChanging<'u>),
    OnDressupChanged(OnDressupChanged<'u>),
    /// An event that is not known here, or one whose fields could not be read.
    Other,
}

impl<'u> RequestKind<'u> {
    /// The kind says what the fields say: it is the event that the request
    /// names, read from its fields, or `Other` where the request can be read
    /// as none of the known events.
    pub open spec fn agrees(&self, pairs: Seq<(Seq<char>, Seq<char>)>) -> bool {
        match self {
            RequestKind::OnFirstBoot(e) => has_id(pairs, OnFirstBoot::ID@) && OnFirstBoot::readable(pairs)
                && e.matches(pairs),
            RequestKind::OnBoot(e) => has_id(pairs, OnBoot::ID@) && OnBoot::readable(pairs)
                && e.matches(pairs),
            RequestKind::OnClose(e) => has_id(pairs, OnClose::ID@) && OnClose::readable(pairs)
                && e.matches(pairs),
            RequestKind::OnCloseAll(e) => has_id(pairs, OnCloseAll::ID@) && OnCloseAll::readable(pairs)
                && e.matches(pairs),
            RequestKind::OnGhostChanged(e) => has_id(pairs, OnGhostChanged::ID@) && OnGhostChanged::readable(pairs)
                && e.matches(pairs),
            RequestKind::OnGhostChanging(e) => has_id(pairs, OnGhostChanging::ID@) && OnGhostChanging::readable(pairs)
                && e.matches(pairs),
            RequestKind::OnGhostCalled(e) => has_id(pairs, OnGhostCalled::ID@) && OnGhostCalled::readable(pairs)
                && e.matches(pairs),
            RequestKind::OnGhostCalling(e) => has_id(pairs, OnGhostCalling::ID@) && OnGhostCalling::readable(pairs)
                && e.matches(pairs),
            RequestKind::OnGhostCallComplete(e) => has_id(pairs, OnGhostCallComplete::ID@) && OnGhostCallComplete::readable(pairs)
                && e.matches(pairs),
            RequestKind::OnOtherGhostBooted(e) => has_id(pairs, OnOtherGhostBooted::ID@) && OnOtherGhostBooted::readable(pairs)
                && e.matches(pairs),
            RequestKind::OnOtherGhostChanged(e) => has_id(pairs, OnOtherGhostChanged::ID@) && OnOtherGhostChanged::readable(pairs)
                && e.matches(pairs),
            RequestKind::OnOtherGhostClosed(e) => has_id(pairs, OnOtherGhostClosed::ID@) && OnOtherGhostClosed::readable(pairs)
                && e.matches(pairs),
            RequestKind::OnShellChanged(e) => has_id(pairs, OnShellChanged::ID@) && OnShellChanged::readable(pairs)
                && e.matches(pairs),
            RequestKind::OnShellChanging(e) => has_id(pairs, OnShellChanging::ID@) && OnShellChanging::readable(pairs)
                && e.matches(pairs),
            RequestKind::OnDressupChanged(e) => has_id(pairs, OnDressupChanged::ID@) && OnDressupChanged::readable(pairs)
                && e.matches(pairs),
            RequestKind::Other => {
                &&& !(has_id(pairs, OnFirstBoot::ID@) && OnFirstBoot::readable(pairs))
                &&& !(has_id(pairs, OnBoot::ID@) && OnBoot::readable(pairs))
                &&& !(has_id(pairs, OnClose::ID@) && OnClose::readable(pairs))
                &&& !(has_id(pairs, OnCloseAll::ID@) && OnCloseAll::readable(pairs))
                &&& !(has_id(pairs, OnGhostChanged::ID@) && OnGhostChanged::readable(pairs))
                &&& !(has_id(pairs, OnGhostChanging::ID@) && OnGhostChanging::readable(pairs))
                &&& !(has_id(pairs, OnGhostCalled::ID@) && OnGhostCalled::readable(pairs))
                &&& !(has_id(pairs, OnGhostCalling::ID@) && OnGhostCalling::readable(pairs))
                &&& !(has_id(pairs, OnGhostCallComplete::ID@) && OnGhostCallComplete::readable(pairs))
                &&& !(has_id(pairs, OnOtherGhostBooted::ID@) && OnOtherGhostBooted::readable(pairs))
                &&& !(has_id(pairs, OnOtherGhostChanged::ID@) && OnOtherGhostChanged::readable(pairs))
                &&& !(has_id(pairs, OnOtherGhostClosed::ID@) && OnOtherGhostClosed::readable(pairs))
                &&& !(has_id(pairs, OnShellChanged::ID@) && OnShellChanged::readable(pairs))
                &&& !(has_id(pairs, OnShellChanging::ID@) && OnShellChanging::readable(pairs))
                &&& !(has_id(pairs, OnDressupChanged::ID@) && OnDressupChanged::readable(pairs))
            },
        }
    }

    /// Sorts the request by the event that it names.
    pub fn from_untyped(untyped: &'u Request) -> (kind: RequestKind<'u>)
        ensures
            kind.agrees(untyped.pairs()),
    {
        match OnFirstBoot::from_untyped(untyped) {
            Ok(event) => {
                return RequestKind::OnFirstBoot(event);
            },
            Err(_) => {},
        }
        match OnBoot::from_untyped(untyped) {
            Ok(event) => {
                return RequestKind::OnBoot(event);
            },
            Err(_) => {},
        }
        match OnClose::from_untyped(untyped) {
            Ok(event) => {
                return RequestKind::OnClose(event);
            },
            Err(_) => {},
        }
        match OnCloseAll::from_untyped(untyped) {
            Ok(event) => {
                return RequestKind::OnCloseAll(event);
            },
            Err(_) => {},
        }
        match OnGhostChanged::from_untyped(untyped) {
            Ok(event) => {
                return RequestKind::OnGhostChanged(event);
            },
            Err(_) => {},
        }
        match OnGhostChanging::from_untyped(untyped) {
            Ok(event) => {
                return RequestKind::OnGhostChanging(event);
            },
            Err(_) => {},
        }
        match OnGhostCalled::from_untyped(untyped) {
            Ok(event) => {
                return RequestKind::OnGhostCalled(event);
            },
            Err(_) => {},
        }
        match OnGhostCalling::from_untyped(untyped) {
            Ok(event) => {
                return RequestKind::OnGhostCalling(event);
            },
            Err(_) => {},
        }
        match OnGhostCallComplete::from_untyped(untyped) {
            Ok(event) => {
                return RequestKind::OnGhostCallComplete(event);
            },
            Err(_) => {},
        }
        match OnOtherGhostBooted::from_untyped(untyped) {
            Ok(event) => {
                return RequestKind::OnOtherGhostBooted(event);
            },
            Err(_) => {},
        }
        match OnOtherGhostChanged::from_untyped(untyped) {
            Ok(event) => {
                return RequestKind::OnOtherGhostChanged(event);
            },
            Err(_) => {},
        }
        match OnOtherGhostClosed::from_untyped(untyped) {
            Ok(event) => {
                return RequestKind::OnOtherGhostClosed(event);
            },
            Err(_) => {},
        }
        match OnShellChanged::from_untyped(untyped) {
            Ok(event) => {
                return RequestKind::OnShellChanged(event);
            },
            Err(_) => {},
        }
        match OnShellChanging::from_untyped(untyped) {
            Ok(event) => {
                return RequestKind::OnShellChanging(event);
            },
            Err(_) => {},
        }
        match OnDressupChanged::from_untyped(untyped) {
            Ok(event) => {
                return RequestKind::OnDressupChanged(event);
            },
            Err(_) => {},
        }
        RequestKind::Other
    }
}

/// A request with its common fields taken out and its event sorted.
pub struct TypedRequest<'a> {
    method: Method,
    version: &'a str,
    sender: Option<&'a str>,
    charset: Option<&'a str>,
    security_level: Option<&'a str>,
    id: Option<&'a str>,
    kind: RequestKind<'a>,
}

impl<'a> TypedRequest<'a> {
    /// The method and the version.
    pub closed spec fn header(&self) -> Header {
        Header { method: self.method, version: self.version@ }
    }

    /// The fields `Sender`, `Charset`, `SecurityLevel` and `ID`, in that order.
    pub closed spec fn common(&self) -> (
        Option<Seq<char>>,
        Option<Seq<char>>,
        Option<Seq<char>>,
        Option<Seq<char>>,
    ) {
        (text_of(self.sender), text_of(self.charset), text_of(self.security_level), text_of(self.id))
    }

    /// The event.
    pub closed spec fn kind_spec(&self) -> RequestKind<'a> {
        self.kind
    }

    /// Takes the common fields out of `untyped` and sorts its event.
    pub fn from_untyped(untyped: &'a Request) -> (typed: TypedRequest<'a>)
        ensures
            typed.header() == untyped.header(),
            typed.common() == (
                lookup(untyped.pairs(), "Sender"@),
                lookup(untyped.pairs(), "Charset"@),
                lookup(untyped.pairs(), "SecurityLevel"@),
                lookup(untyped.pairs(), "ID"@),
            ),
            typed.kind_spec().agrees(untyped.pairs()),
    {
        TypedRequest {
            method: untyped.method(),
            version: untyped.version(),
            sender: untyped.get_field("Sender"),
            charset: untyped.get_field("Charset"),
            security_level: untyped.get_field("SecurityLevel"),
            id: untyped.get_field("ID"),
            kind: RequestKind::from_untyped(untyped),
        }
    }

    pub fn method(&self) -> (method: Method)
        ensures
            method == self.header().method,
    {
        self.method
    }

    pub fn version(&self) -> (version: &'a str)
        ensures
            version@ == self.header().version,
    {
        self.version
    }

    pub fn sender(&self) -> (sender: Option<&'a str>)
        ensures
            text_of(sender) == self.common().0,
    {
        self.sender
    }

    pub fn charset(&self) -> (charset: Option<&'a str>)
        ensures
            text_of(charset) == self.common().1,
    {
        self.charset
    }

    pub fn security_level(&self) -> (level: Option<&'a str>)
        ensures
            text_of(level) == self.common().2,
    {
        self.security_level
    }

    pub fn id(&self) -> (id: Option<&'a str>)
        ensures
            text_of(id) == self.common().3,
    {
        self.id
    }

    pub fn kind(&self) -> (kind: &RequestKind<'a>)
        ensures
            *kind == self.kind_spec(),
    {
        &self.kind
    }
}

} // verus!
