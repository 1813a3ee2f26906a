//! The two states of an entity that is either on or off.

use vstd::prelude::*;
use vstd::string::*;
use crate::error::Error;
use vstd::utf8::is_ascii_chars;
use crate::text::{ascii_uppercased, same_text, uppercase, uppercased};

verus! {

/// On or off, as the hub writes and reads it.
#[derive(Clone, Copy, Debug, PartialEq, Eq, Structural)]
pub enum State {
    On,
    Off,
}

/// The payload that stands for a state.
pub open spec fn state_text(s: State) -> Seq<char> {
    match s {
        State::On => "ON"@,
        State::Off => "OFF"@,
    }
}

/// The state that an upper-case payload names, if it names one.
pub open spec fn state_named(upper: Seq<char>) -> Option<State> {
    if upper == "ON"@ {
        Some(State::On)
    } else if upper == "OFF"@ {
        Some(State::Off)
    } else {
        None
    }
}

/// What parsing makes of an upper-case payload.
pub open spec fn state_parsed(upper: Seq<char>) -> Result<State, Error> {
    match state_named(upper) {
        Some(s) => Ok(s),
        None => Err(Error::UnknownState),
    }
}

impl State {
    /// The payload that stands for this state: `ON` or `OFF`.
    pub fn to_string(&self) -> (r: String)
        ensures
            r@ == state_text(*self),
    {
        match self {
            State::On => String::from_str("ON"),
            State::Off => String::from_str("OFF"),
        }
    }

    /// The state that `upper` names, a payload already in upper case: `ON`
    /// gives on, `OFF` gives off, and anything else is an unknown state.
    pub fn from_upper(upper: &str) -> (r: Result<State, Error>)
        ensures
            r == state_parsed(upper@),
    {
        if same_text(upper, "ON") {
            Ok(State::On)
        } else if same_text(upper, "OFF") {
            Ok(State::Off)
        } else {
            Err(Error::UnknownState)
        }
    }

    /// The state that a payload names, whatever its case. The upper-case
    /// form of an ASCII payload is the payload with each small letter
    /// replaced by its capital.
    pub fn from_str(s: &str) -> (r: Result<State, Error>)
        ensures
            r == state_parsed(uppercased(s@)),
            is_ascii_chars(s@) ==> r == state_parsed(ascii_uppercased(s@)),
    {
        let upper = uppercase(s);
        State::from_upper(upper.as_str())
    }
}

/// The two payloads differ, so a state is read back from its payload.
pub proof fn state_text_distinct()
    ensures
        state_text(State::On) != state_text(State::Off),
        state_named(state_text(State::On)) == Some(State::On),
        state_named(state_text(State::Off)) == Some(State::Off),
{
    reveal_strlit("ON");
    reveal_strlit("OFF");
    assert("ON"@.len() == 2);
    assert("OFF"@.len() == 3);
}

} // verus!
