//! What can go wrong between a message on the bus and a script.

use vstd::prelude::*;
use vstd::string::*;

verus! {

/// A failure of one operation of the bridge. None of them is retried.
#[derive(Clone, Copy, Debug, PartialEq, Eq, Structural)]
pub enum Error {
    /// The process that runs a script could not be started.
    ScriptSpawn,
    /// A script printed something that is not UTF-8.
    ScriptOutput,
    /// A switch was sent a payload that names neither of its two states.
    UnknownState,
    /// An inbound payload is not UTF-8.
    Payload,
    /// The bus client failed to connect, subscribe, publish or receive.
    Bus,
}

/// The sentence that tells an operator of `e`.
pub open spec fn error_text(e: Error) -> Seq<char> {
    match e {
        Error::ScriptSpawn => "script could not be started"@,
        Error::ScriptOutput => "script output is not valid UTF-8"@,
        Error::UnknownState => "unknown state"@,
        Error::Payload => "payload is not valid UTF-8"@,
        Error::Bus => "bus operation failed"@,
    }
}

impl Error {
    /// The sentence that tells an operator of this failure.
    pub fn describe(&self) -> (r: String)
        ensures
            r@ == error_text(*self),
    {
        match self {
            Error::ScriptSpawn => String::from_str("script could not be started"),
            Error::ScriptOutput => String::from_str("script output is not valid UTF-8"),
            Error::UnknownState => String::from_str("unknown state"),
            Error::Payload => String::from_str("payload is not valid UTF-8"),
            Error::Bus => String::from_str("bus operation failed"),
        }
    }
}

} // verus!
