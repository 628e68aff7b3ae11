//! What can go wrong between a request and its reply.

use vstd::prelude::*;

verus! {

/// The failure that a caller is told of in place of an output. Each kind
/// carries the text that describes the failure at hand.
#[derive(Debug, PartialEq, Eq)]
pub enum Error {
    /// The script threw, or the engine could not parse or run it.
    Execution(String),
    /// A value of the script could not be turned into one of the host.
    Value(String),
    /// The arguments of the request could not be handed to the script.
    Serialisation(String),
    /// The source to transpile is not well formed.
    Parse(String),
    /// The source was parsed but could not be turned into plain script.
    Transpile(String),
    /// The engine could not be set up.
    ContextInit(String),
    /// No compiled function stands under the name that the request gives.
    FunctionNotFound(String),
    /// The worker that took the request is gone.
    Channel(String),
    /// Anything else.
    Unexpected(String),
}

impl Error {
    /// The text that describes the failure at hand.
    pub open spec fn text(self) -> Seq<char> {
        match self {
            Error::Execution(text) => text@,
            Error::Value(text) => text@,
            Error::Serialisation(text) => text@,
            Error::Parse(text) => text@,
            Error::Transpile(text) => text@,
            Error::ContextInit(text) => text@,
            Error::FunctionNotFound(text) => text@,
            Error::Channel(text) => text@,
            Error::Unexpected(text) => text@,
        }
    }

    /// The text that describes the failure at hand.
    pub fn message(&self) -> (text: String)
        ensures
            text@ == self.text(),
    {
        match self {
            Error::Execution(text) => text.clone(),
            Error::Value(text) => text.clone(),
            Error::Serialisation(text) => text.clone(),
            Error::Parse(text) => text.clone(),
            Error::Transpile(text) => text.clone(),
            Error::ContextInit(text) => text.clone(),
            Error::FunctionNotFound(text) => text.clone(),
            Error::Channel(text) => text.clone(),
            Error::Unexpected(text) => text.clone(),
        }
    }
}

} // verus!
