//! The typed failures every public operation can surface.
use vstd::prelude::*;

verus! {

/// One failure kind per way a backend interaction can go wrong.
///
/// Protocol violations (a response missing an expected field) are the
/// `Incorrect*` kinds; `NoWindowHandles` says the backend reported zero
/// windows when at least one was expected; `UnexpectedResponse` says a
/// script-execution response carried no result field at all; `Transport`
/// stands for a network-level failure surfaced verbatim; `DecodeFailed`
/// says a returned value did not match the shape the caller asked for;
/// `CloseTimeout` says the close protocol exhausted its attempt bound.
#[derive(Debug, Clone, PartialEq, Eq)]
pub enum Error {
    /// The directory of the running program could not be determined.
    InvalidRootPath,
    /// A path was not representable as text.
    InvalidPath,
    /// A new-session response carried no session identifier.
    IncorrectSessionId,
    /// A window response carried no window handle.
    IncorrectWindowHandle,
    /// A handle-enumeration response carried no list of window handles.
    IncorrectWindowHandles,
    /// The backend reported zero windows when one was expected.
    NoWindowHandles,
    /// The automation-suppression channel was unreachable.
    CdpConnectionFailed,
    /// The automation-suppression command was rejected.
    CdpCommandFailed,
    /// No element matched the given selector.
    ElementNotFound,
    /// A window handle did not name any current window.
    TabNotFound,
    /// A script-execution response carried no result field.
    UnexpectedResponse,
    /// A returned value did not match the requested shape.
    DecodeFailed,
    /// A network-level failure talking to the backend.
    Transport,
    /// The close protocol exhausted its attempt bound.
    CloseTimeout,
}

impl Error {
    /// A human-readable description of the failure.
    pub fn message(&self) -> (r: &'static str)
        ensures
            r@.len() > 0,
    {
        let r: &'static str = match self {
            Error::InvalidRootPath => "Couldn't get the directory of the root path",
            Error::InvalidPath => "The path contains invalid UTF-8 characters",
            Error::IncorrectSessionId => "Incorrect session ID",
            Error::IncorrectWindowHandle => "Incorrect window handle",
            Error::IncorrectWindowHandles => "Incorrect window handles list",
            Error::NoWindowHandles => "No window handles found",
            Error::CdpConnectionFailed => "Failed to connect to CDP (Chrome DevTools Protocol)",
            Error::CdpCommandFailed => "CDP command execution failed",
            Error::ElementNotFound => "Element not found for the given selector",
            Error::TabNotFound => "No tab exists with the given window handle",
            Error::UnexpectedResponse => "The response carried no result value",
            Error::DecodeFailed => "The returned value did not match the requested shape",
            Error::Transport => "A network failure occurred talking to the backend",
            Error::CloseTimeout => "The tab would not close within the attempt bound",
        };
        proof {
            reveal_strlit("Couldn't get the directory of the root path");
            reveal_strlit("The path contains invalid UTF-8 characters");
            reveal_strlit("Incorrect session ID");
            reveal_strlit("Incorrect window handle");
            reveal_strlit("Incorrect window handles list");
            reveal_strlit("No window handles found");
            reveal_strlit("Failed to connect to CDP (Chrome DevTools Protocol)");
            reveal_strlit("CDP command execution failed");
            reveal_strlit("Element not found for the given selector");
            reveal_strlit("No tab exists with the given window handle");
            reveal_strlit("The response carried no result value");
            reveal_strlit("The returned value did not match the requested shape");
            reveal_strlit("A network failure occurred talking to the backend");
            reveal_strlit("The tab would not close within the attempt bound");
        }
        r
    }
}

} // verus!
