//! The write-once session state: the single endpoint identifier shared by
//! every command-channel call and by the event listener.
//!
//! The state is set exactly once during supervisor startup.  Reading it
//! before it is set is a usage error surfaced as `NotConfigured` by the
//! channel; setting it twice is refused, first writer wins.

use vstd::prelude::*;

verus! {

/// Fatal errors during session setup.
#[derive(Clone, Copy, Debug, PartialEq, Eq, Structural)]
pub enum SetupError {
    /// The host window's handle is of no supported kind.
    UnsupportedWindowHandle,
    /// The endpoint was already stored once; a second store is refused.
    EndpointAlreadySet,
    /// The external engine process could not be launched.
    SpawnFailed,
}

impl SetupError {
    /// Human-readable failure text for the caller of setup.
    pub fn message(&self) -> (r: String)
        ensures
            *self == SetupError::UnsupportedWindowHandle ==> r@ == "Unsupported window handle type"@,
            *self == SetupError::EndpointAlreadySet ==> r@ == "IPC path already set"@,
            *self == SetupError::SpawnFailed ==> r@ == "Failed to launch mpv"@,
    {
        match self {
            SetupError::UnsupportedWindowHandle => String::from_str("Unsupported window handle type"),
            SetupError::EndpointAlreadySet => String::from_str("IPC path already set"),
            SetupError::SpawnFailed => String::from_str("Failed to launch mpv"),
        }
    }
}

/// Process-wide state holding the session's single endpoint identifier.
pub struct SessionState {
    endpoint: Option<String>,
}

impl SessionState {
    /// Whether the endpoint has been stored.
    pub closed spec fn configured(&self) -> bool {
        self.endpoint is Some
    }

    /// The stored endpoint identifier.
    pub closed spec fn endpoint_text(&self) -> Seq<char>
        recommends
            self.configured(),
    {
        self.endpoint->Some_0@
    }

    /// A fresh, unconfigured session.
    pub fn new() -> (s: Self)
        ensures
            !s.configured(),
    {
        SessionState { endpoint: None }
    }

    /// Store the endpoint identifier once; a second store is refused and
    /// leaves the first value in place.
    pub fn set_endpoint(&mut self, path: String) -> (r: Result<(), SetupError>)
        ensures
            !old(self).configured() ==> r is Ok && final(self).configured()
                && final(self).endpoint_text() == path@,
            old(self).configured() ==> (r matches Err(e) && e == SetupError::EndpointAlreadySet)
                && *final(self) == *old(self),
    {
        match &self.endpoint {
            Some(_) => Err(SetupError::EndpointAlreadySet),
            None => {
                self.endpoint = Some(path);
                Ok(())
            },
        }
    }

    /// Read the endpoint identifier, if it has been stored.
    pub fn endpoint(&self) -> (r: Option<&String>)
        ensures
            self.configured() ==> (r matches Some(p) && p@ == self.endpoint_text()),
            !self.configured() ==> r is None,
    {
        self.endpoint.as_ref()
    }
}

} // verus!
