//! The failures a session can meet, and which of them end it.

use crate::table::Handle;
use vstd::prelude::*;

verus! {

/// Every way in which a session, or one call of its guest, can fail.
#[derive(Clone, Copy, Debug, PartialEq, Eq, Structural)]
pub enum BridgeError {
    /// The engine options cannot carry a session.
    Configuration,
    /// The guest module declares an import that nothing provides.
    Link,
    /// The module's bytes are malformed, or an import stayed unmet.
    Instantiation,
    /// The guest named a handle that is not live.
    UnknownHandle(Handle),
    /// The guest faulted inside its sandbox.
    GuestTrap,
}

impl BridgeError {
    /// Whether an error of this class ends the session.
    pub open spec fn fatal(self) -> bool {
        !(self is UnknownHandle)
    }

    /// Whether this error ends the session. Only an unknown handle is
    /// reported to the guest as the failure of one call.
    pub fn is_fatal(&self) -> (fatal: bool)
        ensures
            fatal == self.fatal(),
    {
        match self {
            BridgeError::UnknownHandle(_) => false,
            _ => true,
        }
    }
}

} // verus!
