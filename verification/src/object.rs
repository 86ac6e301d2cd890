//! The objects a host keeps on behalf of its guest.

use vstd::prelude::*;

verus! {

/// A host object that a guest reaches only through a handle: one unsigned
/// value that the guest can read and replace.
#[derive(Clone, Copy, Debug, PartialEq, Eq, Structural)]
pub struct CapabilityObject {
    pub value: u32,
}

impl CapabilityObject {
    /// A new object in the given state.
    pub fn new(value: u32) -> (object: CapabilityObject)
        ensures
            object.value == value,
    {
        CapabilityObject { value }
    }

    /// The object's current state.
    pub fn get(&self) -> (value: u32)
        ensures
            value == self.value,
    {
        self.value
    }

    /// Replaces the object's state.
    pub fn set(&mut self, value: u32)
        ensures
            final(self).value == value,
    {
        self.value = value;
    }
}

} // verus!
