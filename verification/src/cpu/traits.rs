//! What every clocked component and every latched value has in common.
use vstd::prelude::*;

verus! {

/// A component that advances on the clock edge.
pub trait Tickable {
    /// Well-formedness that the clock edge relies on and preserves.
    spec fn ready(&self) -> bool;

    /// Whether `self` is the state one clock edge after `before`.
    spec fn follows(&self, before: &Self) -> bool;

    /// Commits every pending value of the component.
    fn tick(&mut self)
        requires
            old(self).ready(),
        ensures
            final(self).ready(),
            final(self).follows(old(self)),
    ;
}

/// A copyable value with a distinguished zero, the content of a register
/// that nothing has written yet.
pub trait Value: Copy {
    /// The zero of the type.
    spec fn zero_value() -> Self;

    /// Returns the zero of the type.
    fn zero() -> (z: Self)
        ensures
            z == Self::zero_value(),
    ;
}

impl Value for bool {
    open spec fn zero_value() -> bool {
        false
    }

    fn zero() -> (z: bool) {
        false
    }
}

impl Value for u8 {
    open spec fn zero_value() -> u8 {
        0
    }

    fn zero() -> (z: u8) {
        0
    }
}

impl Value for u16 {
    open spec fn zero_value() -> u16 {
        0
    }

    fn zero() -> (z: u16) {
        0
    }
}

impl Value for u32 {
    open spec fn zero_value() -> u32 {
        0
    }

    fn zero() -> (z: u32) {
        0
    }
}

impl Value for u64 {
    open spec fn zero_value() -> u64 {
        0
    }

    fn zero() -> (z: u64) {
        0
    }
}

} // verus!
