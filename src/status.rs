use vstd::prelude::*;

verus! {

/// Outcome code of the emulation primitives.
#[allow(non_camel_case_types)]
#[derive(Debug, Clone, Copy, PartialEq, Eq, Structural)]
pub enum Status {
    OK,
    /// The instruction cannot be emulated by the requested primitive.
    NOT_SUPPORTED,
}

} // verus!
