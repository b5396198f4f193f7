//! Pixel surfaces, as far as a renderer needs them.

use vstd::prelude::*;

verus! {

/// A pixel buffer on the CPU side, known by the address of the native surface.
#[derive(Debug, PartialEq, Eq)]
pub struct Surface {
    handle: usize,
}

impl Surface {
    /// The address of the native surface.
    pub closed spec fn spec_handle(&self) -> usize {
        self.handle
    }

    /// The surface at this address.
    pub fn new(handle: usize) -> (surface: Surface)
        ensures
            surface.handle() == handle,
    {
        Surface { handle }
    }

    /// The address of the native surface.
    #[verifier::when_used_as_spec(spec_handle)]
    pub fn handle(&self) -> (handle: usize)
        ensures
            handle == self.handle(),
    {
        self.handle
    }
}

} // verus!
