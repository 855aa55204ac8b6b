//! Pointer input for the operator console.
//!
//! The console's virtual joystick takes touch or mouse input.  The service
//! here is the handle such a console creates once; binding its callbacks to
//! the actual windowing events happens outside the crate.

use vstd::prelude::*;

verus! {

/// Handle for registering pointer-capture listeners.
pub struct TouchService {}

impl TouchService {
    pub fn new() -> (s: Self)
        ensures
            s == (TouchService {  }),
    {
        TouchService {  }
    }
}

} // verus!
