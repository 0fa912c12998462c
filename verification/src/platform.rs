//! Interface to the hosting environment.
//!
//! The core never needs the environment for correctness: its one hook is a
//! logging sink, and a caller-supplied function value cannot be held inside
//! the verified core. The platform record therefore stays a marker, the
//! library's own sink discards its message, and a transport that wants real
//! output logs around its calls into the core.

use vstd::prelude::*;

verus! {

/// The environment hooks an instance is constructed with.
#[derive(Clone, Copy, Debug, PartialEq, Eq, Structural)]
pub struct TpmPlatform {
}

/// The default logging sink: it discards its message.
pub fn default_log(msg: &str) {
}

impl Default for TpmPlatform {
    fn default() -> (p: Self)
        ensures
            p == (TpmPlatform {  }),
    {
        TpmPlatform {  }
    }
}

} // verus!
