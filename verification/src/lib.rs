//! A verified model of a realtime render-callback bridge for a native
//! audio unit: stream-format description and its conversion to and from
//! the OS's binary descriptor, typed views over the buffer lists handed
//! to a render callback, and the attach/detach/dispatch state machine
//! that owns the registered callback.
//!
//! The operating-system calls themselves (component lookup, property get
//! and set, unit lifecycle) are opaque collaborators and live in the
//! unverified application layer; this crate holds every decision those
//! calls surround, stated and proved over plain values.

use vstd::prelude::*;

pub mod audio_unit;
pub mod error;

pub use error::Error;

verus! {

/// The status-code convention shared by every native audio call: zero for
/// success, a nonzero code otherwise.
pub type OSStatus = i32;

} // verus!
