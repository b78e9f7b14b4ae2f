use vstd::prelude::*;

verus! {

/// Errors surfaced by the controller core.
#[derive(Clone, Copy, Debug, PartialEq, Eq, Structural)]
pub enum Error {
    /// The underlying HID transport failed; fatal to the caller, who must
    /// decide whether to retry or reopen the device.
    Transport,
    /// An input report arrived shorter than its fixed expected length.
    InvalidReport,
    /// An output operation referenced a logical control with no hardware
    /// mapping.
    UnknownControl,
}

} // verus!
