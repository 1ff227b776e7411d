use vstd::prelude::*;

verus! {

/// Failures of the pin-ownership protocol.
///
/// Configuring or tearing down a pin out of order needs no error: a
/// configuration consumes the unconfigured `PinHandle`, and only a configured
/// pin offers `teardown`, so such calls do not type-check.
#[derive(Debug, PartialEq, Eq, Structural, Clone, Copy)]
pub enum GpioError {
    /// A pin slot, or a whole port, was claimed a second time.
    AlreadyClaimed,
    /// A handle or port was given back to an owner it does not belong to,
    /// or was not currently handed out.
    NotOwnedHere,
    /// A port was deactivated while some of its pins were still claimed.
    PortBusy,
}

} // verus!
