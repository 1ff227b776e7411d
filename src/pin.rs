use vstd::prelude::*;

use crate::port::{PinHandle, PortId};

verus! {

/// Pull resistor setting of a pin.
#[derive(Debug, PartialEq, Eq, Structural, Clone, Copy)]
pub enum PullDirection {
    Floating,
    PullUp,
    PullDown,
}

/// Output driver type.
#[derive(Debug, PartialEq, Eq, Structural, Clone, Copy)]
pub enum OutputType {
    PushPull,
    OpenDrain,
}

/// Output slew-rate setting.
#[derive(Debug, PartialEq, Eq, Structural, Clone, Copy)]
pub enum OutputSpeed {
    Low,
    Medium,
    High,
    VeryHigh,
}

/// Electrical level of a digital output.
#[derive(Debug, PartialEq, Eq, Structural, Clone, Copy)]
pub enum DigitalValue {
    Low,
    High,
}

impl DigitalValue {
    /// `High` for true, `Low` for false.
    pub open spec fn from_bool_spec(b: bool) -> DigitalValue {
        if b {
            DigitalValue::High
        } else {
            DigitalValue::Low
        }
    }

    pub fn from_bool(b: bool) -> (r: DigitalValue)
        ensures
            r == Self::from_bool_spec(b),
    {
        if b {
            DigitalValue::High
        } else {
            DigitalValue::Low
        }
    }
}

/// Alternate function that routes the internal clock multiplexer to its pin.
pub const MCO_FUNCTION: u8 = 0;

/// A claimed pin configured as a software-driven digital output.
pub struct OutputPin {
    handle: PinHandle,
    pull: PullDirection,
    output_type: OutputType,
    speed: OutputSpeed,
    value: DigitalValue,
}

/// A claimed pin routed to an internal peripheral signal.
pub struct AltFuncPin {
    handle: PinHandle,
    pull: PullDirection,
    function: u8,
}

/// The output pin that configuring `handle` with these settings gives.
pub closed spec fn output_of(
    handle: PinHandle,
    pull: PullDirection,
    output_type: OutputType,
    speed: OutputSpeed,
) -> OutputPin {
    OutputPin { handle, pull, output_type, speed, value: DigitalValue::Low }
}

/// The alternate-function pin that routing `handle` to `function` gives.
pub closed spec fn alt_func_of(handle: PinHandle, pull: PullDirection, function: u8) -> AltFuncPin {
    AltFuncPin { handle, pull, function }
}

/// Configuring a claimed pin, either way, and tearing it down at once gives
/// back the very handle that was configured.
pub proof fn lemma_configure_teardown(
    handle: PinHandle,
    pull: PullDirection,
    output_type: OutputType,
    speed: OutputSpeed,
    function: u8,
)
    ensures
        output_of(handle, pull, output_type, speed).handle_spec() == handle,
        alt_func_of(handle, pull, function).handle_spec() == handle,
{
}

impl PinHandle {
    /// Configures the claimed pin as a digital output, driven low.
    ///
    /// Consuming the handle makes a second configuration of the same claim
    /// impossible: an already configured pin has no handle left to pass here.
    pub fn as_output(self, pull: PullDirection, output_type: OutputType, speed: OutputSpeed) -> (r: OutputPin)
        ensures
            r == output_of(self, pull, output_type, speed),
            r.handle_spec() == self,
            r.pull_spec() == pull,
            r.output_type_spec() == output_type,
            r.speed_spec() == speed,
            r.value_spec() == DigitalValue::Low,
    {
        OutputPin { handle: self, pull, output_type, speed, value: DigitalValue::Low }
    }

    /// Routes the claimed pin to alternate function `function`.
    pub fn as_alt_func(self, pull: PullDirection, function: u8) -> (r: AltFuncPin)
        ensures
            r == alt_func_of(self, pull, function),
            r.handle_spec() == self,
            r.pull_spec() == pull,
            r.function_spec() == function,
    {
        AltFuncPin { handle: self, pull, function }
    }
}

impl OutputPin {
    pub closed spec fn handle_spec(&self) -> PinHandle {
        self.handle
    }

    pub closed spec fn pull_spec(&self) -> PullDirection {
        self.pull
    }

    pub closed spec fn output_type_spec(&self) -> OutputType {
        self.output_type
    }

    pub closed spec fn speed_spec(&self) -> OutputSpeed {
        self.speed
    }

    /// The level the pin currently drives.
    pub closed spec fn value_spec(&self) -> DigitalValue {
        self.value
    }

    pub fn value(&self) -> (r: DigitalValue)
        ensures
            r == self.value_spec(),
    {
        self.value
    }

    pub fn port(&self) -> (r: PortId)
        ensures
            r == self.handle_spec().port_id(),
    {
        self.handle.port()
    }

    pub fn index(&self) -> (r: usize)
        ensures
            r as nat == self.handle_spec().slot(),
    {
        self.handle.index()
    }

    /// Drives the pin to `value`; the configuration stays as it was.
    pub fn write(&mut self, value: DigitalValue)
        ensures
            final(self).value_spec() == value,
            final(self).handle_spec() == old(self).handle_spec(),
            final(self).pull_spec() == old(self).pull_spec(),
            final(self).output_type_spec() == old(self).output_type_spec(),
            final(self).speed_spec() == old(self).speed_spec(),
    {
        self.value = value;
    }

    /// Undoes the configuration and gives back the handle it was made from.
    pub fn teardown(self) -> (r: PinHandle)
        ensures
            r == self.handle_spec(),
    {
        self.handle
    }
}

impl AltFuncPin {
    pub closed spec fn handle_spec(&self) -> PinHandle {
        self.handle
    }

    pub closed spec fn pull_spec(&self) -> PullDirection {
        self.pull
    }

    pub closed spec fn function_spec(&self) -> u8 {
        self.function
    }

    pub fn function(&self) -> (r: u8)
        ensures
            r == self.function_spec(),
    {
        self.function
    }

    pub fn pull(&self) -> (r: PullDirection)
        ensures
            r == self.pull_spec(),
    {
        self.pull
    }

    /// Undoes the configuration and gives back the handle it was made from.
    pub fn teardown(self) -> (r: PinHandle)
        ensures
            r == self.handle_spec(),
    {
        self.handle
    }
}

} // verus!
