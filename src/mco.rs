use vstd::prelude::*;

use crate::error::GpioError;
use crate::pin::{AltFuncPin, PullDirection, MCO_FUNCTION};
use crate::port::{lemma_port_len, Port, PortId};

verus! {

broadcast use lemma_port_len;

/// Slot of port A that carries the clock output.
pub const MCO_SLOT: usize = 8;

/// The clock-output pin: port A slot `MCO_SLOT`, routed to the clock multiplexer.
pub struct McoController {
    pa8: AltFuncPin,
}

impl McoController {
    /// The configured clock-output pin.
    pub closed spec fn pin(&self) -> AltFuncPin {
        self.pa8
    }

    /// The pin is port A slot `MCO_SLOT`, floating, on the clock-output function.
    pub open spec fn wf(&self) -> bool {
        &&& self.pin().handle_spec().port_id() == PortId::A
        &&& self.pin().handle_spec().slot() == MCO_SLOT
        &&& self.pin().pull_spec() == PullDirection::Floating
        &&& self.pin().function_spec() == MCO_FUNCTION
    }

    /// Claims the clock-output slot of port A and routes it to the clock multiplexer.
    ///
    /// Refused with `NotOwnedHere` on another port, and with `AlreadyClaimed`
    /// when the slot is taken; the port is then left as it was.
    pub fn new(gpioa: &mut Port) -> (r: Result<McoController, GpioError>)
        ensures
            final(gpioa).port_id() == old(gpioa).port_id(),
            old(gpioa).port_id() != PortId::A ==> {
                &&& r == Err::<McoController, GpioError>(GpioError::NotOwnedHere)
                &&& final(gpioa)@ == old(gpioa)@
            },
            old(gpioa).port_id() == PortId::A && old(gpioa)@[MCO_SLOT as int] ==> {
                &&& r == Err::<McoController, GpioError>(GpioError::AlreadyClaimed)
                &&& final(gpioa)@ == old(gpioa)@
            },
            old(gpioa).port_id() == PortId::A && !old(gpioa)@[MCO_SLOT as int] ==> {
                &&& r is Ok
                &&& r->Ok_0.wf()
                &&& final(gpioa)@ == old(gpioa)@.update(MCO_SLOT as int, true)
            },
    {
        if gpioa.id() != PortId::A {
            return Err(GpioError::NotOwnedHere);
        }
        let pa8 = gpioa.claim(MCO_SLOT)?.as_alt_func(PullDirection::Floating, MCO_FUNCTION);
        Ok(McoController { pa8 })
    }

    /// The alternate function the pin is routed to.
    pub fn function(&self) -> (r: u8)
        ensures
            r == self.pin().function_spec(),
    {
        self.pa8.function()
    }

    /// Tears down the clock-output pin and returns its slot to `gpioa`.
    ///
    /// Refused with `NotOwnedHere`, leaving the port as it was, unless `gpioa`
    /// is port A with the clock-output slot claimed.
    pub fn return_hardware(self, gpioa: &mut Port) -> (r: Result<(), GpioError>)
        requires
            self.wf(),
        ensures
            final(gpioa).port_id() == old(gpioa).port_id(),
            old(gpioa).port_id() == PortId::A && old(gpioa)@[MCO_SLOT as int] ==> {
                &&& r is Ok
                &&& final(gpioa)@ == old(gpioa)@.update(MCO_SLOT as int, false)
            },
            !(old(gpioa).port_id() == PortId::A && old(gpioa)@[MCO_SLOT as int]) ==> {
                &&& r == Err::<(), GpioError>(GpioError::NotOwnedHere)
                &&& final(gpioa)@ == old(gpioa)@
            },
    {
        gpioa.release(self.pa8.teardown())?;
        Ok(())
    }
}

} // verus!
