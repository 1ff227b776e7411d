use vstd::prelude::*;

use crate::error::GpioError;

verus! {

/// Number of pin slots in every port.
pub const PIN_COUNT: usize = 16;

/// The I/O banks that this firmware uses.
#[derive(Debug, PartialEq, Eq, Structural, Clone, Copy)]
pub enum PortId {
    A,
    E,
}

/// True when no slot of the port is claimed.
pub open spec fn all_free(slots: Seq<bool>) -> bool {
    forall|i: int| 0 <= i < slots.len() ==> !slots[i]
}

/// Exclusive ownership of one claimed, unconfigured pin slot.
///
/// Only `Port::claim` makes one, and only `Port::release` takes one back,
/// so at any instant a slot has one owner: its port or the holder of the handle.
#[derive(Debug, PartialEq, Eq)]
pub struct PinHandle {
    port: PortId,
    index: usize,
}

impl PinHandle {
    /// The port the handle was claimed from.
    pub closed spec fn port_id(&self) -> PortId {
        self.port
    }

    /// The slot index the handle owns.
    pub closed spec fn slot(&self) -> nat {
        self.index as nat
    }

    pub fn port(&self) -> (r: PortId)
        ensures
            r == self.port_id(),
    {
        self.port
    }

    pub fn index(&self) -> (r: usize)
        ensures
            r as nat == self.slot(),
    {
        self.index
    }
}

/// One activated I/O bank and the claim state of each of its slots.
pub struct Port {
    id: PortId,
    claimed: [bool; PIN_COUNT],
}

impl View for Port {
    /// Entry `i` is true while slot `i` is claimed.
    type V = Seq<bool>;

    closed spec fn view(&self) -> Seq<bool> {
        self.claimed@
    }
}

impl Port {
    /// Which bank this port is.
    pub closed spec fn port_id(&self) -> PortId {
        self.id
    }

    pub fn id(&self) -> (r: PortId)
        ensures
            r == self.port_id(),
    {
        self.id
    }

    /// Whether slot `index` is currently claimed; slots past the end read as free.
    pub fn is_claimed(&self, index: usize) -> (r: bool)
        ensures
            r == (index < self@.len() && self@[index as int]),
    {
        index < PIN_COUNT && self.claimed[index]
    }

    /// Whether every slot is free.
    pub fn is_idle(&self) -> (r: bool)
        ensures
            r == all_free(self@),
    {
        let mut i: usize = 0;
        while i < PIN_COUNT
            invariant
                i <= self@.len(),
                forall|j: int| 0 <= j < i ==> !self@[j],
            decreases self@.len() - i,
        {
            if self.claimed[i] {
                return false;
            }
            i = i + 1;
        }
        true
    }

    /// Takes exclusive ownership of slot `index`.
    pub fn claim(&mut self, index: usize) -> (r: Result<PinHandle, GpioError>)
        ensures
            final(self).port_id() == old(self).port_id(),
            match claim_outcome(old(self)@, index as int) {
                Ok(slots) => {
                    &&& r is Ok
                    &&& r->Ok_0.port_id() == old(self).port_id()
                    &&& r->Ok_0.slot() == index
                    &&& final(self)@ == slots
                },
                Err(e) => r == Err::<PinHandle, GpioError>(e) && final(self)@ == old(self)@,
            },
    {
        if index >= PIN_COUNT {
            return Err(GpioError::NotOwnedHere);
        }
        if self.claimed[index] {
            return Err(GpioError::AlreadyClaimed);
        }
        self.claimed[index] = true;
        Ok(PinHandle { port: self.id, index })
    }

    /// Gives a handle back to the port, freeing its slot.
    ///
    /// Refused with `NotOwnedHere` for a handle of another port.
    pub fn release(&mut self, handle: PinHandle) -> (r: Result<(), GpioError>)
        ensures
            final(self).port_id() == old(self).port_id(),
            match release_outcome(old(self).port_id(), old(self)@, handle) {
                Ok(slots) => r is Ok && final(self)@ == slots,
                Err(e) => r == Err::<(), GpioError>(e) && final(self)@ == old(self)@,
            },
    {
        if handle.port != self.id || handle.index >= PIN_COUNT || !self.claimed[handle.index] {
            return Err(GpioError::NotOwnedHere);
        }
        self.claimed[handle.index] = false;
        Ok(())
    }
}

/// The slots after claiming slot `index` of `slots`, or the error that refuses the claim.
pub open spec fn claim_outcome(slots: Seq<bool>, index: int) -> Result<Seq<bool>, GpioError> {
    if !(0 <= index < slots.len()) {
        Err(GpioError::NotOwnedHere)
    } else if slots[index] {
        Err(GpioError::AlreadyClaimed)
    } else {
        Ok(slots.update(index, true))
    }
}

/// The slots of port `id` after `handle` is given back to it, or the error that refuses it.
pub open spec fn release_outcome(id: PortId, slots: Seq<bool>, handle: PinHandle) -> Result<Seq<bool>, GpioError> {
    if handle.port_id() == id && handle.slot() < slots.len() && slots[handle.slot() as int] {
        Ok(slots.update(handle.slot() as int, false))
    } else {
        Err(GpioError::NotOwnedHere)
    }
}

/// Every port has exactly `PIN_COUNT` slots.
pub broadcast proof fn lemma_port_len(port: &Port)
    ensures
        #[trigger] port@.len() == PIN_COUNT,
{
}

/// The power switch of every port: hands each port out once while it is active.
/// A change of a port's power state, as recorded by `System`.
#[derive(Debug, PartialEq, Eq, Structural, Clone, Copy)]
pub enum PortEvent {
    Activated(PortId),
    Deactivated(PortId),
}

pub struct System {
    a_active: bool,
    e_active: bool,
    events: Ghost<Seq<PortEvent>>,
}

impl System {
    /// Whether port `id` is activated and handed out.
    pub closed spec fn is_active(&self, id: PortId) -> bool {
        match id {
            PortId::A => self.a_active,
            PortId::E => self.e_active,
        }
    }

    /// Every successful activation and deactivation, oldest first.
    pub closed spec fn log(&self) -> Seq<PortEvent> {
        self.events@
    }

    pub fn new() -> (r: System)
        ensures
            !r.is_active(PortId::A),
            !r.is_active(PortId::E),
            r.log() == Seq::<PortEvent>::empty(),
    {
        System { a_active: false, e_active: false, events: Ghost(Seq::empty()) }
    }

    pub fn active(&self, id: PortId) -> (r: bool)
        ensures
            r == self.is_active(id),
    {
        match id {
            PortId::A => self.a_active,
            PortId::E => self.e_active,
        }
    }

    /// Powers up port `id` and hands it out with every slot free.
    pub fn activate(&mut self, id: PortId) -> (r: Result<Port, GpioError>)
        ensures
            !old(self).is_active(id) ==> {
                &&& r is Ok
                &&& r->Ok_0.port_id() == id
                &&& r->Ok_0@ == Seq::new(PIN_COUNT as nat, |i: int| false)
                &&& final(self).is_active(id)
                &&& final(self).log() == old(self).log().push(PortEvent::Activated(id))
            },
            old(self).is_active(id) ==> {
                &&& r == Err::<Port, GpioError>(GpioError::AlreadyClaimed)
                &&& final(self).is_active(id)
                &&& final(self).log() == old(self).log()
            },
            forall|other: PortId| other != id ==> final(self).is_active(other) == old(self).is_active(other),
    {
        if self.active(id) {
            return Err(GpioError::AlreadyClaimed);
        }
        match id {
            PortId::A => self.a_active = true,
            PortId::E => self.e_active = true,
        }
        self.events = Ghost(self.events@.push(PortEvent::Activated(id)));
        let port = Port { id, claimed: [false; PIN_COUNT] };
        assert(port@ =~= Seq::new(PIN_COUNT as nat, |i: int| false));
        Ok(port)
    }

    /// Powers a port down; refused while any of its slots is still claimed.
    pub fn deactivate(&mut self, port: Port) -> (r: Result<(), GpioError>)
        ensures
            !old(self).is_active(port.port_id()) ==> r == Err::<(), GpioError>(GpioError::NotOwnedHere),
            old(self).is_active(port.port_id()) && !all_free(port@) ==> r == Err::<(), GpioError>(GpioError::PortBusy),
            old(self).is_active(port.port_id()) && all_free(port@) ==> r is Ok,
            r is Ok ==> !final(self).is_active(port.port_id()),
            r is Ok ==> final(self).log() == old(self).log().push(PortEvent::Deactivated(port.port_id())),
            r is Err ==> final(self).is_active(port.port_id()) == old(self).is_active(port.port_id()),
            r is Err ==> final(self).log() == old(self).log(),
            forall|other: PortId| other != port.port_id() ==> final(self).is_active(other) == old(self).is_active(other),
    {
        if !self.active(port.id) {
            return Err(GpioError::NotOwnedHere);
        }
        if !port.is_idle() {
            return Err(GpioError::PortBusy);
        }
        match port.id {
            PortId::A => self.a_active = false,
            PortId::E => self.e_active = false,
        }
        self.events = Ghost(self.events@.push(PortEvent::Deactivated(port.id)));
        Ok(())
    }
}

/// A claimed slot stays exclusive until it is released: once a claim of
/// `index` succeeds, claiming `index` again is refused with `AlreadyClaimed`,
/// also after a claim of any other slot in between.
pub proof fn lemma_claim_exclusive(slots: Seq<bool>, index: int, other: int)
    requires
        claim_outcome(slots, index) is Ok,
    ensures
        claim_outcome(claim_outcome(slots, index)->Ok_0, index) == Err::<Seq<bool>, GpioError>(
            GpioError::AlreadyClaimed,
        ),
        other != index && claim_outcome(claim_outcome(slots, index)->Ok_0, other) is Ok
            ==> claim_outcome(claim_outcome(claim_outcome(slots, index)->Ok_0, other)->Ok_0, index)
            == Err::<Seq<bool>, GpioError>(GpioError::AlreadyClaimed),
{
}

/// Claiming a free slot of port `id` and giving the handle straight back
/// succeeds and leaves the port exactly as it was.
pub proof fn lemma_claim_release_round_trip(id: PortId, slots: Seq<bool>, index: int, handle: PinHandle)
    requires
        claim_outcome(slots, index) is Ok,
        handle.port_id() == id,
        handle.slot() == index,
    ensures
        release_outcome(id, claim_outcome(slots, index)->Ok_0, handle) == Ok::<Seq<bool>, GpioError>(slots),
{
    assert(slots.update(index, true).update(index, false) =~= slots);
}

/// A port that could be powered down cannot be while a pin claimed from it
/// is out, and can be again once that pin is returned.
pub proof fn lemma_busy_until_returned(id: PortId, slots: Seq<bool>, index: int, handle: PinHandle)
    requires
        all_free(slots),
        claim_outcome(slots, index) is Ok,
        handle.port_id() == id,
        handle.slot() == index,
    ensures
        !all_free(claim_outcome(slots, index)->Ok_0),
        release_outcome(id, claim_outcome(slots, index)->Ok_0, handle) is Ok,
        all_free(release_outcome(id, claim_outcome(slots, index)->Ok_0, handle)->Ok_0),
{
    lemma_claim_release_round_trip(id, slots, index, handle);
    assert(claim_outcome(slots, index)->Ok_0[index]);
}

} // verus!
