use vstd::prelude::*;

use crate::error::GpioError;
use crate::led::{ring_next, WhichLed};
use crate::pin::{output_of, DigitalValue, OutputPin, OutputSpeed, OutputType, PullDirection};
use crate::port::{claim_outcome, lemma_port_len, PinHandle, Port, PortId};

verus! {

broadcast use lemma_port_len;

/// First slot of port E wired to a lamp; the lamps sit on eight consecutive slots.
pub const LAMP_FIRST_SLOT: usize = 8;

/// Number of lamps.
pub const LAMP_COUNT: usize = 8;

/// The lamp role wired to lamp position `i` (port E slot `LAMP_FIRST_SLOT + i`).
pub open spec fn lamp_at(i: int) -> WhichLed {
    if i == 0 {
        WhichLed::Led4
    } else if i == 1 {
        WhichLed::Led3
    } else if i == 2 {
        WhichLed::Led5
    } else if i == 3 {
        WhichLed::Led7
    } else if i == 4 {
        WhichLed::Led9
    } else if i == 5 {
        WhichLed::Led10
    } else if i == 6 {
        WhichLed::Led8
    } else {
        WhichLed::Led6
    }
}

/// The lamp position of role `w`: the inverse of `lamp_at`.
pub open spec fn position_of(w: WhichLed) -> int {
    match w {
        WhichLed::Led4 => 0,
        WhichLed::Led3 => 1,
        WhichLed::Led5 => 2,
        WhichLed::Led7 => 3,
        WhichLed::Led9 => 4,
        WhichLed::Led10 => 5,
        WhichLed::Led8 => 6,
        WhichLed::Led6 => 7,
    }
}

/// The levels that light role `w` alone, by lamp position.
pub open spec fn lamp_pattern(w: WhichLed) -> Seq<DigitalValue> {
    Seq::new(LAMP_COUNT as nat, |i: int| DigitalValue::from_bool_spec(lamp_at(i) == w))
}

/// Exactly one entry is `High` and every other is `Low`.
pub open spec fn exactly_one_high(levels: Seq<DigitalValue>) -> bool {
    exists|i: int|
        0 <= i < levels.len() && levels[i] == DigitalValue::High && (forall|j: int|
            0 <= j < levels.len() && j != i ==> levels[j] == DigitalValue::Low)
}

/// One past the last lamp slot.
pub open spec fn lamp_end() -> int {
    LAMP_FIRST_SLOT + LAMP_COUNT
}

/// The first lamp slot at or after `k` whose claim state is `claimed`,
/// or `lamp_end()` when there is none.
pub open spec fn first_lamp_slot_from(slots: Seq<bool>, k: int, claimed: bool) -> int
    decreases lamp_end() - k,
{
    if k >= lamp_end() {
        lamp_end()
    } else if slots[k] == claimed {
        k
    } else {
        first_lamp_slot_from(slots, k + 1, claimed)
    }
}

/// `slots` with every lamp slot below `end` set to `claimed` and the others kept.
pub open spec fn with_lamp_slots(slots: Seq<bool>, end: int, claimed: bool) -> Seq<bool> {
    Seq::new(slots.len(), |i: int| if LAMP_FIRST_SLOT <= i < end { claimed } else { slots[i] })
}

/// When no lamp slot from `k` on is in state `claimed`, the search finds none.
pub proof fn lemma_no_lamp_slot_from(slots: Seq<bool>, k: int, claimed: bool)
    requires
        LAMP_FIRST_SLOT <= k <= lamp_end(),
        forall|i: int| k <= i < lamp_end() ==> slots[i] != claimed,
    ensures
        first_lamp_slot_from(slots, k, claimed) == lamp_end(),
    decreases lamp_end() - k,
{
    if k < lamp_end() {
        lemma_no_lamp_slot_from(slots, k + 1, claimed);
    }
}

/// Lamp position `i` is a floating, push-pull, low-speed output on port E
/// slot `LAMP_FIRST_SLOT + i`.
pub open spec fn lamp_output(pin: OutputPin, i: int) -> bool {
    &&& pin.handle_spec().port_id() == PortId::E
    &&& pin.handle_spec().slot() == LAMP_FIRST_SLOT + i
    &&& pin.pull_spec() == PullDirection::Floating
    &&& pin.output_type_spec() == OutputType::PushPull
    &&& pin.speed_spec() == OutputSpeed::Low
}

/// Each lamp role lights exactly one lamp position: the pattern for `w`
/// is `High` at `position_of(w)` and `Low` everywhere else.
pub proof fn lemma_one_lamp_lit(w: WhichLed)
    ensures
        0 <= position_of(w) < LAMP_COUNT,
        lamp_pattern(w)[position_of(w)] == DigitalValue::High,
        forall|j: int|
            0 <= j < LAMP_COUNT && j != position_of(w) ==> lamp_pattern(w)[j] == DigitalValue::Low,
        exactly_one_high(lamp_pattern(w)),
{
    let p = lamp_pattern(w);
    assert forall|j: int| 0 <= j < LAMP_COUNT && j != position_of(w) implies p[j]
        == DigitalValue::Low by {
        assert(lamp_at(j) != w);
    }
    assert(p[position_of(w)] == DigitalValue::High);
}

/// Eight lamp outputs on port E and the role that lights next.
pub struct Blinker {
    which: WhichLed,
    pe8: OutputPin,
    pe9: OutputPin,
    pe10: OutputPin,
    pe11: OutputPin,
    pe12: OutputPin,
    pe13: OutputPin,
    pe14: OutputPin,
    pe15: OutputPin,
}

/// Claims slot `index` of `port` and configures it as a floating, push-pull, low-speed output.
fn take_output(port: &mut Port, index: usize) -> (r: Result<OutputPin, GpioError>)
    ensures
        final(port).port_id() == old(port).port_id(),
        match claim_outcome(old(port)@, index as int) {
            Ok(slots) => {
                &&& r is Ok
                &&& final(port)@ == slots
                &&& r->Ok_0.handle_spec().port_id() == old(port).port_id()
                &&& r->Ok_0.handle_spec().slot() == index
                &&& r->Ok_0.value_spec() == DigitalValue::Low
                &&& r->Ok_0.pull_spec() == PullDirection::Floating
                &&& r->Ok_0.output_type_spec() == OutputType::PushPull
                &&& r->Ok_0.speed_spec() == OutputSpeed::Low
                &&& r->Ok_0 == output_of(
                    r->Ok_0.handle_spec(),
                    PullDirection::Floating,
                    OutputType::PushPull,
                    OutputSpeed::Low,
                )
            },
            Err(e) => r == Err::<OutputPin, GpioError>(e) && final(port)@ == old(port)@,
        },
{
    let handle = port.claim(index)?;
    Ok(handle.as_output(PullDirection::Floating, OutputType::PushPull, OutputSpeed::Low))
}

impl Blinker {
    /// The role that the next `switch` lights.
    pub closed spec fn which_spec(&self) -> WhichLed {
        self.which
    }

    /// The eight lamp outputs by lamp position.
    pub closed spec fn pins(&self) -> Seq<OutputPin> {
        seq![self.pe8, self.pe9, self.pe10, self.pe11, self.pe12, self.pe13, self.pe14, self.pe15]
    }

    /// The handles behind the lamp outputs, by lamp position.
    pub open spec fn handles(&self) -> Seq<PinHandle> {
        Seq::new(LAMP_COUNT as nat, |i: int| self.pins()[i].handle_spec())
    }

    /// The levels the lamp outputs drive, by lamp position.
    pub open spec fn levels(&self) -> Seq<DigitalValue> {
        Seq::new(LAMP_COUNT as nat, |i: int| self.pins()[i].value_spec())
    }

    /// Every lamp position holds its configured output.
    pub open spec fn wf(&self) -> bool {
        forall|i: int| 0 <= i < LAMP_COUNT ==> lamp_output(#[trigger] self.pins()[i], i)
    }

    /// Claims lamp slots 8 to 15 of port E in order, each as a floating,
    /// push-pull, low-speed output driven low, with role 3 lighting first.
    ///
    /// Refused with `NotOwnedHere` on another port, leaving it as it was. At
    /// the first lamp slot that is already taken it stops with
    /// `AlreadyClaimed`; the slots claimed before it stay claimed.
    pub fn new(gpioe: &mut Port) -> (r: Result<Blinker, GpioError>)
        ensures
            final(gpioe).port_id() == old(gpioe).port_id(),
            old(gpioe).port_id() != PortId::E ==> {
                &&& r == Err::<Blinker, GpioError>(GpioError::NotOwnedHere)
                &&& final(gpioe)@ == old(gpioe)@
            },
            old(gpioe).port_id() == PortId::E ==> final(gpioe)@ =~= with_lamp_slots(
                old(gpioe)@,
                first_lamp_slot_from(old(gpioe)@, LAMP_FIRST_SLOT as int, true),
                true,
            ),
            old(gpioe).port_id() == PortId::E && first_lamp_slot_from(old(gpioe)@, LAMP_FIRST_SLOT as int, true)
                < lamp_end() ==> r == Err::<Blinker, GpioError>(GpioError::AlreadyClaimed),
            old(gpioe).port_id() == PortId::E && first_lamp_slot_from(old(gpioe)@, LAMP_FIRST_SLOT as int, true)
                == lamp_end() ==> {
                &&& r is Ok
                &&& r->Ok_0.wf()
                &&& forall|i: int|
                    0 <= i < LAMP_COUNT ==> #[trigger] r->Ok_0.pins()[i] == output_of(
                        r->Ok_0.pins()[i].handle_spec(),
                        PullDirection::Floating,
                        OutputType::PushPull,
                        OutputSpeed::Low,
                    )
                &&& r->Ok_0.which_spec() == WhichLed::Led3
                &&& r->Ok_0.levels() == Seq::new(LAMP_COUNT as nat, |i: int| DigitalValue::Low)
            },
    {
        if gpioe.id() != PortId::E {
            return Err(GpioError::NotOwnedHere);
        }
        let ghost before = gpioe@;
        let ghost first = first_lamp_slot_from(before, LAMP_FIRST_SLOT as int, true);
        let pe8 = take_output(gpioe, 8)?;
        assert(first == first_lamp_slot_from(before, 9, true));
        let pe9 = take_output(gpioe, 9)?;
        assert(first == first_lamp_slot_from(before, 10, true));
        let pe10 = take_output(gpioe, 10)?;
        assert(first == first_lamp_slot_from(before, 11, true));
        let pe11 = take_output(gpioe, 11)?;
        assert(first == first_lamp_slot_from(before, 12, true));
        let pe12 = take_output(gpioe, 12)?;
        assert(first == first_lamp_slot_from(before, 13, true));
        let pe13 = take_output(gpioe, 13)?;
        assert(first == first_lamp_slot_from(before, 14, true));
        let pe14 = take_output(gpioe, 14)?;
        assert(first == first_lamp_slot_from(before, 15, true));
        let pe15 = take_output(gpioe, 15)?;
        assert(first == first_lamp_slot_from(before, 16, true));
        let b = Blinker { which: WhichLed::Led3, pe8, pe9, pe10, pe11, pe12, pe13, pe14, pe15 };
        assert(b.levels() =~= Seq::new(LAMP_COUNT as nat, |i: int| DigitalValue::Low));
        Ok(b)
    }

    /// The role that the next `switch` lights.
    pub fn which(&self) -> (r: WhichLed)
        ensures
            r == self.which_spec(),
    {
        self.which
    }

    /// The levels the lamp outputs drive, by lamp position.
    pub fn read_levels(&self) -> (r: Vec<DigitalValue>)
        ensures
            r@ == self.levels(),
    {
        let r = vec![
            self.pe8.value(),
            self.pe9.value(),
            self.pe10.value(),
            self.pe11.value(),
            self.pe12.value(),
            self.pe13.value(),
            self.pe14.value(),
            self.pe15.value(),
        ];
        assert(r@ =~= self.levels());
        r
    }

    /// Lights the lamp of the current role alone, then moves the role one step along the ring.
    pub fn switch(&mut self)
        requires
            old(self).wf(),
        ensures
            final(self).wf(),
            final(self).handles() == old(self).handles(),
            forall|i: int|
                0 <= i < LAMP_COUNT ==> {
                    &&& (#[trigger] final(self).pins()[i]).pull_spec() == old(self).pins()[i].pull_spec()
                    &&& final(self).pins()[i].output_type_spec() == old(self).pins()[i].output_type_spec()
                    &&& final(self).pins()[i].speed_spec() == old(self).pins()[i].speed_spec()
                },
            final(self).levels() == lamp_pattern(old(self).which_spec()),
            exactly_one_high(final(self).levels()),
            final(self).which_spec() == ring_next(old(self).which_spec()),
    {
        let w = self.which;
        self.pe8.write(DigitalValue::from_bool(w == WhichLed::Led4));
        self.pe9.write(DigitalValue::from_bool(w == WhichLed::Led3));
        self.pe10.write(DigitalValue::from_bool(w == WhichLed::Led5));
        self.pe11.write(DigitalValue::from_bool(w == WhichLed::Led7));
        self.pe12.write(DigitalValue::from_bool(w == WhichLed::Led9));
        self.pe13.write(DigitalValue::from_bool(w == WhichLed::Led10));
        self.pe14.write(DigitalValue::from_bool(w == WhichLed::Led8));
        self.pe15.write(DigitalValue::from_bool(w == WhichLed::Led6));
        self.which = self.which.next();
        assert(self.handles() =~= old(self).handles());
        assert(self.levels() =~= lamp_pattern(w));
        proof {
            lemma_one_lamp_lit(w);
        }
    }

    /// Tears down the lamp outputs in slot order and returns each slot to `gpioe`.
    ///
    /// Stops with `NotOwnedHere` at the first lamp slot that `gpioe` does not
    /// hold as claimed (at once, on another port); the slots returned before
    /// it stay free.
    pub fn return_hardware(self, gpioe: &mut Port) -> (r: Result<(), GpioError>)
        requires
            self.wf(),
        ensures
            final(gpioe).port_id() == old(gpioe).port_id(),
            old(gpioe).port_id() != PortId::E ==> {
                &&& r == Err::<(), GpioError>(GpioError::NotOwnedHere)
                &&& final(gpioe)@ == old(gpioe)@
            },
            old(gpioe).port_id() == PortId::E ==> final(gpioe)@ =~= with_lamp_slots(
                old(gpioe)@,
                first_lamp_slot_from(old(gpioe)@, LAMP_FIRST_SLOT as int, false),
                false,
            ),
            old(gpioe).port_id() == PortId::E && first_lamp_slot_from(old(gpioe)@, LAMP_FIRST_SLOT as int, false)
                < lamp_end() ==> r == Err::<(), GpioError>(GpioError::NotOwnedHere),
            old(gpioe).port_id() == PortId::E && first_lamp_slot_from(old(gpioe)@, LAMP_FIRST_SLOT as int, false)
                == lamp_end() ==> r is Ok,
    {
        let ghost before = gpioe@;
        let ghost first = first_lamp_slot_from(before, LAMP_FIRST_SLOT as int, false);
        assert(lamp_output(self.pins()[0], 0) && lamp_output(self.pins()[1], 1));
        assert(lamp_output(self.pins()[2], 2) && lamp_output(self.pins()[3], 3));
        assert(lamp_output(self.pins()[4], 4) && lamp_output(self.pins()[5], 5));
        assert(lamp_output(self.pins()[6], 6) && lamp_output(self.pins()[7], 7));
        gpioe.release(self.pe8.teardown())?;
        assert(first == first_lamp_slot_from(before, 9, false));
        gpioe.release(self.pe9.teardown())?;
        assert(first == first_lamp_slot_from(before, 10, false));
        gpioe.release(self.pe10.teardown())?;
        assert(first == first_lamp_slot_from(before, 11, false));
        gpioe.release(self.pe11.teardown())?;
        assert(first == first_lamp_slot_from(before, 12, false));
        gpioe.release(self.pe12.teardown())?;
        assert(first == first_lamp_slot_from(before, 13, false));
        gpioe.release(self.pe13.teardown())?;
        assert(first == first_lamp_slot_from(before, 14, false));
        gpioe.release(self.pe14.teardown())?;
        assert(first == first_lamp_slot_from(before, 15, false));
        gpioe.release(self.pe15.teardown())?;
        assert(first == first_lamp_slot_from(before, 16, false));
        Ok(())
    }
}

} // verus!
