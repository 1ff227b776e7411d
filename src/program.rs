use vstd::prelude::*;

use crate::blinker::{
    exactly_one_high, lamp_pattern, lemma_no_lamp_slot_from, Blinker, LAMP_COUNT, LAMP_FIRST_SLOT,
};
use crate::error::GpioError;
use crate::led::{lemma_ring_from_three, ring_after, ring_next, WhichLed};
use crate::mco::{McoController, MCO_SLOT};
use crate::pin::DigitalValue;
use crate::port::{all_free, lemma_port_len, Port, PortEvent, PortId, System, PIN_COUNT};

verus! {

broadcast use lemma_port_len;

/// Number of lamp steps before the program shuts down.
pub const STEP_LIMIT: u32 = 9;

/// Iterations of the busy-wait between two lamp steps.
pub const DELAY_SPINS: u32 = 1000;

/// Port A while the program runs: only the clock-output slot is claimed.
pub open spec fn running_gpioa() -> Seq<bool> {
    Seq::new(PIN_COUNT as nat, |i: int| i == MCO_SLOT)
}

/// Port E while the program runs: exactly the lamp slots are claimed.
pub open spec fn running_gpioe() -> Seq<bool> {
    Seq::new(PIN_COUNT as nat, |i: int| LAMP_FIRST_SLOT <= i < LAMP_FIRST_SLOT + LAMP_COUNT)
}

/// The whole firmware: both ports, the pins claimed from them, and the step counter.
pub struct Program {
    should_continue: bool,
    count: u32,
    system: System,
    gpioa: Port,
    mco_controller: McoController,
    gpioe: Port,
    blinker: Blinker,
}

/// Spins `spins` times; a stand-in for a timer between lamp steps.
fn delay(spins: u32) {
    let mut i: u32 = 0;
    while i < spins
        invariant
            i <= spins,
        decreases spins - i,
    {
        i = i + 1;
    }
}

impl Program {
    /// Lamp steps taken so far.
    pub closed spec fn ticks(&self) -> nat {
        self.count as nat
    }

    /// False once a step has found the step limit reached.
    pub closed spec fn is_running(&self) -> bool {
        self.should_continue
    }

    /// The power switch of the two ports.
    pub closed spec fn system_spec(&self) -> System {
        self.system
    }

    /// Port A, which carries the clock output.
    pub closed spec fn gpioa_spec(&self) -> Port {
        self.gpioa
    }

    /// Port E, which carries the lamps.
    pub closed spec fn gpioe_spec(&self) -> Port {
        self.gpioe
    }

    /// The clock-output pin.
    pub closed spec fn mco_spec(&self) -> McoController {
        self.mco_controller
    }

    /// The lamp sequencer.
    pub closed spec fn blinker_spec(&self) -> Blinker {
        self.blinker
    }

    /// The role that the next lamp step lights.
    pub open spec fn role(&self) -> WhichLed {
        self.blinker_spec().which_spec()
    }

    /// The levels of the eight lamps, by lamp position.
    pub open spec fn lamp_levels(&self) -> Seq<DigitalValue> {
        self.blinker_spec().levels()
    }

    /// Both ports are active; port A holds just the clock-output pin and
    /// port E just the eight lamp outputs, each configured as set up; the
    /// step counter and the active role agree.
    pub open spec fn wf(&self) -> bool {
        &&& self.system_spec().is_active(PortId::A)
        &&& self.system_spec().is_active(PortId::E)
        &&& self.gpioa_spec().port_id() == PortId::A
        &&& self.gpioe_spec().port_id() == PortId::E
        &&& self.gpioa_spec()@ == running_gpioa()
        &&& self.gpioe_spec()@ == running_gpioe()
        &&& self.mco_spec().wf()
        &&& self.blinker_spec().wf()
        &&& self.ticks() <= STEP_LIMIT
        &&& !self.is_running() ==> self.ticks() == STEP_LIMIT
        &&& self.role() == ring_after(WhichLed::Led3, self.ticks())
    }

    /// Activates both ports, claims the clock-output pin on port A and the
    /// eight lamp pins on port E; all lamps start dark and role 3 lights first.
    pub fn initialize() -> (r: Result<Program, GpioError>)
        ensures
            r is Ok,
            r->Ok_0.wf(),
            r->Ok_0.ticks() == 0,
            r->Ok_0.is_running(),
            r->Ok_0.role() == WhichLed::Led3,
            r->Ok_0.lamp_levels() == Seq::new(LAMP_COUNT as nat, |i: int| DigitalValue::Low),
            r->Ok_0.system_spec().log() == seq![PortEvent::Activated(PortId::A), PortEvent::Activated(PortId::E)],
    {
        let mut system = System::new();
        let mut gpioa = system.activate(PortId::A)?;
        let mco_controller = McoController::new(&mut gpioa)?;
        let mut gpioe = system.activate(PortId::E)?;
        proof {
            lemma_no_lamp_slot_from(gpioe@, LAMP_FIRST_SLOT as int, true);
        }
        let blinker = Blinker::new(&mut gpioe)?;
        assert(gpioa@ =~= running_gpioa());
        assert(gpioe@ =~= running_gpioe());
        Ok(Program { should_continue: true, count: 0, system, gpioa, mco_controller, gpioe, blinker })
    }

    /// Takes one lamp step, or, once `STEP_LIMIT` steps are done, stops the program.
    ///
    /// A lamp step lights the current role's lamp alone, waits, moves the role
    /// along the ring and counts the step.
    pub fn step(&mut self) -> (r: Result<(), GpioError>)
        requires
            old(self).wf(),
        ensures
            r is Ok,
            final(self).wf(),
            final(self).system_spec() == old(self).system_spec(),
            final(self).gpioa_spec() == old(self).gpioa_spec(),
            final(self).gpioe_spec() == old(self).gpioe_spec(),
            final(self).mco_spec() == old(self).mco_spec(),
            final(self).blinker_spec().handles() == old(self).blinker_spec().handles(),
            old(self).ticks() >= STEP_LIMIT ==> {
                &&& !final(self).is_running()
                &&& final(self).ticks() == old(self).ticks()
                &&& final(self).role() == old(self).role()
                &&& final(self).lamp_levels() == old(self).lamp_levels()
            },
            old(self).ticks() < STEP_LIMIT ==> {
                &&& final(self).is_running() == old(self).is_running()
                &&& final(self).ticks() == old(self).ticks() + 1
                &&& final(self).lamp_levels() == lamp_pattern(old(self).role())
                &&& exactly_one_high(final(self).lamp_levels())
                &&& final(self).role() == ring_next(old(self).role())
            },
    {
        if self.count >= STEP_LIMIT {
            self.should_continue = false;
            return Ok(());
        }
        self.blinker.switch();
        delay(DELAY_SPINS);
        self.count = self.count + 1;
        Ok(())
    }

    /// Returns every pin and powers both ports down in the reverse of the
    /// order they were acquired: the lamp pins, port E, the clock-output pin,
    /// port A. Hands back the powered-down system.
    ///
    /// A port powers down only with every slot free, so the two entries the
    /// log gains also show that all nine pins were returned first. The
    /// program is consumed: no step can follow.
    pub fn shutdown(self) -> (r: Result<System, GpioError>)
        requires
            self.wf(),
        ensures
            r is Ok,
            !r->Ok_0.is_active(PortId::A),
            !r->Ok_0.is_active(PortId::E),
            r->Ok_0.log() == self.system_spec().log() + seq![
                PortEvent::Deactivated(PortId::E),
                PortEvent::Deactivated(PortId::A),
            ],
    {
        let Program { should_continue: _, count: _, mut system, mut gpioa, mco_controller, mut gpioe, blinker } = self;
        proof {
            lemma_no_lamp_slot_from(gpioe@, LAMP_FIRST_SLOT as int, false);
        }
        let ghost start = system.log();
        blinker.return_hardware(&mut gpioe)?;
        assert(all_free(gpioe@));
        system.deactivate(gpioe)?;
        mco_controller.return_hardware(&mut gpioa)?;
        assert(all_free(gpioa@));
        system.deactivate(gpioa)?;
        assert(system.log() =~= start + seq![PortEvent::Deactivated(PortId::E), PortEvent::Deactivated(PortId::A)]);
        Ok(system)
    }

    pub fn count(&self) -> (r: u32)
        ensures
            r as nat == self.ticks(),
    {
        self.count
    }

    pub fn should_continue(&self) -> (r: bool)
        ensures
            r == self.is_running(),
    {
        self.should_continue
    }

    pub fn active_role(&self) -> (r: WhichLed)
        ensures
            r == self.role(),
    {
        self.blinker.which()
    }

    pub fn read_levels(&self) -> (r: Vec<DigitalValue>)
        ensures
            r@ == self.lamp_levels(),
    {
        self.blinker.read_levels()
    }
}

/// The whole life of the firmware: initialize, take lamp steps until the
/// step limit stops the program, then shut down. Succeeds on every run and
/// returns the roles lit, in order, with the powered-down system.
pub fn run() -> (r: Result<(Vec<WhichLed>, System), GpioError>)
    ensures
        r is Ok,
        r->Ok_0.0@ == seq![
            WhichLed::Led3,
            WhichLed::Led5,
            WhichLed::Led7,
            WhichLed::Led9,
            WhichLed::Led10,
            WhichLed::Led8,
            WhichLed::Led6,
            WhichLed::Led4,
            WhichLed::Led3,
        ],
        !r->Ok_0.1.is_active(PortId::A),
        !r->Ok_0.1.is_active(PortId::E),
        r->Ok_0.1.log() == seq![
            PortEvent::Activated(PortId::A),
            PortEvent::Activated(PortId::E),
            PortEvent::Deactivated(PortId::E),
            PortEvent::Deactivated(PortId::A),
        ],
{
    let mut program = Program::initialize()?;
    let mut lit: Vec<WhichLed> = Vec::new();
    while program.should_continue()
        invariant
            program.wf(),
            program.system_spec().log() == seq![PortEvent::Activated(PortId::A), PortEvent::Activated(PortId::E)],
            lit@ == Seq::new(program.ticks(), |k: int| ring_after(WhichLed::Led3, k as nat)),
        decreases
            if program.is_running() { STEP_LIMIT + 1 - program.ticks() } else { 0 },
    {
        if program.count() < STEP_LIMIT {
            lit.push(program.active_role());
        }
        program.step()?;
        assert(lit@ =~= Seq::new(program.ticks(), |k: int| ring_after(WhichLed::Led3, k as nat)));
    }
    proof {
        lemma_ring_from_three();
    }
    assert(lit@ =~= seq![
        WhichLed::Led3,
        WhichLed::Led5,
        WhichLed::Led7,
        WhichLed::Led9,
        WhichLed::Led10,
        WhichLed::Led8,
        WhichLed::Led6,
        WhichLed::Led4,
        WhichLed::Led3,
    ]);
    let system = program.shutdown()?;
    Ok((lit, system))
}

} // verus!
