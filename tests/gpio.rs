use gpio_blinker::blinker::Blinker;
use gpio_blinker::error::GpioError;
use gpio_blinker::led::WhichLed;
use gpio_blinker::mco::McoController;
use gpio_blinker::pin::{DigitalValue, OutputSpeed, OutputType, PullDirection, MCO_FUNCTION};
use gpio_blinker::port::{PortId, System};
use gpio_blinker::program::{run, Program};

/// Labels of the lamps wired to port E slots 8 to 15, in slot order.
const WIRING: [u8; 8] = [4, 3, 5, 7, 9, 10, 8, 6];

fn lit_labels(levels: &[DigitalValue]) -> Vec<u8> {
    levels
        .iter()
        .enumerate()
        .filter(|(_, v)| **v == DigitalValue::High)
        .map(|(i, _)| WIRING[i])
        .collect()
}

#[test]
fn claim_marks_slot_and_hands_out_handle() {
    let mut system = System::new();
    let mut port = system.activate(PortId::E).unwrap();
    assert!(port.is_idle());
    let h = port.claim(3).unwrap();
    assert_eq!(h.port(), PortId::E);
    assert_eq!(h.index(), 3);
    assert!(port.is_claimed(3));
    assert!(!port.is_claimed(4));
    assert!(!port.is_idle());
}

#[test]
fn second_claim_is_refused() {
    let mut system = System::new();
    let mut port = system.activate(PortId::A).unwrap();
    let _h = port.claim(8).unwrap();
    assert_eq!(port.claim(8).err(), Some(GpioError::AlreadyClaimed));
    let _other = port.claim(9).unwrap();
    assert_eq!(port.claim(8).err(), Some(GpioError::AlreadyClaimed));
}

#[test]
fn claim_past_last_slot_is_refused() {
    let mut system = System::new();
    let mut port = system.activate(PortId::A).unwrap();
    assert_eq!(port.claim(16).err(), Some(GpioError::NotOwnedHere));
    assert!(port.is_idle());
}

#[test]
fn release_to_other_port_is_refused() {
    let mut system = System::new();
    let mut a = system.activate(PortId::A).unwrap();
    let mut e = system.activate(PortId::E).unwrap();
    let h = a.claim(8).unwrap();
    assert_eq!(e.release(h), Err(GpioError::NotOwnedHere));
    assert!(a.is_claimed(8));
    assert!(e.is_idle());
}

#[test]
fn activating_twice_is_refused() {
    let mut system = System::new();
    let _a = system.activate(PortId::A).unwrap();
    assert!(system.active(PortId::A));
    assert!(!system.active(PortId::E));
    assert_eq!(system.activate(PortId::A).err(), Some(GpioError::AlreadyClaimed));
}

#[test]
fn output_round_trip_gives_back_claimed_handle() {
    let mut system = System::new();
    let mut port = system.activate(PortId::E).unwrap();
    let h = port.claim(12).unwrap();
    let pin = h.as_output(PullDirection::PullUp, OutputType::OpenDrain, OutputSpeed::High);
    assert_eq!(pin.value(), DigitalValue::Low);
    let back = pin.teardown();
    assert_eq!(back.port(), PortId::E);
    assert_eq!(back.index(), 12);
    assert_eq!(port.release(back), Ok(()));
    assert!(port.is_idle());
    assert_eq!(system.deactivate(port), Ok(()));
}

#[test]
fn alt_func_round_trip_gives_back_claimed_handle() {
    let mut system = System::new();
    let mut port = system.activate(PortId::A).unwrap();
    let h = port.claim(8).unwrap();
    let pin = h.as_alt_func(PullDirection::Floating, MCO_FUNCTION);
    assert_eq!(pin.function(), MCO_FUNCTION);
    assert_eq!(pin.pull(), PullDirection::Floating);
    let back = pin.teardown();
    assert_eq!(back.port(), PortId::A);
    assert_eq!(back.index(), 8);
    assert_eq!(port.release(back), Ok(()));
    assert!(!port.is_claimed(8));
}

#[test]
fn write_sets_output_level() {
    let mut system = System::new();
    let mut port = system.activate(PortId::E).unwrap();
    let mut pin = port
        .claim(9)
        .unwrap()
        .as_output(PullDirection::Floating, OutputType::PushPull, OutputSpeed::Low);
    pin.write(DigitalValue::High);
    assert_eq!(pin.value(), DigitalValue::High);
    pin.write(DigitalValue::from_bool(false));
    assert_eq!(pin.value(), DigitalValue::Low);
    assert_eq!(pin.port(), PortId::E);
    assert_eq!(pin.index(), 9);
}

#[test]
fn deactivate_busy_until_pins_returned() {
    let mut system = System::new();
    let mut port = system.activate(PortId::E).unwrap();
    let h = port.claim(5).unwrap();
    assert!(!port.is_idle());
    port.release(h).unwrap();
    assert!(port.is_idle());
    assert_eq!(system.deactivate(port), Ok(()));
    assert!(!system.active(PortId::E));

    let mut busy = system.activate(PortId::E).unwrap();
    let _h = busy.claim(5).unwrap();
    assert_eq!(system.deactivate(busy), Err(GpioError::PortBusy));
    assert!(system.active(PortId::E));
}

#[test]
fn deactivate_port_of_other_system_is_refused() {
    let mut first = System::new();
    let port = first.activate(PortId::A).unwrap();
    let mut second = System::new();
    assert_eq!(second.deactivate(port), Err(GpioError::NotOwnedHere));
}

#[test]
fn ring_next_follows_table() {
    let cases = [
        (WhichLed::Led3, WhichLed::Led5),
        (WhichLed::Led5, WhichLed::Led7),
        (WhichLed::Led7, WhichLed::Led9),
        (WhichLed::Led9, WhichLed::Led10),
        (WhichLed::Led10, WhichLed::Led8),
        (WhichLed::Led8, WhichLed::Led6),
        (WhichLed::Led6, WhichLed::Led4),
        (WhichLed::Led4, WhichLed::Led3),
    ];
    for (mut from, to) in cases {
        let before = from;
        assert_eq!(from.next(), to);
        assert_eq!(from, before);
    }
}

#[test]
fn ring_from_three_has_period_eight() {
    let mut w = WhichLed::Led3;
    let mut labels = Vec::new();
    for _ in 0..9 {
        labels.push(w.label());
        w = w.next();
    }
    assert_eq!(labels, vec![3, 5, 7, 9, 10, 8, 6, 4, 3]);
    for start in [WhichLed::Led4, WhichLed::Led8, WhichLed::Led10] {
        let mut w = start;
        for k in 1..=8 {
            w = w.next();
            assert_eq!(w == start, k == 8);
        }
    }
}

#[test]
fn blinker_lights_exactly_one_lamp_per_switch() {
    let mut system = System::new();
    let mut gpioe = system.activate(PortId::E).unwrap();
    let mut blinker = Blinker::new(&mut gpioe).unwrap();
    assert_eq!(blinker.which(), WhichLed::Led3);
    assert!(lit_labels(&blinker.read_levels()).is_empty());
    let mut lit = Vec::new();
    for _ in 0..8 {
        blinker.switch();
        let on = lit_labels(&blinker.read_levels());
        assert_eq!(on.len(), 1);
        lit.push(on[0]);
    }
    assert_eq!(lit, vec![3, 5, 7, 9, 10, 8, 6, 4]);
    assert_eq!(blinker.which(), WhichLed::Led3);
}

#[test]
fn blinker_first_switch_drives_slot_nine_high() {
    let mut system = System::new();
    let mut gpioe = system.activate(PortId::E).unwrap();
    let mut blinker = Blinker::new(&mut gpioe).unwrap();
    blinker.switch();
    let levels = blinker.read_levels();
    assert_eq!(levels[1], DigitalValue::High);
    for (i, v) in levels.iter().enumerate() {
        if i != 1 {
            assert_eq!(*v, DigitalValue::Low);
        }
    }
}

#[test]
fn blinker_claims_and_returns_lamp_slots() {
    let mut system = System::new();
    let mut gpioe = system.activate(PortId::E).unwrap();
    let blinker = Blinker::new(&mut gpioe).unwrap();
    for i in 0..16 {
        assert_eq!(gpioe.is_claimed(i), (8..16).contains(&i));
    }
    assert_eq!(Blinker::new(&mut gpioe).err(), Some(GpioError::AlreadyClaimed));
    assert_eq!(blinker.return_hardware(&mut gpioe), Ok(()));
    assert!(gpioe.is_idle());
    assert_eq!(system.deactivate(gpioe), Ok(()));
}

#[test]
fn blinker_refuses_wrong_port_and_taken_slot() {
    let mut system = System::new();
    let mut gpioa = system.activate(PortId::A).unwrap();
    assert_eq!(Blinker::new(&mut gpioa).err(), Some(GpioError::NotOwnedHere));
    assert!(gpioa.is_idle());

    let mut gpioe = system.activate(PortId::E).unwrap();
    let _h = gpioe.claim(13).unwrap();
    assert_eq!(Blinker::new(&mut gpioe).err(), Some(GpioError::AlreadyClaimed));
    for i in 0..16 {
        assert_eq!(gpioe.is_claimed(i), (8..14).contains(&i));
    }
}

#[test]
fn blinker_claims_in_order_until_first_taken_slot() {
    let mut system = System::new();
    let mut gpioe = system.activate(PortId::E).unwrap();
    let _h = gpioe.claim(9).unwrap();
    let _other = gpioe.claim(2).unwrap();
    assert_eq!(Blinker::new(&mut gpioe).err(), Some(GpioError::AlreadyClaimed));
    for i in 0..16 {
        assert_eq!(gpioe.is_claimed(i), i == 2 || i == 8 || i == 9);
    }
}

#[test]
fn blinker_returns_in_order_until_first_unclaimed_slot() {
    let mut system = System::new();
    let mut gpioe = system.activate(PortId::E).unwrap();
    let blinker = Blinker::new(&mut gpioe).unwrap();
    let mut other_system = System::new();
    let mut other_e = other_system.activate(PortId::E).unwrap();
    let _h8 = other_e.claim(8).unwrap();
    let _h9 = other_e.claim(9).unwrap();
    let _h11 = other_e.claim(11).unwrap();
    assert_eq!(blinker.return_hardware(&mut other_e), Err(GpioError::NotOwnedHere));
    for i in 0..16 {
        assert_eq!(other_e.is_claimed(i), i == 11);
    }
}

#[test]
fn blinker_return_to_wrong_port_is_refused() {
    let mut system = System::new();
    let mut gpioa = system.activate(PortId::A).unwrap();
    let mut gpioe = system.activate(PortId::E).unwrap();
    let blinker = Blinker::new(&mut gpioe).unwrap();
    assert_eq!(blinker.return_hardware(&mut gpioa), Err(GpioError::NotOwnedHere));
    assert!(gpioa.is_idle());
}

#[test]
fn mco_claims_clock_output_pin() {
    let mut system = System::new();
    let mut gpioa = system.activate(PortId::A).unwrap();
    let mco = McoController::new(&mut gpioa).unwrap();
    assert_eq!(mco.function(), MCO_FUNCTION);
    assert!(gpioa.is_claimed(8));
    assert_eq!(McoController::new(&mut gpioa).err(), Some(GpioError::AlreadyClaimed));
    assert_eq!(mco.return_hardware(&mut gpioa), Ok(()));
    assert!(gpioa.is_idle());
    assert_eq!(system.deactivate(gpioa), Ok(()));
}

#[test]
fn mco_refuses_wrong_port() {
    let mut system = System::new();
    let mut gpioe = system.activate(PortId::E).unwrap();
    assert_eq!(McoController::new(&mut gpioe).err(), Some(GpioError::NotOwnedHere));
    let mut gpioa = system.activate(PortId::A).unwrap();
    let mco = McoController::new(&mut gpioa).unwrap();
    assert_eq!(mco.return_hardware(&mut gpioe), Err(GpioError::NotOwnedHere));
}

#[test]
fn program_runs_nine_steps_then_shuts_down() {
    let mut program = Program::initialize().unwrap();
    assert_eq!(program.count(), 0);
    assert!(program.should_continue());
    assert_eq!(program.active_role(), WhichLed::Led3);
    let mut lit = Vec::new();
    for _ in 0..9 {
        program.step().unwrap();
        let on = lit_labels(&program.read_levels());
        assert_eq!(on.len(), 1);
        lit.push(on[0]);
        assert!(program.should_continue());
    }
    assert_eq!(lit, vec![3, 5, 7, 9, 10, 8, 6, 4, 3]);
    assert_eq!(program.count(), 9);
    let before = program.read_levels();
    program.step().unwrap();
    assert!(!program.should_continue());
    assert_eq!(program.count(), 9);
    assert_eq!(program.read_levels(), before);
    let system = program.shutdown().unwrap();
    assert!(!system.active(PortId::A));
    assert!(!system.active(PortId::E));
}

#[test]
fn run_lights_nine_roles_and_powers_down() {
    let (lit, system) = run().unwrap();
    let labels: Vec<u8> = lit.iter().map(|w| w.label()).collect();
    assert_eq!(labels, vec![3, 5, 7, 9, 10, 8, 6, 4, 3]);
    assert!(!system.active(PortId::A));
    assert!(!system.active(PortId::E));
}
