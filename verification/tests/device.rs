use std::cell::RefCell;
use std::rc::Rc;

use sx1509::error::{Error, ModeChange};
use sx1509::interface::Interface;
use sx1509::pin::opposite;
use sx1509::{Bus, DebounceTime, Sx1509};

const ADDRESS: u8 = 0x3E;

const PULL_UP_B: usize = 0x06;
const PULL_UP_A: usize = 0x07;
const PULL_DOWN_B: usize = 0x08;
const PULL_DOWN_A: usize = 0x09;
const OPEN_DRAIN_B: usize = 0x0A;
const OPEN_DRAIN_A: usize = 0x0B;
const DIR_B: usize = 0x0E;
const DIR_A: usize = 0x0F;
const DATA_B: usize = 0x10;
const DATA_A: usize = 0x11;
const DEBOUNCE_CONFIG: usize = 0x22;
const DEBOUNCE_ENABLE_B: usize = 0x23;
const DEBOUNCE_ENABLE_A: usize = 0x24;

/// One transaction as the simulated bus saw it.
#[derive(Debug, Clone, PartialEq, Eq)]
enum Seen {
    Write(u8, Vec<u8>),
    WriteRead(u8, Vec<u8>),
}

/// The failure of the simulated bus.
#[derive(Debug, Clone, Copy, PartialEq, Eq)]
struct Nack;

/// A chip that stores what is written to its registers, behind a bus that
/// records every transaction, can be told to fail one, and can run a hook in
/// the middle of one.
struct Chip {
    registers: [u8; 128],
    seen: Vec<Seen>,
    fail_at: Option<usize>,
    hook: Option<Box<dyn FnMut()>>,
}

#[derive(Clone)]
struct SimBus {
    chip: Rc<RefCell<Chip>>,
}

impl SimBus {
    fn new() -> Self {
        let chip = Chip { registers: [0; 128], seen: Vec::new(), fail_at: None, hook: None };
        SimBus { chip: Rc::new(RefCell::new(chip)) }
    }

    fn register(&self, address: usize) -> u8 {
        self.chip.borrow().registers[address]
    }

    fn preset(&self, address: usize, value: u8) {
        self.chip.borrow_mut().registers[address] = value;
    }

    fn seen(&self) -> Vec<Seen> {
        self.chip.borrow().seen.clone()
    }

    fn forget(&self) {
        self.chip.borrow_mut().seen.clear();
    }

    /// Makes the transaction with this index, counted from the next one,
    /// fail.
    fn fail_after(&self, transactions: usize) {
        let mut chip = self.chip.borrow_mut();
        chip.fail_at = Some(chip.seen.len() + transactions);
    }

    fn on_next_transaction(&self, hook: Box<dyn FnMut()>) {
        self.chip.borrow_mut().hook = Some(hook);
    }

    /// Records a transaction and says whether it goes through.
    fn begin(&self, seen: Seen) -> Result<(), Nack> {
        let hook = self.chip.borrow_mut().hook.take();
        if let Some(mut hook) = hook {
            hook();
        }
        let mut chip = self.chip.borrow_mut();
        let index = chip.seen.len();
        chip.seen.push(seen);
        if chip.fail_at == Some(index) {
            return Err(Nack);
        }
        Ok(())
    }
}

impl Bus for SimBus {
    type Error = Nack;

    fn write(&mut self, address: u8, bytes: &[u8]) -> Result<(), Nack> {
        self.begin(Seen::Write(address, bytes.to_vec()))?;
        assert_eq!(bytes.len(), 2);
        self.chip.borrow_mut().registers[bytes[0] as usize] = bytes[1];
        Ok(())
    }

    fn write_read(&mut self, address: u8, bytes: &[u8]) -> Result<u8, Nack> {
        self.begin(Seen::WriteRead(address, bytes.to_vec()))?;
        assert_eq!(bytes.len(), 1);
        Ok(self.chip.borrow().registers[bytes[0] as usize])
    }
}

fn device(bus: &SimBus) -> Sx1509<SimBus> {
    let device = Sx1509::new(bus.clone(), ADDRESS).ok().unwrap();
    bus.forget();
    device
}

fn bit(bus: &SimBus, address: usize, position: u8) -> bool {
    bus.register(address) & (1 << position) != 0
}

#[test]
fn construction_resets_and_starts_the_oscillator() {
    let bus = SimBus::new();
    let made = Sx1509::new(bus.clone(), 0x3E);
    assert!(made.is_ok());
    assert_eq!(
        bus.seen(),
        vec![
            Seen::Write(0x3E, vec![0x7D, 0x12]),
            Seen::Write(0x3E, vec![0x7D, 0x34]),
            Seen::Write(0x3E, vec![0x1E, 0b0100_0000]),
        ]
    );
}

#[test]
fn construction_fails_with_the_first_failing_transaction() {
    for failing in 0..3 {
        let bus = SimBus::new();
        bus.fail_after(failing);
        let made = Sx1509::new(bus.clone(), 0x3E);
        assert!(matches!(made, Err(Nack)));
        assert_eq!(bus.seen().len(), failing + 1);
    }
    let bus = SimBus::new();
    bus.fail_after(3);
    assert!(Sx1509::new(bus.clone(), 0x3E).is_ok());
    assert_eq!(bus.seen().len(), 3);
}

#[test]
fn pin_nine_set_high_writes_bit_one_of_data_b() {
    let bus = SimBus::new();
    let mut device = device(&bus);
    bus.preset(DATA_B, 0b1010_0101);
    let pins = device.split();
    let mut output = pins.b1.into_output().ok().unwrap();
    assert!(output.set_high().is_ok());
    let seen = bus.seen();
    assert_eq!(seen.last(), Some(&Seen::Write(0x3E, vec![0x10, 0b1010_0111])));
    assert_eq!(bus.register(DATA_B), 0b1010_0111);

    let bus = SimBus::new();
    let mut device = self::device(&bus);
    let pins = device.split();
    let mut output = pins.b1.into_output().ok().unwrap();
    assert!(output.set_high().is_ok());
    assert_eq!(bus.seen().last(), Some(&Seen::Write(0x3E, vec![0x10, 0b0000_0010])));
}

#[test]
fn into_output_reads_and_writes_direction_then_open_drain() {
    let bus = SimBus::new();
    let mut device = device(&bus);
    bus.preset(DIR_B, 0b0000_0001);
    bus.preset(OPEN_DRAIN_B, 0b1111_1111);
    let pins = device.split();
    assert!(pins.b1.into_output().is_ok());
    assert_eq!(
        bus.seen(),
        vec![
            Seen::WriteRead(0x3E, vec![0x0E]),
            Seen::Write(0x3E, vec![0x0E, 0b0000_0011]),
            Seen::WriteRead(0x3E, vec![0x0A]),
            Seen::Write(0x3E, vec![0x0A, 0b1111_1101]),
        ]
    );
}

#[test]
fn into_input_writes_direction_pull_up_pull_down_debounce() {
    let bus = SimBus::new();
    let mut device = device(&bus);
    for address in [DIR_A, PULL_UP_A, PULL_DOWN_A, DEBOUNCE_ENABLE_A] {
        bus.preset(address, 0b1111_1111);
    }
    let pins = device.split();
    assert!(pins.a3.into_input().is_ok());
    assert_eq!(
        bus.seen(),
        vec![
            Seen::WriteRead(0x3E, vec![0x0F]),
            Seen::Write(0x3E, vec![0x0F, 0b1111_0111]),
            Seen::WriteRead(0x3E, vec![0x07]),
            Seen::Write(0x3E, vec![0x07, 0b1111_0111]),
            Seen::WriteRead(0x3E, vec![0x09]),
            Seen::Write(0x3E, vec![0x09, 0b1111_0111]),
            Seen::WriteRead(0x3E, vec![0x24]),
            Seen::Write(0x3E, vec![0x24, 0b1111_0111]),
        ]
    );
}

#[test]
fn output_reads_back_the_level_it_was_set_to() {
    let bus = SimBus::new();
    let mut device = device(&bus);
    bus.preset(DATA_A, 0b0101_0101);
    let pins = device.split();
    let mut output = pins.a5.into_output().ok().unwrap();
    for level in [true, false, false, true] {
        if level {
            assert!(output.set_high().is_ok());
        } else {
            assert!(output.set_low().is_ok());
        }
        assert_eq!(output.is_set_high().ok(), Some(level));
        assert_eq!(output.is_set_low().ok(), Some(!level));
        assert_eq!(bus.register(DATA_A) & 0b1101_1111, 0b0101_0101);
    }
}

#[test]
fn every_pin_reads_back_both_levels() {
    let bus = SimBus::new();
    let mut device = device(&bus);
    let pins = device.split();
    let mut a0 = pins.a0.into_output().ok().unwrap();
    let mut a7 = pins.a7.into_output().ok().unwrap();
    let mut b0 = pins.b0.into_output().ok().unwrap();
    let mut b7 = pins.b7.into_output().ok().unwrap();
    assert!(a0.set_high().is_ok());
    assert!(a7.set_high().is_ok());
    assert!(b0.set_high().is_ok());
    assert!(b7.set_high().is_ok());
    assert_eq!(bus.register(DATA_A), 0b1000_0001);
    assert_eq!(bus.register(DATA_B), 0b1000_0001);
    assert!(a7.set_low().is_ok());
    assert!(b0.set_low().is_ok());
    assert_eq!(a0.is_set_high().ok(), Some(true));
    assert_eq!(a7.is_set_high().ok(), Some(false));
    assert_eq!(b0.is_set_high().ok(), Some(false));
    assert_eq!(b7.is_set_high().ok(), Some(true));
    assert_eq!(bus.register(DATA_A), 0b0000_0001);
    assert_eq!(bus.register(DATA_B), 0b1000_0000);
}

#[test]
fn input_reads_the_level_on_the_pin() {
    let bus = SimBus::new();
    let mut device = device(&bus);
    let pins = device.split();
    let mut input = pins.b4.into_input().ok().unwrap();
    bus.preset(DATA_B, 0b0001_0000);
    assert_eq!(input.is_high().ok(), Some(true));
    assert_eq!(input.is_low().ok(), Some(false));
    bus.preset(DATA_B, 0b1110_1111);
    assert_eq!(input.is_high().ok(), Some(false));
    assert_eq!(input.is_low().ok(), Some(true));
}

#[test]
fn output_mode_sets_direction_and_clears_open_drain() {
    let bus = SimBus::new();
    let mut device = device(&bus);
    bus.preset(OPEN_DRAIN_A, 0b1111_1111);
    let pins = device.split();
    let output = pins.a2.into_output().ok().unwrap();
    assert!(bit(&bus, DIR_A, 2));
    assert!(!bit(&bus, OPEN_DRAIN_A, 2));
    assert_eq!(bus.register(OPEN_DRAIN_A), 0b1111_1011);

    let output = output.open_drain().ok().unwrap();
    assert!(bit(&bus, OPEN_DRAIN_A, 2));
    let output = output.push_pull().ok().unwrap();
    assert!(!bit(&bus, OPEN_DRAIN_A, 2));

    let input = output.open_drain().ok().unwrap().into_input().ok().unwrap();
    assert!(!bit(&bus, DIR_A, 2));
    let _output = input.into_output().ok().unwrap();
    assert!(bit(&bus, DIR_A, 2));
    assert!(!bit(&bus, OPEN_DRAIN_A, 2));
}

#[test]
fn input_mode_clears_direction_pulls_and_debounce() {
    let bus = SimBus::new();
    let mut device = device(&bus);
    for address in [DIR_B, PULL_UP_B, PULL_DOWN_B, DEBOUNCE_ENABLE_B] {
        bus.preset(address, 0b1111_1111);
    }
    let pins = device.split();
    let _input = pins.b6.into_input().ok().unwrap();
    for address in [DIR_B, PULL_UP_B, PULL_DOWN_B, DEBOUNCE_ENABLE_B] {
        assert_eq!(bus.register(address), 0b1011_1111);
    }
}

#[test]
fn output_to_input_clears_a_pull_down_left_from_before() {
    let bus = SimBus::new();
    let mut device = device(&bus);
    let pins = device.split();
    let input = pins.a1.into_input().ok().unwrap();
    let input = input.pulldown().ok().unwrap().debounce_on().ok().unwrap();
    assert!(bit(&bus, PULL_DOWN_A, 1));
    assert!(bit(&bus, DEBOUNCE_ENABLE_A, 1));
    let output = input.into_output().ok().unwrap();
    bus.forget();
    let _input = output.into_input().ok().unwrap();
    assert_eq!(bus.seen().len(), 8);
    assert!(!bit(&bus, DIR_A, 1));
    assert!(!bit(&bus, PULL_UP_A, 1));
    assert!(!bit(&bus, PULL_DOWN_A, 1));
    assert!(!bit(&bus, DEBOUNCE_ENABLE_A, 1));
}

#[test]
fn pulls_are_never_on_together() {
    let bus = SimBus::new();
    let mut device = device(&bus);
    let pins = device.split();
    let both = |bus: &SimBus| bit(bus, PULL_UP_B, 3) && bit(bus, PULL_DOWN_B, 3);

    let floating = pins.b3.into_input().ok().unwrap();
    assert!(!bit(&bus, PULL_UP_B, 3) && !bit(&bus, PULL_DOWN_B, 3));

    let up = floating.pullup().ok().unwrap();
    assert!(bit(&bus, PULL_UP_B, 3) && !bit(&bus, PULL_DOWN_B, 3));

    bus.forget();
    let down = up.pulldown().ok().unwrap();
    assert_eq!(
        bus.seen(),
        vec![
            Seen::WriteRead(0x3E, vec![0x06]),
            Seen::Write(0x3E, vec![0x06, 0b0000_0000]),
            Seen::WriteRead(0x3E, vec![0x08]),
            Seen::Write(0x3E, vec![0x08, 0b0000_1000]),
        ]
    );
    assert!(!bit(&bus, PULL_UP_B, 3) && bit(&bus, PULL_DOWN_B, 3));

    bus.forget();
    let up = down.pullup().ok().unwrap();
    assert_eq!(
        bus.seen(),
        vec![
            Seen::WriteRead(0x3E, vec![0x08]),
            Seen::Write(0x3E, vec![0x08, 0b0000_0000]),
            Seen::WriteRead(0x3E, vec![0x06]),
            Seen::Write(0x3E, vec![0x06, 0b0000_1000]),
        ]
    );
    assert!(bit(&bus, PULL_UP_B, 3) && !bit(&bus, PULL_DOWN_B, 3));

    let floating = up.floating().ok().unwrap();
    assert!(!both(&bus) && !bit(&bus, PULL_UP_B, 3));
    let down = floating.pulldown().ok().unwrap();
    assert!(bit(&bus, PULL_DOWN_B, 3) && !bit(&bus, PULL_UP_B, 3));
    let _floating = down.floating().ok().unwrap();
    assert!(!bit(&bus, PULL_UP_B, 3) && !bit(&bus, PULL_DOWN_B, 3));
}

#[test]
fn a_failed_pull_change_stops_between_the_two_writes() {
    let bus = SimBus::new();
    let mut device = device(&bus);
    let pins = device.split();
    let up = pins.a4.into_input().ok().unwrap().pullup().ok().unwrap();
    bus.forget();
    bus.fail_after(2);
    let failed = up.pulldown();
    assert!(matches!(failed, Err(ModeChange { error: Error::Io(Nack), .. })));
    assert_eq!(bus.seen().len(), 3);
    assert!(!bit(&bus, PULL_UP_A, 4));
    assert!(!bit(&bus, PULL_DOWN_A, 4));
    let up_again = failed.err().unwrap().pin;
    let _floating = up_again.floating().ok().unwrap();
}

#[test]
fn debounce_is_switched_per_pin() {
    let bus = SimBus::new();
    let mut device = device(&bus);
    let pins = device.split();
    let input = pins.b7.into_input().ok().unwrap();
    let input = input.debounce_on().ok().unwrap();
    assert_eq!(bus.register(DEBOUNCE_ENABLE_B), 0b1000_0000);
    let input = input.pullup().ok().unwrap();
    assert_eq!(bus.register(DEBOUNCE_ENABLE_B), 0b1000_0000);
    let _input = input.debounce_off().ok().unwrap();
    assert_eq!(bus.register(DEBOUNCE_ENABLE_B), 0b0000_0000);
}

#[test]
fn debounce_time_is_one_write_for_the_whole_chip() {
    let bus = SimBus::new();
    let mut device = device(&bus);
    assert!(device.set_debounce_time(DebounceTime::Ms16).is_ok());
    assert_eq!(bus.seen(), vec![Seen::Write(0x3E, vec![0x22, 5])]);
    assert_eq!(bus.register(DEBOUNCE_CONFIG), 5);
    assert!(device.set_debounce_time(DebounceTime::Ms0_5).is_ok());
    assert_eq!(bus.register(DEBOUNCE_CONFIG), 0);
    assert!(device.set_debounce_time(DebounceTime::Ms64).is_ok());
    assert_eq!(bus.register(DEBOUNCE_CONFIG), 7);
}

#[test]
fn split_yields_sixteen_unconfigured_pins() {
    let bus = SimBus::new();
    let mut device = device(&bus);
    let pins = device.split();
    assert!(bus.seen().is_empty());
    assert!(pins.a0.into_output().is_ok());
    assert!(pins.a1.into_output().is_ok());
    assert!(pins.a2.into_output().is_ok());
    assert!(pins.a3.into_output().is_ok());
    assert!(pins.a4.into_output().is_ok());
    assert!(pins.a5.into_output().is_ok());
    assert!(pins.a6.into_output().is_ok());
    assert!(pins.a7.into_output().is_ok());
    assert!(pins.b0.into_output().is_ok());
    assert!(pins.b1.into_output().is_ok());
    assert!(pins.b2.into_output().is_ok());
    assert!(pins.b3.into_output().is_ok());
    assert!(pins.b4.into_output().is_ok());
    assert!(pins.b5.into_output().is_ok());
    assert!(pins.b6.into_output().is_ok());
    assert!(pins.b7.into_output().is_ok());
    assert_eq!(bus.register(DIR_A), 0b1111_1111);
    assert_eq!(bus.register(DIR_B), 0b1111_1111);
    let again = device.split();
    assert!(again.a0.into_input().is_ok());
    assert_eq!(bus.register(DIR_A), 0b1111_1110);
}

#[test]
fn a_failed_first_write_hands_the_pin_back() {
    let bus = SimBus::new();
    let mut device = device(&bus);
    let pins = device.split();
    bus.fail_after(1);
    let failed = pins.a6.into_output();
    let failure = match failed {
        Ok(_) => panic!("the write was made to fail"),
        Err(failure) => failure,
    };
    assert!(matches!(failure.error, Error::Io(Nack)));
    assert_eq!(bus.seen().len(), 2);
    assert_eq!(bus.register(DIR_A), 0);
    let input = failure.pin.into_input();
    assert!(input.is_ok());
    assert_eq!(bus.seen().len(), 10);
}

#[test]
fn a_failed_read_hands_the_pin_back() {
    let bus = SimBus::new();
    let mut device = device(&bus);
    let pins = device.split();
    bus.fail_after(0);
    let failure = pins.b2.into_output().err().unwrap();
    assert!(matches!(failure.error, Error::Io(Nack)));
    assert_eq!(bus.seen(), vec![Seen::WriteRead(0x3E, vec![0x0E])]);
    assert!(failure.pin.into_output().is_ok());
    assert!(bit(&bus, DIR_B, 2));
}

#[test]
fn a_failure_skips_the_remaining_writes() {
    let bus = SimBus::new();
    let mut device = device(&bus);
    let pins = device.split();
    bus.preset(PULL_DOWN_A, 0b1111_1111);
    bus.preset(DEBOUNCE_ENABLE_A, 0b1111_1111);
    bus.fail_after(3);
    let failure = pins.a0.into_input().err().unwrap();
    assert!(matches!(failure.error, Error::Io(Nack)));
    assert_eq!(bus.seen().len(), 4);
    assert_eq!(bus.register(PULL_DOWN_A), 0b1111_1111);
    assert_eq!(bus.register(DEBOUNCE_ENABLE_A), 0b1111_1111);
}

#[test]
fn a_busy_bus_fails_at_once_without_a_transaction() {
    let bus = SimBus::new();
    let device: &'static mut Sx1509<SimBus> = Box::leak(Box::new(device(&bus)));
    let pins = device.split();
    let mut first = pins.a0.into_output().ok().unwrap();
    let mut second = Some(pins.b5);
    let mut third = Some(pins.a3.into_input().ok().unwrap());
    bus.forget();

    let verdicts: Rc<RefCell<Vec<bool>>> = Rc::new(RefCell::new(Vec::new()));
    let inner = verdicts.clone();
    let watched = bus.clone();
    bus.on_next_transaction(Box::new(move || {
        let before = watched.seen().len();
        let pin = second.take().unwrap();
        let refused = pin.into_output();
        inner.borrow_mut().push(matches!(
            refused,
            Err(ModeChange { error: Error::BusBusy, .. })
        ));
        let mut input = third.take().unwrap();
        inner.borrow_mut().push(matches!(input.is_high(), Err(Error::BusBusy)));
        inner.borrow_mut().push(matches!(
            input.pullup(),
            Err(ModeChange { error: Error::BusBusy, .. })
        ));
        inner.borrow_mut().push(watched.seen().len() == before);
    }));

    assert!(first.set_high().is_ok());
    assert_eq!(*verdicts.borrow(), vec![true, true, true, true]);
    assert_eq!(
        bus.seen(),
        vec![Seen::WriteRead(0x3E, vec![0x11]), Seen::Write(0x3E, vec![0x11, 0b0000_0001])]
    );
}

#[test]
fn the_guard_is_free_again_after_each_transaction() {
    let bus = SimBus::new();
    let mut device = device(&bus);
    let pins = device.split();
    bus.fail_after(0);
    assert!(pins.a0.into_output().is_err());
    assert!(pins.a1.into_output().is_ok());
    assert!(pins.a2.into_input().is_ok());
}

#[test]
fn interface_sets_and_reads_single_bits() {
    let bus = SimBus::new();
    let interface = Interface::new(spin::Mutex::new(bus.clone()), 0x3F);
    assert!(interface.set_output::<12>().is_ok());
    assert_eq!(bus.register(DIR_B), 0b0001_0000);
    assert!(interface.set_input::<12>().is_ok());
    assert_eq!(bus.register(DIR_B), 0);
    assert!(interface.set_data::<2>(true).is_ok());
    assert_eq!(interface.get_data::<2>().ok(), Some(true));
    assert_eq!(interface.get_data::<3>().ok(), Some(false));
    assert!(interface.set_data::<2>(false).is_ok());
    assert_eq!(interface.get_data::<2>().ok(), Some(false));
    assert!(interface.set_pull_up::<15>(true).is_ok());
    assert_eq!(bus.register(PULL_UP_B), 0b1000_0000);
    assert!(interface.set_pull_down::<0>(true).is_ok());
    assert_eq!(bus.register(PULL_DOWN_A), 0b0000_0001);
    assert!(interface.set_open_drain::<8>(true).is_ok());
    assert_eq!(bus.register(OPEN_DRAIN_B), 0b0000_0001);
    assert!(interface.set_debounce_enable::<7>(true).is_ok());
    assert_eq!(bus.register(DEBOUNCE_ENABLE_A), 0b1000_0000);
    assert!(interface.set_debounce_time(DebounceTime::Ms4).is_ok());
    assert_eq!(bus.register(DEBOUNCE_CONFIG), 3);
    assert!(bus.seen().iter().all(|seen| match seen {
        Seen::Write(address, _) => *address == 0x3F,
        Seen::WriteRead(address, _) => *address == 0x3F,
    }));
}

#[test]
fn interface_applies_steps_in_order_and_none_for_none() {
    let bus = SimBus::new();
    let interface = Interface::new(spin::Mutex::new(bus.clone()), ADDRESS);
    assert!(interface.apply::<4>(&[]).is_ok());
    assert!(bus.seen().is_empty());
    assert!(interface.apply::<4>(&sx1509::steps::output()).is_ok());
    assert_eq!(bus.seen().len(), 4);
    assert_eq!(bus.register(DIR_A), 0b0001_0000);
}

#[test]
fn interface_reports_a_failed_transaction_as_io() {
    let bus = SimBus::new();
    let interface = Interface::new(spin::Mutex::new(bus.clone()), ADDRESS);
    bus.fail_after(0);
    assert!(matches!(interface.get_data::<1>(), Err(Error::Io(Nack))));
    bus.fail_after(1);
    assert!(matches!(interface.set_data::<1>(true), Err(Error::Io(Nack))));
    assert_eq!(bus.register(DATA_A), 0);
}

#[test]
fn bus_results_become_driver_results() {
    assert!(matches!(Error::from_bus(Ok::<u8, Nack>(7)), Ok(7)));
    assert!(matches!(Error::from_bus(Err::<u8, Nack>(Nack)), Err(Error::Io(Nack))));
}

#[test]
fn settle_keeps_the_pin_on_failure() {
    let done: Result<&str, ModeChange<Nack, u8>> = ModeChange::settle(Ok(()), 4u8, "next");
    assert!(matches!(done, Ok("next")));
    let failed: Result<&str, ModeChange<Nack, u8>> = ModeChange::settle(Err(Nack), 4u8, "next");
    assert!(matches!(failed, Err(ModeChange { error: Nack, pin: 4 })));
}

#[test]
fn opposite_turns_a_level_and_keeps_an_error() {
    assert_eq!(opposite::<Nack>(Ok(true)), Ok(false));
    assert_eq!(opposite::<Nack>(Ok(false)), Ok(true));
    assert_eq!(opposite(Err(Nack)), Err(Nack));
}
