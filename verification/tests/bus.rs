use std::cell::RefCell;
use std::rc::Rc;

use stm32l0_tsc::config::Config;
use stm32l0_tsc::pin::TscPin;
use stm32l0_tsc::registers::{ClockDomain, RegisterBlock, TscState};
use stm32l0_tsc::tsc::{Error, Event, Tsc};

/// One access to a register, as the bus saw it.
#[derive(Clone, Copy, Debug, PartialEq, Eq)]
enum Access {
    Read(&'static str),
    Write(&'static str, u32),
    ReadCounter(u8),
    ClockOn,
    ResetOn,
    ResetOff,
    PinSetup(u8),
}

/// The unit behind the bus. A test keeps a handle of its own and plays the
/// silicon through it while the driver holds the register block.
#[derive(Default)]
struct Unit {
    control: u32,
    interrupt_enable: u32,
    status: u32,
    hysteresis: u32,
    sampling: u32,
    channels: u32,
    groups: u32,
    counters: [u32; 8],
    /// What the status register shows at the coming reads, first to last;
    /// each word is raised on top of what is pending.
    script: Vec<u32>,
    log: Vec<Access>,
}

#[derive(Clone)]
struct Bus(Rc<RefCell<Unit>>);

impl Bus {
    fn new() -> Bus {
        Bus(Rc::new(RefCell::new(Unit::default())))
    }

    fn log(&self) -> Vec<Access> {
        self.0.borrow().log.clone()
    }

    fn forget(&self) {
        self.0.borrow_mut().log.clear();
    }
}

impl RegisterBlock for Bus {
    // Ghost: the state of the unit exists in proofs only.
    fn view(&self) -> TscState {
        unreachable!()
    }

    fn read_control(&self) -> u32 {
        let mut unit = self.0.borrow_mut();
        unit.log.push(Access::Read("cr"));
        unit.control
    }

    fn write_control(&mut self, value: u32) {
        let mut unit = self.0.borrow_mut();
        unit.log.push(Access::Write("cr", value));
        unit.control = value;
    }

    fn read_interrupt_enable(&self) -> u32 {
        let mut unit = self.0.borrow_mut();
        unit.log.push(Access::Read("ier"));
        unit.interrupt_enable
    }

    fn write_interrupt_enable(&mut self, value: u32) {
        let mut unit = self.0.borrow_mut();
        unit.log.push(Access::Write("ier", value));
        unit.interrupt_enable = value;
    }

    fn write_interrupt_clear(&mut self, value: u32) {
        let mut unit = self.0.borrow_mut();
        unit.log.push(Access::Write("icr", value));
        unit.status &= !value;
    }

    fn read_status(&mut self) -> u32 {
        let mut unit = self.0.borrow_mut();
        unit.log.push(Access::Read("isr"));
        if unit.control & 0x3 == 0x3 && !unit.script.is_empty() {
            let raised = unit.script.remove(0);
            unit.status |= raised;
            if raised != 0 {
                unit.control &= !0x2;
            }
        }
        unit.status
    }

    fn read_hysteresis(&self) -> u32 {
        let mut unit = self.0.borrow_mut();
        unit.log.push(Access::Read("iohcr"));
        unit.hysteresis
    }

    fn write_hysteresis(&mut self, value: u32) {
        let mut unit = self.0.borrow_mut();
        unit.log.push(Access::Write("iohcr", value));
        unit.hysteresis = value;
    }

    fn read_sampling(&self) -> u32 {
        let mut unit = self.0.borrow_mut();
        unit.log.push(Access::Read("ioscr"));
        unit.sampling
    }

    fn write_sampling(&mut self, value: u32) {
        let mut unit = self.0.borrow_mut();
        unit.log.push(Access::Write("ioscr", value));
        unit.sampling = value;
    }

    fn read_channels(&self) -> u32 {
        let mut unit = self.0.borrow_mut();
        unit.log.push(Access::Read("ioccr"));
        unit.channels
    }

    fn write_channels(&mut self, value: u32) {
        let mut unit = self.0.borrow_mut();
        unit.log.push(Access::Write("ioccr", value));
        unit.channels = value;
    }

    fn read_groups(&self) -> u32 {
        let mut unit = self.0.borrow_mut();
        unit.log.push(Access::Read("iogcsr"));
        unit.groups
    }

    fn write_groups(&mut self, value: u32) {
        let mut unit = self.0.borrow_mut();
        unit.log.push(Access::Write("iogcsr", value));
        unit.groups = value;
    }

    fn read_counter(&self, group: u8) -> u32 {
        let mut unit = self.0.borrow_mut();
        unit.log.push(Access::ReadCounter(group));
        unit.counters[group as usize - 1]
    }
}

impl ClockDomain<Bus> for Bus {
    // Ghost.
    fn clock_enabled(&self) -> bool {
        unreachable!()
    }

    // Ghost.
    fn reset_asserted(&self) -> bool {
        unreachable!()
    }

    fn enable_clock(&mut self) {
        self.0.borrow_mut().log.push(Access::ClockOn);
    }

    fn assert_reset(&mut self, _unit: &mut Bus) {
        let mut unit = self.0.borrow_mut();
        unit.log.push(Access::ResetOn);
        unit.control = 0;
        unit.interrupt_enable = 0;
        unit.status = 0;
        unit.hysteresis = 0xffff_ffff;
        unit.sampling = 0;
        unit.channels = 0;
        unit.groups = 0;
        unit.counters = [0; 8];
    }

    fn release_reset(&mut self) {
        self.0.borrow_mut().log.push(Access::ResetOff);
    }
}

/// Place 3 of group 1 on the same bus: bit 2.
struct G1Io3(Bus);

impl TscPin for G1Io3 {
    const GROUP: u8 = 1;
    const OFFSET: u8 = 3;
    const REDUCED_SENSITIVITY: bool = false;

    // Ghost.
    fn is_setup(&self) -> bool {
        unreachable!()
    }

    // Ghost: the constants above name a place of the unit.
    fn lemma_mapping() {}

    fn setup(&mut self) {
        (self.0).0.borrow_mut().log.push(Access::PinSetup(2));
    }
}

/// Place 4 of group 8 on the same bus: bit 31.
struct G8Io4(Bus);

impl TscPin for G8Io4 {
    const GROUP: u8 = 8;
    const OFFSET: u8 = 4;
    const REDUCED_SENSITIVITY: bool = false;

    // Ghost.
    fn is_setup(&self) -> bool {
        unreachable!()
    }

    // Ghost: the constants above name a place of the unit.
    fn lemma_mapping() {}

    fn setup(&mut self) {
        (self.0).0.borrow_mut().log.push(Access::PinSetup(31));
    }
}

fn driver(bus: &Bus) -> Tsc<Bus> {
    let mut rcc = bus.clone();
    let tsc = Tsc::tsc(bus.clone(), &mut rcc, None);
    bus.forget();
    tsc
}

#[test]
fn construction_in_order() {
    let bus = Bus::new();
    bus.0.borrow_mut().channels = 0xdead_beef;
    let mut rcc = bus.clone();
    let _tsc = Tsc::tsc(bus.clone(), &mut rcc, None);
    assert_eq!(
        bus.log(),
        vec![
            Access::ClockOn,
            Access::ResetOn,
            Access::ResetOff,
            Access::Write("cr", 0x1121_40a1),
            Access::Write("icr", 3),
        ]
    );
    assert_eq!(bus.0.borrow().channels, 0);
}

#[test]
fn construction_with_an_empty_configuration_is_the_default() {
    let bus = Bus::new();
    let mut rcc = bus.clone();
    let config = Config {
        clock_prescale: None,
        max_count: None,
        charge_transfer_high: None,
        charge_transfer_low: None,
    };
    let _tsc = Tsc::tsc(bus.clone(), &mut rcc, Some(config));
    assert_eq!(bus.0.borrow().control, 0x1121_40a1);
}

#[test]
fn sample_group_reads_then_writes_each_register() {
    let bus = Bus::new();
    let mut tsc = driver(&bus);
    bus.0.borrow_mut().hysteresis = 0x0000_0100;
    bus.0.borrow_mut().sampling = 0x0000_0200;
    bus.0.borrow_mut().groups = 0x0000_0080;
    let mut pin = G1Io3(bus.clone());
    tsc.setup_sample_group(&mut pin);
    assert_eq!(
        bus.log(),
        vec![
            Access::PinSetup(2),
            Access::Read("iohcr"),
            Access::Write("iohcr", 0x0000_0104),
            Access::Read("ioscr"),
            Access::Write("ioscr", 0x0000_0204),
            Access::Read("iogcsr"),
            Access::Write("iogcsr", 0x0000_0081),
        ]
    );
}

#[test]
fn sample_group_of_the_last_place() {
    let bus = Bus::new();
    let mut tsc = driver(&bus);
    bus.0.borrow_mut().hysteresis = 0;
    let mut pin = G8Io4(bus.clone());
    tsc.setup_sample_group(&mut pin);
    assert_eq!(bus.0.borrow().hysteresis, 0x8000_0000);
    assert_eq!(bus.0.borrow().sampling, 0x8000_0000);
    assert_eq!(bus.0.borrow().groups, 0x80);
}

#[test]
fn enable_channel_sets_up_the_pin_and_ors_its_bit() {
    let bus = Bus::new();
    let mut tsc = driver(&bus);
    bus.0.borrow_mut().channels = 0x10;
    let mut pin = G1Io3(bus.clone());
    tsc.enable_channel(&mut pin);
    assert_eq!(
        bus.log(),
        vec![Access::PinSetup(2), Access::Read("ioccr"), Access::Write("ioccr", 0x14)]
    );
}

#[test]
fn disable_channel_clears_its_bit_only() {
    let bus = Bus::new();
    let mut tsc = driver(&bus);
    bus.0.borrow_mut().channels = 0xffff_ffff;
    let mut pin = G8Io4(bus.clone());
    tsc.disable_channel(&mut pin);
    assert_eq!(
        bus.log(),
        vec![Access::Read("ioccr"), Access::Write("ioccr", 0x7fff_ffff)]
    );
}

#[test]
fn clear_writes_the_bit_of_the_event() {
    let bus = Bus::new();
    let mut tsc = driver(&bus);
    tsc.clear(Event::EndOfAcquisition);
    tsc.clear(Event::MaxCountError);
    assert_eq!(bus.log(), vec![Access::Write("icr", 1), Access::Write("icr", 2)]);
}

#[test]
fn start_clears_both_flags_releases_the_ios_and_starts() {
    let bus = Bus::new();
    let mut tsc = driver(&bus);
    bus.0.borrow_mut().status = 3;
    bus.0.borrow_mut().control = 0x1121_40b1;
    tsc.start();
    assert_eq!(
        bus.log(),
        vec![
            Access::Write("icr", 1),
            Access::Write("icr", 2),
            Access::Read("cr"),
            Access::Write("cr", 0x1121_40a1),
            Access::Read("cr"),
            Access::Write("cr", 0x1121_40a3),
        ]
    );
    assert_eq!(bus.0.borrow().status, 0);
}

#[test]
fn check_event_reads_the_status_once() {
    let bus = Bus::new();
    let mut tsc = driver(&bus);
    bus.0.borrow_mut().status = 3;
    assert_eq!(tsc.check_event(), Some(Event::EndOfAcquisition));
    bus.0.borrow_mut().status = 2;
    assert_eq!(tsc.check_event(), Some(Event::MaxCountError));
    bus.0.borrow_mut().status = 0;
    assert_eq!(tsc.check_event(), None);
    assert_eq!(
        bus.log(),
        vec![Access::Read("isr"), Access::Read("isr"), Access::Read("isr")]
    );
    assert_eq!(bus.0.borrow().status, 0);
}

#[test]
fn check_event_does_not_clear() {
    let bus = Bus::new();
    let mut tsc = driver(&bus);
    bus.0.borrow_mut().status = 1;
    assert_eq!(tsc.check_event(), Some(Event::EndOfAcquisition));
    assert_eq!(bus.0.borrow().status, 1);
}

#[test]
fn acquire_polls_until_the_max_count_error() {
    let bus = Bus::new();
    let mut tsc = driver(&bus);
    bus.0.borrow_mut().script = vec![0, 0, 2];
    assert_eq!(tsc.acquire(), Err(Error::MaxCountError));
    assert_eq!(
        bus.log(),
        vec![
            Access::Write("icr", 1),
            Access::Write("icr", 2),
            Access::Read("cr"),
            Access::Write("cr", 0x1121_40a1),
            Access::Read("cr"),
            Access::Write("cr", 0x1121_40a3),
            Access::Read("isr"),
            Access::Read("isr"),
            Access::Read("isr"),
            Access::Write("icr", 2),
        ]
    );
    assert_eq!(bus.0.borrow().status & 2, 0);
    assert_eq!(bus.0.borrow().status, 0);
}

#[test]
fn acquire_polls_until_the_end_of_acquisition() {
    let bus = Bus::new();
    let mut tsc = driver(&bus);
    bus.0.borrow_mut().status = 3;
    bus.0.borrow_mut().script = vec![0, 1];
    assert_eq!(tsc.acquire(), Ok(()));
    let log = bus.log();
    assert_eq!(log.len(), 9);
    assert_eq!(log[6], Access::Read("isr"));
    assert_eq!(log[7], Access::Read("isr"));
    assert_eq!(log[8], Access::Write("icr", 1));
    assert_eq!(bus.0.borrow().status, 0);
}

#[test]
fn read_checks_the_channel_before_the_counter() {
    let bus = Bus::new();
    let tsc = driver(&bus);
    bus.0.borrow_mut().channels = 0x8000_0000;
    bus.0.borrow_mut().counters = [1, 2, 3, 4, 5, 6, 7, 0xffff_c123];
    let mut armed = G8Io4(bus.clone());
    let mut idle = G1Io3(bus.clone());
    assert_eq!(tsc.read(&mut armed), Ok(0x0123));
    assert_eq!(tsc.read(&mut idle), Err(Error::InvalidPin));
    assert_eq!(
        bus.log(),
        vec![Access::Read("ioccr"), Access::ReadCounter(8), Access::Read("ioccr")]
    );
}

#[test]
fn read_unchecked_outside_the_groups_reads_nothing() {
    let bus = Bus::new();
    let tsc = driver(&bus);
    bus.0.borrow_mut().counters = [9; 8];
    assert_eq!(tsc.read_unchecked(0), 0);
    assert_eq!(tsc.read_unchecked(9), 0);
    assert_eq!(tsc.read_unchecked(200), 0);
    assert_eq!(bus.log(), vec![]);
    assert_eq!(tsc.read_unchecked(1), 9);
    assert_eq!(tsc.read_unchecked(8), 9);
    assert_eq!(bus.log(), vec![Access::ReadCounter(1), Access::ReadCounter(8)]);
}

#[test]
fn listen_and_unlisten_touch_one_bit() {
    let bus = Bus::new();
    let mut tsc = driver(&bus);
    bus.0.borrow_mut().interrupt_enable = 0xf0;
    tsc.listen(Event::EndOfAcquisition);
    tsc.listen(Event::MaxCountError);
    tsc.unlisten(Event::EndOfAcquisition);
    tsc.unlisten(Event::MaxCountError);
    assert_eq!(
        bus.log(),
        vec![
            Access::Read("ier"),
            Access::Write("ier", 0xf1),
            Access::Read("ier"),
            Access::Write("ier", 0xf3),
            Access::Read("ier"),
            Access::Write("ier", 0xf2),
            Access::Read("ier"),
            Access::Write("ier", 0xf0),
        ]
    );
}

#[test]
fn free_touches_nothing() {
    let bus = Bus::new();
    let mut tsc = driver(&bus);
    tsc.start();
    bus.forget();
    let _bus = tsc.free();
    assert_eq!(bus.log(), vec![]);
    assert_eq!(bus.0.borrow().control, 0x1121_40a3);
}

#[test]
fn is_enabled_reads_the_enable_bit() {
    let bus = Bus::new();
    let tsc = driver(&bus);
    assert!(tsc.is_enabled());
    bus.0.borrow_mut().control = 0xffff_fffe;
    assert!(!tsc.is_enabled());
    assert_eq!(bus.log(), vec![Access::Read("cr"), Access::Read("cr")]);
}
