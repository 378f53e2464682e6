use stm32l1xx_hal::i2c::{EventDriven, I2c, I2cExt, Pins, Registers, DEFAULT_TIMEOUT};
use stm32l1xx_hal::protocol::{Error, MasterStatus, Status};
use stm32l1xx_hal::rcc::{Config, MSIRange};
use stm32l1xx_hal::time::Hertz;
use stm32l1xx_hal::timing::{ConfigError, DutyMode, FastDuty, TimingConfig};
use stm32l1xx_hal::transaction::Transaction;

#[derive(Debug, Clone, PartialEq)]
enum Op {
    PowerUp,
    Enable(bool),
    Timing(TimingConfig),
    Start(bool),
    Stop,
    Data(u8),
    Irqs(bool),
}

/// A peripheral that answers every poll at once, unless told otherwise.
#[derive(Default)]
struct SimBus {
    ops: Vec<Op>,
    status_reads: usize,
    never_start: bool,
    nack_after_address: bool,
    address_done: bool,
    incoming: Vec<u8>,
    next_in: usize,
    arbitration_lost_from_read: Option<usize>,
    master_reads: usize,
}

impl Registers for SimBus {
    fn power_up(&mut self) {
        self.ops.push(Op::PowerUp);
    }
    fn set_enabled(&mut self, on: bool) {
        self.ops.push(Op::Enable(on));
    }
    fn write_timing(&mut self, timing: TimingConfig) {
        self.ops.push(Op::Timing(timing));
    }
    fn read_status(&mut self) -> Status {
        self.status_reads += 1;
        let ready = !self.never_start;
        Status {
            start_bit: ready,
            address_sent: ready,
            byte_transferred: ready,
            tx_empty: ready,
            rx_not_empty: ready,
            acknowledge_failure: self.nack_after_address && self.address_done,
            overrun: false,
            arbitration_lost: self.arbitration_lost_from_read.map_or(false, |n| self.status_reads >= n),
            bus_error: false,
            timeout: false,
        }
    }
    fn read_master_status(&mut self) -> MasterStatus {
        self.master_reads += 1;
        if self.ops.iter().filter(|o| matches!(o, Op::Data(_))).count() > 0 {
            self.address_done = true;
        }
        MasterStatus { master: true, busy: true }
    }
    fn write_data(&mut self, byte: u8) {
        self.ops.push(Op::Data(byte));
    }
    fn read_data(&mut self) -> u8 {
        let b = self.incoming[self.next_in];
        self.next_in += 1;
        b
    }
    fn start(&mut self, ack: bool) {
        self.ops.push(Op::Start(ack));
    }
    fn stop(&mut self) {
        self.ops.push(Op::Stop);
    }
    fn set_interrupts(&mut self, on: bool) {
        self.ops.push(Op::Irqs(on));
    }
}

struct SimPins {
    set_up: std::cell::Cell<bool>,
}

impl Pins<SimBus> for SimPins {
    fn setup(&self) {
        self.set_up.set(true);
    }
    fn reset(&self) {
        self.set_up.set(false);
    }
}

fn pins() -> SimPins {
    SimPins { set_up: std::cell::Cell::new(false) }
}

fn bus(sim: SimBus) -> I2c<SimBus, SimPins> {
    match I2c::new(sim, pins(), Hertz(100_000), FastDuty::Ratio2to1, Hertz(8_000_000)) {
        Ok(b) => b,
        Err(_) => panic!("8 MHz is in range"),
    }
}

#[test]
fn open_programs_timing_and_release_restores_pins() {
    let i2c = bus(SimBus::default());
    assert_eq!(i2c.timeout, DEFAULT_TIMEOUT);
    assert!(!i2c.is_transaction());
    let (sim, pins) = i2c.release();
    assert!(!pins.set_up.get());
    assert_eq!(
        sim.ops,
        vec![
            Op::PowerUp,
            Op::Enable(false),
            Op::Timing(TimingConfig { prescale: 8, rise_time: 9, divisor: 40, duty: DutyMode::Standard }),
            Op::Enable(true),
        ]
    );
}

#[test]
fn open_rejects_slow_clock_without_touching_hardware() {
    let p = pins();
    let r = I2c::new(SimBus::default(), p, Hertz(100_000), FastDuty::Ratio2to1, Hertz(1_000_000));
    assert!(matches!(r, Err(ConfigError::InputClockOutOfRange)));
}

#[test]
fn open_through_clock_configuration() {
    let clocks = Config::hsi().clocks().unwrap();
    let i2c = SimBus::default().i2c(pins(), Hertz(400_000), &clocks).unwrap();
    let (sim, _) = i2c.release();
    assert_eq!(
        sim.ops[2],
        Op::Timing(TimingConfig { prescale: 16, rise_time: 5, divisor: 13, duty: DutyMode::Fast2to1 })
    );
    let slow = Config::msi(MSIRange::Range4).clocks().unwrap();
    assert!(matches!(SimBus::default().i2c(pins(), Hertz(100_000), &slow), Err(ConfigError::InputClockOutOfRange)));
}

#[test]
fn blocking_write_on_acknowledging_bus() {
    let mut i2c = bus(SimBus::default());
    assert_eq!(i2c.write(0x3C, &[0x10, 0x20]), Ok(()));
    assert!(!i2c.is_transaction());
    let (sim, _) = i2c.release();
    // One status read per awaited event, the master wait included.
    assert_eq!(sim.status_reads, 3 + 2 * 2);
    assert_eq!(sim.ops[4..], [Op::Start(false), Op::Data(0x78), Op::Data(0x10), Op::Data(0x20), Op::Stop]);
}

#[test]
fn event_driven_write_takes_three_plus_two_per_byte_transitions() {
    let n = 4usize;
    let mut i2c = bus(SimBus::default());
    assert_eq!(i2c.start_transaction(Transaction::write(0x11, &[1, 2, 3, 4])), Ok(()));
    let mut transitions = 0usize;
    loop {
        match i2c.check_event() {
            Ok(false) => transitions += 1,
            Ok(true) => {
                transitions += 1;
                break;
            }
            Err(e) => panic!("unexpected {:?}", e),
        }
    }
    assert_eq!(transitions, 3 + 2 * n);
    assert_eq!(i2c.check_event(), Err(Error::WouldBlock));
    let t = i2c.finish_transaction().unwrap();
    assert!(t.is_finish());
    assert!(!i2c.is_transaction());
    assert_eq!(i2c.finish_transaction().err(), Some(Error::InvalidState));
}

#[test]
fn check_events_runs_to_the_end() {
    let mut i2c = bus(SimBus::default());
    i2c.start_transaction(Transaction::write(0x11, &[9])).unwrap();
    assert_eq!(i2c.check_events(), Ok(true));
    assert_eq!(i2c.check_events(), Ok(true));
    assert!(i2c.is_transaction());
    let (sim, _) = i2c.release();
    assert_eq!(sim.ops[4..], [Op::Start(false), Op::Data(0x22), Op::Data(9), Op::Stop]);
}

#[test]
fn blocking_wait_times_out_after_budget() {
    let mut i2c = bus(SimBus { never_start: true, ..SimBus::default() });
    i2c.timeout = 25;
    assert_eq!(i2c.write(0x11, &[1]), Err(Error::Timeout));
    assert!(i2c.is_transaction());
    let (sim, _) = i2c.release();
    assert_eq!(sim.status_reads, 25);
}

#[test]
fn blocking_wait_with_zero_budget_polls_once() {
    let mut i2c = bus(SimBus { never_start: true, ..SimBus::default() });
    i2c.timeout = 0;
    assert_eq!(i2c.read(0x11, &mut [0u8; 2]), Err(Error::Timeout));
    let (sim, _) = i2c.release();
    assert_eq!(sim.status_reads, 1);
}

#[test]
fn nack_after_address_keeps_transaction() {
    let mut i2c = bus(SimBus { nack_after_address: true, ..SimBus::default() });
    i2c.start_transaction(Transaction::write(0x11, &[1, 2])).unwrap();
    assert_eq!(i2c.check_event(), Ok(false));
    assert_eq!(i2c.check_event(), Ok(false));
    assert_eq!(i2c.check_event(), Ok(false));
    assert_eq!(i2c.check_event(), Err(Error::NotAcknowledged));
    assert_eq!(i2c.check_event(), Err(Error::NotAcknowledged));
    let t = i2c.finish_transaction().unwrap();
    assert_eq!(t.addr(), 0x11);
    assert!(t.need_sending());
}

#[test]
fn blocking_nack_keeps_transaction() {
    let mut i2c = bus(SimBus { nack_after_address: true, ..SimBus::default() });
    assert_eq!(i2c.write(0x11, &[1, 2]), Err(Error::NotAcknowledged));
    assert!(i2c.is_transaction());
    let t = i2c.finish_transaction().unwrap();
    assert!(t.need_sending());
}

#[test]
fn blocking_read_fills_buffer() {
    let mut i2c = bus(SimBus { incoming: vec![4, 5, 6], ..SimBus::default() });
    let mut buf = [0u8; 3];
    assert_eq!(i2c.read(0x48, &mut buf), Ok(()));
    assert_eq!(buf, [4, 5, 6]);
    assert!(!i2c.is_transaction());
    let (sim, _) = i2c.release();
    assert_eq!(sim.ops[4..], [Op::Start(true), Op::Data(0x91), Op::Stop]);
}

#[test]
fn blocking_write_read_restarts_for_the_read() {
    let mut i2c = bus(SimBus { incoming: vec![0xAB, 0xCD], ..SimBus::default() });
    let mut rx = [0u8; 2];
    assert_eq!(i2c.write_read(0x48, &[0x01], &mut rx), Ok(()));
    assert_eq!(rx, [0xAB, 0xCD]);
    let (sim, _) = i2c.release();
    assert_eq!(
        sim.ops[4..],
        [Op::Start(false), Op::Data(0x90), Op::Data(0x01), Op::Start(true), Op::Data(0x91), Op::Stop]
    );
}

#[test]
fn empty_transactions_are_invalid() {
    let mut i2c = bus(SimBus::default());
    assert_eq!(i2c.write(0x11, &[]), Err(Error::InvalidState));
    assert_eq!(i2c.read(0x11, &mut []), Err(Error::InvalidState));
    assert_eq!(i2c.start_transaction(Transaction::read(0x11, vec![])), Err(Error::InvalidState));
}

#[test]
fn check_event_needs_an_event_driven_transaction() {
    let mut i2c = bus(SimBus::default());
    assert_eq!(i2c.check_event(), Err(Error::InvalidState));
    let mut i2c = bus(SimBus { never_start: true, ..SimBus::default() });
    i2c.timeout = 3;
    assert_eq!(i2c.write(0x11, &[1]), Err(Error::Timeout));
    assert_eq!(i2c.check_event(), Err(Error::InvalidState));
}

#[test]
fn check_event_would_block_until_flag_sets() {
    let mut i2c = bus(SimBus { never_start: true, ..SimBus::default() });
    i2c.start_transaction(Transaction::write(0x11, &[1])).unwrap();
    assert_eq!(i2c.check_event(), Err(Error::WouldBlock));
    assert!(i2c.is_transaction());
}

#[test]
fn check_events_keeps_looking_within_budget() {
    let mut i2c = bus(SimBus { never_start: true, ..SimBus::default() });
    i2c.timeout = 7;
    i2c.start_transaction(Transaction::write(0x11, &[1])).unwrap();
    assert_eq!(i2c.check_events(), Err(Error::Timeout));
    assert!(i2c.is_transaction());
    let (sim, _) = i2c.release();
    assert_eq!(sim.status_reads, 7);
    assert_eq!(sim.ops[4..], [Op::Start(false)]);
}

#[test]
fn check_events_needs_an_event_driven_transaction() {
    let mut i2c = bus(SimBus::default());
    assert_eq!(i2c.check_events(), Err(Error::InvalidState));
    let mut i2c = bus(SimBus { never_start: true, ..SimBus::default() });
    i2c.timeout = 3;
    assert_eq!(i2c.write(0x11, &[1]), Err(Error::Timeout));
    assert_eq!(i2c.check_events(), Err(Error::InvalidState));
    let (sim, _) = i2c.release();
    assert_eq!(sim.status_reads, 3);
}

#[test]
fn check_events_nack_after_address() {
    let mut i2c = bus(SimBus { nack_after_address: true, ..SimBus::default() });
    i2c.start_transaction(Transaction::write(0x11, &[1, 2])).unwrap();
    assert_eq!(i2c.check_events(), Err(Error::NotAcknowledged));
    let t = i2c.finish_transaction().unwrap();
    assert!(t.need_sending());
    assert_eq!(t.addr(), 0x11);
}

#[test]
fn event_handler_rejects_unawaited_event() {
    let mut i2c = bus(SimBus::default());
    i2c.start_transaction(Transaction::write(0x11, &[1])).unwrap();
    assert_eq!(i2c.event_handler(stm32l1xx_hal::protocol::Event::Sent), Err(Error::InvalidState));
    assert_eq!(i2c.event_handler(stm32l1xx_hal::protocol::Event::Started), Ok(false));
}

#[test]
fn irq_toggles() {
    let mut i2c = bus(SimBus::default());
    i2c.enable_irqs();
    i2c.disable_irqs();
    let (sim, _) = i2c.release();
    assert_eq!(sim.ops[4..], [Op::Irqs(true), Op::Irqs(false)]);
}

#[test]
fn event_driven_write_read_restarts_then_receives() {
    let mut i2c = bus(SimBus { incoming: vec![0x5A, 0x5B, 0x5C], ..SimBus::default() });
    i2c.start_transaction(Transaction::write_read(0x30, &[0x01, 0x02], vec![0u8; 3])).unwrap();
    let mut transitions = 0usize;
    loop {
        match i2c.check_event() {
            Ok(false) => transitions += 1,
            Ok(true) => {
                transitions += 1;
                break;
            }
            Err(e) => panic!("unexpected {:?}", e),
        }
    }
    // Write phase: 3 + 2 per byte, its last `Sent` asking for a new start;
    // read phase: 3 + 1 per byte.
    assert_eq!(transitions, (3 + 2 * 2) + (3 + 3));
    let t = i2c.finish_transaction().unwrap();
    assert_eq!(t.received(), &[0x5A, 0x5B, 0x5C]);
    let (sim, _) = i2c.release();
    assert_eq!(
        sim.ops[4..],
        [Op::Start(false), Op::Data(0x60), Op::Data(0x01), Op::Data(0x02), Op::Start(true), Op::Data(0x61), Op::Stop]
    );
}

#[test]
fn master_wait_checks_error_flags() {
    let mut i2c = bus(SimBus { arbitration_lost_from_read: Some(2), ..SimBus::default() });
    i2c.start_transaction(Transaction::write(0x11, &[1])).unwrap();
    assert_eq!(i2c.check_events(), Err(Error::ArbitrationLost));
    assert!(i2c.is_transaction());
    let (sim, _) = i2c.release();
    assert_eq!(sim.status_reads, 2);
    assert_eq!(sim.master_reads, 0);
    assert_eq!(sim.ops[4..], [Op::Start(false)]);
}

#[test]
fn event_driven_read_through_check_events() {
    let mut i2c = bus(SimBus { incoming: vec![1, 2, 3, 4], ..SimBus::default() });
    i2c.start_transaction(Transaction::read(0x40, vec![0u8; 4])).unwrap();
    assert_eq!(i2c.check_events(), Ok(true));
    let t = i2c.finish_transaction().unwrap();
    assert_eq!(t.received(), &[1, 2, 3, 4]);
    let (sim, _) = i2c.release();
    assert_eq!(sim.ops[4..], [Op::Start(true), Op::Data(0x81), Op::Stop]);
    assert_eq!(sim.status_reads, 3 + 4);
}
