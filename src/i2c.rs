//! The bus master: owns the peripheral and its pins and runs the protocol
//! state machine, either to completion (blocking) or one event per poll.
use vstd::prelude::*;
use vstd::slice::slice_to_vec;
use crate::protocol::{
    Command, Error, Event, Machine, MachineView, MasterStatus, State, Status, event_flag, spec_address_byte,
    lemma_transition_consistent, lemma_transition_progress, master_ready, progress,
    spec_event_flag, spec_master_ready, spec_status_error, status_error,
};
use crate::rcc::Clocks;
use crate::time::Hertz;
use crate::timing::{clock_in_range, spec_timing, ConfigError, FastDuty, TimingConfig};
use crate::transaction::{Direction, Transaction, TransactionView, read_view, write_view};

verus! {

/// Spin iterations a blocking wait may take before it gives up.
pub const DEFAULT_TIMEOUT: usize = 1_000_000;

/// Access to one bus peripheral's registers.
///
/// Nothing is assumed of what the reads return: every contract of the
/// controller holds whatever the hardware answers.
pub trait Registers {
    /// Enables the peripheral's clock and pulses its reset line.
    fn power_up(&mut self);

    /// Sets or clears the peripheral-enable bit.
    fn set_enabled(&mut self, on: bool);

    /// Writes the prescale, rise-time and clock-control registers.
    fn write_timing(&mut self, timing: TimingConfig);

    /// Reads the first status register.
    fn read_status(&mut self) -> Status;

    /// Reads the second status register; the read also clears the
    /// address-sent condition.
    fn read_master_status(&mut self) -> MasterStatus;

    fn write_data(&mut self, byte: u8);

    fn read_data(&mut self) -> u8;

    /// Requests a start condition; with `ack`, also sets acknowledge-enable.
    fn start(&mut self, ack: bool);

    /// Requests a stop condition.
    fn stop(&mut self);

    /// Sets or clears the event, buffer and error interrupt enables.
    fn set_interrupts(&mut self, on: bool);
}

/// A clock and a data line that can serve the peripheral `I2C`.
pub trait Pins<I2C> {
    /// Puts both lines in the bus's open-drain alternate function.
    fn setup(&self);

    /// Returns both lines to their default mode.
    fn reset(&self);
}

/// Bus master over the peripheral `I2C` and its pins `PINS`.
pub struct I2c<I2C, PINS> {
    i2c: I2C,
    pins: PINS,
    /// Spin iterations a blocking wait may take before it gives up.
    pub timeout: usize,
    event_driven: bool,
    machine: Machine,
    /// Every register access so far, with what each read returned.
    ops: Ghost<Seq<RegOp>>,
}

/// One access to the peripheral's registers, as the controller made it.
pub enum RegOp {
    PowerUp,
    Enable(bool),
    Timing(TimingConfig),
    /// A read of the first status register, and what it returned.
    ReadStatus(Status),
    /// A read of the second status register, and what it returned.
    ReadMasterStatus(MasterStatus),
    /// The read of the second status register that clears the address
    /// condition.
    ClearAddress,
    /// A read of the data register, and the byte it returned.
    ReadData(u8),
    WriteData(u8),
    Start(bool),
    Stop,
    Interrupts(bool),
}

/// The register accesses that carry out a command.
pub open spec fn command_ops(c: Command) -> Seq<RegOp> {
    match c {
        Command::Nothing => Seq::empty(),
        Command::Start { ack } => seq![RegOp::Start(ack)],
        Command::Stop => seq![RegOp::Stop],
        Command::WriteData(b) => seq![RegOp::WriteData(b)],
    }
}

/// The reads of one poll for `evt` that returned `s` and `m`: the first
/// status register always, the second one only for `MasterReady` and only
/// when the first shows no error.
pub open spec fn poll_reads(evt: Event, s: Status, m: MasterStatus) -> Seq<RegOp> {
    if evt == Event::MasterReady && spec_status_error(s).is_none() {
        seq![RegOp::ReadStatus(s), RegOp::ReadMasterStatus(m)]
    } else {
        seq![RegOp::ReadStatus(s)]
    }
}

/// The reads that a transition on `evt` makes before it is taken: the read
/// that clears the address condition, or the read of the received byte.
pub open spec fn transition_reads(m: MachineView, evt: Event, data: u8) -> Seq<RegOp> {
    if !m.awaits(evt) {
        Seq::empty()
    } else if evt == Event::AddressSent {
        seq![RegOp::ClearAddress]
    } else if evt == Event::ReadyForRecv {
        seq![RegOp::ReadData(data)]
    } else {
        Seq::empty()
    }
}

/// The register accesses of the transition on `evt` with received byte
/// `data`, and its result: the reads before it, then the command it gives;
/// `InvalidState` where the machine has no such transition.
pub open spec fn transition_effect(m: MachineView, evt: Event, data: u8) -> (MachineView, Seq<RegOp>, Result<bool, Error>) {
    match m.after(evt, data) {
        Some((next, step)) => (next, transition_reads(m, evt, data) + command_ops(step.command), Ok(step.finished)),
        None => (m, transition_reads(m, evt, data), Err(Error::InvalidState)),
    }
}

/// What one look for the awaited event `evt` does when the status reads
/// return `s` and `m` and a received byte would be `data`: the machine after
/// it, its register accesses and its result.
pub open spec fn check_outcome(mv: MachineView, evt: Event, s: Status, m: MasterStatus, data: u8) -> (MachineView, Seq<RegOp>, Result<bool, Error>) {
    let reads = poll_reads(evt, s, m);
    match spec_poll(evt, s, m) {
        Err(e) => (mv, reads, Err(e)),
        Ok(false) => (mv, reads, Err(Error::WouldBlock)),
        Ok(true) => {
            let t = transition_effect(mv, evt, data);
            (t.0, reads + t.1, t.2)
        },
    }
}

/// Unready looks allowed in a row: the timeout, and at least one.
pub open spec fn wait_budget(timeout: usize) -> nat {
    if timeout == 0 { 1 } else { timeout as nat }
}

/// An error that the hardware reports, or the timeout budget ran out.
pub open spec fn hardware_error(e: Error) -> bool {
    e != Error::WouldBlock && e != Error::InvalidState
}

/// What one poll for `evt` returns for a first status register `s` and a
/// second one `m`: the error in `s`, else whether the event happened, which
/// `m` shows for `MasterReady` and `s` for the others.
pub open spec fn spec_poll(evt: Event, s: Status, m: MasterStatus) -> Result<bool, Error> {
    match spec_status_error(s) {
        Some(e) => Err(e),
        None => if evt == Event::MasterReady {
            Ok(spec_master_ready(m))
        } else {
            Ok(spec_event_flag(evt, s))
        },
    }
}

/// What the reads of one look returned: the first and second status
/// registers and the data register (unread parts are arbitrary).
pub type Look = (Status, MasterStatus, u8);

/// Where a run of `check_events` stands: still looking, with the machine
/// and the unready looks since the last transition, or done with a result.
pub enum ChecksState {
    Going(MachineView, nat),
    Done(MachineView, Result<bool, Error>),
}

/// A run of `check_events` from `m0` over the looks `looks`, with `budget`
/// unready looks allowed in a row: where it stands and the register accesses
/// it made. A transition resets the count of unready looks; running out of
/// them gives `Timeout`; any other error, or the end of the transaction,
/// ends the run.
pub open spec fn checks(m0: MachineView, looks: Seq<Look>, budget: nat) -> (ChecksState, Seq<RegOp>)
    decreases looks.len(),
{
    if looks.len() == 0 {
        (ChecksState::Going(m0, 0), Seq::empty())
    } else {
        let prev = checks(m0, looks.drop_last(), budget);
        match prev.0 {
            ChecksState::Done(_, _) => prev,
            ChecksState::Going(m, waited) => match m.state {
                State::Idle => (ChecksState::Done(m, Err(Error::InvalidState)), prev.1),
                State::Wait(evt) => {
                    let l = looks.last();
                    let o = check_outcome(m, evt, l.0, l.1, l.2);
                    let ops = prev.1 + o.1;
                    match o.2 {
                        Ok(true) => (ChecksState::Done(o.0, Ok(true)), ops),
                        Ok(false) => (ChecksState::Going(o.0, 0), ops),
                        Err(Error::WouldBlock) => if waited + 1 >= budget {
                            (ChecksState::Done(o.0, Err(Error::Timeout)), ops)
                        } else {
                            (ChecksState::Going(o.0, waited + 1), ops)
                        },
                        Err(e) => (ChecksState::Done(o.0, Err(e)), ops),
                    }
                },
            },
        }
    }
}

/// A `check_events` result as a blocking operation reports it.
pub open spec fn as_finished(r: Result<(), Error>) -> Result<bool, Error> {
    match r {
        Ok(_) => Ok(true),
        Err(e) => Err(e),
    }
}

/// The transaction that `write_read(addr, tx, rx)` makes.
pub open spec fn write_read_view(addr: u8, tx: Seq<u8>, rx: Seq<u8>) -> TransactionView {
    TransactionView { addr, tx: Some(tx), rx: Some(rx), sent: 0, received: 0 }
}

/// The machine once the start condition of `t` was asked for.
pub open spec fn started(t: TransactionView) -> MachineView {
    MachineView { state: State::Wait(Event::Started), txn: Some(t) }
}

/// A blocking run of `t`: the start condition, then a run of
/// `check_events` that ends in `last` with result `r`; `ops` grew by
/// exactly their register accesses.
pub open spec fn blocking_run(
    t: TransactionView,
    budget: usize,
    old_ops: Seq<RegOp>,
    ops: Seq<RegOp>,
    r: Result<(), Error>,
    last: MachineView,
) -> bool {
    exists|looks: Seq<Look>|
        #![trigger checks(started(t), looks, wait_budget(budget))]
        {
            let c = checks(started(t), looks, wait_budget(budget));
            &&& c.0 == ChecksState::Done(last, as_finished(r))
            &&& ops == old_ops.push(RegOp::Start(t.mode() == Some(Direction::Receive))) + c.1
        }
}

/// `new` follows `old` by the transition on `evt`, for some received byte,
/// and `finished` tells whether that transition ended the transaction.
pub open spec fn stepped(old: MachineView, new: MachineView, evt: Event, finished: bool) -> bool {
    exists|data: u8|
        {
            &&& #[trigger] old.after(evt, data).is_some()
            &&& old.after(evt, data).unwrap().0 == new
            &&& old.after(evt, data).unwrap().1.finished == finished
        }
}

/// A stored transaction that was made by `write`, `read` or `write_read`
/// with these arguments.
pub open spec fn holds(m: MachineView, addr: u8, tx: Option<Seq<u8>>, rx: Option<Seq<u8>>) -> bool {
    match m.txn {
        Some(t) => t.addr == addr && t.tx == tx && opt_len_eq(t.rx, rx),
        None => false,
    }
}

pub open spec fn opt_len_eq(a: Option<Seq<u8>>, b: Option<Seq<u8>>) -> bool {
    match (a, b) {
        (Some(x), Some(y)) => x.len() == y.len(),
        (None, None) => true,
        _ => false,
    }
}

impl<I2C: Registers, PINS: Pins<I2C>> I2c<I2C, PINS> {
    pub closed spec fn machine(&self) -> MachineView {
        self.machine@
    }

    pub closed spec fn event_driven(&self) -> bool {
        self.event_driven
    }

    pub closed spec fn budget(&self) -> usize {
        self.timeout
    }

    /// The register accesses made so far.
    pub closed spec fn ops(&self) -> Seq<RegOp> {
        self.ops@
    }

    /// The peripheral as it stands.
    pub closed spec fn peripheral(&self) -> I2C {
        self.i2c
    }

    pub closed spec fn pin_pair(&self) -> PINS {
        self.pins
    }

    /// Configures the pins and the peripheral for `speed` from an input
    /// clock of `input_clock`, and enables the peripheral. Fails, touching
    /// neither, when the input clock is outside [2, 50] MHz.
    pub fn new(i2c: I2C, pins: PINS, speed: Hertz, fast: FastDuty, input_clock: Hertz) -> (r: Result<Self, ConfigError>)
        requires
            speed.0 > 0,
        ensures
            r is Ok <==> clock_in_range(input_clock.0),
            !clock_in_range(input_clock.0) ==> r == Err::<Self, ConfigError>(ConfigError::InputClockOutOfRange),
            r matches Ok(c) ==> c.machine() == (MachineView { state: State::Idle, txn: None })
                && c.budget() == DEFAULT_TIMEOUT && !c.event_driven() && c.pin_pair() == pins
                && c.ops() == seq![
                    RegOp::PowerUp,
                    RegOp::Enable(false),
                    RegOp::Timing(spec_timing(input_clock.0, speed.0, fast)),
                    RegOp::Enable(true),
                ],
    {
        let timing = match TimingConfig::compute(input_clock.0, speed.0, fast) {
            Ok(t) => t,
            Err(e) => {
                return Err(e);
            },
        };
        let mut i2c = i2c;
        pins.setup();
        i2c.power_up();
        i2c.set_enabled(false);
        i2c.write_timing(timing);
        i2c.set_enabled(true);
        let ghost setup = seq![RegOp::PowerUp, RegOp::Enable(false), RegOp::Timing(timing), RegOp::Enable(true)];
        Ok(
            I2c {
                i2c,
                pins,
                timeout: DEFAULT_TIMEOUT,
                event_driven: false,
                machine: Machine::new(),
                ops: Ghost(setup),
            },
        )
    }

    /// Returns the pins to their default mode and hands back the peripheral
    /// and the pins.
    pub fn release(self) -> (r: (I2C, PINS))
        ensures
            r == (self.peripheral(), self.pin_pair()),
    {
        self.pins.reset();
        (self.i2c, self.pins)
    }

    /// Reads the status: the error it shows, else whether `evt` happened.
    /// Also returns what the reads gave.
    fn poll(&mut self, evt: Event) -> (r: (Result<bool, Error>, Ghost<Status>, Ghost<MasterStatus>))
        ensures
            final(self).machine() == old(self).machine(),
            final(self).event_driven() == old(self).event_driven(),
            final(self).budget() == old(self).budget(),
            final(self).ops() == old(self).ops() + poll_reads(evt, r.1@, r.2@),
            r.0 == spec_poll(evt, r.1@, r.2@),
            r.0 matches Err(e) ==> hardware_error(e),
    {
        let s = self.i2c.read_status();
        self.ops = Ghost(self.ops@.push(RegOp::ReadStatus(s)));
        let unread = MasterStatus { master: false, busy: false };
        if let Some(e) = status_error(s) {
            return (Err(e), Ghost(s), Ghost(unread));
        }
        if evt == Event::MasterReady {
            let m = self.i2c.read_master_status();
            self.ops = Ghost(self.ops@.push(RegOp::ReadMasterStatus(m)));
            (Ok(master_ready(m)), Ghost(s), Ghost(m))
        } else {
            proof {
                assert(poll_reads(evt, s, unread) =~= seq![RegOp::ReadStatus(s)]);
            }
            (Ok(event_flag(evt, s)), Ghost(s), Ghost(unread))
        }
    }

    fn perform(&mut self, cmd: Command)
        ensures
            final(self).machine() == old(self).machine(),
            final(self).event_driven() == old(self).event_driven(),
            final(self).budget() == old(self).budget(),
            final(self).ops() == old(self).ops() + command_ops(cmd),
    {
        match cmd {
            Command::Nothing => {
                assert(old(self).ops() + command_ops(cmd) =~= old(self).ops());
            },
            Command::Start { ack } => {
                self.i2c.start(ack);
                self.ops = Ghost(self.ops@.push(RegOp::Start(ack)));
            },
            Command::Stop => {
                self.i2c.stop();
                self.ops = Ghost(self.ops@.push(RegOp::Stop));
            },
            Command::WriteData(byte) => {
                self.i2c.write_data(byte);
                self.ops = Ghost(self.ops@.push(RegOp::WriteData(byte)));
            },
        }
    }

    /// Takes the transition on `evt` with its register work: the read that
    /// clears the address condition, the read of a received byte, and the
    /// command that the transition gives. Also returns the byte read, 0
    /// where none was.
    fn advance(&mut self, evt: Event) -> (r: (Result<bool, Error>, Ghost<u8>))
        ensures
            final(self).machine().wf(),
            final(self).event_driven() == old(self).event_driven(),
            final(self).budget() == old(self).budget(),
            (final(self).machine(), final(self).ops(), r.0) == ({
                let t = transition_effect(old(self).machine(), evt, r.1@);
                (t.0, old(self).ops() + t.1, t.2)
            }),
            r.0 matches Ok(fin) ==> stepped(old(self).machine(), final(self).machine(), evt, fin),
            r.0 matches Err(e) ==> e == Error::InvalidState && final(self).machine() == old(self).machine()
                && !(old(self).machine().consistent() && old(self).machine().awaits(evt)),
            old(self).machine().consistent() ==> final(self).machine().consistent(),
    {
        self.machine.well_formed();
        let awaited = self.machine.awaits(evt);
        let mut data: u8 = 0;
        if awaited && evt == Event::AddressSent {
            self.i2c.read_master_status();
            self.ops = Ghost(self.ops@.push(RegOp::ClearAddress));
        }
        if awaited && evt == Event::ReadyForRecv {
            data = self.i2c.read_data();
            self.ops = Ghost(self.ops@.push(RegOp::ReadData(data)));
        }
        proof {
            let reads = transition_reads(old(self).machine(), evt, data);
            if awaited && evt == Event::AddressSent {
                assert(reads =~= seq![RegOp::ClearAddress]);
            } else if awaited && evt == Event::ReadyForRecv {
                assert(reads =~= seq![RegOp::ReadData(data)]);
            } else {
                assert(reads =~= Seq::<RegOp>::empty());
            }
            assert(self.ops() =~= old(self).ops() + reads);
            if old(self).machine().consistent() && old(self).machine().awaits(evt) {
                lemma_transition_consistent(old(self).machine(), evt, data);
            }
        }
        let (cmd, fin) = match self.machine.handle(evt, data) {
            Ok(step) => step,
            Err(e) => {
                return (Err(e), Ghost(data));
            },
        };
        self.perform(cmd);
        assert(old(self).machine().after(evt, data).is_some());
        proof {
            let reads = transition_reads(old(self).machine(), evt, data);
            assert(self.ops() =~= old(self).ops() + (reads + command_ops(cmd)));
        }
        (Ok(fin), Ghost(data))
    }

    /// Looks once, without waiting, for the awaited event of the stored
    /// transaction and takes its transition where it happened. Also returns
    /// what the reads returned.
    fn look_awaited(&mut self) -> (r: (Result<bool, Error>, Ghost<Look>))
        ensures
            final(self).event_driven() == old(self).event_driven(),
            final(self).budget() == old(self).budget(),
            old(self).machine().consistent() ==> final(self).machine().consistent(),
            old(self).machine().txn is None ==> r.0 == Err::<bool, Error>(Error::InvalidState)
                && final(self).machine() == old(self).machine() && final(self).ops() == old(self).ops(),
            old(self).machine().txn is Some && old(self).machine().state == State::Idle
                ==> r.0 == Err::<bool, Error>(Error::WouldBlock) && final(self).machine() == old(self).machine()
                && final(self).ops() == old(self).ops(),
            old(self).machine().txn is Some && old(self).machine().state is Wait ==> ({
                let o = check_outcome(old(self).machine(), old(self).machine().state->Wait_0, r.1@.0, r.1@.1, r.1@.2);
                &&& final(self).machine() == o.0
                &&& final(self).ops() == old(self).ops() + o.1
                &&& r.0 == o.2
            }),
            r.0 matches Ok(fin) ==> old(self).machine().state is Wait
                && stepped(old(self).machine(), final(self).machine(), old(self).machine().state->Wait_0, fin),
            r.0 is Err ==> final(self).machine() == old(self).machine(),
            old(self).machine().consistent() && old(self).machine().txn is Some
                ==> (r.0 matches Err(e) ==> e == Error::WouldBlock || hardware_error(e)),
    {
        if !self.machine.has_transaction() {
            return (Err(Error::InvalidState), Ghost(arbitrary()));
        }
        let evt = match self.machine.state() {
            State::Idle => {
                return (Err(Error::WouldBlock), Ghost(arbitrary()));
            },
            State::Wait(e) => e,
        };
        let (p, s, m) = self.poll(evt);
        match p {
            Err(e) => (Err(e), Ghost((s@, m@, 0u8))),
            Ok(false) => (Err(Error::WouldBlock), Ghost((s@, m@, 0u8))),
            Ok(true) => {
                let (r, d) = self.advance(evt);
                proof {
                    assert(self.ops() =~= old(self).ops() + (poll_reads(evt, s@, m@) + transition_effect(
                        old(self).machine(),
                        evt,
                        d@,
                    ).1));
                }
                (r, Ghost((s@, m@, d@)))
            },
        }
    }

    /// `look_awaited` for an event-driven transaction only.
    fn look(&mut self) -> (r: (Result<bool, Error>, Ghost<Look>))
        ensures
            final(self).event_driven() == old(self).event_driven(),
            final(self).budget() == old(self).budget(),
            old(self).machine().consistent() ==> final(self).machine().consistent(),
            !old(self).event_driven() || old(self).machine().txn is None
                ==> r.0 == Err::<bool, Error>(Error::InvalidState) && final(self).machine() == old(self).machine()
                && final(self).ops() == old(self).ops(),
            old(self).event_driven() && old(self).machine().txn is Some && old(self).machine().state == State::Idle
                ==> r.0 == Err::<bool, Error>(Error::WouldBlock) && final(self).machine() == old(self).machine()
                && final(self).ops() == old(self).ops(),
            old(self).event_driven() && old(self).machine().txn is Some && old(self).machine().state is Wait ==> ({
                let o = check_outcome(old(self).machine(), old(self).machine().state->Wait_0, r.1@.0, r.1@.1, r.1@.2);
                &&& final(self).machine() == o.0
                &&& final(self).ops() == old(self).ops() + o.1
                &&& r.0 == o.2
            }),
            r.0 matches Ok(fin) ==> old(self).machine().state is Wait
                && stepped(old(self).machine(), final(self).machine(), old(self).machine().state->Wait_0, fin),
            r.0 is Err ==> final(self).machine() == old(self).machine(),
            old(self).machine().consistent() && old(self).event_driven() && old(self).machine().txn is Some
                ==> (r.0 matches Err(e) ==> e == Error::WouldBlock || hardware_error(e)),
    {
        if !self.event_driven {
            return (Err(Error::InvalidState), Ghost(arbitrary()));
        }
        self.look_awaited()
    }

    /// Looks for each awaited event in turn and takes its transition, until
    /// the transaction finishes or fails. While an event has not happened it
    /// keeps looking, at most the timeout budget of times in a row (at least
    /// once), then gives `Timeout`.
    fn drive(&mut self) -> (r: Result<bool, Error>)
        requires
            old(self).machine().txn is Some,
            old(self).machine().state is Wait,
        ensures
            final(self).event_driven() == old(self).event_driven(),
            final(self).budget() == old(self).budget(),
            old(self).machine().consistent() ==> final(self).machine().consistent(),
            final(self).machine().txn is Some,
            final(self).machine().txn.unwrap().same_request(old(self).machine().txn.unwrap()),
            exists|looks: Seq<Look>|
                #![trigger checks(old(self).machine(), looks, wait_budget(old(self).budget()))]
                {
                    let c = checks(old(self).machine(), looks, wait_budget(old(self).budget()));
                    &&& c.0 == ChecksState::Done(final(self).machine(), r)
                    &&& final(self).ops() == old(self).ops() + c.1
                },
            r matches Ok(fin) ==> fin && final(self).machine().state == State::Idle,
            r matches Ok(_) && old(self).machine().consistent() ==> final(self).machine().txn.unwrap().finished(),
            r != Err::<bool, Error>(Error::WouldBlock),
            old(self).machine().consistent() ==> (r matches Err(e) ==> hardware_error(e)),
    {
        let mut waited: usize = 0;
        let ghost mut looks: Seq<Look> = Seq::empty();
        proof {
            assert(old(self).ops() + Seq::<RegOp>::empty() =~= old(self).ops());
        }
        loop
            invariant
                old(self).machine().txn is Some,
                old(self).machine().state is Wait,
                self.event_driven() == old(self).event_driven(),
                self.budget() == old(self).budget(),
                self.machine().txn is Some,
                self.machine().state is Wait,
                waited < wait_budget(self.budget()),
                checks(old(self).machine(), looks, wait_budget(old(self).budget())).0 == ChecksState::Going(
                    self.machine(),
                    waited as nat,
                ),
                self.ops() == old(self).ops() + checks(old(self).machine(), looks, wait_budget(old(self).budget())).1,
                old(self).machine().consistent() ==> self.machine().consistent(),
                self.machine().txn.unwrap().same_request(old(self).machine().txn.unwrap()),
            decreases progress(self.machine()), wait_budget(self.budget()) - waited,
        {
            self.machine.well_formed();
            let ghost before = self.machine();
            let ghost ops_before = self.ops();
            let ghost prev = looks;
            let (r, look) = self.look_awaited();
            proof {
                looks = looks.push(look@);
                assert(looks.drop_last() =~= prev);
                let evt = before.state->Wait_0;
                assert(self.ops() =~= old(self).ops() + checks(old(self).machine(), looks, wait_budget(old(self).budget())).1);
                if spec_poll(evt, look@.0, look@.1) == Ok::<bool, Error>(true) {
                    if before.after(evt, look@.2) is Some {
                        lemma_transition_progress(before, evt, look@.2);
                        assert(self.machine().txn.unwrap().same_request(before.txn.unwrap()));
                        if before.consistent() {
                            lemma_transition_consistent(before, evt, look@.2);
                        }
                    } else if before.consistent() {
                        lemma_transition_consistent(before, evt, look@.2);
                    }
                }
            }
            match r {
                Ok(true) => {
                    return Ok(true);
                },
                Ok(false) => {
                    waited = 0;
                },
                Err(Error::WouldBlock) => {
                    waited = waited + 1;
                    if waited >= self.timeout {
                        return Err(Error::Timeout);
                    }
                },
                Err(e) => {
                    return Err(e);
                },
            }
        }
    }

    /// Runs the stored transaction to its end, waiting on each event for at
    /// most the timeout budget.
    fn run(&mut self) -> (r: Result<(), Error>)
        requires
            old(self).machine().state == State::Idle,
            old(self).machine().txn.is_some(),
        ensures
            final(self).machine().consistent(),
            final(self).event_driven() == old(self).event_driven(),
            final(self).budget() == old(self).budget(),
            final(self).machine().txn.is_some(),
            final(self).machine().txn.unwrap().same_request(old(self).machine().txn.unwrap()),
            r is Ok ==> final(self).machine().state == State::Idle
                && final(self).machine().txn.unwrap().finished(),
            old(self).machine().txn.unwrap().mode().is_none() ==> r == Err::<(), Error>(Error::InvalidState)
                && final(self).ops() == old(self).ops(),
            old(self).machine().txn.unwrap().mode().is_some() ==> blocking_run(
                old(self).machine().txn.unwrap(),
                old(self).budget(),
                old(self).ops(),
                final(self).ops(),
                r,
                final(self).machine(),
            ),
            old(self).machine().txn.unwrap().mode().is_some() ==> (r matches Err(e) ==> hardware_error(e)),
    {
        self.machine.well_formed();
        let cmd = match self.machine.begin() {
            Ok(c) => c,
            Err(e) => {
                return Err(e);
            },
        };
        self.perform(cmd);
        let ghost t = old(self).machine().txn.unwrap();
        let ghost after_start = self.ops();
        assert(command_ops(cmd) =~= seq![RegOp::Start(t.mode() == Some(Direction::Receive))]);
        assert(self.machine() == started(t));
        let d = self.drive();
        let r = match d {
            Ok(_) => Ok(()),
            Err(e) => Err(e),
        };
        proof {
            let looks = choose|looks: Seq<Look>|
                #![trigger checks(started(t), looks, wait_budget(old(self).budget()))]
                {
                    let c = checks(started(t), looks, wait_budget(old(self).budget()));
                    &&& c.0 == ChecksState::Done(self.machine(), d)
                    &&& self.ops() == after_start + c.1
                };
            let c = checks(started(t), looks, wait_budget(old(self).budget()));
            assert(as_finished(r) == d);
            assert(self.ops() == old(self).ops().push(RegOp::Start(t.mode() == Some(Direction::Receive))) + c.1);
        }
        r
    }

    /// Sends `bytes` to `addr`, blocking until done. On success nothing stays
    /// stored; on an error the transaction stays, for `finish_transaction`.
    pub fn write(&mut self, addr: u8, bytes: &[u8]) -> (r: Result<(), Error>)
        ensures
            final(self).machine().consistent(),
            !final(self).event_driven(),
            final(self).budget() == old(self).budget(),
            r is Ok ==> final(self).machine() == (MachineView { state: State::Idle, txn: None }),
            r is Err ==> holds(final(self).machine(), addr, Some(bytes@), None),
            bytes@.len() == 0 <==> r == Err::<(), Error>(Error::InvalidState),
            bytes@.len() > 0 ==> exists|last: MachineView|
                #![trigger blocking_run(write_view(addr, bytes@), old(self).budget(), old(self).ops(), final(self).ops(), r, last)]
                blocking_run(write_view(addr, bytes@), old(self).budget(), old(self).ops(), final(self).ops(), r, last)
                    && (r is Err ==> final(self).machine() == last),
            bytes@.len() > 0 ==> (r matches Err(e) ==> hardware_error(e)),
    {
        self.event_driven = false;
        self.machine.load(Transaction::write(addr, bytes));
        let r = self.run();
        let ghost last = self.machine();
        if r.is_ok() {
            self.machine.take();
        }
        proof {
            if bytes@.len() > 0 {
                assert(blocking_run(write_view(addr, bytes@), old(self).budget(), old(self).ops(), self.ops(), r, last));
            }
        }
        r
    }

    /// Reads from `addr` until `buffer` is full, blocking until done. On an
    /// error `buffer` is left as it was and the transaction stays stored.
    pub fn read(&mut self, addr: u8, buffer: &mut [u8]) -> (r: Result<(), Error>)
        ensures
            final(self).machine().consistent(),
            !final(self).event_driven(),
            final(self).budget() == old(self).budget(),
            final(buffer)@.len() == old(buffer)@.len(),
            r is Ok ==> final(self).machine() == (MachineView { state: State::Idle, txn: None }),
            r is Err ==> holds(final(self).machine(), addr, None, Some(old(buffer)@))
                && final(buffer)@ == old(buffer)@,
            old(buffer)@.len() == 0 <==> r == Err::<(), Error>(Error::InvalidState),
            old(buffer)@.len() > 0 ==> exists|last: MachineView|
                #![trigger blocking_run(read_view(addr, old(buffer)@), old(self).budget(), old(self).ops(), final(self).ops(), r, last)]
                blocking_run(read_view(addr, old(buffer)@), old(self).budget(), old(self).ops(), final(self).ops(), r, last)
                    && (r is Err ==> final(self).machine() == last)
                    && (r is Ok ==> final(buffer)@ == last.txn.unwrap().rx.unwrap()),
            old(buffer)@.len() > 0 ==> (r matches Err(e) ==> hardware_error(e)),
    {
        self.event_driven = false;
        self.machine.load(Transaction::read(addr, slice_to_vec(buffer)));
        let r = self.run();
        let ghost last = self.machine();
        if r.is_ok() {
            self.copy_received(buffer);
        }
        proof {
            if old(buffer)@.len() > 0 {
                assert(blocking_run(read_view(addr, old(buffer)@), old(self).budget(), old(self).ops(), self.ops(), r, last));
            }
        }
        r
    }

    /// Sends `tx` to `addr`, then reads from it until `rx` is full, blocking
    /// until done. On an error `rx` is left as it was and the transaction
    /// stays stored.
    pub fn write_read(&mut self, addr: u8, tx: &[u8], rx: &mut [u8]) -> (r: Result<(), Error>)
        ensures
            final(self).machine().consistent(),
            !final(self).event_driven(),
            final(self).budget() == old(self).budget(),
            final(rx)@.len() == old(rx)@.len(),
            r is Ok ==> final(self).machine() == (MachineView { state: State::Idle, txn: None }),
            r is Err ==> holds(final(self).machine(), addr, Some(tx@), Some(old(rx)@))
                && final(rx)@ == old(rx)@,
            tx@.len() == 0 && old(rx)@.len() == 0 <==> r == Err::<(), Error>(Error::InvalidState),
            tx@.len() > 0 || old(rx)@.len() > 0 ==> exists|last: MachineView|
                #![trigger blocking_run(write_read_view(addr, tx@, old(rx)@), old(self).budget(), old(self).ops(), final(self).ops(), r, last)]
                blocking_run(write_read_view(addr, tx@, old(rx)@), old(self).budget(), old(self).ops(), final(self).ops(), r, last)
                    && (r is Err ==> final(self).machine() == last)
                    && (r is Ok ==> final(rx)@ == last.txn.unwrap().rx.unwrap()),
            tx@.len() > 0 || old(rx)@.len() > 0 ==> (r matches Err(e) ==> hardware_error(e)),
    {
        self.event_driven = false;
        self.machine.load(Transaction::write_read(addr, tx, slice_to_vec(rx)));
        let r = self.run();
        let ghost last = self.machine();
        if r.is_ok() {
            self.copy_received(rx);
        }
        proof {
            if tx@.len() > 0 || old(rx)@.len() > 0 {
                assert(blocking_run(write_read_view(addr, tx@, old(rx)@), old(self).budget(), old(self).ops(), self.ops(), r, last));
            }
        }
        r
    }

    /// Takes the finished transaction out and copies what it received into
    /// `buffer`.
    fn copy_received(&mut self, buffer: &mut [u8])
        requires
            old(self).machine().txn is Some,
            old(self).machine().txn.unwrap().rx is Some,
            old(self).machine().txn.unwrap().rx_len() == old(buffer)@.len(),
        ensures
            final(self).event_driven() == old(self).event_driven(),
            final(self).budget() == old(self).budget(),
            final(self).machine() == (MachineView { state: State::Idle, txn: None }),
            final(self).ops() == old(self).ops(),
            final(buffer)@ == old(self).machine().txn.unwrap().rx.unwrap(),
    {
        let t = self.machine.take();
        if let Some(t) = t {
            let got = t.received();
            let mut i: usize = 0;
            while i < buffer.len()
                invariant
                    got@.len() == buffer@.len(),
                    buffer@.len() == old(buffer)@.len(),
                    i <= buffer@.len(),
                    forall|k: int| 0 <= k < i ==> buffer@[k] == got@[k],
                decreases buffer@.len() - i,
            {
                buffer[i] = got[i];
                i = i + 1;
            }
            assert(buffer@ =~= got@);
        }
    }
}

/// The interrupt-driven discipline: a transaction is started, then driven
/// one event per call of `check_event`, from an interrupt handler or a loop.
pub trait EventDriven {
    /// Enables the event, buffer and error interrupts.
    fn enable_irqs(&mut self);

    /// Disables the event, buffer and error interrupts.
    fn disable_irqs(&mut self);

    /// Stores `txn` and asks for its start condition.
    fn start_transaction(&mut self, txn: Transaction) -> Result<(), Error>;

    /// Hands the stored transaction back, with what it received.
    fn finish_transaction(&mut self) -> Result<Transaction, Error>;

    fn is_transaction(&self) -> bool;

    /// Calls `check_event` until the transaction finishes or fails. While
    /// the awaited event has not happened it keeps looking, at most the
    /// timeout budget of times in a row (at least once), then gives
    /// `Timeout`.
    fn check_events(&mut self) -> Result<bool, Error>;

    /// Looks once, without waiting, for the awaited event and, where it
    /// happened, takes its transition. Returns whether the transaction is
    /// now finished, or `WouldBlock` when the event has not happened yet.
    fn check_event(&mut self) -> Result<bool, Error>;

    /// Takes the transition on `evt` with its register work.
    fn event_handler(&mut self, evt: Event) -> Result<bool, Error>;
}

impl<I2C: Registers, PINS: Pins<I2C>> EventDriven for I2c<I2C, PINS> {
    fn enable_irqs(&mut self)
        ensures
            final(self).machine() == old(self).machine(),
            final(self).event_driven() == old(self).event_driven(),
            final(self).budget() == old(self).budget(),
            final(self).ops() == old(self).ops().push(RegOp::Interrupts(true)),
    {
        self.i2c.set_interrupts(true);
        self.ops = Ghost(self.ops@.push(RegOp::Interrupts(true)));
    }

    fn disable_irqs(&mut self)
        ensures
            final(self).machine() == old(self).machine(),
            final(self).event_driven() == old(self).event_driven(),
            final(self).budget() == old(self).budget(),
            final(self).ops() == old(self).ops().push(RegOp::Interrupts(false)),
    {
        self.i2c.set_interrupts(false);
        self.ops = Ghost(self.ops@.push(RegOp::Interrupts(false)));
    }

    fn start_transaction(&mut self, txn: Transaction) -> (r: Result<(), Error>)
        ensures
            final(self).event_driven(),
            final(self).budget() == old(self).budget(),
            final(self).machine().consistent(),
            final(self).machine().txn == Some(txn@),
            txn@.mode() is Some ==> r == Ok::<(), Error>(())
                && final(self).machine().state == State::Wait(Event::Started)
                && final(self).ops() == old(self).ops().push(
                    RegOp::Start(txn@.mode() == Some(Direction::Receive)),
                ),
            txn@.mode() is None ==> r == Err::<(), Error>(Error::InvalidState)
                && final(self).machine().state == State::Idle && final(self).ops() == old(self).ops(),
    {
        self.event_driven = true;
        self.machine.load(txn);
        match self.machine.begin() {
            Ok(cmd) => {
                self.perform(cmd);
                assert(command_ops(cmd) =~= seq![
                    RegOp::Start(txn@.mode() == Some(Direction::Receive)),
                ]);
                Ok(())
            },
            Err(e) => Err(e),
        }
    }

    fn finish_transaction(&mut self) -> (r: Result<Transaction, Error>)
        ensures
            final(self).machine() == (MachineView { state: State::Idle, txn: None }),
            final(self).event_driven() == old(self).event_driven(),
            final(self).budget() == old(self).budget(),
            final(self).ops() == old(self).ops(),
            match old(self).machine().txn {
                Some(t) => r matches Ok(got) && got@ == t,
                None => r == Err::<Transaction, Error>(Error::InvalidState),
            },
    {
        match self.machine.take() {
            Some(t) => Ok(t),
            None => Err(Error::InvalidState),
        }
    }

    fn is_transaction(&self) -> (r: bool)
        ensures
            r == self.machine().txn.is_some(),
    {
        self.machine.has_transaction()
    }

    fn check_events(&mut self) -> (r: Result<bool, Error>)
        ensures
            final(self).event_driven() == old(self).event_driven(),
            final(self).budget() == old(self).budget(),
            old(self).machine().consistent() ==> final(self).machine().consistent(),
            !old(self).event_driven() || old(self).machine().txn is None ==> r == Err::<bool, Error>(
                Error::InvalidState,
            ) && final(self).machine() == old(self).machine() && final(self).ops() == old(self).ops(),
            old(self).event_driven() && old(self).machine().txn is Some && old(self).machine().state == State::Idle
                ==> final(self).machine() == old(self).machine() && final(self).ops() == old(self).ops() && r == (
                if old(self).machine().txn.unwrap().finished() {
                    Ok::<bool, Error>(true)
                } else {
                    Err::<bool, Error>(Error::InvalidState)
                }),
            old(self).event_driven() && old(self).machine().txn is Some && old(self).machine().state is Wait
                ==> exists|looks: Seq<Look>|
                #![trigger checks(old(self).machine(), looks, wait_budget(old(self).budget()))]
                {
                    let c = checks(old(self).machine(), looks, wait_budget(old(self).budget()));
                    &&& c.0 == ChecksState::Done(final(self).machine(), r)
                    &&& final(self).ops() == old(self).ops() + c.1
                },
            r matches Ok(fin) ==> fin && final(self).machine().state == State::Idle,
            r matches Ok(_) && old(self).machine().consistent() ==> final(self).machine().txn.unwrap().finished(),
            r != Err::<bool, Error>(Error::WouldBlock),
            old(self).machine().consistent() && old(self).event_driven() && old(self).machine().txn is Some
                && old(self).machine().state is Wait ==> (r matches Err(e) ==> hardware_error(e)),
    {
        if !self.event_driven || !self.machine.has_transaction() {
            return Err(Error::InvalidState);
        }
        if let State::Idle = self.machine.state() {
            return if self.machine.is_finished() {
                Ok(true)
            } else {
                Err(Error::InvalidState)
            };
        }
        self.drive()
    }

    fn check_event(&mut self) -> (r: Result<bool, Error>)
        ensures
            final(self).event_driven() == old(self).event_driven(),
            final(self).budget() == old(self).budget(),
            old(self).machine().consistent() ==> final(self).machine().consistent(),
            !old(self).event_driven() || old(self).machine().txn is None
                ==> r == Err::<bool, Error>(Error::InvalidState) && final(self).machine() == old(self).machine()
                && final(self).ops() == old(self).ops(),
            old(self).event_driven() && old(self).machine().txn is Some && old(self).machine().state == State::Idle
                ==> r == Err::<bool, Error>(Error::WouldBlock) && final(self).machine() == old(self).machine()
                && final(self).ops() == old(self).ops(),
            old(self).event_driven() && old(self).machine().txn is Some && old(self).machine().state is Wait
                ==> exists|s: Status, m: MasterStatus, data: u8|
                #![trigger check_outcome(old(self).machine(), old(self).machine().state->Wait_0, s, m, data)]
                {
                    let o = check_outcome(old(self).machine(), old(self).machine().state->Wait_0, s, m, data);
                    &&& final(self).machine() == o.0
                    &&& final(self).ops() == old(self).ops() + o.1
                    &&& r == o.2
                },
            r matches Ok(fin) ==> old(self).machine().state is Wait
                && stepped(old(self).machine(), final(self).machine(), old(self).machine().state->Wait_0, fin),
            r is Err ==> final(self).machine() == old(self).machine(),
            old(self).machine().consistent() && old(self).event_driven() && old(self).machine().txn is Some
                ==> (r matches Err(e) ==> e == Error::WouldBlock || hardware_error(e)),
    {
        let (r, look) = self.look();
        proof {
            if self.event_driven() && old(self).machine().txn is Some && old(self).machine().state is Wait {
                let evt = old(self).machine().state->Wait_0;
                let _o = check_outcome(old(self).machine(), evt, look@.0, look@.1, look@.2);
            }
        }
        r
    }

    fn event_handler(&mut self, evt: Event) -> (r: Result<bool, Error>)
        ensures
            final(self).event_driven() == old(self).event_driven(),
            final(self).budget() == old(self).budget(),
            old(self).machine().consistent() ==> final(self).machine().consistent(),
            exists|data: u8|
                #![trigger transition_effect(old(self).machine(), evt, data)]
                {
                    let t = transition_effect(old(self).machine(), evt, data);
                    &&& final(self).machine() == t.0
                    &&& final(self).ops() == old(self).ops() + t.1
                    &&& r == t.2
                },
            r matches Ok(fin) ==> stepped(old(self).machine(), final(self).machine(), evt, fin),
            r matches Err(e) ==> e == Error::InvalidState && final(self).machine() == old(self).machine()
                && !(old(self).machine().consistent() && old(self).machine().awaits(evt)),
    {
        let (r, data) = self.advance(evt);
        proof {
            let _t = transition_effect(old(self).machine(), evt, data@);
        }
        r
    }
}

/// A peripheral that can become a bus master.
pub trait I2cExt<I2C>: Sized {
    /// A bus master at `speed`, fast mode with a 2:1 duty cycle above
    /// 100 kHz, clocked from the APB1 bus of `clocks`.
    fn i2c<PINS: Pins<I2C>>(self, pins: PINS, speed: Hertz, clocks: &Clocks) -> Result<I2c<I2C, PINS>, ConfigError>
        requires
            speed.0 > 0,
    ;
}

impl<R: Registers> I2cExt<R> for R {
    fn i2c<PINS: Pins<R>>(self, pins: PINS, speed: Hertz, clocks: &Clocks) -> (r: Result<I2c<R, PINS>, ConfigError>)
        ensures
            r is Ok <==> clock_in_range(clocks@.apb1 as u32),
    {
        I2c::new(self, pins, speed, FastDuty::Ratio2to1, clocks.apb1_clk())
    }
}

/// An acknowledge failure in the status register ends the wait for any
/// event read from it with `NotAcknowledged`, whatever the other flags say;
/// `check_event` then reports that error and leaves the machine, and with it
/// the transaction, unchanged.
pub proof fn lemma_nack_surfaces(evt: Event, s: Status, m: MasterStatus)
    requires
        evt != Event::MasterReady,
        s.acknowledge_failure,
    ensures
        spec_poll(evt, s, m) == Err::<bool, Error>(Error::NotAcknowledged),
        hardware_error(Error::NotAcknowledged),
{
}

/// A look on a bus that acknowledges everything: no error flag, every
/// event flag set, the controller holding the bus.
pub open spec fn acknowledging(l: Look) -> bool {
    &&& spec_status_error(l.0) is None
    &&& l.0.start_bit && l.0.address_sent && l.0.byte_transferred && l.0.tx_empty && l.0.rx_not_empty
    &&& spec_master_ready(l.1)
}

/// `check_events` on an awaited event that never happens looks exactly
/// `budget` times, changing nothing, and then gives `Timeout`: it never
/// spins without end.
pub proof fn lemma_checks_give_up(m: MachineView, looks: Seq<Look>, budget: nat)
    requires
        m.state is Wait,
        budget >= 1,
        looks.len() <= budget,
        forall|i: int| 0 <= i < looks.len() ==> #[trigger] spec_poll(m.state->Wait_0, looks[i].0, looks[i].1)
            == Ok::<bool, Error>(false),
    ensures
        looks.len() < budget ==> checks(m, looks, budget).0 == ChecksState::Going(m, looks.len()),
        looks.len() == budget ==> checks(m, looks, budget).0 == ChecksState::Done(m, Err(Error::Timeout)),
    decreases looks.len(),
{
    if looks.len() > 0 {
        let prev = looks.drop_last();
        assert forall|i: int| 0 <= i < prev.len() implies #[trigger] spec_poll(
            m.state->Wait_0,
            prev[i].0,
            prev[i].1,
        ) == Ok::<bool, Error>(false) by {
            assert(prev[i] == looks[i]);
        }
        lemma_checks_give_up(m, prev, budget);
        assert(spec_poll(m.state->Wait_0, looks.last().0, looks.last().1) == Ok::<bool, Error>(false));
    }
}

/// A write whose address is acknowledged, and whose device then reports an
/// acknowledge failure, ends `check_events` with `NotAcknowledged`: the
/// transaction stays stored with no byte taken, awaiting its first byte, and
/// the only byte written to the data register is the address.
pub proof fn lemma_checks_nack_after_address(addr: u8, bytes: Seq<u8>, ack: Look, nack: Look, budget: nat)
    requires
        bytes.len() >= 1,
        budget >= 1,
        acknowledging(ack),
        nack.0.acknowledge_failure,
    ensures
        checks(
            MachineView { state: State::Wait(Event::Started), txn: Some(write_view(addr, bytes)) },
            seq![ack, ack, ack, nack],
            budget,
        ) == (
            ChecksState::Done(
                MachineView { state: State::Wait(Event::ReadyForSend), txn: Some(write_view(addr, bytes)) },
                Err(Error::NotAcknowledged),
            ),
            seq![
                RegOp::ReadStatus(ack.0),
                RegOp::ReadStatus(ack.0),
                RegOp::ReadMasterStatus(ack.1),
                RegOp::WriteData(spec_address_byte(addr, Direction::Send)),
                RegOp::ReadStatus(ack.0),
                RegOp::ClearAddress,
                RegOp::ReadStatus(nack.0),
            ],
        ),
{
    let t = write_view(addr, bytes);
    let m0 = MachineView { state: State::Wait(Event::Started), txn: Some(t) };
    let m1 = MachineView { state: State::Wait(Event::MasterReady), txn: Some(t) };
    let m2 = MachineView { state: State::Wait(Event::AddressSent), txn: Some(t) };
    let m3 = MachineView { state: State::Wait(Event::ReadyForSend), txn: Some(t) };
    let l = seq![ack, ack, ack, nack];
    let l1 = seq![ack];
    let l2 = seq![ack, ack];
    let l3 = seq![ack, ack, ack];
    assert(l.drop_last() =~= l3);
    assert(l3.drop_last() =~= l2);
    assert(l2.drop_last() =~= l1);
    assert(l1.drop_last() =~= Seq::<Look>::empty());
    let c0 = checks(m0, Seq::<Look>::empty(), budget);
    assert(c0 == (ChecksState::Going(m0, 0), Seq::<RegOp>::empty()));
    assert(l1.last() == ack);
    let o1 = check_outcome(m0, Event::Started, ack.0, ack.1, ack.2);
    assert(spec_poll(Event::Started, ack.0, ack.1) == Ok::<bool, Error>(true));
    assert(m0.after(Event::Started, ack.2).unwrap().0 == m1);
    assert(transition_reads(m0, Event::Started, ack.2) =~= Seq::<RegOp>::empty());
    assert(o1.1 =~= seq![RegOp::ReadStatus(ack.0)]);
    let c1 = checks(m0, l1, budget);
    assert(c1.0 == ChecksState::Going(m1, 0));
    assert(c1.1 =~= seq![RegOp::ReadStatus(ack.0)]);
    let c2 = checks(m0, l2, budget);
    assert(c2.0 == ChecksState::Going(m2, 0));
    assert(c2.1 =~= seq![
        RegOp::ReadStatus(ack.0),
        RegOp::ReadStatus(ack.0),
        RegOp::ReadMasterStatus(ack.1),
        RegOp::WriteData(spec_address_byte(addr, Direction::Send)),
    ]);
    let c3 = checks(m0, l3, budget);
    assert(c3.0 == ChecksState::Going(m3, 0));
    assert(c3.1 =~= seq![
        RegOp::ReadStatus(ack.0),
        RegOp::ReadStatus(ack.0),
        RegOp::ReadMasterStatus(ack.1),
        RegOp::WriteData(spec_address_byte(addr, Direction::Send)),
        RegOp::ReadStatus(ack.0),
        RegOp::ClearAddress,
    ]);
    let c4 = checks(m0, l, budget);
    assert(c4.1 =~= c3.1 + seq![RegOp::ReadStatus(nack.0)]);
}

/// `k` looks that all return `ack`.
pub open spec fn same_looks(ack: Look, k: nat) -> Seq<Look> {
    Seq::new(k, |i: int| ack)
}

/// The register accesses of an acknowledged write of `bytes` to `addr`, up
/// to the point where it awaits room for byte `j`, every status read
/// returning `ack`: the start wait, the master wait and the address, the
/// address wait and its clearing read, then for each byte sent the wait for
/// room, the byte, and the wait for its transfer.
pub open spec fn write_ops_upto(addr: u8, bytes: Seq<u8>, ack: Look, j: nat) -> Seq<RegOp>
    decreases j,
{
    if j == 0 {
        seq![
            RegOp::ReadStatus(ack.0),
            RegOp::ReadStatus(ack.0),
            RegOp::ReadMasterStatus(ack.1),
            RegOp::WriteData(spec_address_byte(addr, Direction::Send)),
            RegOp::ReadStatus(ack.0),
            RegOp::ClearAddress,
        ]
    } else {
        write_ops_upto(addr, bytes, ack, (j - 1) as nat) + seq![
            RegOp::ReadStatus(ack.0),
            RegOp::WriteData(bytes[j - 1]),
            RegOp::ReadStatus(ack.0),
        ]
    }
}

proof fn lemma_checks_write_rounds(addr: u8, bytes: Seq<u8>, ack: Look, budget: nat, j: nat)
    requires
        acknowledging(ack),
        j < bytes.len(),
    ensures
        checks(
            MachineView { state: State::Wait(Event::Started), txn: Some(write_view(addr, bytes)) },
            same_looks(ack, 3 + 2 * j),
            budget,
        ) == (
            ChecksState::Going(
                MachineView {
                    state: State::Wait(Event::ReadyForSend),
                    txn: Some(TransactionView { sent: j, ..write_view(addr, bytes) }),
                },
                0,
            ),
            write_ops_upto(addr, bytes, ack, j),
        ),
    decreases j,
{
    let t = write_view(addr, bytes);
    let m0 = MachineView { state: State::Wait(Event::Started), txn: Some(t) };
    if j == 0 {
        let l = same_looks(ack, 3);
        assert(l =~= seq![ack, ack, ack]);
        let m1 = MachineView { state: State::Wait(Event::MasterReady), txn: Some(t) };
        let m2 = MachineView { state: State::Wait(Event::AddressSent), txn: Some(t) };
        let l1 = seq![ack];
        let l2 = seq![ack, ack];
        assert(l.drop_last() =~= l2);
        assert(l2.drop_last() =~= l1);
        assert(l1.drop_last() =~= Seq::<Look>::empty());
        let c0 = checks(m0, Seq::<Look>::empty(), budget);
        assert(c0 == (ChecksState::Going(m0, 0), Seq::<RegOp>::empty()));
        assert(m0.after(Event::Started, ack.2).unwrap().0 == m1);
        assert(transition_reads(m0, Event::Started, ack.2) =~= Seq::<RegOp>::empty());
        let c1 = checks(m0, l1, budget);
        assert(c1.1 =~= seq![RegOp::ReadStatus(ack.0)]);
        let c2 = checks(m0, l2, budget);
        assert(c2.1 =~= seq![
            RegOp::ReadStatus(ack.0),
            RegOp::ReadStatus(ack.0),
            RegOp::ReadMasterStatus(ack.1),
            RegOp::WriteData(spec_address_byte(addr, Direction::Send)),
        ]);
        let c3 = checks(m0, l, budget);
        assert(c3.1 =~= write_ops_upto(addr, bytes, ack, 0));
        assert(TransactionView { sent: 0, ..t } == t);
    } else {
        lemma_checks_write_rounds(addr, bytes, ack, budget, (j - 1) as nat);
        let l = same_looks(ack, 3 + 2 * j);
        let la = same_looks(ack, (3 + 2 * j - 1) as nat);
        let lb = same_looks(ack, (3 + 2 * (j - 1)) as nat);
        assert(l.drop_last() =~= la);
        assert(la.drop_last() =~= lb);
        let tj1 = TransactionView { sent: (j - 1) as nat, ..t };
        let tj = TransactionView { sent: j, ..t };
        let ma = MachineView { state: State::Wait(Event::ReadyForSend), txn: Some(tj1) };
        let mb = MachineView { state: State::Wait(Event::Sent), txn: Some(tj) };
        assert(ma.after(Event::ReadyForSend, ack.2).unwrap().0 == mb);
        assert(transition_reads(ma, Event::ReadyForSend, ack.2) =~= Seq::<RegOp>::empty());
        let ca = checks(m0, la, budget);
        assert(ca.1 =~= write_ops_upto(addr, bytes, ack, (j - 1) as nat) + seq![
            RegOp::ReadStatus(ack.0),
            RegOp::WriteData(bytes[j - 1]),
        ]);
        assert(ca.0 == ChecksState::Going(mb, 0));
        assert(transition_reads(mb, Event::Sent, ack.2) =~= Seq::<RegOp>::empty());
        let c = checks(m0, l, budget);
        assert(c.1 =~= write_ops_upto(addr, bytes, ack, j));
    }
}

/// On a bus that acknowledges everything, `check_events` on a write of
/// `n >= 1` bytes, once its start condition is asked for, takes `3 + 2n`
/// looks, one per event: start, master, address, then for each byte room
/// and transfer. It ends idle with `Ok(true)` and every byte sent, having
/// written the address byte, then each byte in order, then one stop
/// condition.
pub proof fn lemma_checks_write(addr: u8, bytes: Seq<u8>, ack: Look, budget: nat)
    requires
        acknowledging(ack),
        bytes.len() >= 1,
    ensures
        checks(
            MachineView { state: State::Wait(Event::Started), txn: Some(write_view(addr, bytes)) },
            same_looks(ack, 3 + 2 * bytes.len()),
            budget,
        ) == (
            ChecksState::Done(
                MachineView {
                    state: State::Idle,
                    txn: Some(TransactionView { sent: bytes.len(), ..write_view(addr, bytes) }),
                },
                Ok(true),
            ),
            write_ops_upto(addr, bytes, ack, (bytes.len() - 1) as nat) + seq![
                RegOp::ReadStatus(ack.0),
                RegOp::WriteData(bytes[bytes.len() - 1]),
                RegOp::ReadStatus(ack.0),
                RegOp::Stop,
            ],
        ),
{
    let n = bytes.len();
    let j = (n - 1) as nat;
    lemma_checks_write_rounds(addr, bytes, ack, budget, j);
    let t = write_view(addr, bytes);
    let m0 = MachineView { state: State::Wait(Event::Started), txn: Some(t) };
    let l = same_looks(ack, 3 + 2 * n);
    let la = same_looks(ack, (3 + 2 * n - 1) as nat);
    let lb = same_looks(ack, 3 + 2 * j);
    assert(l.drop_last() =~= la);
    assert(la.drop_last() =~= lb);
    let tj1 = TransactionView { sent: j, ..t };
    let tn = TransactionView { sent: n, ..t };
    let ma = MachineView { state: State::Wait(Event::ReadyForSend), txn: Some(tj1) };
    let mb = MachineView { state: State::Wait(Event::Sent), txn: Some(tn) };
    assert(ma.after(Event::ReadyForSend, ack.2).unwrap().0 == mb);
    assert(transition_reads(ma, Event::ReadyForSend, ack.2) =~= Seq::<RegOp>::empty());
    let ca = checks(m0, la, budget);
    assert(ca.0 == ChecksState::Going(mb, 0));
    assert(transition_reads(mb, Event::Sent, ack.2) =~= Seq::<RegOp>::empty());
    let c = checks(m0, l, budget);
    assert(c.1 =~= write_ops_upto(addr, bytes, ack, j) + seq![
        RegOp::ReadStatus(ack.0),
        RegOp::WriteData(bytes[n - 1]),
        RegOp::ReadStatus(ack.0),
        RegOp::Stop,
    ]);
}

} // verus!
