//! The bus protocol as a state machine: start condition, address phase, data
//! phase, stop condition. Each transition is a pure function of the awaited
//! event, the transaction and, for a received byte, the byte; what it asks of
//! the hardware comes back as a `Command`.
use vstd::prelude::*;
use crate::transaction::{Direction, Transaction, TransactionView, write_view};

verus! {

/// A hardware event, in the order the protocol produces them.
#[derive(Clone, Copy, Debug, PartialEq, Eq, Structural)]
pub enum Event {
    /// The start condition was generated.
    Started,
    /// The controller holds the bus.
    MasterReady,
    /// The address phase completed.
    AddressSent,
    /// The data register can take a byte.
    ReadyForSend,
    /// The byte was transferred.
    Sent,
    /// A received byte waits in the data register.
    ReadyForRecv,
}

/// Where the protocol stands.
#[derive(Clone, Copy, Debug, PartialEq, Eq, Structural)]
pub enum State {
    Idle,
    Wait(Event),
}

/// Bus errors.
#[derive(Clone, Copy, Debug, PartialEq, Eq, Structural)]
pub enum Error {
    /// A byte arrived before the previous one was read.
    Overrun,
    /// The device did not acknowledge the address or a byte.
    NotAcknowledged,
    /// The hardware saw a misplaced start or stop condition.
    BusError,
    /// Another master won the bus.
    ArbitrationLost,
    /// A wait ran out of its budget, or the hardware reported a timeout.
    Timeout,
    /// No new event yet; poll again.
    WouldBlock,
    /// No transaction, or an event that the protocol does not await now.
    InvalidState,
}

/// The flags of the first status register.
#[derive(Clone, Copy, Debug, PartialEq, Eq, Structural)]
pub struct Status {
    pub start_bit: bool,
    pub address_sent: bool,
    pub byte_transferred: bool,
    pub tx_empty: bool,
    pub rx_not_empty: bool,
    pub acknowledge_failure: bool,
    pub overrun: bool,
    pub arbitration_lost: bool,
    pub bus_error: bool,
    pub timeout: bool,
}

/// The flags of the second status register.
#[derive(Clone, Copy, Debug, PartialEq, Eq, Structural)]
pub struct MasterStatus {
    pub master: bool,
    pub busy: bool,
}

/// What a transition asks of the hardware.
#[derive(Clone, Copy, Debug, PartialEq, Eq, Structural)]
pub enum Command {
    Nothing,
    /// Generate a start condition; with `ack`, acknowledge received bytes.
    Start { ack: bool },
    /// Generate a stop condition.
    Stop,
    /// Write a byte to the data register.
    WriteData(u8),
}

/// The error that a status reports, the first of: acknowledge failure,
/// overrun, arbitration lost, bus error, timeout.
pub open spec fn spec_status_error(s: Status) -> Option<Error> {
    if s.acknowledge_failure {
        Some(Error::NotAcknowledged)
    } else if s.overrun {
        Some(Error::Overrun)
    } else if s.arbitration_lost {
        Some(Error::ArbitrationLost)
    } else if s.bus_error {
        Some(Error::BusError)
    } else if s.timeout {
        Some(Error::Timeout)
    } else {
        None
    }
}

/// Whether the first status register shows `evt`; `MasterReady` is shown by
/// the second register instead.
pub open spec fn spec_event_flag(evt: Event, s: Status) -> bool {
    match evt {
        Event::Started => s.start_bit,
        Event::MasterReady => false,
        Event::AddressSent => s.address_sent,
        Event::ReadyForSend => s.tx_empty,
        Event::Sent => s.byte_transferred,
        Event::ReadyForRecv => s.rx_not_empty,
    }
}

/// The controller holds the bus once the master or the busy flag is set.
/// Both rise together after a start condition; the busy flag stays set for
/// as long as the controller drives the bus.
pub open spec fn spec_master_ready(m: MasterStatus) -> bool {
    m.master || m.busy
}

/// The byte of the address phase: the address shifted left by one, with the
/// low bit set for a read.
pub open spec fn spec_address_byte(addr: u8, dir: Direction) -> u8 {
    ((addr as int * 2 + if dir == Direction::Receive { 1int } else { 0 }) % 256) as u8
}

/// The start of a phase: a start condition, acknowledging when receiving.
pub open spec fn spec_start_command(dir: Direction) -> Command {
    Command::Start { ack: dir == Direction::Receive }
}

pub fn status_error(s: Status) -> (r: Option<Error>)
    ensures
        r == spec_status_error(s),
{
    if s.acknowledge_failure {
        Some(Error::NotAcknowledged)
    } else if s.overrun {
        Some(Error::Overrun)
    } else if s.arbitration_lost {
        Some(Error::ArbitrationLost)
    } else if s.bus_error {
        Some(Error::BusError)
    } else if s.timeout {
        Some(Error::Timeout)
    } else {
        None
    }
}

pub fn event_flag(evt: Event, s: Status) -> (r: bool)
    ensures
        r == spec_event_flag(evt, s),
{
    match evt {
        Event::Started => s.start_bit,
        Event::MasterReady => false,
        Event::AddressSent => s.address_sent,
        Event::ReadyForSend => s.tx_empty,
        Event::Sent => s.byte_transferred,
        Event::ReadyForRecv => s.rx_not_empty,
    }
}

pub fn master_ready(m: MasterStatus) -> (r: bool)
    ensures
        r == spec_master_ready(m),
{
    m.master || m.busy
}

pub fn address_byte(addr: u8, dir: Direction) -> (r: u8)
    ensures
        r == spec_address_byte(addr, dir),
{
    let bit: u16 = match dir {
        Direction::Send => 0,
        Direction::Receive => 1,
    };
    ((addr as u16 * 2 + bit) % 256) as u8
}

/// The outcome of one transition: the new state, the transaction after it,
/// what to ask of the hardware, and whether the transaction is done.
pub struct Step {
    pub state: State,
    pub txn: TransactionView,
    pub command: Command,
    pub finished: bool,
}

/// The transition on `evt` in state `Wait(evt)` over a transaction `t`;
/// `data` is the received byte, read only on `ReadyForRecv`. `None` where
/// the protocol forbids the transition.
pub open spec fn spec_transition(evt: Event, t: TransactionView, data: u8) -> Option<Step> {
    match evt {
        Event::Started => Some(
            Step { state: State::Wait(Event::MasterReady), txn: t, command: Command::Nothing, finished: false },
        ),
        Event::MasterReady => match t.mode() {
            Some(dir) => Some(
                Step {
                    state: State::Wait(Event::AddressSent),
                    txn: t,
                    command: Command::WriteData(spec_address_byte(t.addr, dir)),
                    finished: false,
                },
            ),
            None => None,
        },
        Event::AddressSent => match t.mode() {
            Some(Direction::Send) => Some(
                Step { state: State::Wait(Event::ReadyForSend), txn: t, command: Command::Nothing, finished: false },
            ),
            Some(Direction::Receive) => Some(
                Step { state: State::Wait(Event::ReadyForRecv), txn: t, command: Command::Nothing, finished: false },
            ),
            None => None,
        },
        Event::ReadyForSend => if t.needs_sending() {
            Some(
                Step {
                    state: State::Wait(Event::Sent),
                    txn: TransactionView { sent: t.sent + 1, ..t },
                    command: Command::WriteData(t.tx.unwrap()[t.sent as int]),
                    finished: false,
                },
            )
        } else {
            None
        },
        Event::Sent => if t.needs_sending() {
            Some(
                Step { state: State::Wait(Event::ReadyForSend), txn: t, command: Command::Nothing, finished: false },
            )
        } else if t.needs_receiving() {
            Some(
                Step {
                    state: State::Wait(Event::Started),
                    txn: t,
                    command: spec_start_command(Direction::Receive),
                    finished: false,
                },
            )
        } else {
            Some(Step { state: State::Idle, txn: t, command: Command::Stop, finished: true })
        },
        Event::ReadyForRecv => if t.needs_receiving() {
            let t2 = TransactionView {
                rx: Some(t.rx.unwrap().update(t.received as int, data)),
                received: t.received + 1,
                ..t
            };
            if t2.needs_receiving() {
                Some(Step { state: State::Wait(Event::ReadyForRecv), txn: t2, command: Command::Nothing, finished: false })
            } else {
                Some(Step { state: State::Idle, txn: t2, command: Command::Stop, finished: true })
            }
        } else {
            None
        },
    }
}

/// The protocol's progress over one transaction.
pub struct Machine {
    state: State,
    txn: Option<Transaction>,
}

/// What a machine is, as a mathematical value.
pub struct MachineView {
    pub state: State,
    pub txn: Option<TransactionView>,
}

impl View for Machine {
    type V = MachineView;

    closed spec fn view(&self) -> MachineView {
        MachineView {
            state: self.state,
            txn: match self.txn {
                Some(t) => Some(t@),
                None => None,
            },
        }
    }
}

impl MachineView {
    pub open spec fn wf(self) -> bool {
        match self.txn {
            Some(t) => t.wf(),
            None => true,
        }
    }

    /// Whether the state machine awaits `evt` over a transaction.
    pub open spec fn awaits(self, evt: Event) -> bool {
        self.state == State::Wait(evt) && self.txn.is_some()
    }

    /// The machine after the transition on `evt`, where there is one.
    pub open spec fn after(self, evt: Event, data: u8) -> Option<(MachineView, Step)> {
        if self.awaits(evt) {
            match spec_transition(evt, self.txn.unwrap(), data) {
                Some(step) => Some((MachineView { state: step.state, txn: Some(step.txn) }, step)),
                None => None,
            }
        } else {
            None
        }
    }
}

impl Machine {
    pub fn new() -> (r: Machine)
        ensures
            r@.state == State::Idle,
            r@.txn.is_none(),
    {
        Machine { state: State::Idle, txn: None }
    }

    pub fn state(&self) -> (r: State)
        ensures
            r == self@.state,
    {
        self.state
    }

    /// The stored transaction is well formed.
    pub fn well_formed(&self)
        ensures
            self@.wf(),
    {
        if let Some(t) = &self.txn {
            t.well_formed();
        }
    }

    pub fn awaits(&self, evt: Event) -> (r: bool)
        ensures
            r == self@.awaits(evt),
    {
        self.txn.is_some() && match self.state {
            State::Idle => false,
            State::Wait(e) => e == evt,
        }
    }

    /// Whether a transaction is stored and has nothing left to do.
    pub fn is_finished(&self) -> (r: bool)
        ensures
            r == (self@.txn is Some && self@.txn.unwrap().finished()),
    {
        match &self.txn {
            Some(t) => t.is_finish(),
            None => false,
        }
    }

    pub fn has_transaction(&self) -> (r: bool)
        ensures
            r == self@.txn.is_some(),
    {
        self.txn.is_some()
    }

    /// Stores `txn` in place of any earlier one and returns to `Idle`.
    pub fn load(&mut self, txn: Transaction)
        ensures
            final(self)@.state == State::Idle,
            final(self)@.txn == Some(txn@),
            final(self)@.wf(),
    {
        txn.well_formed();
        self.state = State::Idle;
        self.txn = Some(txn);
    }

    /// Hands the transaction out, leaving none and awaiting nothing.
    pub fn take(&mut self) -> (r: Option<Transaction>)
        ensures
            final(self)@.state == State::Idle,
            final(self)@.txn.is_none(),
            match r {
                Some(t) => old(self)@.txn == Some(t@),
                None => old(self)@.txn.is_none(),
            },
    {
        self.state = State::Idle;
        self.txn.take()
    }

    /// Begins the next phase of the stored transaction: asks for a start
    /// condition and awaits it.
    pub fn begin(&mut self) -> (r: Result<Command, Error>)
        ensures
            old(self)@.wf() ==> final(self)@.wf(),
            match old(self)@.txn {
                Some(t) => match t.mode() {
                    Some(dir) => r == Ok::<Command, Error>(spec_start_command(dir))
                        && final(self)@ == (MachineView { state: State::Wait(Event::Started), txn: Some(t) }),
                    None => r == Err::<Command, Error>(Error::InvalidState) && final(self)@ == old(self)@,
                },
                None => r == Err::<Command, Error>(Error::InvalidState) && final(self)@ == old(self)@,
            },
    {
        match &self.txn {
            Some(t) => match t.mode() {
                Some(dir) => {
                    self.state = State::Wait(Event::Started);
                    Ok(Command::Start { ack: dir == Direction::Receive })
                },
                None => Err(Error::InvalidState),
            },
            None => Err(Error::InvalidState),
        }
    }
    /// Performs the transition on `evt`, with `data` the received byte where
    /// the event is `ReadyForRecv`. An event that is not the awaited one, or
    /// a transition that the transaction does not allow, changes nothing and
    /// gives `InvalidState`.
    pub fn handle(&mut self, evt: Event, data: u8) -> (r: Result<(Command, bool), Error>)
        ensures
            old(self)@.wf() ==> final(self)@.wf(),
            match old(self)@.after(evt, data) {
                Some((m, step)) => r == Ok::<(Command, bool), Error>((step.command, step.finished))
                    && final(self)@ == m,
                None => r == Err::<(Command, bool), Error>(Error::InvalidState) && final(self)@ == old(self)@,
            },
    {
        match self.state {
            State::Idle => {
                return Err(Error::InvalidState);
            },
            State::Wait(awaited) => {
                if awaited != evt {
                    return Err(Error::InvalidState);
                }
            },
        }
        let txn = match &mut self.txn {
            Some(t) => t,
            None => {
                return Err(Error::InvalidState);
            },
        };
        match evt {
            Event::Started => {
                self.state = State::Wait(Event::MasterReady);
                Ok((Command::Nothing, false))
            },
            Event::MasterReady => match txn.mode() {
                Some(dir) => {
                    let byte = address_byte(txn.addr(), dir);
                    self.state = State::Wait(Event::AddressSent);
                    Ok((Command::WriteData(byte), false))
                },
                None => Err(Error::InvalidState),
            },
            Event::AddressSent => match txn.mode() {
                Some(Direction::Send) => {
                    self.state = State::Wait(Event::ReadyForSend);
                    Ok((Command::Nothing, false))
                },
                Some(Direction::Receive) => {
                    self.state = State::Wait(Event::ReadyForRecv);
                    Ok((Command::Nothing, false))
                },
                None => Err(Error::InvalidState),
            },
            Event::ReadyForSend => match txn.next_byte_for_send() {
                Some(byte) => {
                    self.state = State::Wait(Event::Sent);
                    Ok((Command::WriteData(byte), false))
                },
                None => Err(Error::InvalidState),
            },
            Event::Sent => {
                if txn.need_sending() {
                    self.state = State::Wait(Event::ReadyForSend);
                    Ok((Command::Nothing, false))
                } else if txn.need_receiving() {
                    self.state = State::Wait(Event::Started);
                    Ok((Command::Start { ack: true }, false))
                } else {
                    self.state = State::Idle;
                    Ok((Command::Stop, true))
                }
            },
            Event::ReadyForRecv => match txn.save_recv_byte(data) {
                Some(true) => {
                    self.state = State::Idle;
                    Ok((Command::Stop, true))
                },
                Some(false) => {
                    self.state = State::Wait(Event::ReadyForRecv);
                    Ok((Command::Nothing, false))
                },
                None => Err(Error::InvalidState),
            },
        }
    }
}

/// Bytes still to send and to receive.
pub open spec fn to_send(t: TransactionView) -> nat {
    (t.tx_len() - t.sent) as nat
}

pub open spec fn to_receive(t: TransactionView) -> nat {
    (t.rx_len() - t.received) as nat
}

/// Transitions that a read phase, not yet started, still takes.
pub open spec fn read_phase_cost(t: TransactionView) -> nat {
    if to_receive(t) > 0 { 3 + to_receive(t) } else { 0 }
}

/// Transitions left after the address phase.
pub open spec fn data_cost(t: TransactionView) -> nat {
    if to_send(t) > 0 { 2 * to_send(t) + read_phase_cost(t) } else { to_receive(t) }
}

/// An upper bound on the transitions left before the machine is idle; each
/// transition lowers it.
pub open spec fn progress(m: MachineView) -> nat {
    match m.txn {
        None => 0,
        Some(t) => match m.state {
            State::Idle => 0,
            State::Wait(Event::Started) => 3 + data_cost(t),
            State::Wait(Event::MasterReady) => 2 + data_cost(t),
            State::Wait(Event::AddressSent) => 1 + data_cost(t),
            State::Wait(Event::ReadyForSend) => 2 * to_send(t) + read_phase_cost(t),
            State::Wait(Event::Sent) => 1 + 2 * to_send(t) + read_phase_cost(t),
            State::Wait(Event::ReadyForRecv) => to_receive(t),
        },
    }
}

impl MachineView {
    /// The awaited event fits the transaction: every awaited event can be
    /// taken. In particular a byte is awaited from the device only once
    /// every outbound byte has gone.
    pub open spec fn consistent(self) -> bool {
        &&& self.wf()
        &&& match self.txn {
            None => self.state == State::Idle,
            Some(t) => match self.state {
                State::Idle => true,
                State::Wait(Event::Started) => t.mode().is_some(),
                State::Wait(Event::MasterReady) => t.mode().is_some(),
                State::Wait(Event::AddressSent) => t.mode().is_some(),
                State::Wait(Event::ReadyForSend) => t.needs_sending(),
                State::Wait(Event::Sent) => true,
                State::Wait(Event::ReadyForRecv) => t.needs_receiving() && !t.needs_sending(),
            },
        }
    }
}

/// Every transition lowers `progress`, so a run of transitions ends.
pub proof fn lemma_transition_progress(m: MachineView, evt: Event, data: u8)
    requires
        m.wf(),
        m.after(evt, data).is_some(),
    ensures
        progress(m.after(evt, data).unwrap().0) < progress(m),
        m.wf() ==> m.after(evt, data).unwrap().0.wf(),
        m.after(evt, data).unwrap().1.finished <==> m.after(evt, data).unwrap().0.state == State::Idle,
        m.after(evt, data).unwrap().0.txn.unwrap().same_request(m.txn.unwrap()),
{
}

/// From a consistent machine the awaited event always has a transition, and
/// the machine stays consistent.
pub proof fn lemma_transition_consistent(m: MachineView, evt: Event, data: u8)
    requires
        m.consistent(),
        m.awaits(evt),
    ensures
        m.after(evt, data).is_some(),
        m.after(evt, data).unwrap().0.consistent(),
        m.after(evt, data).unwrap().1.finished ==> m.after(evt, data).unwrap().0.txn.unwrap().finished(),
{
}

/// The machine after the transitions on `events` in turn, with `data` as
/// any received byte; `None` where one of the events is not the awaited one
/// or has no transition.
pub open spec fn run_events(m: MachineView, events: Seq<Event>, data: u8) -> Option<MachineView>
    decreases events.len(),
{
    if events.len() == 0 {
        Some(m)
    } else {
        match m.after(events[0], data) {
            Some((next, _)) => run_events(next, events.subrange(1, events.len() as int), data),
            None => None,
        }
    }
}

/// `k` rounds of: ready for a byte, byte sent.
pub open spec fn send_rounds(k: nat) -> Seq<Event>
    decreases k,
{
    if k == 0 {
        Seq::empty()
    } else {
        seq![Event::ReadyForSend, Event::Sent] + send_rounds((k - 1) as nat)
    }
}

/// The events of a write of `n` bytes, from its start condition on.
pub open spec fn write_events(n: nat) -> Seq<Event> {
    seq![Event::Started, Event::MasterReady, Event::AddressSent] + send_rounds(n)
}

proof fn lemma_send_rounds(t: TransactionView, k: nat, data: u8)
    requires
        t.tx is Some,
        t.rx is None,
        k >= 1,
        t.sent + k == t.tx_len(),
    ensures
        run_events(MachineView { state: State::Wait(Event::ReadyForSend), txn: Some(t) }, send_rounds(k), data)
            == Some(MachineView { state: State::Idle, txn: Some(TransactionView { sent: t.tx_len(), ..t }) }),
    decreases k,
{
    let m0 = MachineView { state: State::Wait(Event::ReadyForSend), txn: Some(t) };
    let e = send_rounds(k);
    let rest = send_rounds((k - 1) as nat);
    let t1 = TransactionView { sent: t.sent + 1, ..t };
    let m1 = MachineView { state: State::Wait(Event::Sent), txn: Some(t1) };
    assert(e[0] == Event::ReadyForSend);
    assert(m0.after(Event::ReadyForSend, data).unwrap().0 == m1);
    let e1 = e.subrange(1, e.len() as int);
    assert(e1 =~= seq![Event::Sent] + rest);
    assert(e1[0] == Event::Sent);
    let e2 = e1.subrange(1, e1.len() as int);
    assert(e2 =~= rest);
    assert(run_events(m0, e, data) == run_events(m1, e1, data));
    if k == 1 {
        let done = MachineView { state: State::Idle, txn: Some(TransactionView { sent: t.tx_len(), ..t }) };
        assert(m1.after(Event::Sent, data).unwrap().0 == done);
        assert(rest.len() == 0);
        assert(run_events(m1, e1, data) == run_events(done, e2, data));
        assert(run_events(done, e2, data) == Some(done));
    } else {
        let m2 = MachineView { state: State::Wait(Event::ReadyForSend), txn: Some(t1) };
        assert(m1.after(Event::Sent, data).unwrap().0 == m2);
        assert(run_events(m1, e1, data) == run_events(m2, e2, data));
        lemma_send_rounds(t1, (k - 1) as nat, data);
    }
}

/// On a bus that acknowledges everything, a write of `n >= 1` bytes, once its
/// start condition is asked for, takes exactly the transitions on
/// `Started`, `MasterReady`, `AddressSent` and then `n` rounds of
/// `ReadyForSend`, `Sent`, each on the awaited event, and ends idle with
/// every byte sent. (An early `Idle` would leave a later event unawaited.)
pub proof fn lemma_write_run(addr: u8, bytes: Seq<u8>, data: u8)
    requires
        bytes.len() >= 1,
    ensures
        run_events(
            MachineView { state: State::Wait(Event::Started), txn: Some(write_view(addr, bytes)) },
            write_events(bytes.len()),
            data,
        ) == Some(
            MachineView {
                state: State::Idle,
                txn: Some(TransactionView { sent: bytes.len(), ..write_view(addr, bytes) }),
            },
        ),
{
    let t = write_view(addr, bytes);
    let e = write_events(bytes.len());
    let rounds = send_rounds(bytes.len());
    let m0 = MachineView { state: State::Wait(Event::Started), txn: Some(t) };
    let m1 = MachineView { state: State::Wait(Event::MasterReady), txn: Some(t) };
    let m2 = MachineView { state: State::Wait(Event::AddressSent), txn: Some(t) };
    let m3 = MachineView { state: State::Wait(Event::ReadyForSend), txn: Some(t) };
    assert(e[0] == Event::Started);
    assert(m0.after(Event::Started, data).unwrap().0 == m1);
    let e1 = e.subrange(1, e.len() as int);
    assert(e1 =~= seq![Event::MasterReady, Event::AddressSent] + rounds);
    assert(e1[0] == Event::MasterReady);
    assert(m1.after(Event::MasterReady, data).unwrap().0 == m2);
    let e2 = e1.subrange(1, e1.len() as int);
    assert(e2 =~= seq![Event::AddressSent] + rounds);
    assert(e2[0] == Event::AddressSent);
    assert(m2.after(Event::AddressSent, data).unwrap().0 == m3);
    let e3 = e2.subrange(1, e2.len() as int);
    assert(e3 =~= rounds);
    assert(run_events(m0, e, data) == run_events(m1, e1, data));
    assert(run_events(m1, e1, data) == run_events(m2, e2, data));
    assert(run_events(m2, e2, data) == run_events(m3, e3, data));
    lemma_send_rounds(t, bytes.len(), data);
}

/// While an outbound byte is left, no byte has been received: every
/// transition keeps that so, takes a byte in only once every outbound byte
/// has gone, and sends a byte only while none has been received.
pub proof fn lemma_send_before_receive(m: MachineView, evt: Event, data: u8)
    requires
        m.consistent(),
        m.after(evt, data) is Some,
        m.txn.unwrap().needs_sending() ==> m.txn.unwrap().received == 0,
    ensures
        ({
            let t = m.txn.unwrap();
            let t2 = m.after(evt, data).unwrap().0.txn.unwrap();
            &&& t2.needs_sending() ==> t2.received == 0
            &&& t2.received > t.received ==> !t.needs_sending()
            &&& t2.sent > t.sent ==> t.received == 0
        }),
{
}

} // verus!
