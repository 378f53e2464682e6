//! One bus transaction: a device address, an optional outbound range and an
//! optional inbound range, each with its own cursor.
use vstd::prelude::*;
use vstd::slice::slice_to_vec;

verus! {

/// Which way data flows in the current phase of a transaction.
#[derive(Clone, Copy, Debug, PartialEq, Eq, Structural)]
pub enum Direction {
    Send,
    Receive,
}

/// What a transaction is, as a mathematical value.
pub struct TransactionView {
    pub addr: u8,
    /// The outbound range, if there is one.
    pub tx: Option<Seq<u8>>,
    /// The inbound range, if there is one.
    pub rx: Option<Seq<u8>>,
    /// Bytes taken from the outbound range so far.
    pub sent: nat,
    /// Bytes stored into the inbound range so far.
    pub received: nat,
}

pub open spec fn opt_len(s: Option<Seq<u8>>) -> nat {
    match s {
        Some(s) => s.len(),
        None => 0,
    }
}

impl TransactionView {
    pub open spec fn tx_len(self) -> nat {
        opt_len(self.tx)
    }

    pub open spec fn rx_len(self) -> nat {
        opt_len(self.rx)
    }

    /// Cursors stay within their ranges.
    pub open spec fn wf(self) -> bool {
        self.sent <= self.tx_len() && self.received <= self.rx_len()
    }

    pub open spec fn needs_sending(self) -> bool {
        self.sent < self.tx_len()
    }

    pub open spec fn needs_receiving(self) -> bool {
        self.received < self.rx_len()
    }

    pub open spec fn finished(self) -> bool {
        !self.needs_sending() && !self.needs_receiving()
    }

    /// Outbound bytes go first; the inbound range is filled after them.
    pub open spec fn mode(self) -> Option<Direction> {
        if self.needs_sending() {
            Some(Direction::Send)
        } else if self.needs_receiving() {
            Some(Direction::Receive)
        } else {
            None
        }
    }

    /// The byte `next_byte_for_send` hands out.
    pub open spec fn next_send(self) -> Option<u8> {
        if self.needs_sending() {
            Some(self.tx.unwrap()[self.sent as int])
        } else {
            None
        }
    }

    /// The transaction after `next_byte_for_send`.
    pub open spec fn after_send(self) -> TransactionView {
        if self.needs_sending() {
            TransactionView { sent: self.sent + 1, ..self }
        } else {
            self
        }
    }

    /// The transaction after `k` calls of `next_byte_for_send`.
    pub open spec fn sends(self, k: nat) -> TransactionView
        decreases k,
    {
        if k == 0 {
            self
        } else {
            self.sends((k - 1) as nat).after_send()
        }
    }

    /// What `save_recv_byte` returns.
    pub open spec fn store_result(self) -> Option<bool> {
        if self.needs_receiving() {
            Some(self.received + 1 == self.rx_len())
        } else {
            None
        }
    }

    /// The transaction after `save_recv_byte(byte)`.
    pub open spec fn after_store(self, byte: u8) -> TransactionView {
        if self.needs_receiving() {
            TransactionView {
                rx: Some(self.rx.unwrap().update(self.received as int, byte)),
                received: self.received + 1,
                ..self
            }
        } else {
            self
        }
    }

    /// The transaction after `save_recv_byte` on each of `bytes` in turn.
    pub open spec fn stores(self, bytes: Seq<u8>) -> TransactionView
        decreases bytes.len(),
    {
        if bytes.len() == 0 {
            self
        } else {
            self.stores(bytes.drop_last()).after_store(bytes.last())
        }
    }

    /// The same address and ranges, whatever the cursors and received bytes.
    pub open spec fn same_request(self, other: TransactionView) -> bool {
        &&& self.addr == other.addr
        &&& self.tx == other.tx
        &&& self.rx.is_some() == other.rx.is_some()
        &&& self.rx_len() == other.rx_len()
    }
}

/// A transaction over buffers that it owns while the bus works on it.
pub struct Transaction {
    addr: u8,
    tx_buf: Option<Vec<u8>>,
    rx_buf: Option<Vec<u8>>,
    tx_counter: usize,
    rx_counter: usize,
}

pub open spec fn opt_view(v: Option<Vec<u8>>) -> Option<Seq<u8>> {
    match v {
        Some(v) => Some(v@),
        None => None,
    }
}

/// Writes `byte` at `pos` of the buffer in `slot`.
fn store_at(slot: &mut Option<Vec<u8>>, pos: usize, byte: u8)
    requires
        old(slot).is_some(),
        pos < old(slot).unwrap()@.len(),
    ensures
        opt_view(*final(slot)) == Some(old(slot).unwrap()@.update(pos as int, byte)),
    no_unwind
{
    match slot {
        Some(buf) => {
            buf[pos] = byte;
        },
        None => {},
    }
}

impl View for Transaction {
    type V = TransactionView;

    closed spec fn view(&self) -> TransactionView {
        TransactionView {
            addr: self.addr,
            tx: opt_view(self.tx_buf),
            rx: opt_view(self.rx_buf),
            sent: self.tx_counter as nat,
            received: self.rx_counter as nat,
        }
    }
}

impl Transaction {
    /// Cursors never pass the ends of their ranges.
    #[verifier::type_invariant]
    spec fn inv(self) -> bool {
        self@.wf()
    }

    /// Every transaction is well formed.
    pub fn well_formed(&self)
        ensures
            self@.wf(),
    {
        proof {
            use_type_invariant(self);
        }
    }

    fn new(addr: u8, tx_buf: Option<Vec<u8>>, rx_buf: Option<Vec<u8>>) -> (r: Self)
        requires
            (TransactionView { addr, tx: opt_view(tx_buf), rx: opt_view(rx_buf), sent: 0, received: 0 }).wf(),
        ensures
            r@.addr == addr,
            r@.tx == opt_view(tx_buf),
            r@.rx == opt_view(rx_buf),
            r@.sent == 0,
            r@.received == 0,
    {
        Transaction { addr, tx_buf, rx_buf, tx_counter: 0, rx_counter: 0 }
    }

    /// A transaction that sends `buf` to `addr`.
    pub fn write(addr: u8, buf: &[u8]) -> (r: Self)
        ensures
            r@ == (TransactionView { addr, tx: Some(buf@), rx: None, sent: 0, received: 0 }),
            r@.wf(),
    {
        Self::new(addr, Some(slice_to_vec(buf)), None)
    }

    /// A transaction that reads from `addr` until `buf` is full; received
    /// bytes overwrite `buf` from its start.
    pub fn read(addr: u8, buf: Vec<u8>) -> (r: Self)
        ensures
            r@ == (TransactionView { addr, tx: None, rx: Some(buf@), sent: 0, received: 0 }),
            r@.wf(),
    {
        Self::new(addr, None, Some(buf))
    }

    /// A transaction that sends `tx_buf` to `addr`, then reads from it until
    /// `rx_buf` is full.
    pub fn write_read(addr: u8, tx_buf: &[u8], rx_buf: Vec<u8>) -> (r: Self)
        ensures
            r@ == (TransactionView {
                addr,
                tx: Some(tx_buf@),
                rx: Some(rx_buf@),
                sent: 0,
                received: 0,
            }),
            r@.wf(),
    {
        Self::new(addr, Some(slice_to_vec(tx_buf)), Some(rx_buf))
    }

    /// The device address, seven bits.
    pub fn addr(&self) -> (r: u8)
        ensures
            r == self@.addr,
    {
        self.addr
    }

    /// Whether the transaction has an outbound range.
    pub fn write_on(&self) -> (r: bool)
        ensures
            r == self@.tx.is_some(),
    {
        self.tx_buf.is_some()
    }

    /// Whether the transaction has an inbound range.
    pub fn read_on(&self) -> (r: bool)
        ensures
            r == self@.rx.is_some(),
    {
        self.rx_buf.is_some()
    }

    pub fn is_finish(&self) -> (r: bool)
        ensures
            r == self@.finished(),
    {
        !(self.need_sending() || self.need_receiving())
    }

    pub fn mode(&self) -> (r: Option<Direction>)
        ensures
            r == self@.mode(),
    {
        if self.need_sending() {
            Some(Direction::Send)
        } else if self.need_receiving() {
            Some(Direction::Receive)
        } else {
            None
        }
    }

    pub fn need_sending(&self) -> (r: bool)
        ensures
            r == self@.needs_sending(),
    {
        match &self.tx_buf {
            Some(buf) => self.tx_counter < buf.len(),
            None => false,
        }
    }

    pub fn need_receiving(&self) -> (r: bool)
        ensures
            r == self@.needs_receiving(),
    {
        match &self.rx_buf {
            Some(buf) => self.rx_counter < buf.len(),
            None => false,
        }
    }

    /// Takes the next outbound byte and moves the cursor past it, or returns
    /// `None` when every outbound byte has been taken.
    pub fn next_byte_for_send(&mut self) -> (r: Option<u8>)
        ensures
            final(self)@.wf(),
            r == old(self)@.next_send(),
            final(self)@ == old(self)@.after_send(),
    {
        proof {
            use_type_invariant(&*self);
        }
        match &self.tx_buf {
            Some(buf) => {
                if self.tx_counter < buf.len() {
                    let byte = buf[self.tx_counter];
                    self.tx_counter = self.tx_counter + 1;
                    Some(byte)
                } else {
                    None
                }
            },
            None => None,
        }
    }

    /// Stores `byte` at the inbound cursor and moves the cursor on. Returns
    /// whether the inbound range is now full, or `None`, changing nothing,
    /// when no slot was left.
    pub fn save_recv_byte(&mut self, byte: u8) -> (r: Option<bool>)
        ensures
            final(self)@.wf(),
            r == old(self)@.store_result(),
            final(self)@ == old(self)@.after_store(byte),
    {
        proof {
            use_type_invariant(&*self);
        }
        let pos = self.rx_counter;
        let len = match &self.rx_buf {
            Some(buf) => buf.len(),
            None => {
                return None;
            },
        };
        if pos < len {
            store_at(&mut self.rx_buf, pos, byte);
            self.rx_counter = pos + 1;
            Some(pos + 1 >= len)
        } else {
            None
        }
    }

    /// The inbound range, empty when there is none.
    pub fn received(&self) -> (r: &[u8])
        ensures
            r@ == match self@.rx {
                Some(s) => s,
                None => Seq::<u8>::empty(),
            },
    {
        match &self.rx_buf {
            Some(buf) => buf.as_slice(),
            None => &[],
        }
    }
}

/// The transaction that `write(addr, bytes)` makes.
pub open spec fn write_view(addr: u8, bytes: Seq<u8>) -> TransactionView {
    TransactionView { addr, tx: Some(bytes), rx: None, sent: 0, received: 0 }
}

/// The transaction that `read(addr, buf)` makes.
pub open spec fn read_view(addr: u8, buf: Seq<u8>) -> TransactionView {
    TransactionView { addr, tx: None, rx: Some(buf), sent: 0, received: 0 }
}

/// A transaction made by `write` needs sending for exactly as many calls of
/// `next_byte_for_send` as it has bytes, which hand the bytes out in order;
/// after them it needs no sending and each further call returns `None`. It
/// never needs receiving.
pub proof fn lemma_write_sends_each_byte(addr: u8, bytes: Seq<u8>, k: nat)
    ensures
        write_view(addr, bytes).sends(k).needs_sending() <==> k < bytes.len(),
        k < bytes.len() ==> write_view(addr, bytes).sends(k).next_send() == Some(bytes[k as int]),
        k >= bytes.len() ==> write_view(addr, bytes).sends(k).next_send() is None
            && write_view(addr, bytes).sends(k).after_send() == write_view(addr, bytes).sends(k),
        !write_view(addr, bytes).sends(k).needs_receiving(),
    decreases k,
{
    lemma_sends_count(write_view(addr, bytes), k);
}

/// After `k` calls of `next_byte_for_send` the cursor stands at `k`, or at
/// the end of the range, and nothing else has changed.
pub proof fn lemma_sends_count(t: TransactionView, k: nat)
    requires
        t.wf(),
        t.sent == 0,
    ensures
        t.sends(k) == (TransactionView { sent: if k < t.tx_len() { k } else { t.tx_len() }, ..t }),
    decreases k,
{
    if k > 0 {
        lemma_sends_count(t, (k - 1) as nat);
    }
}

/// In a transaction made by `read`, `save_recv_byte` returns `Some(false)`
/// on every call before the one that fills the last slot, `Some(true)` on
/// that call, and `None` after it, with nothing changed. The range then
/// holds the stored bytes.
pub proof fn lemma_read_store_fills(addr: u8, buf: Seq<u8>, bytes: Seq<u8>)
    ensures
        bytes.len() < buf.len() ==> read_view(addr, buf).stores(bytes).store_result() == Some(
            bytes.len() + 1 == buf.len(),
        ),
        bytes.len() >= buf.len() ==> read_view(addr, buf).stores(bytes).store_result() is None,
        bytes.len() >= buf.len() ==> forall|b: u8|
            #[trigger] read_view(addr, buf).stores(bytes).after_store(b) == read_view(addr, buf).stores(bytes),
        bytes.len() == buf.len() ==> read_view(addr, buf).stores(bytes).rx == Some(bytes),
    decreases bytes.len(),
{
    lemma_stores_prefix(read_view(addr, buf), bytes);
    if bytes.len() == buf.len() {
        assert(read_view(addr, buf).stores(bytes).rx.unwrap() =~= bytes);
    }
}

/// After `save_recv_byte` on each of `bytes`, the first of them, up to the
/// range's length, stand at the front of the range and the cursor is past
/// them.
pub proof fn lemma_stores_prefix(t: TransactionView, bytes: Seq<u8>)
    requires
        t.rx.is_some(),
        t.received == 0,
    ensures
        t.stores(bytes).received == if bytes.len() < t.rx_len() { bytes.len() } else { t.rx_len() },
        t.stores(bytes).rx.is_some(),
        t.stores(bytes).rx_len() == t.rx_len(),
        t.stores(bytes).tx == t.tx,
        t.stores(bytes).sent == t.sent,
        forall|i: int|
            0 <= i < t.stores(bytes).received ==> #[trigger] t.stores(bytes).rx.unwrap()[i] == bytes[i],
        forall|i: int|
            t.stores(bytes).received <= i < t.rx_len() ==> #[trigger] t.stores(bytes).rx.unwrap()[i]
                == t.rx.unwrap()[i],
    decreases bytes.len(),
{
    if bytes.len() > 0 {
        let prev = bytes.drop_last();
        lemma_stores_prefix(t, prev);
        assert forall|i: int| 0 <= i < prev.len() implies prev[i] == bytes[i] by {}
    }
}

/// Outbound bytes come first: a transaction is in its receive phase only
/// once no outbound byte is left.
pub proof fn lemma_receive_after_send(t: TransactionView)
    ensures
        t.mode() == Some(Direction::Receive) ==> !t.needs_sending(),
        t.needs_sending() ==> t.mode() == Some(Direction::Send),
{
}

} // verus!
