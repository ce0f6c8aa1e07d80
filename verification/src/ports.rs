use std::sync::mpsc::Receiver;
use std::sync::mpsc::Sender;
use vstd::prelude::*;

verus! {

// The ports move data over one-way transports from std's mpsc channels. The
// endpoint types and the three calls the ports make are taken on trust; the
// transport's queue itself is shared mutable state between threads, so no
// contract here claims anything about which values a call finds queued.

#[verifier::external_type_specification]
#[verifier::external_body]
#[verifier::reject_recursive_types(T)]
pub struct ExSender<T>(Sender<T>);

#[verifier::external_type_specification]
#[verifier::external_body]
#[verifier::reject_recursive_types(T)]
pub struct ExReceiver<T>(Receiver<T>);

/// Relies on std::sync::mpsc::channel: the returned sender and receiver are
/// the two endpoints of one fresh one-way transport.
#[verifier::external_body]
fn make_transport<T>() -> (pair: (Sender<T>, Receiver<T>)) {
    std::sync::mpsc::channel()
}

/// Relies on std::sync::mpsc::Sender::send: it never blocks, and it queues the
/// value unless the receiving end has been dropped; that per-transport
/// delivery failure is surfaced here as `false`.
#[verifier::external_body]
fn send_value<T>(tx: &Sender<T>, value: T) -> (delivered: bool) {
    tx.send(value).is_ok()
}

/// Relies on std::sync::mpsc::Receiver::try_recv: it never blocks, and it
/// returns a queued value if one is waiting; an empty transport and one whose
/// sending end has been dropped both come back as `None`.
#[verifier::external_body]
fn try_receive<T>(rx: &Receiver<T>) -> (received: Option<T>) {
    rx.try_recv().ok()
}

/// Input port: the receiving end of any number of one-way transports
/// (fan-in), each added by `Output::connect`.
#[verifier::reject_recursive_types(T)]
pub struct Input<T> {
    rx: Vec<Receiver<T>>,
}

impl<T> Input<T> {
    /// The receiving endpoints, in connection order.
    pub closed spec fn transports(&self) -> Seq<Receiver<T>> {
        self.rx@
    }

    /// How many transports feed this port.
    pub open spec fn transport_count(&self) -> nat {
        self.transports().len()
    }

    pub fn connections(&self) -> (n: usize)
        ensures
            n == self.transport_count(),
    {
        self.rx.len()
    }

    /// Drain every currently queued value, transports visited in connection
    /// order and each transport's values kept in send order. Never blocks; a
    /// port with nothing queued yields an empty vector.
    pub fn fetch(&mut self) -> (data: Vec<T>)
        ensures
            *final(self) == *old(self),
            old(self).transport_count() == 0 ==> data@.len() == 0,
    {
        let ghost orig = *self;
        let mut data: Vec<T> = Vec::new();
        let n: usize = self.rx.len();
        let mut i: usize = 0;
        while i < n
            invariant
                i <= n,
                *self == orig,
                n == self.rx@.len(),
                n == 0 ==> data@.len() == 0,
            decreases n - i,
        {
            // Each transport is drained until it reports empty. The budget
            // keeps every cycle provably finite; it is far beyond any backlog
            // that could be held in memory, so in practice the drain always
            // ends on an empty transport.
            let mut budget: usize = usize::MAX;
            while budget > 0
                invariant
                    *self == orig,
                    i < n,
                    n == self.rx@.len(),
                decreases budget,
            {
                match try_receive(&self.rx[i]) {
                    Some(value) => {
                        data.push(value);
                        budget = budget - 1;
                    }
                    None => {
                        break;
                    }
                }
            }
            i = i + 1;
        }
        data
    }
}

impl<T> Default for Input<T> {
    /// A fresh port with no transport connected.
    fn default() -> (port: Self)
        ensures
            port.transport_count() == 0,
    {
        Input { rx: Vec::new() }
    }
}

/// Output port: the sending end of any number of one-way transports
/// (fan-out); a fired value is broadcast once per transport.
#[verifier::reject_recursive_types(T)]
pub struct Output<T: Clone> {
    tx: Vec<Sender<T>>,
    failed_deliveries: u64,
}

impl<T: Clone> Output<T> {
    /// The sending endpoints, in connection order.
    pub closed spec fn transports(&self) -> Seq<Sender<T>> {
        self.tx@
    }

    /// How many transports this port feeds.
    pub open spec fn transport_count(&self) -> nat {
        self.transports().len()
    }

    /// How many fired copies have been lost to a transport whose receiving
    /// end was already gone (saturating).
    pub closed spec fn failed_count(&self) -> u64 {
        self.failed_deliveries
    }

    pub fn connections(&self) -> (n: usize)
        ensures
            n == self.transport_count(),
    {
        self.tx.len()
    }

    /// How many fired copies were lost to a dropped receiving end so far.
    /// Delivery failures are runtime anomalies, observed rather than
    /// returned: callers read this counter and report through their own
    /// channel.
    pub fn failed_deliveries(&self) -> (n: u64)
        ensures
            n == self.failed_count(),
    {
        self.failed_deliveries
    }

    /// Create a fresh one-way transport from this output to `input`,
    /// appended after each side's existing transports, which stay untouched.
    /// Calling it again stacks a further, parallel transport: repeated
    /// connections are not deduplicated, and an endpoint may take part in
    /// many of them.
    pub fn connect(&mut self, input: &mut Input<T>)
        ensures
            final(self).transport_count() == old(self).transport_count() + 1,
            forall|j: int|
                0 <= j < old(self).transport_count() ==> final(self).transports()[j] == old(
                    self,
                ).transports()[j],
            final(self).failed_count() == old(self).failed_count(),
            final(input).transport_count() == old(input).transport_count() + 1,
            forall|j: int|
                0 <= j < old(input).transport_count() ==> final(input).transports()[j] == old(
                    input,
                ).transports()[j],
    {
        let (tx, rx) = make_transport();
        self.tx.push(tx);
        input.rx.push(rx);
    }

    /// Queue one clone of `value` on every connected transport, in connection
    /// order. A transport whose receiving end is gone misses its copy; the
    /// loss is confined to that connection, added to the failure counter so
    /// that callers can observe it, and the remaining transports still get
    /// theirs.
    pub fn fire(&mut self, value: T)
        ensures
            final(self).transports() == old(self).transports(),
            old(self).failed_count() <= final(self).failed_count(),
            final(self).failed_count() <= old(self).failed_count() + old(
                self,
            ).transport_count(),
    {
        let n: usize = self.tx.len();
        let mut i: usize = 0;
        while i < n
            invariant
                i <= n,
                self.tx@ == old(self).tx@,
                n == self.tx@.len(),
                old(self).failed_deliveries <= self.failed_deliveries,
                self.failed_deliveries <= old(self).failed_deliveries + i,
            decreases n - i,
        {
            let delivered = send_value(&self.tx[i], value.clone());
            if !delivered {
                self.failed_deliveries = self.failed_deliveries.saturating_add(1);
            }
            i = i + 1;
        }
    }
}

impl<T: Clone> Default for Output<T> {
    /// A fresh port with no transport connected and no delivery lost.
    fn default() -> (port: Self)
        ensures
            port.transport_count() == 0,
            port.failed_count() == 0,
    {
        Output { tx: Vec::new(), failed_deliveries: 0 }
    }
}

} // verus!
