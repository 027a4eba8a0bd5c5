use vstd::prelude::*;

use crate::gpio::{Floating, Input, Output, Pin, PushPull};
use crate::io::{read_into, NoError, Read, Write};
use crate::poll::Poll;
use crate::waker::EmbrioWaker;

verus! {

/// The size of the transmit queue.
pub const TX_QUEUE: usize = 8;

/// A serial port, as the driver sees it: the received byte and the
/// "byte received" / "byte sent" events as its interrupt handler records them,
/// a queue of bytes waiting to be sent, and the bytes written to the
/// transmit register so far.
///
/// A write hands the first byte to the transmitter at once and queues up to
/// [`TX_QUEUE`] more; each "byte sent" event moves the next queued byte to the
/// transmitter, and with the queue empty it marks the transmitter ready again.
pub struct Uart {
    rx_ready: bool,
    rxd: u8,
    rx_waiting: bool,
    tx_ready: bool,
    tx_buffer: Vec<u8>,
    to_send: usize,
    sent: usize,
    tx_waiting: bool,
    txd: Vec<u8>,
    pseltxd: u32,
    pselrxd: u32,
    baudrate: u32,
    enabled: bool,
    taken: Ghost<Seq<u8>>,
}

impl Uart {
    /// The internal state is consistent.
    pub closed spec fn inv(&self) -> bool {
        &&& self.tx_buffer@.len() == TX_QUEUE
        &&& self.sent <= self.to_send <= TX_QUEUE
    }

    /// The received byte that has not been read yet.
    pub closed spec fn received(&self) -> Option<u8> {
        if self.rx_ready {
            Some(self.rxd)
        } else {
            None
        }
    }

    /// The bytes written to the transmit register, in order.
    pub closed spec fn transmitted(&self) -> Seq<u8> {
        self.txd@
    }

    /// The bytes waiting in the transmit queue.
    pub closed spec fn queued(&self) -> Seq<u8> {
        self.tx_buffer@.subrange(self.sent as int, self.to_send as int)
    }

    /// The transmitter can take a new write.
    pub closed spec fn tx_idle(&self) -> bool {
        self.tx_ready
    }

    /// A reader waits for a received byte.
    pub closed spec fn rx_waiting(&self) -> bool {
        self.rx_waiting
    }

    /// A writer waits for the transmitter.
    pub closed spec fn tx_waiting(&self) -> bool {
        self.tx_waiting
    }

    /// The port is enabled.
    pub closed spec fn is_enabled(&self) -> bool {
        self.enabled
    }

    /// `after` has the transmit side of `self`: the same transmitted and
    /// queued bytes, idle flag and waiting writer.
    pub open spec fn same_tx(&self, after: Uart) -> bool {
        &&& after.inv()
        &&& after.transmitted() == self.transmitted()
        &&& after.queued() == self.queued()
        &&& after.tx_idle() == self.tx_idle()
        &&& after.tx_waiting() == self.tx_waiting()
        &&& after.is_enabled() == self.is_enabled()
    }

    /// `after` has the receive side of `self`: the same received byte and
    /// waiting reader.
    pub open spec fn same_rx(&self, after: Uart) -> bool {
        &&& after.received() == self.received()
        &&& after.rx_waiting() == self.rx_waiting()
    }

    /// The port, disabled, with nothing received or sent.
    pub fn new() -> (r: Uart)
        ensures
            r.inv(),
            r.received() is None,
            r.transmitted() == Seq::<u8>::empty(),
            r.queued() == Seq::<u8>::empty(),
            !r.tx_idle(),
            !r.is_enabled(),
    {
        Uart {
            rx_ready: false,
            rxd: 0,
            rx_waiting: false,
            tx_ready: false,
            tx_buffer: vec![0u8; TX_QUEUE],
            to_send: 0,
            sent: 0,
            tx_waiting: false,
            txd: Vec::new(),
            pseltxd: 0,
            pselrxd: 0,
            baudrate: 0,
            enabled: false,
            taken: Ghost(Seq::empty()),
        }
    }

    /// Connects the port to its pins, sets the baud rate register value and
    /// enables it. A zero byte is sent to start the transmitter: its "byte
    /// sent" event makes the transmitter ready for the first write.
    pub fn init<'a>(&mut self, txpin: &Pin<'a, Output<PushPull>>, rxpin: &Pin<'a, Input<Floating>>, baudrate: u32)
        requires
            old(self).inv(),
        ensures
            final(self).inv(),
            final(self).is_enabled(),
            final(self).transmitted() == old(self).transmitted().push(0),
            final(self).received() == old(self).received(),
            final(self).queued() == old(self).queued(),
            final(self).tx_idle() == old(self).tx_idle(),
    {
        self.txd.push(0);
        self.pseltxd = txpin.get_id() as u32;
        self.pselrxd = rxpin.get_id() as u32;
        self.baudrate = baudrate;
        self.enabled = true;
    }

    /// The interrupt handler: `rx` is the byte received, if the "byte
    /// received" event is set; `tx` tells whether the "byte sent" event is
    /// set. A waiting reader or writer has the token signalled.
    pub fn interrupt(&mut self, rx: Option<u8>, tx: bool, waker: &mut EmbrioWaker)
        requires
            old(self).inv(),
        ensures
            final(self).inv(),
            final(self).rx_waiting() == old(self).rx_waiting(),
            final(self).tx_waiting() == old(self).tx_waiting(),
            final(self).is_enabled() == old(self).is_enabled(),
            final(self).received() == match rx {
                Some(b) => Some(b),
                None => old(self).received(),
            },
            tx && old(self).queued().len() > 0 ==> {
                &&& final(self).transmitted() == old(self).transmitted().push(old(self).queued()[0])
                &&& final(self).queued() == old(self).queued().skip(1)
                &&& final(self).tx_idle() == old(self).tx_idle()
            },
            tx && old(self).queued().len() == 0 ==> {
                &&& final(self).transmitted() == old(self).transmitted()
                &&& final(self).queued() == old(self).queued()
                &&& final(self).tx_idle()
            },
            !tx ==> {
                &&& final(self).transmitted() == old(self).transmitted()
                &&& final(self).queued() == old(self).queued()
                &&& final(self).tx_idle() == old(self).tx_idle()
            },
            (rx is Some && old(self).rx_waiting()) || (tx && old(self).queued().len() == 0 && old(self).tx_waiting())
                ==> final(waker).is_signalled(),
            !((rx is Some && old(self).rx_waiting()) || (tx && old(self).queued().len() == 0 && old(
                self,
            ).tx_waiting())) ==> *final(waker) == *old(waker),
            old(waker).is_signalled() ==> final(waker).is_signalled(),
    {
        match rx {
            Some(b) => {
                self.rx_ready = true;
                self.rxd = b;
                if self.rx_waiting {
                    waker.wake();
                }
            },
            None => {},
        }
        if tx {
            if self.sent < self.to_send {
                let b = self.tx_buffer[self.sent];
                self.txd.push(b);
                self.sent = self.sent + 1;
                assert(self.tx_buffer@.subrange(self.sent as int, self.to_send as int) =~= old(self).queued().skip(1));
            } else {
                self.tx_ready = true;
                if self.tx_waiting {
                    waker.wake();
                }
            }
        }
    }

    /// Stops the transmitter and disables the port.
    pub fn stop(&mut self)
        requires
            old(self).inv(),
        ensures
            final(self).inv(),
            !final(self).is_enabled(),
            final(self).transmitted() == old(self).transmitted(),
    {
        self.enabled = false;
        self.tx_waiting = false;
        self.rx_waiting = false;
        self.pseltxd = 0;
        self.pselrxd = 0;
        self.baudrate = 0;
    }
}

/// How many bytes a write of `n` bytes to an idle transmitter takes: the
/// first, and as many more as the queue holds.
pub open spec fn write_taken(n: nat) -> nat {
    if n == 0 {
        0
    } else if n - 1 < TX_QUEUE {
        n
    } else {
        TX_QUEUE as nat + 1
    }
}

impl Read for Uart {
    type Error = NoError;

    open spec fn wf(&self) -> bool {
        self.inv()
    }

    /// One received byte, when there is one; nothing into an empty buffer.
    open spec fn next_read(&self, len: nat) -> Option<Result<Seq<u8>, NoError>> {
        if len == 0 {
            Some(Ok(Seq::<u8>::empty()))
        } else {
            match self.received() {
                Some(b) => Some(Ok(seq![b])),
                None => None,
            }
        }
    }

    /// A byte read clears the received byte and the waiting reader; a read
    /// that suspends leaves a waiting reader. The transmit side is left alone.
    open spec fn read_leaves(&self, len: nat, after: Uart) -> bool {
        &&& self.same_tx(after)
        &&& if len == 0 {
            self.same_rx(after)
        } else if self.received() is Some {
            after.received() is None && !after.rx_waiting()
        } else {
            after.received() is None && after.rx_waiting()
        }
    }

    fn poll_read(&mut self, waker: &mut EmbrioWaker, buf: &mut [u8]) -> (r: Poll<Result<usize, NoError>>) {
        if buf.len() == 0 {
            assert(buf@ =~= read_into(old(buf)@, Seq::<u8>::empty()));
            return Poll::Ready(Ok(0));
        }
        if self.rx_ready {
            self.rx_ready = false;
            buf[0] = self.rxd;
            self.rx_waiting = false;
            assert(buf@ =~= read_into(old(buf)@, seq![self.rxd]));
            Poll::Ready(Ok(1))
        } else {
            self.rx_waiting = true;
            Poll::Pending
        }
    }
}

impl Write for Uart {
    type Error = NoError;

    open spec fn wf(&self) -> bool {
        self.inv()
    }

    open spec fn next_write(&self, data: Seq<u8>) -> Option<Result<usize, NoError>> {
        if data.len() == 0 {
            Some(Ok(0))
        } else if self.tx_idle() {
            Some(Ok(write_taken(data.len()) as usize))
        } else {
            None
        }
    }

    /// A write to an idle transmitter sends the first byte, queues the
    /// ones it takes after it and makes the transmitter busy; a write that
    /// suspends leaves a waiting writer and the queue as it was. The receive
    /// side is left alone.
    open spec fn write_leaves(&self, data: Seq<u8>, after: Uart) -> bool {
        &&& after.inv()
        &&& self.same_rx(after)
        &&& after.is_enabled() == self.is_enabled()
        &&& if data.len() == 0 {
            self.same_tx(after)
        } else if self.tx_idle() {
            &&& after.transmitted() == self.transmitted().push(data[0])
            &&& after.queued() == data.subrange(1, write_taken(data.len()) as int)
            &&& !after.tx_idle()
            &&& !after.tx_waiting()
        } else {
            &&& after.transmitted() == self.transmitted()
            &&& after.queued() == self.queued()
            &&& !after.tx_idle()
            &&& after.tx_waiting()
        }
    }

    closed spec fn taken(&self) -> Seq<u8> {
        self.taken@
    }

    open spec fn next_flush(&self) -> Option<Result<(), NoError>> {
        if self.tx_idle() {
            Some(Ok(()))
        } else {
            None
        }
    }

    open spec fn next_close(&self) -> Option<Result<(), NoError>> {
        Some(Ok(()))
    }

    fn poll_write(&mut self, waker: &mut EmbrioWaker, buf: &[u8]) -> (r: Poll<Result<usize, NoError>>) {
        if buf.len() == 0 {
            assert(self.taken@ + buf@.take(0) =~= self.taken@);
            return Poll::Ready(Ok(0));
        }
        if self.tx_ready {
            let length = if buf.len() - 1 < TX_QUEUE {
                buf.len() - 1
            } else {
                TX_QUEUE
            };
            self.tx_ready = false;
            let mut i: usize = 0;
            while i < length
                invariant
                    length <= TX_QUEUE,
                    length + 1 <= buf@.len(),
                    self.tx_buffer@.len() == TX_QUEUE,
                    0 <= i <= length,
                    forall|j: int| 0 <= j < i ==> self.tx_buffer@[j] == buf@[j + 1],
                    self.txd == old(self).txd,
                    self.taken == old(self).taken,
                    self.rx_ready == old(self).rx_ready,
                    self.rxd == old(self).rxd,
                    self.rx_waiting == old(self).rx_waiting,
                    self.enabled == old(self).enabled,
                    !self.tx_ready,
                decreases length - i,
            {
                self.tx_buffer.set(i, buf[i + 1]);
                i = i + 1;
            }
            self.to_send = length;
            self.sent = 0;
            self.tx_waiting = false;
            self.txd.push(buf[0]);
            assert(self.queued() =~= buf@.subrange(1, length + 1));
            proof {
                self.taken@ = self.taken@ + buf@.take(length + 1);
            }
            Poll::Ready(Ok(length + 1))
        } else {
            self.tx_waiting = true;
            Poll::Pending
        }
    }

    fn poll_flush(&mut self, waker: &mut EmbrioWaker) -> (r: Poll<Result<(), NoError>>) {
        if self.tx_ready {
            self.tx_waiting = false;
            Poll::Ready(Ok(()))
        } else {
            self.tx_waiting = true;
            Poll::Pending
        }
    }

    fn poll_close(&mut self, waker: &mut EmbrioWaker) -> (r: Poll<Result<(), NoError>>) {
        self.tx_waiting = false;
        Poll::Ready(Ok(()))
    }
}

} // verus!
