//! The serial transport's transfer logic.
//!
//! A transfer is buffer-complete: a read into an N-byte buffer finishes
//! only when exactly N bytes have arrived, and a write of an N-byte buffer
//! only when all N bytes have been handed to the wire — never early, never
//! partially. The platform shell moves the bytes (per byte under the
//! interrupt, or in bulk through the batch-copy engine) and polls the
//! transfer for completion; the completion decision itself lives here.
//! A transfer fault is reported as a distinguishable error, and a bounded
//! retry policy says whether one more attempt is allowed.

use vstd::prelude::*;

verus! {

/// A fault reported by the wire during one transfer. The fault is local to
/// that transfer: the caller may retry it or give up.
#[derive(Clone, Copy, PartialEq, Eq, Structural, Debug)]
pub enum TransferError {
    /// A received byte was lost before it was picked up.
    Overrun,
    /// A received frame had an invalid stop bit.
    Framing,
}

/// How many times a failed transfer is retried before the fault is
/// treated as fatal.
pub const MAX_TRANSFER_RETRIES: u32 = 3;

/// Whether a transfer that has already failed `attempts` times may be
/// tried once more under the bounded retry policy.
pub fn should_retry(attempts: u32) -> (r: bool)
    ensures
        r <==> attempts < MAX_TRANSFER_RETRIES,
{
    attempts < MAX_TRANSFER_RETRIES
}

/// An in-flight read into a buffer of fixed size: the caller resumes only
/// once the buffer is entirely filled.
pub struct ReadTransfer {
    needed: usize,
    got: Vec<u8>,
}

impl ReadTransfer {
    /// How many bytes the caller asked for.
    pub closed spec fn spec_needed(&self) -> nat {
        self.needed as nat
    }

    /// The bytes received so far, in arrival order.
    pub closed spec fn spec_received(&self) -> Seq<u8> {
        self.got@
    }

    /// A read never holds more than it asked for.
    pub open spec fn wf(&self) -> bool {
        self.spec_received().len() <= self.spec_needed()
    }

    /// The transfer is complete exactly when every requested byte has
    /// arrived.
    pub open spec fn spec_complete(&self) -> bool {
        self.spec_received().len() == self.spec_needed()
    }

    /// Starts a read of exactly `needed` bytes.
    pub fn new(needed: usize) -> (t: ReadTransfer)
        ensures
            t.wf(),
            t.spec_needed() == needed,
            t.spec_received() == Seq::<u8>::empty(),
    {
        ReadTransfer { needed, got: Vec::new() }
    }

    /// Delivers one received byte into the buffer.
    pub fn feed(&mut self, b: u8)
        requires
            old(self).wf(),
            !old(self).spec_complete(),
        ensures
            final(self).wf(),
            final(self).spec_needed() == old(self).spec_needed(),
            final(self).spec_received() == old(self).spec_received().push(b),
    {
        self.got.push(b);
    }

    /// Delivers a batch of received bytes at once, as the bulk-copy engine
    /// does, provided they fit in what is still missing.
    pub fn feed_batch(&mut self, bytes: &Vec<u8>)
        requires
            old(self).wf(),
            old(self).spec_received().len() + bytes@.len() <= old(self).spec_needed(),
        ensures
            final(self).wf(),
            final(self).spec_needed() == old(self).spec_needed(),
            final(self).spec_received() == old(self).spec_received() + bytes@,
    {
        let mut i: usize = 0;
        while i < bytes.len()
            invariant
                i <= bytes@.len(),
                self.spec_needed() == old(self).spec_needed(),
                self.spec_received() =~= old(self).spec_received() + bytes@.take(i as int),
                old(self).spec_received().len() + bytes@.len() <= self.spec_needed(),
            decreases bytes@.len() - i,
        {
            proof {
                assert(bytes@.take(i + 1) =~= bytes@.take(i as int).push(bytes@[i as int]));
            }
            self.got.push(bytes[i]);
            i = i + 1;
        }
        proof {
            assert(self.spec_received() =~= old(self).spec_received() + bytes@);
        }
    }

    /// How many bytes are still missing.
    pub fn remaining(&self) -> (n: usize)
        requires
            self.wf(),
        ensures
            n == self.spec_needed() - self.spec_received().len(),
    {
        self.needed - self.got.len()
    }

    /// Whether the caller may resume: true exactly when every requested
    /// byte has arrived.
    pub fn is_complete(&self) -> (r: bool)
        ensures
            r <==> self.spec_complete(),
    {
        self.got.len() == self.needed
    }

    /// Hands the filled buffer to the caller. Only a complete transfer can
    /// be taken, so the caller never sees a partially filled buffer.
    pub fn take(self) -> (r: Vec<u8>)
        requires
            self.spec_complete(),
        ensures
            r@ == self.spec_received(),
            r@.len() == self.spec_needed(),
    {
        self.got
    }
}

/// An in-flight write of a whole buffer: the caller resumes only once
/// every byte has been handed to the wire.
pub struct WriteTransfer {
    data: Vec<u8>,
    sent: usize,
}

impl WriteTransfer {
    /// The bytes this transfer was asked to send.
    pub closed spec fn spec_data(&self) -> Seq<u8> {
        self.data@
    }

    /// How many of them have been handed to the wire so far.
    pub closed spec fn spec_sent(&self) -> nat {
        self.sent as nat
    }

    /// Never more handed out than there is to send.
    pub open spec fn wf(&self) -> bool {
        self.spec_sent() <= self.spec_data().len()
    }

    /// The transfer is complete exactly when every byte of the buffer has
    /// been handed to the wire.
    pub open spec fn spec_complete(&self) -> bool {
        self.spec_sent() == self.spec_data().len()
    }

    /// Starts a write of the whole of `data`.
    pub fn new(data: Vec<u8>) -> (t: WriteTransfer)
        ensures
            t.wf(),
            t.spec_data() == data@,
            t.spec_sent() == 0,
    {
        WriteTransfer { data, sent: 0 }
    }

    /// Hands the next byte to the wire, in buffer order.
    pub fn next_byte(&mut self) -> (b: u8)
        requires
            old(self).wf(),
            !old(self).spec_complete(),
        ensures
            final(self).wf(),
            final(self).spec_data() == old(self).spec_data(),
            final(self).spec_sent() == old(self).spec_sent() + 1,
            b == old(self).spec_data()[old(self).spec_sent() as int],
    {
        let n = self.data.len();
        let b = self.data[self.sent];
        assert(self.sent < n);
        self.sent = self.sent + 1;
        b
    }

    /// Hands the next `k` bytes to the wire at once, as the bulk-copy
    /// engine does.
    pub fn drain_batch(&mut self, k: usize) -> (r: Vec<u8>)
        requires
            old(self).wf(),
            old(self).spec_sent() + k <= old(self).spec_data().len(),
        ensures
            final(self).wf(),
            final(self).spec_data() == old(self).spec_data(),
            final(self).spec_sent() == old(self).spec_sent() + k,
            r@ == old(self).spec_data().subrange(
                old(self).spec_sent() as int,
                old(self).spec_sent() + k,
            ),
    {
        let mut r: Vec<u8> = Vec::new();
        let start = self.sent;
        let mut i: usize = 0;
        while i < k
            invariant
                i <= k,
                self.sent == start + i,
                start + k <= self.spec_data().len(),
                self.spec_data() == old(self).spec_data(),
                self.wf(),
                r@ =~= self.spec_data().subrange(start as int, start + i),
            decreases k - i,
        {
            proof {
                assert(self.spec_data().subrange(start as int, start + i + 1)
                    =~= self.spec_data().subrange(start as int, start + i).push(
                    self.spec_data()[start + i],
                ));
            }
            let b = self.next_byte();
            r.push(b);
            i = i + 1;
        }
        r
    }

    /// Whether the caller may resume: true exactly when the whole buffer
    /// has been handed to the wire.
    pub fn is_complete(&self) -> (r: bool)
        ensures
            r <==> self.spec_complete(),
    {
        self.sent == self.data.len()
    }
}

/// Settles one read attempt from what the wire reported: a fault is
/// surfaced to the caller unchanged, so it can retry or give up, and only
/// a fault-free transfer — complete by then — yields the filled buffer.
pub fn finish_read(t: ReadTransfer, fault: Option<TransferError>) -> (r: Result<
    Vec<u8>,
    TransferError,
>)
    requires
        fault is None ==> t.spec_complete(),
    ensures
        fault matches Some(e) ==> (r matches Err(x) && x == e),
        fault is None ==> (r matches Ok(buf) && buf@ == t.spec_received() && buf@.len()
            == t.spec_needed()),
{
    match fault {
        Some(e) => Err(e),
        None => Ok(t.take()),
    }
}

/// Settles one write attempt from what the wire reported: a fault is
/// surfaced to the caller unchanged; a fault-free attempt — complete by
/// then — succeeds.
pub fn finish_write(t: &WriteTransfer, fault: Option<TransferError>) -> (r: Result<
    (),
    TransferError,
>)
    requires
        fault is None ==> t.spec_complete(),
    ensures
        fault matches Some(e) ==> (r matches Err(x) && x == e),
        fault is None ==> r is Ok,
{
    match fault {
        Some(e) => Err(e),
        None => Ok(()),
    }
}

/// The echo rule of the serial examples: what was read is written back
/// unchanged.
pub fn echo_response(buf: &Vec<u8>) -> (r: Vec<u8>)
    ensures
        r@ == buf@,
{
    let mut r: Vec<u8> = Vec::new();
    let mut i: usize = 0;
    while i < buf.len()
        invariant
            i <= buf@.len(),
            r@ =~= buf@.take(i as int),
        decreases buf@.len() - i,
    {
        proof {
            assert(buf@.take(i + 1) =~= buf@.take(i as int).push(buf@[i as int]));
        }
        r.push(buf[i]);
        i = i + 1;
    }
    proof {
        assert(r@ =~= buf@);
    }
    r
}

} // verus!
