//! The fixed-capacity message frame.
//!
//! Outbound status text is built in a byte buffer of fixed capacity. A
//! write that would overflow the frame is reported as an error and leaves
//! the frame unchanged — content is never silently truncated. The status
//! message itself is the counter's decimal digits, zero-padded to width
//! two, followed by a newline.

use vstd::prelude::*;

verus! {

/// Appending would have overflowed the frame's capacity; the frame was
/// left unchanged.
#[derive(Clone, Copy, PartialEq, Eq, Structural, Debug)]
pub struct CapacityError;

/// The bytes of the status message for counter value `v`: its decimal
/// digits, zero-padded to width two, followed by a newline.
pub open spec fn counter_message(v: u8) -> Seq<u8> {
    if v < 10 {
        seq![48u8, (48 + v) as u8, 10u8]
    } else if v < 100 {
        seq![(48 + v / 10) as u8, (48 + v % 10) as u8, 10u8]
    } else {
        seq![(48 + v / 100) as u8, (48 + (v / 10) % 10) as u8, (48 + v % 10) as u8, 10u8]
    }
}

/// Formats the status message for counter value `v`.
pub fn format_counter(v: u8) -> (r: Vec<u8>)
    ensures
        r@ == counter_message(v),
        r@.len() <= 4,
{
    let mut r: Vec<u8> = Vec::new();
    if v < 10 {
        r.push(48);
        r.push(48 + v);
        r.push(10);
    } else if v < 100 {
        r.push(48 + v / 10);
        r.push(48 + v % 10);
        r.push(10);
    } else {
        r.push(48 + v / 100);
        r.push(48 + (v / 10) % 10);
        r.push(48 + v % 10);
        r.push(10);
    }
    proof {
        assert(r@ =~= counter_message(v));
    }
    r
}

/// A byte buffer of fixed capacity, used to assemble one outbound message.
pub struct Frame {
    cap: usize,
    buf: Vec<u8>,
}

impl View for Frame {
    type V = Seq<u8>;

    /// The bytes the frame holds, in order.
    closed spec fn view(&self) -> Seq<u8> {
        self.buf@
    }
}

impl Frame {
    /// The fixed capacity the frame was created with.
    pub closed spec fn spec_capacity(&self) -> nat {
        self.cap as nat
    }

    /// The frame never holds more bytes than its capacity.
    pub open spec fn wf(&self) -> bool {
        self@.len() <= self.spec_capacity()
    }

    /// Creates an empty frame of capacity `cap` bytes.
    pub fn new(cap: usize) -> (f: Frame)
        ensures
            f.wf(),
            f@ == Seq::<u8>::empty(),
            f.spec_capacity() == cap,
    {
        Frame { cap, buf: Vec::new() }
    }

    /// The number of bytes currently in the frame.
    pub fn len(&self) -> (n: usize)
        ensures
            n == self@.len(),
    {
        self.buf.len()
    }

    /// The frame's capacity in bytes.
    pub fn capacity(&self) -> (n: usize)
        ensures
            n == self.spec_capacity(),
    {
        self.cap
    }

    /// Empties the frame for the next message.
    pub fn clear(&mut self)
        ensures
            final(self).wf(),
            final(self)@ == Seq::<u8>::empty(),
            final(self).spec_capacity() == old(self).spec_capacity(),
    {
        self.buf.clear();
    }

    /// The assembled bytes, for handing to the transport.
    pub fn as_bytes(&self) -> (r: &Vec<u8>)
        ensures
            r@ == self@,
    {
        &self.buf
    }

    /// Appends one byte, or reports an error and leaves the frame
    /// unchanged when it is full.
    pub fn push_byte(&mut self, b: u8) -> (r: Result<(), CapacityError>)
        requires
            old(self).wf(),
        ensures
            final(self).wf(),
            final(self).spec_capacity() == old(self).spec_capacity(),
            old(self)@.len() < old(self).spec_capacity() ==> r is Ok
                && final(self)@ == old(self)@.push(b),
            old(self)@.len() >= old(self).spec_capacity() ==> r is Err
                && final(self)@ == old(self)@,
    {
        if self.buf.len() < self.cap {
            self.buf.push(b);
            Ok(())
        } else {
            Err(CapacityError)
        }
    }

    /// Appends all of `bytes`, or reports an error and leaves the frame
    /// unchanged when they would not fit. Nothing is ever truncated.
    pub fn extend_from(&mut self, bytes: &Vec<u8>) -> (r: Result<(), CapacityError>)
        requires
            old(self).wf(),
        ensures
            final(self).wf(),
            final(self).spec_capacity() == old(self).spec_capacity(),
            old(self)@.len() + bytes@.len() <= old(self).spec_capacity() ==> r is Ok
                && final(self)@ == old(self)@ + bytes@,
            old(self)@.len() + bytes@.len() > old(self).spec_capacity() ==> r is Err
                && final(self)@ == old(self)@,
    {
        if bytes.len() <= self.cap - self.buf.len() {
            let mut i: usize = 0;
            while i < bytes.len()
                invariant
                    i <= bytes@.len(),
                    self@.len() == old(self)@.len() + i,
                    self@ =~= old(self)@ + bytes@.take(i as int),
                    self.spec_capacity() == old(self).spec_capacity(),
                    old(self)@.len() + bytes@.len() <= self.spec_capacity(),
                decreases bytes@.len() - i,
            {
                self.buf.push(bytes[i]);
                proof {
                    assert(bytes@.take(i + 1) =~= bytes@.take(i as int).push(bytes@[i as int]));
                }
                i = i + 1;
            }
            proof {
                assert(self@ =~= old(self)@ + bytes@);
            }
            Ok(())
        } else {
            Err(CapacityError)
        }
    }

    /// Formats the status message for counter value `v` into the frame,
    /// after whatever the frame already holds. Reports an error and leaves
    /// the frame unchanged when the message would not fit.
    pub fn write_counter(&mut self, v: u8) -> (r: Result<(), CapacityError>)
        requires
            old(self).wf(),
        ensures
            final(self).wf(),
            final(self).spec_capacity() == old(self).spec_capacity(),
            old(self)@.len() + counter_message(v).len() <= old(self).spec_capacity() ==> r is Ok
                && final(self)@ == old(self)@ + counter_message(v),
            old(self)@.len() + counter_message(v).len() > old(self).spec_capacity() ==> r is Err
                && final(self)@ == old(self)@,
    {
        let bytes = format_counter(v);
        self.extend_from(&bytes)
    }
}

} // verus!
