//! The shared delay cell.
//!
//! One word-sized value is written by the button task and read by the
//! blinker task. Because the value fits in one atomically updatable machine
//! word, a read can never observe a torn value: it returns the most recent
//! completed write, or the initial value when nothing has been written yet.
//! The cell records its write history as ghost state, and the interleaving
//! model below states the atomicity law over every schedule of one writer
//! and one reader.

use vstd::prelude::*;

verus! {

/// A cross-task cell holding one word-sized value. The ghost history holds
/// the initial value followed by every value written, in order.
pub struct StateCell {
    value: u32,
    hist: Ghost<Seq<u32>>,
}

impl StateCell {
    /// The initial value followed by every completed write, in order.
    pub closed spec fn history(&self) -> Seq<u32> {
        self.hist@
    }

    /// The value the cell holds now: the last completed write.
    pub open spec fn current(&self) -> u32
        recommends
            self.wf(),
    {
        self.history().last()
    }

    /// The stored word always equals the last entry of the history.
    pub closed spec fn wf(&self) -> bool {
        self.hist@.len() > 0 && self.value == self.hist@.last()
    }

    /// Creates the cell with its initial value.
    pub fn new(init: u32) -> (c: StateCell)
        ensures
            c.wf(),
            c.history() == seq![init],
            c.current() == init,
    {
        let ghost h = seq![init];
        StateCell { value: init, hist: Ghost(h) }
    }

    /// Stores a value. The store is a single word-sized write, so no reader
    /// can observe it half done; the history grows by exactly this value.
    pub fn write(&mut self, v: u32)
        requires
            old(self).wf(),
        ensures
            final(self).wf(),
            final(self).history() == old(self).history().push(v),
            final(self).current() == v,
    {
        self.value = v;
        self.hist = Ghost(self.hist@.push(v));
    }

    /// Loads the value. Never blocks and never observes a partial write:
    /// the result is exactly the last completed write.
    pub fn read(&self) -> (v: u32)
        requires
            self.wf(),
        ensures
            v == self.current(),
    {
        self.value
    }
}

/// One step of an interleaving of the writer task and the reader task.
#[derive(Clone, Copy, PartialEq, Eq, Structural, Debug)]
pub enum CellOp {
    /// The writer completes a write of this value.
    Write(u32),
    /// The reader performs a read.
    Read,
}

/// The value the cell holds after the whole interleaving `ops` has run,
/// starting from `init`: the argument of the last write, or `init` when
/// no write has happened.
pub open spec fn value_after(init: u32, ops: Seq<CellOp>) -> u32
    decreases ops.len(),
{
    if ops.len() == 0 {
        init
    } else {
        match ops.last() {
            CellOp::Write(v) => v,
            CellOp::Read => value_after(init, ops.drop_last()),
        }
    }
}

/// What the read at position `k` of the interleaving returns, or `None`
/// when position `k` is a write.
pub open spec fn read_result(init: u32, ops: Seq<CellOp>, k: int) -> Option<u32>
    recommends
        0 <= k < ops.len(),
{
    match ops[k] {
        CellOp::Read => Some(value_after(init, ops.take(k))),
        CellOp::Write(_) => None,
    }
}

/// Runs an arbitrary interleaving of one writer and one reader against a
/// real cell and reports, for each step, what the reader saw there. Every
/// read returns exactly the value of the last write completed before it.
pub fn run_interleaving(init: u32, ops: &Vec<CellOp>) -> (r: Vec<Option<u32>>)
    ensures
        r@.len() == ops@.len(),
        forall|k: int| 0 <= k < ops@.len() ==> r@[k] == read_result(init, ops@, k),
{
    let mut cell = StateCell::new(init);
    let mut r: Vec<Option<u32>> = Vec::new();
    let mut i: usize = 0;
    while i < ops.len()
        invariant
            i <= ops@.len(),
            r@.len() == i,
            cell.wf(),
            cell.current() == value_after(init, ops@.take(i as int)),
            forall|k: int| 0 <= k < i ==> r@[k] == read_result(init, ops@, k),
        decreases ops@.len() - i,
    {
        proof {
            assert(ops@.take(i + 1).drop_last() =~= ops@.take(i as int));
            assert(ops@.take(i + 1).last() == ops@[i as int]);
        }
        match ops[i] {
            CellOp::Write(v) => {
                cell.write(v);
                r.push(None);
            },
            CellOp::Read => {
                let v = cell.read();
                r.push(Some(v));
            },
        }
        i = i + 1;
    }
    r
}

/// Atomicity law: in every interleaving of one writer and one reader,
/// each read observes either the initial value or the argument of some
/// write completed earlier in the interleaving — never a mixture.
pub proof fn lemma_read_observes_completed_write(init: u32, ops: Seq<CellOp>, k: int)
    requires
        0 <= k < ops.len(),
        ops[k] is Read,
    ensures
        read_result(init, ops, k) == Some(value_after(init, ops.take(k))),
        value_after(init, ops.take(k)) == init || exists|i: int|
            0 <= i < k && ops[i] == CellOp::Write(value_after(init, ops.take(k))),
{
    lemma_value_after_is_init_or_written(init, ops.take(k));
    let v = value_after(init, ops.take(k));
    if v != init {
        let i = choose|i: int| 0 <= i < ops.take(k).len() && ops.take(k)[i] == CellOp::Write(v);
        assert(ops[i] == CellOp::Write(v));
    }
}

/// After any interleaving the cell holds the initial value or the argument
/// of one of its writes.
proof fn lemma_value_after_is_init_or_written(init: u32, ops: Seq<CellOp>)
    ensures
        value_after(init, ops) == init || exists|i: int|
            0 <= i < ops.len() && ops[i] == CellOp::Write(value_after(init, ops)),
    decreases ops.len(),
{
    if ops.len() > 0 {
        match ops.last() {
            CellOp::Write(v) => {
                assert(ops[ops.len() - 1] == CellOp::Write(value_after(init, ops)));
            },
            CellOp::Read => {
                lemma_value_after_is_init_or_written(init, ops.drop_last());
                let v = value_after(init, ops.drop_last());
                if v != init {
                    let i = choose|i: int|
                        0 <= i < ops.drop_last().len() && ops.drop_last()[i] == CellOp::Write(v);
                    assert(ops[i] == CellOp::Write(v));
                }
            },
        }
    }
}

} // verus!
