//! The asynchronous transmit operation as a state machine: at each step it
//! is handed the flags register value read just before, and either writes the
//! next byte, suspends until woken, or completes with the count written.
use vstd::prelude::*;
use crate::regs::tx_full;

verus! {

/// What one step of a transmit asks of the caller.
#[derive(Clone, Copy, Debug, PartialEq, Eq, Structural)]
pub enum TxStep {
    /// Write this byte to the data register, then step again.
    Write(u8),
    /// The transmit FIFO is full: a wake-up is registered; yield until woken.
    Pending,
    /// Every byte has been written; the count of bytes transmitted.
    Ready(usize),
}

/// The step taken at cursor `index` of `data` when the flags read `flags`.
pub open spec fn tx_step(data: Seq<u8>, index: int, flags: u32) -> TxStep {
    if index >= data.len() {
        TxStep::Ready(index as usize)
    } else if tx_full(flags) {
        TxStep::Pending
    } else {
        TxStep::Write(data[index])
    }
}

/// The cursor after that step: it advances exactly when a byte is written.
pub open spec fn tx_next(data: Seq<u8>, index: int, flags: u32) -> int {
    if index < data.len() && !tx_full(flags) {
        index + 1
    } else {
        index
    }
}

/// The steps taken from cursor `index`, one per flags reading in `flags`,
/// up to and including completion.
pub open spec fn tx_trace(data: Seq<u8>, index: int, flags: Seq<u32>) -> Seq<TxStep>
    decreases flags.len(),
{
    if flags.len() == 0 {
        seq![]
    } else {
        let s = tx_step(data, index, flags[0]);
        if s is Ready {
            seq![s]
        } else {
            seq![s] + tx_trace(data, tx_next(data, index, flags[0]), flags.drop_first())
        }
    }
}

/// The bytes written to the data register by a sequence of steps, in order.
pub open spec fn bytes_written(steps: Seq<TxStep>) -> Seq<u8>
    decreases steps.len(),
{
    if steps.len() == 0 {
        seq![]
    } else {
        let head = match steps[0] {
            TxStep::Write(b) => seq![b],
            _ => seq![],
        };
        head + bytes_written(steps.drop_first())
    }
}

proof fn lemma_trace_from(data: Seq<u8>, index: int, flags: Seq<u32>)
    requires
        0 <= index <= data.len(),
        data.len() <= usize::MAX,
    ensures
        ({
            let t = tx_trace(data, index, flags);
            let w = bytes_written(t);
            &&& index + w.len() <= data.len()
            &&& w == data.subrange(index, index + w.len())
            &&& (t.len() > 0 && t.last() is Ready) ==> (t.last() == TxStep::Ready(data.len() as usize)
                && index + w.len() == data.len())
        }),
    decreases flags.len(),
{
    let t = tx_trace(data, index, flags);
    if flags.len() > 0 {
        let s = tx_step(data, index, flags[0]);
        if s is Ready {
            assert(t == seq![s]);
            assert(t.drop_first() =~= seq![]);
            assert(bytes_written(t.drop_first()) =~= seq![]);
            assert(bytes_written(t) =~= seq![]);
        } else {
            let next = tx_next(data, index, flags[0]);
            let rest = tx_trace(data, next, flags.drop_first());
            lemma_trace_from(data, next, flags.drop_first());
            assert(t.drop_first() =~= rest);
            let w = bytes_written(t);
            let wr = bytes_written(rest);
            if s is Write {
                assert(w =~= seq![data[index]] + wr);
                assert(w =~= data.subrange(index, index + w.len()));
            } else {
                assert(w =~= wr);
            }
            if t.len() > 0 && t.last() is Ready {
                assert(rest.len() > 0);
                assert(t.last() == rest.last());
            }
        }
    }
}

/// A transmit writes a prefix of its buffer, in order, each byte once; when it
/// completes it has written the whole buffer and reports its length. On an
/// empty buffer the first step completes with count 0 and writes nothing.
pub proof fn lemma_transmit_writes_buffer_in_order(data: Seq<u8>, flags: Seq<u32>)
    requires
        data.len() <= usize::MAX,
    ensures
        ({
            let t = tx_trace(data, 0, flags);
            let w = bytes_written(t);
            &&& w == data.subrange(0, w.len() as int)
            &&& (t.len() > 0 && t.last() is Ready) ==> (t.last() == TxStep::Ready(data.len() as usize)
                && w == data)
        }),
        data.len() == 0 && flags.len() > 0 ==> tx_trace(data, 0, flags) == seq![TxStep::Ready(0)],
{
    lemma_trace_from(data, 0, flags);
    let w = bytes_written(tx_trace(data, 0, flags));
    if w.len() == data.len() {
        assert(data.subrange(0, data.len() as int) =~= data);
    }
}

/// A transmit that finds the FIFO full suspends without writing or moving its
/// cursor, and the first step after the FIFO has room writes the byte it was
/// waiting to write.
pub proof fn lemma_suspend_then_resume(data: Seq<u8>, index: int, full: u32, room: u32)
    requires
        0 <= index < data.len(),
        tx_full(full),
        !tx_full(room),
    ensures
        tx_step(data, index, full) == TxStep::Pending,
        tx_next(data, index, full) == index,
        tx_step(data, index, room) == TxStep::Write(data[index]),
        tx_next(data, index, room) == index + 1,
{
}

} // verus!
