//! The peripheral handle: its configuration, blocking transfers, the
//! asynchronous transmit operation and the interrupt handler.
use vstd::prelude::*;
use core::task::Waker;
use futures::task::AtomicWaker;
use crate::config::{init_program, init_writes};
use crate::regs::{Reg, RegWrite, is_rx_empty, is_tx_full, rx_empty, tx_full};
use crate::transmit::{TxStep, tx_next, tx_step};

verus! {

/// core's task Waker, carried through opaquely to the registration slot.
#[verifier::external_type_specification]
#[verifier::external_body]
pub struct ExWaker(core::task::Waker);

/// futures' AtomicWaker, the single-slot registration of a suspended transmit.
#[verifier::external_type_specification]
#[verifier::external_body]
pub struct ExAtomicWaker(futures::task::AtomicWaker);

/// Whether the registration slot holds a waker.
pub uninterp spec fn waker_registered(w: AtomicWaker) -> bool;

/// Relies on futures' AtomicWaker::new: a slot that holds no waker.
#[verifier::external_body]
fn new_slot() -> (r: AtomicWaker)
    ensures
        !waker_registered(r),
{
    AtomicWaker::new()
}

/// Relies on futures' AtomicWaker::register: under exclusive access it
/// stores `waker` (a clone, or keeps an earlier waker of the same task),
/// replacing whatever the slot held.
#[verifier::external_body]
fn register_waker(slot: &mut AtomicWaker, waker: &Waker)
    ensures
        waker_registered(*final(slot)),
{
    slot.register(waker)
}

/// Relies on futures' AtomicWaker::wake: takes the stored waker, if any,
/// and wakes it, leaving the slot empty.
#[verifier::external_body]
fn wake_waker(slot: &mut AtomicWaker)
    ensures
        !waker_registered(*final(slot)),
{
    slot.wake()
}

/// Relies on futures' AtomicWaker::take: removes the stored waker, if any,
/// without waking it, leaving the slot empty.
#[verifier::external_body]
fn clear_waker(slot: &mut AtomicWaker)
    ensures
        !waker_registered(*final(slot)),
{
    let _ = slot.take();
}

/// Interrupt clear: every interrupt cause.
pub const ICR_ALL: u32 = 0xffff_ffff;

/// The byte that `receive` stands for when the receive FIFO is empty.
pub const NO_DATA: u8 = 0;

/// What a receive asks of the caller.
#[derive(Clone, Copy, Debug, PartialEq, Eq, Structural)]
pub enum RxStep {
    /// The receive FIFO is empty: the result is `NO_DATA`, and the data
    /// register must not be read.
    Empty,
    /// Read the data register once and pass the value to `received_byte`.
    ReadData,
}

/// The received byte held in a data register value (its low eight bits).
pub fn received_byte(dr: u32) -> (r: u8)
    ensures
        r == dr % 256,
{
    (dr % 256) as u8
}

/// One UART instance. It is not `Clone`: one handle stands for the device.
pub struct Uart {
    base: usize,
    waker: AtomicWaker,
    waiting: bool,
    irq_count: usize,
}

impl Uart {
    /// The address of the register block.
    pub closed spec fn base_spec(&self) -> usize {
        self.base
    }

    /// The number of interrupts handled so far.
    pub closed spec fn irq_count_spec(&self) -> nat {
        self.irq_count as nat
    }

    /// Whether a suspended transmit's waker is registered and not yet woken.
    pub closed spec fn waiting_spec(&self) -> bool {
        waker_registered(self.waker)
    }

    pub closed spec fn wf(&self) -> bool {
        &&& self.base != 0
        &&& self.waiting == waker_registered(self.waker)
    }

    /// A handle for the register block at `base`, which must not be null.
    pub fn new(base: usize) -> (r: Uart)
        requires
            base != 0,
        ensures
            r.wf(),
            r.base_spec() == base,
            r.irq_count_spec() == 0,
            !r.waiting_spec(),
    {
        Uart { base, waker: new_slot(), waiting: false, irq_count: 0 }
    }

    pub fn base(&self) -> (r: usize)
        requires
            self.wf(),
        ensures
            r == self.base_spec(),
            r != 0,
    {
        self.base
    }

    pub fn irq_count(&self) -> (r: usize)
        ensures
            r == self.irq_count_spec(),
    {
        self.irq_count
    }

    pub fn is_waiting(&self) -> (r: bool)
        requires
            self.wf(),
        ensures
            r == self.waiting_spec(),
    {
        self.waiting
    }

    /// The register writes that configure the peripheral for `baud_rate`
    /// from a `clk_rate` Hz clock, 8N1 with FIFOs and interrupts enabled;
    /// the caller performs them in order.
    pub fn init(&self, clk_rate: u32, baud_rate: u32) -> (r: Vec<RegWrite>)
        requires
            baud_rate > 0,
        ensures
            r@ == init_program(clk_rate, baud_rate),
    {
        init_writes(clk_rate, baud_rate)
    }

    /// Starts a transmit of `data`, with its cursor at the first byte.
    pub fn write<'a>(&self, data: &'a [u8]) -> (r: WriteFuture<'a>)
        ensures
            r.wf(),
            r.data_spec() == data@,
            r.index_spec() == 0,
            r.written_spec() == Seq::<u8>::empty(),
    {
        WriteFuture { data, index: 0 }
    }

    /// Decides a receive from the flags register value.
    pub fn receive(&self, flags: u32) -> (r: RxStep)
        ensures
            r == (if rx_empty(flags) {
                RxStep::Empty
            } else {
                RxStep::ReadData
            }),
    {
        if is_rx_empty(flags) {
            RxStep::Empty
        } else {
            RxStep::ReadData
        }
    }

    /// Sends one byte if the transmit FIFO has room: the data register write
    /// to perform, or `None` when the FIFO is full. It never waits.
    pub fn send_blocking(&self, flags: u32, byte: u8) -> (r: Option<RegWrite>)
        ensures
            r == (if tx_full(flags) {
                None
            } else {
                Some(RegWrite { reg: Reg::Dr, value: byte as u32 })
            }),
    {
        if is_tx_full(flags) {
            None
        } else {
            Some(RegWrite { reg: Reg::Dr, value: byte as u32 })
        }
    }

    /// Handles one interrupt, given the flags register value read on entry.
    /// Counts it, wakes the registered transmit when the transmit FIFO has
    /// room, and returns the write that clears every pending interrupt, which
    /// the caller performs after this returns, so the wake comes first.
    pub fn handle_interrupt(&mut self, flags: u32) -> (r: RegWrite)
        requires
            old(self).wf(),
            old(self).irq_count_spec() < usize::MAX,
        ensures
            final(self).irq_count_spec() == old(self).irq_count_spec() + 1,
            counter_moves(old(self), final(self), true),
            final(self).waiting_spec() == (old(self).waiting_spec() && tx_full(flags)),
            final(self).base_spec() == old(self).base_spec(),
            final(self).wf(),
            r == (RegWrite { reg: Reg::Icr, value: ICR_ALL }),
    {
        self.irq_count = self.irq_count + 1;
        if !is_tx_full(flags) {
            wake_waker(&mut self.waker);
            self.waiting = false;
        }
        RegWrite { reg: Reg::Icr, value: ICR_ALL }
    }
}

/// How many of `interrupts` are interrupt-handler calls.
pub open spec fn count_interrupts(interrupts: Seq<bool>) -> nat
    decreases interrupts.len(),
{
    if interrupts.len() == 0 {
        0
    } else {
        count_interrupts(interrupts.drop_last()) + if interrupts.last() {
            1nat
        } else {
            0nat
        }
    }
}

/// The counter moves as `handle_interrupt` moves it when `interrupt`, and as a
/// task-context call (`poll_step`, `init`, `receive`, `send_blocking`) leaves
/// it otherwise.
pub open spec fn counter_moves(before: &Uart, after: &Uart, interrupt: bool) -> bool {
    if interrupt {
        after.irq_count_spec() == before.irq_count_spec() + 1
    } else {
        after.irq_count_spec() == before.irq_count_spec()
    }
}

/// No interrupt is lost from the count: along any run of handle states in
/// which each call is an interrupt-handler call or a task-context call, taken
/// one at a time, the counter grows by exactly the number of interrupts.
pub proof fn lemma_irq_count_over_run(states: Seq<Uart>, interrupts: Seq<bool>)
    requires
        states.len() == interrupts.len() + 1,
        forall|i: int| 0 <= i < interrupts.len() ==> counter_moves(&states[i], &states[i + 1], #[trigger] interrupts[i]),
    ensures
        states.last().irq_count_spec() == states[0].irq_count_spec() + count_interrupts(interrupts),
    decreases interrupts.len(),
{
    if interrupts.len() > 0 {
        let n = interrupts.len() - 1;
        lemma_irq_count_over_run(states.drop_last(), interrupts.drop_last());
        assert(counter_moves(&states[n], &states[n + 1], interrupts[n]));
    }
}

/// An in-flight transmit of a borrowed buffer; its cursor only moves forward.
pub struct WriteFuture<'a> {
    data: &'a [u8],
    index: usize,
}

impl<'a> WriteFuture<'a> {
    pub closed spec fn data_spec(&self) -> Seq<u8> {
        self.data@
    }

    /// How many bytes of the buffer have been written.
    pub closed spec fn index_spec(&self) -> int {
        self.index as int
    }

    /// The bytes written so far, in the order they were handed out.
    pub closed spec fn written_spec(&self) -> Seq<u8> {
        self.data@.subrange(0, self.index as int)
    }

    pub closed spec fn wf(&self) -> bool {
        self.index <= self.data@.len()
    }

    pub fn index(&self) -> (r: usize)
        ensures
            r == self.index_spec(),
    {
        self.index
    }

    pub fn is_complete(&self) -> (r: bool)
        requires
            self.wf(),
        ensures
            r == (self.index_spec() == self.data_spec().len()),
    {
        self.index == self.data.len()
    }

    /// One step of the transmit, given the flags register value read just
    /// before. A `Write` must be performed by the caller before the next step;
    /// on `Pending` the step has registered `waker` with `uart`, to be woken
    /// by its interrupt handler; on `Ready` the registration is cleared.
    pub fn poll_step(&mut self, uart: &mut Uart, flags: u32, waker: &Waker) -> (r: TxStep)
        requires
            old(self).wf(),
            old(uart).wf(),
        ensures
            final(self).wf(),
            final(uart).wf(),
            r == tx_step(old(self).data_spec(), old(self).index_spec(), flags),
            final(self).index_spec() == tx_next(old(self).data_spec(), old(self).index_spec(), flags),
            final(self).data_spec() == old(self).data_spec(),
            old(self).index_spec() <= final(self).index_spec() <= final(self).data_spec().len(),
            (r is Ready) == (old(self).index_spec() == old(self).data_spec().len()),
            r is Ready ==> r == TxStep::Ready(final(self).data_spec().len() as usize),
            r matches TxStep::Write(b) ==> final(self).written_spec() == old(self).written_spec().push(b),
            !(r is Write) ==> final(self).written_spec() == old(self).written_spec(),
            r is Ready ==> final(self).written_spec() == final(self).data_spec(),
            final(uart).waiting_spec() == (if r is Pending {
                true
            } else if r is Ready {
                false
            } else {
                old(uart).waiting_spec()
            }),
            final(uart).irq_count_spec() == old(uart).irq_count_spec(),
            counter_moves(old(uart), final(uart), false),
            final(uart).base_spec() == old(uart).base_spec(),
    {
        if self.index >= self.data.len() {
            clear_waker(&mut uart.waker);
            uart.waiting = false;
            assert(self.data@.subrange(0, self.index as int) =~= self.data@);
            return TxStep::Ready(self.index);
        }
        if is_tx_full(flags) {
            register_waker(&mut uart.waker, waker);
            uart.waiting = true;
            return TxStep::Pending;
        }
        let b = self.data[self.index];
        self.index = self.index + 1;
        assert(self.data@.subrange(0, self.index as int) =~= self.data@.subrange(0, self.index - 1).push(b));
        TxStep::Write(b)
    }
}

} // verus!
