//! The peripheral's register block, modelled as a map from register to the
//! last value written to it.
use vstd::prelude::*;

verus! {

/// The 32-bit registers of the peripheral (offsets from the base address).
#[derive(Clone, Copy, Debug, PartialEq, Eq, Structural)]
pub enum Reg {
    /// Data, 0x000.
    Dr,
    /// Receive status / error clear, 0x004.
    Ecr,
    /// Flags, 0x018, read-only.
    Fr,
    /// Integer baud-rate divisor, 0x024.
    Ibrd,
    /// Fractional baud-rate divisor, 0x028.
    Fbrd,
    /// Line control, 0x02c.
    Lcrh,
    /// Control, 0x030.
    Cr,
    /// FIFO level select, 0x034.
    Ifls,
    /// Interrupt mask set/clear, 0x038.
    Imsc,
    /// Raw interrupt status, 0x03c.
    Ris,
    /// Masked interrupt status, 0x040.
    Mis,
    /// Interrupt clear, 0x044, write-only.
    Icr,
    /// DMA control, 0x048.
    Dmacr,
}

/// One register write, to be performed by the caller in sequence order.
#[derive(Clone, Copy, Debug, PartialEq, Eq, Structural)]
pub struct RegWrite {
    pub reg: Reg,
    pub value: u32,
}

/// Flags register: receive FIFO empty.
pub const FR_RXFE: u32 = 0x10;

/// Flags register: transmit FIFO full.
pub const FR_TXFF: u32 = 0x20;

pub open spec fn rx_empty(flags: u32) -> bool {
    flags & FR_RXFE != 0
}

pub open spec fn tx_full(flags: u32) -> bool {
    flags & FR_TXFF != 0
}

/// Whether the flags register value reports an empty receive FIFO.
pub fn is_rx_empty(flags: u32) -> (r: bool)
    ensures
        r == rx_empty(flags),
{
    flags & FR_RXFE != 0
}

/// Whether the flags register value reports a full transmit FIFO.
pub fn is_tx_full(flags: u32) -> (r: bool)
    ensures
        r == tx_full(flags),
{
    flags & FR_TXFF != 0
}

/// The register file after the writes `w` are applied, in order, to `file`.
pub open spec fn apply_writes(file: Map<Reg, u32>, w: Seq<RegWrite>) -> Map<Reg, u32>
    decreases w.len(),
{
    if w.len() == 0 {
        file
    } else {
        apply_writes(file, w.drop_last()).insert(w.last().reg, w.last().value)
    }
}

/// The value that the last write to `r` in `w` stores, if any write does.
pub open spec fn last_written(w: Seq<RegWrite>, r: Reg) -> Option<u32>
    decreases w.len(),
{
    if w.len() == 0 {
        None
    } else if w.last().reg == r {
        Some(w.last().value)
    } else {
        last_written(w.drop_last(), r)
    }
}

/// After a write sequence, each register holds what the sequence last wrote
/// to it, and keeps its earlier value where the sequence does not touch it.
pub proof fn lemma_apply_writes(file: Map<Reg, u32>, w: Seq<RegWrite>, r: Reg)
    ensures
        last_written(w, r) matches Some(v) ==> apply_writes(file, w).contains_key(r)
            && apply_writes(file, w)[r] == v,
        last_written(w, r) is None ==> (apply_writes(file, w).contains_key(r)
            == file.contains_key(r) && apply_writes(file, w)[r] == file[r]),
    decreases w.len(),
{
    if w.len() > 0 {
        lemma_apply_writes(file, w.drop_last(), r);
    }
}

/// Applying one write sequence twice leaves the registers as applying it once.
pub proof fn lemma_apply_writes_idempotent(file: Map<Reg, u32>, w: Seq<RegWrite>)
    ensures
        apply_writes(apply_writes(file, w), w) == apply_writes(file, w),
{
    let once = apply_writes(file, w);
    let twice = apply_writes(once, w);
    assert forall|r: Reg| #[trigger] twice.contains_key(r) == once.contains_key(r) by {
        lemma_apply_writes(file, w, r);
        lemma_apply_writes(once, w, r);
    }
    assert forall|r: Reg| twice.contains_key(r) implies #[trigger] twice[r] == once[r] by {
        lemma_apply_writes(file, w, r);
        lemma_apply_writes(once, w, r);
    }
    assert(twice =~= once);
}

} // verus!
