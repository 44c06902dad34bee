//! Baud-rate divisor arithmetic and the register program that configures the
//! peripheral.
use vstd::prelude::*;
use crate::regs::{Reg, RegWrite, apply_writes, last_written, lemma_apply_writes};

verus! {

/// Control: everything off.
pub const CR_DISABLED: u32 = 0;

/// Control: UART enabled (bit 0), transmit enabled (bit 8), receive enabled (bit 9).
pub const CR_ENABLED_TX_RX: u32 = 0x301;

/// FIFO level select: transmit interrupt at 1/8 full, receive interrupt at 7/8 full.
pub const IFLS_LEVELS: u32 = 0x20;

/// Line control: 8 data bits, no parity, 1 stop bit, FIFOs enabled.
pub const LCRH_8N1_FIFO: u32 = 0x70;

/// Interrupt mask: receive (bit 4) and transmit (bit 5) interrupts enabled.
pub const IMSC_RX_TX: u32 = 0x30;

/// The fractional part of the baud-rate divisor in 64ths, rounded half up:
/// `(clk mod 16·baud) · 64 / (16·baud)` rounded is `(8·rem + baud) / (2·baud)`.
/// It is at most 64; 64 carries into the integer part.
pub open spec fn fraction_rounded(clk_rate: u32, baud_rate: u32) -> int
    recommends
        baud_rate > 0,
{
    (8 * (clk_rate as int % (16 * baud_rate as int)) + baud_rate as int) / (2 * baud_rate as int)
}

/// The integer part of the baud-rate divisor, with the rounding carry.
pub open spec fn divisor_integer(clk_rate: u32, baud_rate: u32) -> int
    recommends
        baud_rate > 0,
{
    clk_rate as int / (16 * baud_rate as int) + if fraction_rounded(clk_rate, baud_rate) == 64 {
        1int
    } else {
        0int
    }
}

/// The fractional part of the baud-rate divisor, in 64ths, rounded.
pub open spec fn divisor_fraction(clk_rate: u32, baud_rate: u32) -> int
    recommends
        baud_rate > 0,
{
    if fraction_rounded(clk_rate, baud_rate) == 64 {
        0
    } else {
        fraction_rounded(clk_rate, baud_rate)
    }
}

/// The writes that configure the peripheral, in the order the hardware needs:
/// disable it, program the divisors and FIFO levels while it is disabled, set
/// the line format, unmask interrupts, then enable it.
pub open spec fn init_program(clk_rate: u32, baud_rate: u32) -> Seq<RegWrite> {
    seq![
        RegWrite { reg: Reg::Cr, value: CR_DISABLED },
        RegWrite { reg: Reg::Ibrd, value: divisor_integer(clk_rate, baud_rate) as u32 },
        RegWrite { reg: Reg::Fbrd, value: divisor_fraction(clk_rate, baud_rate) as u32 },
        RegWrite { reg: Reg::Ifls, value: IFLS_LEVELS },
        RegWrite { reg: Reg::Lcrh, value: LCRH_8N1_FIFO },
        RegWrite { reg: Reg::Imsc, value: IMSC_RX_TX },
        RegWrite { reg: Reg::Cr, value: CR_ENABLED_TX_RX },
    ]
}

/// The integer and fractional baud-rate divisors for a clock and a baud rate.
pub fn baud_divisor(clk_rate: u32, baud_rate: u32) -> (r: (u32, u32))
    requires
        baud_rate > 0,
    ensures
        r.0 == divisor_integer(clk_rate, baud_rate),
        r.1 == divisor_fraction(clk_rate, baud_rate),
        r.1 < 64,
        fraction_rounded(clk_rate, baud_rate) < 64 ==> r.0 == clk_rate as int / (16 * baud_rate as int)
            && r.1 == fraction_rounded(clk_rate, baud_rate),
{
    let b: u64 = baud_rate as u64;
    let div: u64 = 16 * b;
    let clk: u64 = clk_rate as u64;
    let integer: u64 = clk / div;
    let rem: u64 = clk % div;
    assert(rem < div);
    let rounded: u64 = (8 * rem + b) / (2 * b);
    assert(rounded <= 64) by (nonlinear_arith)
        requires
            rem < 16 * b,
            b > 0,
            rounded as int == (8 * rem as int + b as int) / (2 * b as int),
    ;
    assert(integer <= clk / 16) by (nonlinear_arith)
        requires
            div >= 16,
            integer == clk / div,
            div == 16 * b,
            b >= 1,
    ;
    if rounded == 64 {
        ((integer + 1) as u32, 0)
    } else {
        (integer as u32, rounded as u32)
    }
}

/// The register writes of `init_program`, as a vector.
pub fn init_writes(clk_rate: u32, baud_rate: u32) -> (r: Vec<RegWrite>)
    requires
        baud_rate > 0,
    ensures
        r@ == init_program(clk_rate, baud_rate),
{
    let (integer, fraction) = baud_divisor(clk_rate, baud_rate);
    let r = vec![
        RegWrite { reg: Reg::Cr, value: CR_DISABLED },
        RegWrite { reg: Reg::Ibrd, value: integer },
        RegWrite { reg: Reg::Fbrd, value: fraction },
        RegWrite { reg: Reg::Ifls, value: IFLS_LEVELS },
        RegWrite { reg: Reg::Lcrh, value: LCRH_8N1_FIFO },
        RegWrite { reg: Reg::Imsc, value: IMSC_RX_TX },
        RegWrite { reg: Reg::Cr, value: CR_ENABLED_TX_RX },
    ];
    assert(r@ =~= init_program(clk_rate, baud_rate));
    r
}

/// Configuring the peripheral is idempotent: whatever the registers held
/// before, the program leaves the divisor registers holding exactly the
/// divisors of the clock and baud rate, and running it a second time with the
/// same inputs changes no register.
pub proof fn lemma_init_idempotent(file: Map<Reg, u32>, clk_rate: u32, baud_rate: u32)
    requires
        baud_rate > 0,
    ensures
        apply_writes(file, init_program(clk_rate, baud_rate))[Reg::Ibrd]
            == divisor_integer(clk_rate, baud_rate),
        apply_writes(file, init_program(clk_rate, baud_rate))[Reg::Fbrd]
            == divisor_fraction(clk_rate, baud_rate),
        apply_writes(apply_writes(file, init_program(clk_rate, baud_rate)), init_program(clk_rate, baud_rate))
            == apply_writes(file, init_program(clk_rate, baud_rate)),
{
    let p = init_program(clk_rate, baud_rate);
    let b = baud_rate as int;
    let d = 16 * b;
    let c = clk_rate as int;
    assert(0 <= c / d <= c / 16) by (nonlinear_arith)
        requires
            d >= 16,
            c >= 0,
    ;
    assert(0 <= (8 * (c % d) + b) / (2 * b) <= 64) by (nonlinear_arith)
        requires
            d == 16 * b,
            b >= 1,
            0 <= c % d < d,
    ;
    reveal_with_fuel(last_written, 8);
    lemma_apply_writes(file, p, Reg::Ibrd);
    lemma_apply_writes(file, p, Reg::Fbrd);
    crate::regs::lemma_apply_writes_idempotent(file, p);
}

} // verus!
