//! Driver logic for a PL011-style UART: register programming, the
//! interrupt-coordinated transmit state machine and the interrupt handler.
//! Register accesses themselves are performed by the caller, which hands the
//! values it reads to these functions and applies the writes they return.
use vstd::prelude::*;

pub mod regs;
pub mod config;
pub mod transmit;
pub mod uart;
