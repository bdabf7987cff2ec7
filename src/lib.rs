//! A bring-up driver for a PL011-style memory-mapped UART, modelled so that
//! every decision it makes is a verified function from plain values to plain
//! values: the register writes of the bring-up sequence, the flow-control
//! choice of each transmitted byte, and the text of the startup banner and of
//! the abnormal-termination report. Nothing here allocates.
pub mod regs;
pub mod uart;
pub mod transmit;
pub mod report;
pub mod kernel;
