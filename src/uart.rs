//! The driver handle.
use vstd::prelude::*;
use crate::regs::{
    CR_DISABLED, CR_ENABLED, FBRD_115200, FR_TXFF, IBRD_115200, InitStep, LCRH_8N1_FIFO, Reg,
    init_steps, lemma_register_constants, reg_offset,
};
use crate::transmit::{Transmitter, TxAction, lemma_txff_bit, putc_action};

verus! {

/// The base address at which the platform maps the device.
pub const UART_BASE: usize = 0x0900_0000;

/// The absolute address of `reg` on the device behind `uart`, where it fits.
pub open spec fn register_address(uart: Uart, reg: Reg) -> Option<usize> {
    if uart.base() + reg_offset(reg) <= usize::MAX {
        Some((uart.base() + reg_offset(reg)) as usize)
    } else {
        None
    }
}

/// The whole register block fits below the end of the address space.
pub open spec fn valid_base(base: usize) -> bool {
    base + 0x30 <= usize::MAX
}

/// On a device at any valid base address, every write of the bring-up
/// sequence lands at that base plus the register's offset.
pub proof fn lemma_init_addresses(uart: Uart)
    requires
        valid_base(uart.base()),
    ensures
        forall|i: int|
            0 <= i < init_steps().len() ==> match #[trigger] init_steps()[i] {
                InitStep::Write { reg, .. } => register_address(uart, reg) == Some(
                    (uart.base() + reg_offset(reg)) as usize,
                ),
                _ => true,
            },
{
}

/// A thin handle on the device: where its registers are mapped, nothing more.
/// All mutable state lives in the device itself.
#[derive(Clone, Copy, Debug, PartialEq, Eq, Structural)]
pub struct Uart {
    base_address: usize,
}

impl Uart {
    /// Where the device's registers are mapped.
    pub closed spec fn base(&self) -> usize {
        self.base_address
    }

    /// A handle on the device mapped at `base_address`; touches no hardware.
    pub fn new(base_address: usize) -> (r: Self)
        ensures
            r.base() == base_address,
    {
        Self { base_address }
    }

    /// Where the device's registers are mapped.
    pub fn base_address(&self) -> (r: usize)
        ensures
            r == self.base(),
    {
        self.base_address
    }

    /// The absolute address of a register, or `None` where it would lie past
    /// the end of the address space.
    pub fn address(&self, reg: Reg) -> (r: Option<usize>)
        ensures
            r == register_address(*self, reg),
    {
        self.base_address.checked_add(reg.offset())
    }

    /// The bring-up sequence: a data barrier, Control cleared, the two
    /// divisor halves, Line Control, Control enabled, an instruction barrier.
    /// Every write is an unconditional overwrite, so the sequence may be
    /// performed any number of times.
    pub fn init(&self) -> (r: [InitStep; 7])
        ensures
            r@ == init_steps(),
    {
        proof {
            lemma_register_constants();
        }
        let r = [
            InitStep::DataSyncBarrier,
            InitStep::Write { reg: Reg::Control, value: CR_DISABLED },
            InitStep::Write { reg: Reg::IntegerBaud, value: IBRD_115200 },
            InitStep::Write { reg: Reg::FractionalBaud, value: FBRD_115200 },
            InitStep::Write { reg: Reg::LineControl, value: LCRH_8N1_FIFO },
            InitStep::Write { reg: Reg::Control, value: CR_ENABLED },
            InitStep::InstrSyncBarrier,
        ];
        assert(r@ =~= init_steps());
        r
    }

    /// What to do with byte `c` once the Flag register has been read as
    /// `flag`: write `c` to Data if the transmit FIFO has room, else read
    /// Flag again.
    pub fn putc(&self, c: u8, flag: u32) -> (r: TxAction)
        ensures
            r == putc_action(c, flag),
    {
        proof {
            lemma_txff_bit(flag);
        }
        if flag & FR_TXFF != 0 {
            TxAction::PollFlag
        } else {
            TxAction::WriteData(c)
        }
    }

    /// A transmission of `text`, byte after byte, through this device.
    pub fn write_str<'a>(&self, text: &'a [u8]) -> (r: Transmitter<'a>)
        ensures
            r.wf(),
            r.uart() == *self,
            r.text() == text@,
            r.observed() == Seq::<u32>::empty(),
            r.sent() == 0,
    {
        Transmitter::new(*self, text)
    }
}

} // verus!
