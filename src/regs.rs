//! The device's register map and a model of the registers it holds.
use vstd::prelude::*;

verus! {

/// Offset of the Data register.
pub const UART_DR: usize = 0x00;

/// Offset of the Flag register.
pub const UART_FR: usize = 0x18;

/// Offset of the Integer Baud Rate Divisor register.
pub const UART_IBRD: usize = 0x24;

/// Offset of the Fractional Baud Rate Divisor register.
pub const UART_FBRD: usize = 0x28;

/// Offset of the Line Control register.
pub const UART_LCRH: usize = 0x2C;

/// Offset of the Control register.
pub const UART_CR: usize = 0x30;

/// One of the device's registers.
#[derive(Clone, Copy, Debug, PartialEq, Eq, Structural)]
pub enum Reg {
    Data,
    Flag,
    IntegerBaud,
    FractionalBaud,
    LineControl,
    Control,
}

/// The byte offset of a register from the device's base address.
pub open spec fn reg_offset(r: Reg) -> nat {
    match r {
        Reg::Data => 0x00,
        Reg::Flag => 0x18,
        Reg::IntegerBaud => 0x24,
        Reg::FractionalBaud => 0x28,
        Reg::LineControl => 0x2C,
        Reg::Control => 0x30,
    }
}

impl Reg {
    /// The byte offset of this register from the device's base address.
    pub fn offset(&self) -> (r: usize)
        ensures
            r == reg_offset(*self),
    {
        match self {
            Reg::Data => UART_DR,
            Reg::Flag => UART_FR,
            Reg::IntegerBaud => UART_IBRD,
            Reg::FractionalBaud => UART_FBRD,
            Reg::LineControl => UART_LCRH,
            Reg::Control => UART_CR,
        }
    }
}


/// Integer part of the baud-rate divisor: 115200 baud from a 24 MHz clock.
pub const IBRD_115200: u32 = 13;

/// Fractional part of the baud-rate divisor: 115200 baud from a 24 MHz clock.
pub const FBRD_115200: u32 = 1;

/// Line Control: FIFOs enabled (bit 4), 8-bit words (0b11 at bit 5).
pub const LCRH_8N1_FIFO: u32 = (1 << 4) | (0b11 << 5);

/// Control: everything off.
pub const CR_DISABLED: u32 = 0;

/// Control: device (bit 0), transmitter (bit 8) and receiver (bit 9) on.
pub const CR_ENABLED: u32 = (1 << 0) | (1 << 8) | (1 << 9);

/// Flag: transmit FIFO full (TXFF, bit 5).
pub const FR_TXFF: u32 = 1 << 5;

/// One step of the bring-up sequence.
#[derive(Clone, Copy, Debug, PartialEq, Eq, Structural)]
pub enum InitStep {
    /// A full data-synchronization barrier.
    DataSyncBarrier,
    /// A 32-bit write of `value` to `reg`.
    Write { reg: Reg, value: u32 },
    /// An instruction-synchronization barrier.
    InstrSyncBarrier,
}

/// The bring-up sequence, in the order the device requires.
pub open spec fn init_steps() -> Seq<InitStep> {
    seq![
        InitStep::DataSyncBarrier,
        InitStep::Write { reg: Reg::Control, value: 0x0 },
        InitStep::Write { reg: Reg::IntegerBaud, value: 13 },
        InitStep::Write { reg: Reg::FractionalBaud, value: 1 },
        InitStep::Write { reg: Reg::LineControl, value: 0x70 },
        InitStep::Write { reg: Reg::Control, value: 0x301 },
        InitStep::InstrSyncBarrier,
    ]
}

/// The named register values are the bit patterns they are documented as.
pub proof fn lemma_register_constants()
    ensures
        LCRH_8N1_FIFO == 0x70,
        CR_ENABLED == 0x301,
        CR_DISABLED == 0,
        IBRD_115200 == 13,
        FBRD_115200 == 1,
{
    assert(((1u32 << 4u32) | (3u32 << 5u32)) == 0x70u32) by (bit_vector);
    assert(((1u32 << 0u32) | (1u32 << 8u32) | (1u32 << 9u32)) == 0x301u32) by (bit_vector);
}

/// The contents of the device's registers, as a simulated memory region.
/// The Flag register is read-only: writes to it are dropped.
#[derive(Clone, Copy, Debug, PartialEq, Eq, Structural)]
pub struct RegisterFile {
    pub data: u32,
    pub flag: u32,
    pub ibrd: u32,
    pub fbrd: u32,
    pub lcrh: u32,
    pub cr: u32,
}

/// The registers after one step.
pub open spec fn apply_step(s: RegisterFile, step: InitStep) -> RegisterFile {
    match step {
        InitStep::Write { reg, value } => match reg {
            Reg::Data => RegisterFile { data: value, ..s },
            Reg::Flag => s,
            Reg::IntegerBaud => RegisterFile { ibrd: value, ..s },
            Reg::FractionalBaud => RegisterFile { fbrd: value, ..s },
            Reg::LineControl => RegisterFile { lcrh: value, ..s },
            Reg::Control => RegisterFile { cr: value, ..s },
        },
        _ => s,
    }
}

/// The registers after a sequence of steps, taken in order.
pub open spec fn apply_steps(s: RegisterFile, steps: Seq<InitStep>) -> RegisterFile
    decreases steps.len(),
{
    if steps.len() == 0 {
        s
    } else {
        apply_step(apply_steps(s, steps.drop_last()), steps.last())
    }
}

/// The registers of a configured device whose Data and Flag registers held
/// those of `s`.
pub open spec fn configured(s: RegisterFile) -> RegisterFile {
    RegisterFile { data: s.data, flag: s.flag, ibrd: 13, fbrd: 1, lcrh: 0x70, cr: 0x301 }
}

proof fn lemma_apply_push(s: RegisterFile, steps: Seq<InitStep>, step: InitStep)
    ensures
        apply_steps(s, steps.push(step)) == apply_step(apply_steps(s, steps), step),
{
    assert(steps.push(step).drop_last() =~= steps);
}

/// Running the bring-up sequence from any register contents leaves the
/// configured values, whatever the device held before.
pub proof fn lemma_init_configures(s: RegisterFile)
    ensures
        apply_steps(s, init_steps()) == configured(s),
{
    let e = Seq::<InitStep>::empty();
    let q = init_steps();
    lemma_apply_push(s, e, q[0]);
    lemma_apply_push(s, e.push(q[0]), q[1]);
    lemma_apply_push(s, e.push(q[0]).push(q[1]), q[2]);
    lemma_apply_push(s, e.push(q[0]).push(q[1]).push(q[2]), q[3]);
    lemma_apply_push(s, e.push(q[0]).push(q[1]).push(q[2]).push(q[3]), q[4]);
    lemma_apply_push(s, e.push(q[0]).push(q[1]).push(q[2]).push(q[3]).push(q[4]), q[5]);
    lemma_apply_push(s, e.push(q[0]).push(q[1]).push(q[2]).push(q[3]).push(q[4]).push(q[5]), q[6]);
    assert(e.push(q[0]).push(q[1]).push(q[2]).push(q[3]).push(q[4]).push(q[5]).push(q[6]) =~= q);
}

/// Bringing the device up twice leaves the same register values as bringing
/// it up once.
pub proof fn lemma_init_idempotent(s: RegisterFile)
    ensures
        apply_steps(apply_steps(s, init_steps()), init_steps()) == apply_steps(s, init_steps()),
{
    lemma_init_configures(s);
    lemma_init_configures(apply_steps(s, init_steps()));
}

/// No prefix of the bring-up sequence changes the Data or Flag register.
proof fn lemma_init_prefix_keeps_data_flag(s: RegisterFile, k: int)
    requires
        0 <= k <= init_steps().len(),
    ensures
        apply_steps(s, init_steps().take(k)).data == s.data,
        apply_steps(s, init_steps().take(k)).flag == s.flag,
    decreases k,
{
    if k > 0 {
        let q = init_steps();
        assert(q.take(k).drop_last() =~= q.take(k - 1));
        lemma_init_prefix_keeps_data_flag(s, k - 1);
    }
}

/// Interrupting the bring-up sequence after any number of its steps and then
/// running it again in full converges to the configured values, the same as
/// one uninterrupted run.
pub proof fn lemma_init_converges_after_partial(s: RegisterFile, k: int)
    requires
        0 <= k <= init_steps().len(),
    ensures
        apply_steps(apply_steps(s, init_steps().take(k)), init_steps()) == apply_steps(s, init_steps()),
        apply_steps(apply_steps(s, init_steps().take(k)), init_steps()) == configured(s),
{
    lemma_init_prefix_keeps_data_flag(s, k);
    lemma_init_configures(s);
    lemma_init_configures(apply_steps(s, init_steps().take(k)));
}

impl RegisterFile {
    /// Registers as a powered-up device holds them before bring-up.
    pub fn zeroed() -> (r: Self)
        ensures
            r == (RegisterFile { data: 0, flag: 0, ibrd: 0, fbrd: 0, lcrh: 0, cr: 0 }),
    {
        RegisterFile { data: 0, flag: 0, ibrd: 0, fbrd: 0, lcrh: 0, cr: 0 }
    }

    /// Performs one step on the simulated registers.
    pub fn apply(&mut self, step: InitStep)
        ensures
            *final(self) == apply_step(*old(self), step),
    {
        match step {
            InitStep::Write { reg, value } => match reg {
                Reg::Data => self.data = value,
                Reg::Flag => {},
                Reg::IntegerBaud => self.ibrd = value,
                Reg::FractionalBaud => self.fbrd = value,
                Reg::LineControl => self.lcrh = value,
                Reg::Control => self.cr = value,
            },
            _ => {},
        }
    }

    /// Performs each of `steps`, in order, on the simulated registers.
    pub fn apply_all(&mut self, steps: &[InitStep])
        ensures
            *final(self) == apply_steps(*old(self), steps@),
    {
        let ghost start = *self;
        let mut i: usize = 0;
        while i < steps.len()
            invariant
                i <= steps@.len(),
                *self == apply_steps(start, steps@.take(i as int)),
            decreases steps@.len() - i,
        {
            proof {
                lemma_apply_push(start, steps@.take(i as int), steps@[i as int]);
                assert(steps@.take(i as int).push(steps@[i as int]) =~= steps@.take(i + 1));
            }
            self.apply(steps[i]);
            i = i + 1;
        }
        assert(steps@.take(i as int) =~= steps@);
    }
}

} // verus!
