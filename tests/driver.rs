use lros::regs::{InitStep, Reg, RegisterFile};
use lros::transmit::TxAction;
use lros::uart::{Uart, UART_BASE};

fn canonical_steps() -> Vec<InitStep> {
    vec![
        InitStep::DataSyncBarrier,
        InitStep::Write { reg: Reg::Control, value: 0x0 },
        InitStep::Write { reg: Reg::IntegerBaud, value: 13 },
        InitStep::Write { reg: Reg::FractionalBaud, value: 1 },
        InitStep::Write { reg: Reg::LineControl, value: 0x70 },
        InitStep::Write { reg: Reg::Control, value: 0x301 },
        InitStep::InstrSyncBarrier,
    ]
}

fn configured_from(s: RegisterFile) -> RegisterFile {
    RegisterFile { data: s.data, flag: s.flag, ibrd: 13, fbrd: 1, lcrh: 0x70, cr: 0x301 }
}

#[test]
fn new_keeps_base_address() {
    assert_eq!(Uart::new(UART_BASE).base_address(), 0x0900_0000);
    assert_eq!(Uart::new(0).base_address(), 0);
    assert_eq!(Uart::new(usize::MAX).base_address(), usize::MAX);
}

#[test]
fn register_offsets() {
    assert_eq!(Reg::Data.offset(), 0x00);
    assert_eq!(Reg::Flag.offset(), 0x18);
    assert_eq!(Reg::IntegerBaud.offset(), 0x24);
    assert_eq!(Reg::FractionalBaud.offset(), 0x28);
    assert_eq!(Reg::LineControl.offset(), 0x2C);
    assert_eq!(Reg::Control.offset(), 0x30);
}

#[test]
fn register_addresses_from_base() {
    let u = Uart::new(UART_BASE);
    assert_eq!(u.address(Reg::Data), Some(0x0900_0000));
    assert_eq!(u.address(Reg::Flag), Some(0x0900_0018));
    assert_eq!(u.address(Reg::Control), Some(0x0900_0030));
    let top = Uart::new(usize::MAX - 0x2C);
    assert_eq!(top.address(Reg::LineControl), Some(usize::MAX));
    assert_eq!(top.address(Reg::Control), None);
}

#[test]
fn init_writes_canonical_sequence() {
    for base in [UART_BASE, 0, 0x1000, usize::MAX] {
        let steps = Uart::new(base).init();
        assert_eq!(steps.to_vec(), canonical_steps());
    }
}

#[test]
fn init_configures_zeroed_registers() {
    let steps = Uart::new(UART_BASE).init();
    let mut rf = RegisterFile::zeroed();
    rf.apply_all(&steps);
    assert_eq!(rf, RegisterFile { data: 0, flag: 0, ibrd: 13, fbrd: 1, lcrh: 0x70, cr: 0x301 });
}

#[test]
fn init_twice_same_as_once() {
    let steps = Uart::new(UART_BASE).init();
    let start = RegisterFile { data: 0x41, flag: 0x90, ibrd: 7, fbrd: 9, lcrh: 0x10, cr: 0x1 };
    let mut once = start;
    once.apply_all(&steps);
    let mut twice = start;
    twice.apply_all(&steps);
    twice.apply_all(&steps);
    assert_eq!(once, twice);
    assert_eq!(once, configured_from(start));
}

#[test]
fn init_after_partial_run_converges() {
    let steps = Uart::new(UART_BASE).init();
    let start = RegisterFile {
        data: 0xFFFF_FFFF,
        flag: 0x20,
        ibrd: 0xDEAD,
        fbrd: 0xBEEF,
        lcrh: 0xFFFF_FFFF,
        cr: 0xFFFF_FFFF,
    };
    for k in 0..=steps.len() {
        let mut rf = start;
        rf.apply_all(&steps[..k]);
        rf.apply_all(&steps);
        assert_eq!(rf, configured_from(start));
    }
}

#[test]
fn apply_single_steps() {
    let mut rf = RegisterFile::zeroed();
    rf.apply(InitStep::Write { reg: Reg::Data, value: 0x58 });
    assert_eq!(rf.data, 0x58);
    rf.apply(InitStep::Write { reg: Reg::Flag, value: 0x20 });
    assert_eq!(rf.flag, 0);
    rf.apply(InitStep::DataSyncBarrier);
    rf.apply(InitStep::InstrSyncBarrier);
    assert_eq!(rf, RegisterFile { data: 0x58, flag: 0, ibrd: 0, fbrd: 0, lcrh: 0, cr: 0 });
}

#[test]
fn putc_waits_while_fifo_full() {
    let u = Uart::new(UART_BASE);
    assert_eq!(u.putc(b'A', 0x20), TxAction::PollFlag);
    assert_eq!(u.putc(b'A', 0xFFFF_FFFF), TxAction::PollFlag);
    assert_eq!(u.putc(b'A', 0x28), TxAction::PollFlag);
}

#[test]
fn putc_writes_when_fifo_has_room() {
    let u = Uart::new(UART_BASE);
    assert_eq!(u.putc(b'A', 0), TxAction::WriteData(b'A'));
    assert_eq!(u.putc(0xFF, 0xFFFF_FFDF), TxAction::WriteData(0xFF));
    assert_eq!(u.putc(b'\n', 0x90), TxAction::WriteData(b'\n'));
}

/// Runs a transmission against a scripted Flag register, returning the bytes
/// written and the number of Flag reads.
fn run(text: &[u8], flags: &[u32]) -> (Vec<u8>, usize) {
    let u = Uart::new(UART_BASE);
    let mut tx = u.write_str(text);
    let mut out = Vec::new();
    let mut reads = 0;
    while !tx.is_done() {
        let flag = flags[reads];
        reads += 1;
        let before = tx.sent_count();
        match tx.step(flag) {
            TxAction::WriteData(b) => {
                assert_eq!(flag & 0x20, 0);
                assert_eq!(tx.sent_count(), before + 1);
                out.push(b);
            }
            TxAction::PollFlag => {
                assert_ne!(flag & 0x20, 0);
                assert_eq!(tx.sent_count(), before);
            }
        }
    }
    (out, reads)
}

#[test]
fn transmit_empty_text_is_noop() {
    let (out, reads) = run(b"", &[]);
    assert!(out.is_empty());
    assert_eq!(reads, 0);
}

#[test]
fn transmit_single_byte() {
    let (out, reads) = run(b"x", &[0x20, 0x20, 0x0]);
    assert_eq!(out, b"x".to_vec());
    assert_eq!(reads, 3);
}

#[test]
fn transmit_many_bytes_in_order() {
    let flags = [0, 0x20, 0, 0, 0x20, 0x20, 0x80, 0, 0x10];
    let (out, reads) = run(b"abcdef", &flags);
    assert_eq!(out, b"abcdef".to_vec());
    assert_eq!(reads, 9);
}

#[test]
fn transmit_multibyte_utf8_passes_through() {
    let text = "h\u{e9}\u{2603}".as_bytes();
    let flags = vec![0u32; text.len()];
    let (out, _) = run(text, &flags);
    assert_eq!(out, text.to_vec());
}

#[test]
fn transmitter_starts_empty() {
    let u = Uart::new(UART_BASE);
    let tx = u.write_str(b"abc");
    assert_eq!(tx.sent_count(), 0);
    assert!(!tx.is_done());
}
