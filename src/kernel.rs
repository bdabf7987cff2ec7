//! The two terminal paths: the entry point and the abnormal-termination
//! handler. Each brings up its own handle on the device and sends one text;
//! both then idle forever.
use vstd::prelude::*;
use crate::regs::{InitStep, init_steps};
use crate::report::{PanicLocation, PanicReport, ascii_bytes, startup_banner};
use crate::uart::{UART_BASE, Uart};

verus! {

/// What the entry point does before it idles: bring up `uart` with `init`,
/// then transmit `banner`.
pub struct BootPlan {
    pub uart: Uart,
    pub init: [InitStep; 7],
    pub banner: &'static [u8],
}

/// What the abnormal-termination handler does before it idles: bring up
/// `uart` with `init`, then transmit the pieces of `report`, in order.
pub struct PanicPlan<'a> {
    pub uart: Uart,
    pub init: [InitStep; 7],
    pub report: PanicReport<'a>,
}

/// The entry point: the device at the platform's address, brought up, then
/// the startup banner and nothing more.
pub fn kmain() -> (r: BootPlan)
    ensures
        r.uart.base() == UART_BASE,
        r.init@ == init_steps(),
        r.banner@ == ascii_bytes("Hello from lrOS!\n"@),
{
    let uart = Uart::new(UART_BASE);
    let init = uart.init();
    BootPlan { uart, init, banner: startup_banner() }
}

/// The abnormal-termination handler: a fresh handle on the device at the
/// platform's address, brought up again whatever state it was left in, then
/// the report of the failure.
pub fn on_panic<'a>(location: Option<PanicLocation<'a>>) -> (r: PanicPlan<'a>)
    ensures
        r.uart.base() == UART_BASE,
        r.init@ == init_steps(),
        r.report.wf(),
        r.report.location() == location,
{
    let uart = Uart::new(UART_BASE);
    let init = uart.init();
    PanicPlan { uart, init, report: PanicReport::new(location) }
}

} // verus!
