//! Flow-controlled transmission: the decisions of the busy-wait on the Flag
//! register, one observation at a time.
use vstd::prelude::*;
use crate::uart::Uart;

verus! {

/// What the driver does after an observation of the Flag register.
#[derive(Clone, Copy, Debug, PartialEq, Eq, Structural)]
pub enum TxAction {
    /// The transmit FIFO is full: read the Flag register again.
    PollFlag,
    /// The transmit FIFO has room: write this byte to the Data register.
    WriteData(u8),
}

/// Bit 5 of the Flag register (TXFF) is set while the transmit FIFO is full.
pub open spec fn tx_fifo_full(flag: u32) -> bool {
    flag & 0x20 != 0
}

/// The action for byte `c` after the Flag register was read as `flag`.
pub open spec fn putc_action(c: u8, flag: u32) -> TxAction {
    if tx_fifo_full(flag) {
        TxAction::PollFlag
    } else {
        TxAction::WriteData(c)
    }
}

/// The bit that the driver tests is TXFF.
pub proof fn lemma_txff_bit(flag: u32)
    ensures
        (flag & (1u32 << 5u32) != 0) == tx_fifo_full(flag),
{
    assert((flag & (1u32 << 5u32) != 0) == (flag & 0x20u32 != 0)) by (bit_vector);
}

/// The bytes written to Data while transmitting `text`, given the values that
/// successive reads of the Flag register returned.
pub open spec fn written(text: Seq<u8>, flags: Seq<u32>) -> Seq<u8>
    decreases flags.len(),
{
    if flags.len() == 0 {
        Seq::empty()
    } else {
        let w = written(text, flags.drop_last());
        if w.len() < text.len() && !tx_fifo_full(flags.last()) {
            w.push(text[w.len() as int])
        } else {
            w
        }
    }
}

/// How many of `flags` have TXFF clear.
pub open spec fn clear_count(flags: Seq<u32>) -> nat
    decreases flags.len(),
{
    if flags.len() == 0 {
        0
    } else {
        clear_count(flags.drop_last()) + if tx_fifo_full(flags.last()) { 0nat } else { 1nat }
    }
}

/// A transmission in progress: the text, how many of its bytes have gone to
/// the Data register, and (as ghost state) every Flag value observed so far.
pub struct Transmitter<'a> {
    uart: Uart,
    text: &'a [u8],
    sent: usize,
    observed: Ghost<Seq<u32>>,
}

impl<'a> Transmitter<'a> {
    /// The device the text goes to.
    pub closed spec fn uart(&self) -> Uart {
        self.uart
    }

    /// The whole text to transmit.
    pub closed spec fn text(&self) -> Seq<u8> {
        self.text@
    }

    /// How many bytes of the text have been written to Data.
    pub closed spec fn sent(&self) -> nat {
        self.sent as nat
    }

    /// The Flag values observed so far, in order.
    pub closed spec fn observed(&self) -> Seq<u32> {
        self.observed@
    }

    /// What has been written is the prefix of the text that the observed
    /// Flag values allowed.
    pub closed spec fn wf(&self) -> bool {
        &&& self.sent <= self.text@.len()
        &&& written(self.text@, self.observed@) == self.text@.take(self.sent as int)
    }

    /// The bytes written to Data so far are exactly the first `sent()` bytes
    /// of the text, and they are what the observed Flag values allowed.
    pub proof fn lemma_sent_prefix(&self)
        requires
            self.wf(),
        ensures
            self.sent() <= self.text().len(),
            written(self.text(), self.observed()) == self.text().take(self.sent() as int),
    {
    }

    /// A transmission of `text` to `uart` that has not started.
    pub fn new(uart: Uart, text: &'a [u8]) -> (r: Self)
        ensures
            r.wf(),
            r.uart() == uart,
            r.text() == text@,
            r.observed() == Seq::<u32>::empty(),
            r.sent() == 0,
    {
        let r = Transmitter { uart, text, sent: 0, observed: Ghost(Seq::empty()) };
        assert(text@.take(0) =~= Seq::<u8>::empty());
        r
    }

    /// Whether every byte of the text has been written.
    pub fn is_done(&self) -> (r: bool)
        requires
            self.wf(),
        ensures
            r == (self.sent() == self.text().len()),
    {
        self.sent == self.text.len()
    }

    /// How many bytes of the text have been written.
    pub fn sent_count(&self) -> (r: usize)
        ensures
            r == self.sent(),
    {
        self.sent
    }

    /// Takes one observation of the Flag register and returns what to do:
    /// the next byte of the text if TXFF is clear, or another read of Flag.
    pub fn step(&mut self, flag: u32) -> (r: TxAction)
        requires
            old(self).wf(),
            old(self).sent() < old(self).text().len(),
        ensures
            final(self).wf(),
            final(self).uart() == old(self).uart(),
            final(self).text() == old(self).text(),
            final(self).observed() == old(self).observed().push(flag),
            r == putc_action(old(self).text()[old(self).sent() as int], flag),
            final(self).sent() == if tx_fifo_full(flag) {
                old(self).sent()
            } else {
                old(self).sent() + 1
            },
    {
        let c = self.text[self.sent];
        let r = self.uart.putc(c, flag);
        let ghost flags = self.observed@.push(flag);
        proof {
            assert(flags.drop_last() =~= self.observed@);
        }
        self.observed = Ghost(flags);
        if let TxAction::WriteData(_) = r {
            proof {
                assert(self.text@.take(self.sent as int).push(c) =~= self.text@.take(
                    self.sent + 1,
                ));
            }
            self.sent = self.sent + 1;
        }
        r
    }
}

/// Transmission is exact: whatever the Flag register reports, the bytes
/// written to Data are the first bytes of the text, in order, one for each
/// observation with TXFF clear, until the whole text has gone. An empty text
/// writes nothing.
pub proof fn lemma_written_is_prefix(text: Seq<u8>, flags: Seq<u32>)
    ensures
        written(text, flags) == text.take(
            if clear_count(flags) < text.len() { clear_count(flags) as int } else { text.len() as int },
        ),
    decreases flags.len(),
{
    if flags.len() == 0 {
        assert(text.take(0) =~= Seq::<u8>::empty());
    } else {
        lemma_written_is_prefix(text, flags.drop_last());
        let w = written(text, flags.drop_last());
        if w.len() < text.len() && !tx_fifo_full(flags.last()) {
            assert(w.push(text[w.len() as int]) =~= text.take(w.len() + 1 as int));
        }
    }
}

/// Once enough observations with TXFF clear have been made, the whole text
/// has been written, exactly.
pub proof fn lemma_written_complete(text: Seq<u8>, flags: Seq<u32>)
    requires
        clear_count(flags) >= text.len(),
    ensures
        written(text, flags) == text,
{
    lemma_written_is_prefix(text, flags);
    assert(text.take(text.len() as int) =~= text);
}

/// Data is written only on an observation with TXFF clear: an observation with
/// TXFF set writes nothing, and the next decision waits for a fresh read.
pub proof fn lemma_no_write_while_full(text: Seq<u8>, flags: Seq<u32>, flag: u32)
    requires
        tx_fifo_full(flag),
    ensures
        written(text, flags.push(flag)) == written(text, flags),
{
    assert(flags.push(flag).drop_last() =~= flags);
}

/// An observation with TXFF clear writes the next byte of the text, and only
/// that byte, unless the whole text has gone.
pub proof fn lemma_write_when_clear(text: Seq<u8>, flags: Seq<u32>, flag: u32)
    requires
        !tx_fifo_full(flag),
        written(text, flags).len() < text.len(),
    ensures
        written(text, flags.push(flag)) == written(text, flags).push(
            text[written(text, flags).len() as int],
        ),
{
    assert(flags.push(flag).drop_last() =~= flags);
}

} // verus!
