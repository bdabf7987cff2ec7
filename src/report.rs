//! The text that the two terminal paths send over the serial line: the
//! startup banner, and the report of an abnormal termination.
use vstd::prelude::*;
use vstd::string::StringSliceAdditionalSpecFns;

verus! {

/// The bytes of a text made of ASCII characters.
pub open spec fn ascii_bytes(s: Seq<char>) -> Seq<u8> {
    Seq::new(s.len(), |i: int| s[i] as u8)
}

/// The decimal digits of `n`, most significant first, with no leading zero.
pub open spec fn decimal_digits(n: nat) -> Seq<u8>
    decreases n,
{
    if n < 10 {
        seq![(48 + n) as u8]
    } else {
        decimal_digits(n / 10).push((48 + n % 10) as u8)
    }
}

/// The line that reports where a failure happened.
pub open spec fn location_text(file: Seq<u8>, line: nat) -> Seq<u8> {
    ascii_bytes("Panic in file "@) + file + ascii_bytes(" at line "@) + decimal_digits(line)
        + ascii_bytes("\n"@)
}

/// Where a failure happened: a file and a line in it.
#[derive(Clone, Copy, Debug)]
pub struct PanicLocation<'a> {
    pub file: &'a str,
    pub line: u32,
}

/// The whole report of an abnormal termination, with its location line only
/// where a location is known.
pub open spec fn panic_text(location: Option<PanicLocation>) -> Seq<u8> {
    ascii_bytes("Kernel Panic!\n"@) + match location {
        Some(loc) => location_text(loc.file.spec_bytes(), loc.line as nat),
        None => Seq::<u8>::empty(),
    }
}

/// The bytes of an ASCII string literal.
fn literal_bytes(s: &'static str) -> (r: &'static [u8])
    requires
        vstd::string::is_ascii(s),
    ensures
        r@ == ascii_bytes(s@),
{
    let b = s.as_bytes();
    proof {
        vstd::string::is_ascii_spec_bytes(s);
        assert(b@ =~= ascii_bytes(s@));
    }
    b
}

/// `decimal_digits(n)` has at most `k` digits when `n < 10^k`.
proof fn lemma_decimal_len(n: nat, k: nat, p: nat)
    requires
        k >= 1,
        n < p,
        p == pow10(k),
    ensures
        1 <= decimal_digits(n).len() <= k,
    decreases n,
{
    if n >= 10 {
        assert(k >= 2) by {
            if k == 1 {
                assert(pow10(1) == 10 * pow10(0));
            }
        }
        assert(pow10(k) == 10 * pow10((k - 1) as nat));
        assert(n / 10 < pow10((k - 1) as nat)) by (nonlinear_arith)
            requires
                n < p,
                p == 10 * pow10((k - 1) as nat),
        ;
        lemma_decimal_len(n / 10, (k - 1) as nat, pow10((k - 1) as nat));
    }
}

/// Ten to the power `k`.
pub open spec fn pow10(k: nat) -> nat
    decreases k,
{
    if k == 0 {
        1
    } else {
        10 * pow10((k - 1) as nat)
    }
}

/// The decimal digits of a `u32`, held in a fixed buffer: no allocation.
pub struct Decimal {
    buf: [u8; 10],
    start: usize,
    value: u32,
}

impl Decimal {
    /// The number written.
    pub closed spec fn value(&self) -> u32 {
        self.value
    }

    /// The digits held, most significant first.
    pub closed spec fn digits(&self) -> Seq<u8> {
        self.buf@.subrange(self.start as int, 10)
    }

    /// The digits held are those of the number.
    pub closed spec fn wf(&self) -> bool {
        &&& self.start < 10
        &&& self.digits() == decimal_digits(self.value as nat)
    }

    /// The decimal digits of `n`.
    pub fn new(n: u32) -> (r: Self)
        ensures
            r.wf(),
            r.value() == n,
            r.digits() == decimal_digits(n as nat),
    {
        proof {
            reveal_with_fuel(pow10, 11);
            assert(pow10(10) == 10000000000);
            lemma_decimal_len(n as nat, 10, pow10(10));
        }
        let mut buf: [u8; 10] = [48u8; 10];
        let mut pos: usize = 9;
        let mut m: u32 = n;
        while m >= 10
            invariant
                pos < 10,
                decimal_digits(n as nat) == decimal_digits(m as nat) + buf@.subrange(
                    pos as int + 1,
                    10,
                ),
                decimal_digits(n as nat).len() <= 10,
            decreases m,
        {
            let ghost old_buf = buf@;
            buf[pos] = 48 + (m % 10) as u8;
            proof {
                assert(buf@.subrange(pos as int, 10) =~= seq![(48 + m % 10) as u8]
                    + old_buf.subrange(pos as int + 1, 10));
                assert(decimal_digits((m / 10) as nat).len() >= 1) by {
                    reveal_with_fuel(pow10, 11);
                    lemma_decimal_len((m / 10) as nat, 10, pow10(10));
                }
            }
            m = m / 10;
            pos = pos - 1;
        }
        buf[pos] = 48 + m as u8;
        let r = Decimal { buf, start: pos, value: n };
        assert(r.digits() =~= decimal_digits(n as nat));
        r
    }

    /// The digits, most significant first.
    pub fn as_bytes(&self) -> (r: &[u8])
        requires
            self.wf(),
        ensures
            r@ == self.digits(),
    {
        vstd::slice::slice_subrange(self.buf.as_slice(), self.start, 10)
    }
}

/// The banner sent once the device is up on the normal path.
pub fn startup_banner() -> (r: &'static [u8])
    ensures
        r@ == ascii_bytes("Hello from lrOS!\n"@),
{
    proof {
        reveal_strlit("Hello from lrOS!\n");
    }
    literal_bytes("Hello from lrOS!\n")
}

/// The first line of the report of an abnormal termination.
pub fn panic_banner() -> (r: &'static [u8])
    ensures
        r@ == ascii_bytes("Kernel Panic!\n"@),
{
    proof {
        reveal_strlit("Kernel Panic!\n");
    }
    literal_bytes("Kernel Panic!\n")
}

/// The report of an abnormal termination, held as pieces that borrow the
/// location's file name and fixed texts: no allocation.
pub struct PanicReport<'a> {
    location: Option<PanicLocation<'a>>,
    line: Decimal,
}

impl<'a> PanicReport<'a> {
    /// Where the failure happened, if known.
    pub closed spec fn location(&self) -> Option<PanicLocation<'a>> {
        self.location
    }

    /// The line number's digits are those of the location's line.
    pub closed spec fn wf(&self) -> bool {
        &&& self.line.wf()
        &&& match self.location {
            Some(loc) => self.line.value() == loc.line,
            None => true,
        }
    }

    /// The report of a failure at `location`, if known.
    pub fn new(location: Option<PanicLocation<'a>>) -> (r: Self)
        ensures
            r.wf(),
            r.location() == location,
    {
        let line = match location {
            Some(loc) => Decimal::new(loc.line),
            None => Decimal::new(0),
        };
        PanicReport { location, line }
    }

    /// The report in six pieces, to be sent in order: `Kernel Panic!` and a
    /// newline, then `Panic in file `, the file, ` at line `, the line number
    /// and a newline where the location is known, else five empty pieces.
    pub fn segments(&self) -> (r: [&[u8]; 6])
        requires
            self.wf(),
        ensures
            r[0]@ + r[1]@ + r[2]@ + r[3]@ + r[4]@ + r[5]@ == panic_text(self.location()),
    {
        proof {
            reveal_strlit("Panic in file ");
            reveal_strlit(" at line ");
            reveal_strlit("\n");
        }
        let banner = panic_banner();
        match self.location {
            Some(loc) => {
                let r = [
                    banner,
                    literal_bytes("Panic in file "),
                    loc.file.as_bytes(),
                    literal_bytes(" at line "),
                    self.line.as_bytes(),
                    literal_bytes("\n"),
                ];
                assert(r[0]@ + r[1]@ + r[2]@ + r[3]@ + r[4]@ + r[5]@ =~= panic_text(
                    self.location,
                ));
                r
            },
            None => {
                let empty = vstd::slice::slice_subrange(banner, 0, 0);
                let r = [banner, empty, empty, empty, empty, empty];
                assert(r[0]@ + r[1]@ + r[2]@ + r[3]@ + r[4]@ + r[5]@ =~= panic_text(
                    self.location,
                ));
                r
            },
        }
    }
}

} // verus!
