//! Download progress: the progress counter and human-readable sizes.
//! Drawing the bar and timing the download are done by the application.

use vstd::prelude::*;
use vstd::string::*;

verus! {

/// Width of the progress bar, in characters.
pub const PROGRESS_BAR_WIDTH: usize = 50;

/// Progress of a download of `total` bytes.
#[derive(Debug)]
pub struct ProgressBar {
    total: u64,
    current: u64,
    width: usize,
}

/// What a progress bar holds: (total, current, width).
pub struct ProgressView {
    pub total: u64,
    pub current: u64,
    pub width: usize,
}

impl View for ProgressBar {
    type V = ProgressView;

    closed spec fn view(&self) -> ProgressView {
        ProgressView { total: self.total, current: self.current, width: self.width }
    }
}

impl ProgressBar {
    /// A bar for `total` bytes, at zero, 50 characters wide.
    pub fn new(total: u64) -> (p: Self)
        ensures
            p@ == (ProgressView { total, current: 0, width: 50 }),
    {
        ProgressBar { total, current: 0, width: PROGRESS_BAR_WIDTH }
    }

    /// Sets the bytes done so far.
    pub fn update(&mut self, current: u64)
        ensures
            final(self)@ == (ProgressView { current, ..old(self)@ }),
    {
        self.current = current;
    }

    /// Adds to the bytes done.
    pub fn inc(&mut self, amount: u64)
        requires
            old(self)@.current + amount <= u64::MAX,
        ensures
            final(self)@ == (ProgressView { current: (old(self)@.current + amount) as u64, ..old(self)@ }),
    {
        self.current = self.current + amount;
    }

    /// Marks the download complete: done equals total.
    pub fn complete(&mut self)
        ensures
            final(self)@ == (ProgressView { current: old(self)@.total, ..old(self)@ }),
    {
        self.current = self.total;
    }

    /// Total bytes.
    pub fn total(&self) -> (t: u64)
        ensures
            t == self@.total,
    {
        self.total
    }

    /// Bytes done.
    pub fn current(&self) -> (c: u64)
        ensures
            c == self@.current,
    {
        self.current
    }

    /// Width of the bar.
    pub fn width(&self) -> (w: usize)
        ensures
            w == self@.width,
    {
        self.width
    }

    /// Whether an abandoned bar is left part-way and must be finished:
    /// something was done but not everything.
    pub fn is_partial(&self) -> (b: bool)
        ensures
            b == (0 < self@.current < self@.total),
    {
        self.current > 0 && self.current < self.total
    }
}

/// The decimal digit `d` as a character.
pub open spec fn digit_char(d: int) -> char {
    if d == 0 {
        '0'
    } else if d == 1 {
        '1'
    } else if d == 2 {
        '2'
    } else if d == 3 {
        '3'
    } else if d == 4 {
        '4'
    } else if d == 5 {
        '5'
    } else if d == 6 {
        '6'
    } else if d == 7 {
        '7'
    } else if d == 8 {
        '8'
    } else {
        '9'
    }
}

/// Decimal digits of a natural number, without leading zeros.
pub open spec fn decimal(n: nat) -> Seq<char>
    decreases n,
{
    if n < 10 {
        seq![digit_char(n as int)]
    } else {
        decimal(n / 10) + seq![digit_char((n % 10) as int)]
    }
}

fn digit_str(d: u64) -> (s: &'static str)
    requires
        d < 10,
    ensures
        s@ == seq![digit_char(d as int)],
{
    proof {
        reveal_strlit("0");
        reveal_strlit("1");
        reveal_strlit("2");
        reveal_strlit("3");
        reveal_strlit("4");
        reveal_strlit("5");
        reveal_strlit("6");
        reveal_strlit("7");
        reveal_strlit("8");
        reveal_strlit("9");
    }
    if d == 0 {
        "0"
    } else if d == 1 {
        "1"
    } else if d == 2 {
        "2"
    } else if d == 3 {
        "3"
    } else if d == 4 {
        "4"
    } else if d == 5 {
        "5"
    } else if d == 6 {
        "6"
    } else if d == 7 {
        "7"
    } else if d == 8 {
        "8"
    } else {
        "9"
    }
}

/// Appends the decimal digits of `n`.
pub fn append_decimal(s: &mut String, n: u64)
    ensures
        final(s)@ == old(s)@ + decimal(n as nat),
    decreases n,
{
    if n >= 10 {
        append_decimal(s, n / 10);
    }
    s.append(digit_str(n % 10));
    proof {
        if n >= 10 {
            assert(old(s)@ + decimal((n / 10) as nat) + seq![digit_char((n % 10) as int)]
                =~= old(s)@ + decimal(n as nat));
        } else {
            assert(n % 10 == n);
        }
    }
}

/// `10 x / unit` rounded to the nearest integer, halves to even: the
/// tenths of `x / unit` as they are shown with one decimal.
pub open spec fn tenths(x: int, unit: int) -> int {
    let q = (10 * x) / unit;
    let r = (10 * x) % unit;
    if 2 * r > unit || (2 * r == unit && q % 2 == 1) {
        q + 1
    } else {
        q
    }
}

/// A size with one decimal and a unit.
pub open spec fn with_unit(x: int, unit: int, suffix: Seq<char>) -> Seq<char> {
    let t = tenths(x, unit);
    decimal((t / 10) as nat) + "."@ + decimal((t % 10) as nat) + suffix
}

/// A byte count as shown to people: in GB, MB or KB (powers of 1024) with
/// one decimal from the first unit it reaches, else in bytes.
pub open spec fn human_bytes(bytes: u64) -> Seq<char> {
    let kb: int = 1024;
    let mb: int = 1048576;
    let gb: int = 1073741824;
    if bytes >= gb {
        with_unit(bytes as int, gb, "GB"@)
    } else if bytes >= mb {
        with_unit(bytes as int, mb, "MB"@)
    } else if bytes >= kb {
        with_unit(bytes as int, kb, "KB"@)
    } else {
        decimal(bytes as nat) + "B"@
    }
}

fn format_with_unit(bytes: u64, unit: u64, suffix: &str) -> (s: String)
    requires
        unit > 0,
    ensures
        s@ == with_unit(bytes as int, unit as int, suffix@),
{
    let x: u128 = (bytes as u128) * 10;
    let u: u128 = unit as u128;
    let q: u128 = x / u;
    let r: u128 = x % u;
    let t: u128 = if 2 * r > u || (2 * r == u && q % 2 == 1) {
        q + 1
    } else {
        q
    };
    assert(t == tenths(bytes as int, unit as int));
    assert(q <= x) by (nonlinear_arith)
        requires
            u > 0,
            q == x / u,
    ;
    let whole = (t / 10) as u64;
    let frac = (t % 10) as u64;
    let mut s = String::new();
    append_decimal(&mut s, whole);
    s.append(".");
    append_decimal(&mut s, frac);
    s.append(suffix);
    proof {
        reveal_strlit("");
        assert(Seq::<char>::empty() + decimal(whole as nat) == decimal(whole as nat));
    }
    s
}

/// Formats a byte count for people: "500B", "1.0KB", "1.5MB", "2.0GB".
/// The decimal is rounded from the exact quotient, halves to even.
pub fn format_bytes(bytes: u64) -> (s: String)
    ensures
        s@ == human_bytes(bytes),
{
    let kb: u64 = 1024;
    let mb: u64 = 1024 * 1024;
    let gb: u64 = 1024 * 1024 * 1024;
    if bytes >= gb {
        format_with_unit(bytes, gb, "GB")
    } else if bytes >= mb {
        format_with_unit(bytes, mb, "MB")
    } else if bytes >= kb {
        format_with_unit(bytes, kb, "KB")
    } else {
        let mut s = String::new();
        append_decimal(&mut s, bytes);
        s.append("B");
        proof {
            assert(Seq::<char>::empty() + decimal(bytes as nat) == decimal(bytes as nat));
        }
        s
    }
}

} // verus!
