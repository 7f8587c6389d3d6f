//! Decimal quantities held as whole numbers of millionths, and their text.

use vstd::prelude::*;
use vstd::string::StringExecFns;

verus! {

/// Millionths in one unit.
pub const MICROS_PER_UNIT: i64 = 1_000_000;

/// A decimal quantity: `micros` millionths of its unit.
#[derive(Clone, Copy, Debug, PartialEq, Eq, Structural)]
pub struct Decimal {
    pub micros: i64,
}

impl View for Decimal {
    type V = int;

    open spec fn view(&self) -> int {
        self.micros as int
    }
}

/// The views of an optional quantity.
pub open spec fn opt_micros(d: Option<Decimal>) -> Option<int> {
    match d {
        Some(x) => Some(x@),
        None => None,
    }
}

/// The views of an optional text.
pub open spec fn opt_text(s: Option<String>) -> Option<Seq<char>> {
    match s {
        Some(x) => Some(x@),
        None => None,
    }
}

/// The distance of `x` from zero.
pub open spec fn magnitude(x: int) -> nat {
    if x < 0 {
        (-x) as nat
    } else {
        x as nat
    }
}

/// A thousandth of `x`, rounded to the nearest whole number, a tie away from
/// zero.
pub open spec fn thousandth_of(x: int) -> int {
    if x < 0 {
        -((500 - x) / 1_000)
    } else {
        (x + 500) / 1_000
    }
}

/// `x` divided by 3.6, rounded to the nearest whole number, a tie away from
/// zero: kilometres an hour as metres a second.
pub open spec fn kph_as_mps(x: int) -> int {
    if x < 0 {
        -((9 - 5 * x) / 18)
    } else {
        (5 * x + 9) / 18
    }
}

/// The whole units of `micros` millionths as a `u32` holds them: nothing
/// below zero, nothing above the largest `u32`, the fraction dropped.
pub open spec fn saturating_whole(micros: int) -> int {
    if micros < 0 {
        0
    } else if micros / 1_000_000 > u32::MAX {
        u32::MAX as int
    } else {
        micros / 1_000_000
    }
}

/// The character of one decimal digit.
pub open spec fn digit_char(d: int) -> char
    recommends
        0 <= d < 10,
{
    if d == 0 {
        '0'
    } else if d == 1 {
        '1'
    } else if d == 2 {
        '2'
    } else if d == 3 {
        '3'
    } else if d == 4 {
        '4'
    } else if d == 5 {
        '5'
    } else if d == 6 {
        '6'
    } else if d == 7 {
        '7'
    } else if d == 8 {
        '8'
    } else {
        '9'
    }
}

/// The decimal digits of `n`, most significant first, with no leading zero.
pub open spec fn digits(n: nat) -> Seq<char>
    decreases n,
{
    if n < 10 {
        seq![digit_char(n as int)]
    } else {
        digits(n / 10).push(digit_char((n % 10) as int))
    }
}

/// The last `width` decimal digits of `n`, zeros in front where `n` is short.
pub open spec fn padded_digits(n: nat, width: nat) -> Seq<char>
    decreases width,
{
    if width == 0 {
        Seq::empty()
    } else {
        padded_digits(n / 10, (width - 1) as nat).push(digit_char((n % 10) as int))
    }
}

/// The digits of the fraction `f / 10^width` without its trailing zeros.
pub open spec fn fraction_digits(f: nat, width: nat) -> Seq<char>
    decreases width,
{
    if width == 0 {
        Seq::empty()
    } else if f % 10 == 0 {
        fraction_digits(f / 10, (width - 1) as nat)
    } else {
        padded_digits(f, width)
    }
}

/// A minus sign for a number below zero, nothing otherwise.
pub open spec fn sign_text(x: int) -> Seq<char> {
    if x < 0 {
        seq!['-']
    } else {
        Seq::empty()
    }
}

/// A whole number in decimal.
pub open spec fn int_text(x: int) -> Seq<char> {
    sign_text(x) + digits(magnitude(x))
}

/// The hundredths nearest to `m` millionths, a tie going to the even one.
pub open spec fn hundredths_half_even(m: nat) -> nat {
    let q = m / 10_000;
    let r = m % 10_000;
    if r > 5_000 || (r == 5_000 && q % 2 == 1) {
        q + 1
    } else {
        q
    }
}

/// `micros` millionths with exactly two digits after the point.
pub open spec fn fixed2_text(micros: int) -> Seq<char> {
    let h = hundredths_half_even(magnitude(micros));
    sign_text(micros) + digits(h / 100) + seq!['.'] + padded_digits(h % 100, 2)
}

/// `micros` millionths with as many digits after the point as it takes, and
/// no point for a whole number.
pub open spec fn plain_text(micros: int) -> Seq<char> {
    let m = magnitude(micros);
    let whole = sign_text(micros) + digits(m / 1_000_000);
    if m % 1_000_000 == 0 {
        whole
    } else {
        whole + seq!['.'] + fraction_digits(m % 1_000_000, 6)
    }
}

/// The text of one decimal digit.
fn digit_str(d: u64) -> (s: &'static str)
    requires
        d < 10,
    ensures
        s@ == seq![digit_char(d as int)],
{
    proof {
        reveal_strlit("0");
        reveal_strlit("1");
        reveal_strlit("2");
        reveal_strlit("3");
        reveal_strlit("4");
        reveal_strlit("5");
        reveal_strlit("6");
        reveal_strlit("7");
        reveal_strlit("8");
        reveal_strlit("9");
    }
    let s = if d == 0 {
        "0"
    } else if d == 1 {
        "1"
    } else if d == 2 {
        "2"
    } else if d == 3 {
        "3"
    } else if d == 4 {
        "4"
    } else if d == 5 {
        "5"
    } else if d == 6 {
        "6"
    } else if d == 7 {
        "7"
    } else if d == 8 {
        "8"
    } else {
        "9"
    };
    assert(s@ =~= seq![digit_char(d as int)]);
    s
}

/// The magnitude of `x`, which an `i64` cannot hold for its least value.
pub fn magnitude_of(x: i64) -> (m: u64)
    ensures
        m == magnitude(x as int),
{
    if x < 0 {
        ((-(x + 1)) as u64) + 1
    } else {
        x as u64
    }
}

/// Appends the decimal digits of `n`.
pub fn append_digits(out: &mut String, n: u64)
    ensures
        final(out)@ == old(out)@ + digits(n as nat),
    decreases n,
{
    if n < 10 {
        out.append(digit_str(n));
        assert(old(out)@ + seq![digit_char(n as int)] =~= old(out)@ + digits(n as nat));
    } else {
        append_digits(out, n / 10);
        out.append(digit_str(n % 10));
        assert(old(out)@ + digits((n / 10) as nat) + seq![digit_char((n % 10) as int)]
            =~= old(out)@ + digits(n as nat));
    }
}

/// Appends the last `width` digits of `n`, zeros in front where `n` is short.
pub fn append_padded_digits(out: &mut String, n: u64, width: u32)
    ensures
        final(out)@ == old(out)@ + padded_digits(n as nat, width as nat),
    decreases width,
{
    if width == 0 {
        assert(old(out)@ + padded_digits(n as nat, 0) =~= old(out)@);
    } else {
        append_padded_digits(out, n / 10, width - 1);
        out.append(digit_str(n % 10));
        assert(old(out)@ + padded_digits((n / 10) as nat, (width - 1) as nat) + seq![
            digit_char((n % 10) as int),
        ] =~= old(out)@ + padded_digits(n as nat, width as nat));
    }
}

/// Appends the digits of the fraction `f / 10^width` without trailing zeros.
pub fn append_fraction_digits(out: &mut String, f: u64, width: u32)
    ensures
        final(out)@ == old(out)@ + fraction_digits(f as nat, width as nat),
    decreases width,
{
    if width == 0 {
        assert(old(out)@ + fraction_digits(f as nat, 0) =~= old(out)@);
    } else if f % 10 == 0 {
        append_fraction_digits(out, f / 10, width - 1);
    } else {
        append_padded_digits(out, f, width);
    }
}

/// Appends a minus sign where `x` is below zero.
pub fn append_sign(out: &mut String, x: i64)
    ensures
        final(out)@ == old(out)@ + sign_text(x as int),
{
    if x < 0 {
        proof {
            reveal_strlit("-");
        }
        out.append("-");
        assert("-"@ =~= seq!['-']);
    } else {
        assert(old(out)@ + Seq::<char>::empty() =~= old(out)@);
    }
}

/// Appends the whole number `x` in decimal.
pub fn append_i64(out: &mut String, x: i64)
    ensures
        final(out)@ == old(out)@ + int_text(x as int),
{
    append_sign(out, x);
    append_digits(out, magnitude_of(x));
    assert(old(out)@ + sign_text(x as int) + digits(magnitude(x as int)) =~= old(out)@ + int_text(
        x as int,
    ));
}

/// The whole number `x` in decimal.
pub fn i64_to_string(x: i64) -> (s: String)
    ensures
        s@ == int_text(x as int),
{
    let mut out = String::new();
    append_i64(&mut out, x);
    assert(Seq::<char>::empty() + int_text(x as int) =~= int_text(x as int));
    out
}

/// The count `n` in decimal.
pub fn usize_to_string(n: usize) -> (s: String)
    ensures
        s@ == digits(n as nat),
{
    let mut out = String::new();
    append_digits(&mut out, n as u64);
    assert(Seq::<char>::empty() + digits(n as nat) =~= digits(n as nat));
    out
}

impl Decimal {
    /// The quantity of `units` whole units.
    pub fn from_units(units: u32) -> (r: Decimal)
        ensures
            r@ == units * 1_000_000,
    {
        Decimal { micros: (units as i64) * MICROS_PER_UNIT }
    }

    /// A thousandth of the quantity, rounded to the nearest millionth.
    pub fn thousandth(self) -> (r: Decimal)
        ensures
            r@ == thousandth_of(self@),
    {
        let m: u128 = magnitude_of(self.micros) as u128;
        let q: u128 = (m + 500) / 1_000;
        if self.micros < 0 {
            Decimal { micros: -(q as i64) }
        } else {
            Decimal { micros: q as i64 }
        }
    }

    /// A speed in kilometres an hour as metres a second: the quantity
    /// divided by 3.6, rounded to the nearest millionth.
    pub fn kph_to_mps(self) -> (r: Decimal)
        ensures
            r@ == kph_as_mps(self@),
    {
        let m: u128 = magnitude_of(self.micros) as u128;
        let q: u128 = (5 * m + 9) / 18;
        if self.micros < 0 {
            Decimal { micros: -(q as i64) }
        } else {
            Decimal { micros: q as i64 }
        }
    }

    /// The whole units of the quantity as a `u32` holds them.
    pub fn whole_units(self) -> (r: u32)
        ensures
            r == saturating_whole(self@),
    {
        if self.micros < 0 {
            0
        } else {
            let w: i64 = self.micros / MICROS_PER_UNIT;
            if w > 0xffff_ffff {
                0xffff_ffff
            } else {
                w as u32
            }
        }
    }

    /// Appends the quantity with two digits after the point.
    pub fn append_fixed2(self, out: &mut String)
        ensures
            final(out)@ == old(out)@ + fixed2_text(self@),
    {
        let m: u64 = magnitude_of(self.micros);
        let q: u64 = m / 10_000;
        let r: u64 = m % 10_000;
        let h: u64 = if r > 5_000 || (r == 5_000 && q % 2 == 1) {
            q + 1
        } else {
            q
        };
        append_sign(out, self.micros);
        append_digits(out, h / 100);
        proof {
            reveal_strlit(".");
        }
        out.append(".");
        append_padded_digits(out, h % 100, 2);
        assert("."@ =~= seq!['.']);
        assert(old(out)@ + sign_text(self@) + digits((h / 100) as nat) + seq!['.'] + padded_digits(
            (h % 100) as nat,
            2,
        ) =~= old(out)@ + fixed2_text(self@));
    }

    /// The quantity with two digits after the point.
    pub fn to_fixed2(self) -> (s: String)
        ensures
            s@ == fixed2_text(self@),
    {
        let mut out = String::new();
        self.append_fixed2(&mut out);
        assert(Seq::<char>::empty() + fixed2_text(self@) =~= fixed2_text(self@));
        out
    }

    /// Appends the quantity in plain decimal.
    pub fn append_plain(self, out: &mut String)
        ensures
            final(out)@ == old(out)@ + plain_text(self@),
    {
        let m: u64 = magnitude_of(self.micros);
        append_sign(out, self.micros);
        append_digits(out, m / 1_000_000);
        let f: u64 = m % 1_000_000;
        if f == 0 {
            assert(old(out)@ + sign_text(self@) + digits((m / 1_000_000) as nat) =~= old(out)@
                + plain_text(self@));
        } else {
            proof {
                reveal_strlit(".");
            }
            out.append(".");
            append_fraction_digits(out, f, 6);
            assert("."@ =~= seq!['.']);
            assert(old(out)@ + sign_text(self@) + digits((m / 1_000_000) as nat) + seq!['.']
                + fraction_digits(f as nat, 6) =~= old(out)@ + plain_text(self@));
        }
    }

    /// The quantity in plain decimal.
    pub fn to_plain(self) -> (s: String)
        ensures
            s@ == plain_text(self@),
    {
        let mut out = String::new();
        self.append_plain(&mut out);
        assert(Seq::<char>::empty() + plain_text(self@) =~= plain_text(self@));
        out
    }
}

} // verus!
