//! Exact decimal numbers for configuration values.
//!
//! The configuration snapshot carries quantities such as the frame rate,
//! the overlay opacity or the volume multiplier as exact decimals: a
//! mantissa and a power-of-ten scale. The supervisor only ever formats
//! these values into the filter-graph text and tests the volume for
//! exact unity, so an exact representation is both sufficient and lets
//! the unity test be a decidable, verified comparison.

use vstd::prelude::*;
use vstd::string::StringExecFns;

verus! {

/// Largest mantissa magnitude a `Dec` may carry.
pub const MAX_MANTISSA: i64 = 1_000_000_000_000_000;

/// Largest scale (count of fractional digits) a `Dec` may carry.
pub const MAX_SCALE: u32 = 9;

/// An exact decimal: the represented value is `mantissa / 10^scale`.
///
/// The representation is kept canonical (no trailing fractional zeros),
/// so two `Dec` values are equal exactly when the numbers they denote
/// are equal.
#[derive(Clone, Copy, Debug, PartialEq, Eq, Structural)]
pub struct Dec {
    pub mantissa: i64,
    pub scale: u32,
}

/// `10^e`.
pub open spec fn pow10(e: nat) -> nat
    decreases e,
{
    if e == 0 {
        1
    } else {
        10 * pow10((e - 1) as nat)
    }
}

impl Dec {
    /// A `Dec` is well formed when its mantissa and scale are bounded and
    /// the representation is canonical: a fractional part never ends in a
    /// zero digit.
    pub open spec fn wf(self) -> bool {
        &&& -MAX_MANTISSA <= self.mantissa <= MAX_MANTISSA
        &&& self.scale <= MAX_SCALE
        &&& self.scale > 0 ==> self.mantissa % 10 != 0
    }

    /// The represented value equals exactly one.
    pub open spec fn spec_is_unity(self) -> bool {
        self.mantissa == pow10(self.scale as nat)
    }

    /// Builds a decimal; callers state well-formedness where they need it.
    pub fn new(mantissa: i64, scale: u32) -> (d: Dec)
        ensures
            d == (Dec { mantissa, scale }),
    {
        Dec { mantissa, scale }
    }

    /// Whether the represented value is exactly one. In canonical form
    /// that holds only for mantissa one at scale zero.
    pub fn is_unity(&self) -> (r: bool)
        requires
            self.wf(),
        ensures
            r == self.spec_is_unity(),
    {
        proof {
            if self.scale > 0 && self.mantissa == pow10(self.scale as nat) {
                lemma_pow10_mod10(self.scale as nat);
            }
        }
        self.mantissa == 1 && self.scale == 0
    }
}

/// The character for one decimal digit.
pub open spec fn digit_char(d: nat) -> char {
    if d == 0 {
        '0'
    } else if d == 1 {
        '1'
    } else if d == 2 {
        '2'
    } else if d == 3 {
        '3'
    } else if d == 4 {
        '4'
    } else if d == 5 {
        '5'
    } else if d == 6 {
        '6'
    } else if d == 7 {
        '7'
    } else if d == 8 {
        '8'
    } else {
        '9'
    }
}

/// The decimal digits of a natural number, most significant first.
pub open spec fn digits_of(n: nat) -> Seq<char>
    decreases n,
{
    if n < 10 {
        seq![digit_char(n)]
    } else {
        digits_of(n / 10) + seq![digit_char(n % 10)]
    }
}

/// The magnitude of an integer.
pub open spec fn mag(m: int) -> nat {
    if m < 0 {
        (-m) as nat
    } else {
        m as nat
    }
}

/// The decimal text of an integer: a leading minus sign when negative,
/// then the digits of its magnitude.
pub open spec fn int_text(m: int) -> Seq<char> {
    if m < 0 {
        seq!['-'] + digits_of(mag(m))
    } else {
        digits_of(mag(m))
    }
}

/// Exactly `e` fractional digits of the remainder `r`, most significant
/// first, padded with leading zeros.
pub open spec fn frac_text(r: nat, e: nat) -> Seq<char>
    decreases e,
{
    if e == 0 {
        Seq::<char>::empty()
    } else {
        frac_text(r / 10, (e - 1) as nat) + seq![digit_char(r % 10)]
    }
}

/// The decimal text of a `Dec`: the integer part, and for a positive
/// scale a point followed by exactly `scale` fractional digits.
pub open spec fn dec_text(d: Dec) -> Seq<char> {
    if d.scale == 0 {
        int_text(d.mantissa as int)
    } else {
        let sign = if d.mantissa < 0 {
            seq!['-']
        } else {
            Seq::<char>::empty()
        };
        sign + digits_of(mag(d.mantissa as int) / pow10(d.scale as nat)) + seq!['.'] + frac_text(
            mag(d.mantissa as int) % pow10(d.scale as nat),
            d.scale as nat,
        )
    }
}

/// A one-character string for a digit below ten.
fn digit_str(d: u64) -> (s: &'static str)
    requires
        d < 10,
    ensures
        s@ == seq![digit_char(d as nat)],
{
    proof {
        reveal_strlit("0");
        reveal_strlit("1");
        reveal_strlit("2");
        reveal_strlit("3");
        reveal_strlit("4");
        reveal_strlit("5");
        reveal_strlit("6");
        reveal_strlit("7");
        reveal_strlit("8");
        reveal_strlit("9");
    }
    let s = match d {
        0 => "0",
        1 => "1",
        2 => "2",
        3 => "3",
        4 => "4",
        5 => "5",
        6 => "6",
        7 => "7",
        8 => "8",
        _ => "9",
    };
    proof {
        assert(s@ =~= seq![digit_char(d as nat)]);
    }
    s
}

/// The decimal digits of an unsigned number, as a string.
pub fn u64_text(n: u64) -> (s: String)
    ensures
        s@ == digits_of(n as nat),
    decreases n,
{
    if n < 10 {
        String::from_str(digit_str(n))
    } else {
        let mut s = u64_text(n / 10);
        s.append(digit_str(n % 10));
        s
    }
}

/// The decimal text of a signed number, as a string.
pub fn i64_text(n: i64) -> (s: String)
    ensures
        s@ == int_text(n as int),
{
    if n < 0 {
        let m: u64 = (-(n as i128)) as u64;
        let mut s = String::from_str("-");
        proof {
            reveal_strlit("-");
            assert(s@ =~= seq!['-']);
        }
        s.append(u64_text(m).as_str());
        s
    } else {
        u64_text(n as u64)
    }
}

/// Exactly `e` fractional digits of `r`, as a string.
fn frac_digits(r: u64, e: u32) -> (s: String)
    ensures
        s@ == frac_text(r as nat, e as nat),
    decreases e,
{
    if e == 0 {
        String::new()
    } else {
        let mut s = frac_digits(r / 10, e - 1);
        s.append(digit_str(r % 10));
        s
    }
}

/// Monotonicity of `pow10`.
proof fn lemma_pow10_le(a: nat, b: nat)
    requires
        a <= b,
    ensures
        pow10(a) <= pow10(b),
    decreases b,
{
    if a < b {
        lemma_pow10_le(a, (b - 1) as nat);
    }
}

/// `10^e` as a machine word.
pub fn pow10_u64(e: u32) -> (r: u64)
    requires
        e <= MAX_SCALE,
    ensures
        r == pow10(e as nat),
        r >= 1,
    decreases e,
{
    proof {
        lemma_pow10_le(e as nat, MAX_SCALE as nat);
        reveal_with_fuel(pow10, 11);
        assert(pow10(MAX_SCALE as nat) == 1_000_000_000);
    }
    if e == 0 {
        1
    } else {
        let r = pow10_u64(e - 1);
        proof {
            lemma_pow10_le((e - 1) as nat, MAX_SCALE as nat);
        }
        10 * r
    }
}

impl Dec {
    /// The canonical decimal text of the represented value.
    pub fn to_text(&self) -> (s: String)
        requires
            self.wf(),
        ensures
            s@ == dec_text(*self),
    {
        if self.scale == 0 {
            i64_text(self.mantissa)
        } else {
            let m: u64 = if self.mantissa < 0 {
                (-(self.mantissa as i128)) as u64
            } else {
                self.mantissa as u64
            };
            let p = pow10_u64(self.scale);
            let mut s = if self.mantissa < 0 {
                let t = String::from_str("-");
                proof {
                    reveal_strlit("-");
                    assert(t@ =~= seq!['-']);
                }
                t
            } else {
                String::new()
            };
            s.append(u64_text(m / p).as_str());
            s.append(".");
            proof {
                reveal_strlit(".");
                assert((".")@ =~= seq!['.']);
            }
            s.append(frac_digits(m % p, self.scale).as_str());
            s
        }
    }
}

/// For a positive exponent, `10^e` is divisible by ten.
proof fn lemma_pow10_mod10(e: nat)
    requires
        e > 0,
    ensures
        pow10(e) % 10 == 0,
    decreases e,
{
    if e > 1 {
        lemma_pow10_mod10((e - 1) as nat);
    }
}

} // verus!
