//! Exact decimal prices. A price is the value `mantissa * 10^(-scale)`, the
//! decomposition rust_decimal uses: a signed 96-bit mantissa and a scale of at
//! most 28. Keeping the decomposition as plain integers lets the rest of the
//! library reason about prices without binary floating point.

use vstd::arithmetic::div_mod::lemma_div_denominator;
use vstd::prelude::*;

verus! {

/// Largest representable mantissa magnitude: `2^96`.
pub open spec fn mantissa_bound() -> int {
    0x1000000000000000000000000
}

/// Largest representable scale.
pub open spec fn max_scale() -> u32 {
    28
}

/// An exact decimal amount, `mantissa * 10^(-scale)`.
#[derive(Clone, Copy, PartialEq, Eq, Structural, Debug)]
pub struct Price {
    pub mantissa: i128,
    pub scale: u32,
}

impl Price {
    /// The decompositions that a 96-bit decimal can carry.
    pub open spec fn wf(self) -> bool {
        &&& -mantissa_bound() < self.mantissa < mantissa_bound()
        &&& self.scale <= max_scale()
    }

    /// Runtime check of `wf`, for unverified callers that must test it before
    /// meeting a precondition.
    pub fn is_well_formed(&self) -> (r: bool)
        ensures
            r == self.wf(),
    {
        -0x1000000000000000000000000i128 < self.mantissa && self.mantissa
            < 0x1000000000000000000000000i128 && self.scale <= 28
    }

    /// A price is positive exactly when its mantissa is.
    pub fn is_positive(&self) -> (r: bool)
        ensures
            r == (self.mantissa > 0),
    {
        self.mantissa > 0
    }

    /// Render the price as a decimal string: sign, integer part, and exactly
    /// `scale` fractional digits.
    pub fn to_decimal_string(&self) -> (r: String)
        requires
            self.wf(),
        ensures
            r@ == spec_decimal_str(self.mantissa as int, self.scale as int),
    {
        let neg = self.mantissa < 0;
        let abs: u128 = if neg {
            (-self.mantissa) as u128
        } else {
            self.mantissa as u128
        };
        let mut s = if neg {
            proof {
                reveal_strlit("-");
            }
            String::from_str("-")
        } else {
            String::new()
        };
        let ghost sign = s@;
        proof {
            if neg {
                assert(sign =~= seq!['-']);
            } else {
                assert(sign =~= Seq::<char>::empty());
            }
        }
        if self.scale == 0 {
            let digits = digits_string(abs);
            s.append(digits.as_str());
        } else {
            let int_part = div_pow10(abs, self.scale);
            let digits = digits_string(int_part);
            s.append(digits.as_str());
            proof {
                reveal_strlit(".");
            }
            s.append(".");
            proof {
                assert("."@ =~= seq!['.']);
            }
            let frac = padded_string(abs, self.scale);
            s.append(frac.as_str());
        }
        proof {
            assert(s@ =~= spec_decimal_str(self.mantissa as int, self.scale as int));
        }
        s
    }
}

/// What rust_decimal's string parser returns on a given input: the
/// mantissa/scale decomposition of the parsed number, or nothing when the
/// input is not a decimal numeral it accepts.
pub uninterp spec fn spec_parse_decimal(s: Seq<char>) -> Option<(i128, u32)>;

/// The character of one decimal digit.
pub open spec fn spec_digit_char(d: int) -> char {
    if d == 0 {
        '0'
    } else if d == 1 {
        '1'
    } else if d == 2 {
        '2'
    } else if d == 3 {
        '3'
    } else if d == 4 {
        '4'
    } else if d == 5 {
        '5'
    } else if d == 6 {
        '6'
    } else if d == 7 {
        '7'
    } else if d == 8 {
        '8'
    } else {
        '9'
    }
}

/// The decimal digits of `n`, most significant first.
pub open spec fn spec_digits(n: nat) -> Seq<char>
    decreases n,
{
    if n < 10 {
        seq![spec_digit_char(n as int)]
    } else {
        spec_digits(n / 10).push(spec_digit_char((n % 10) as int))
    }
}

/// The low `width` decimal digits of `n`, most significant first, left-padded
/// with zeros to exactly `width` characters.
pub open spec fn spec_digits_padded(n: nat, width: nat) -> Seq<char>
    decreases width,
{
    if width == 0 {
        Seq::empty()
    } else {
        spec_digits_padded(n / 10, (width - 1) as nat).push(spec_digit_char((n % 10) as int))
    }
}

/// Powers of ten.
pub open spec fn pow10(k: nat) -> nat
    decreases k,
{
    if k == 0 {
        1
    } else {
        10 * pow10((k - 1) as nat)
    }
}

/// Powers of ten are positive.
proof fn lemma_pow10_pos(k: nat)
    ensures
        pow10(k) >= 1,
    decreases k,
{
    if k > 0 {
        lemma_pow10_pos((k - 1) as nat);
    }
}

/// How a decimal `mantissa * 10^(-scale)` is rendered: an optional sign, the
/// integer part without leading zeros, and, under a positive scale, a point
/// followed by exactly `scale` fractional digits.
pub open spec fn spec_decimal_str(mantissa: int, scale: int) -> Seq<char> {
    let abs = (if mantissa < 0 {
        -mantissa
    } else {
        mantissa
    }) as nat;
    let sign: Seq<char> = if mantissa < 0 {
        seq!['-']
    } else {
        Seq::empty()
    };
    if scale <= 0 {
        sign + spec_digits(abs)
    } else {
        sign + spec_digits(abs / pow10(scale as nat)) + seq!['.'] + spec_digits_padded(
            abs,
            scale as nat,
        )
    }
}

/// One digit as a string slice.
fn digit_str(d: u128) -> (r: &'static str)
    requires
        d < 10,
    ensures
        r@ == seq![spec_digit_char(d as int)],
{
    proof {
        reveal_strlit("0");
        reveal_strlit("1");
        reveal_strlit("2");
        reveal_strlit("3");
        reveal_strlit("4");
        reveal_strlit("5");
        reveal_strlit("6");
        reveal_strlit("7");
        reveal_strlit("8");
        reveal_strlit("9");
        assert("0"@ =~= seq!['0']);
        assert("1"@ =~= seq!['1']);
        assert("2"@ =~= seq!['2']);
        assert("3"@ =~= seq!['3']);
        assert("4"@ =~= seq!['4']);
        assert("5"@ =~= seq!['5']);
        assert("6"@ =~= seq!['6']);
        assert("7"@ =~= seq!['7']);
        assert("8"@ =~= seq!['8']);
        assert("9"@ =~= seq!['9']);
    }
    match d {
        0 => "0",
        1 => "1",
        2 => "2",
        3 => "3",
        4 => "4",
        5 => "5",
        6 => "6",
        7 => "7",
        8 => "8",
        _ => "9",
    }
}

/// The decimal digits of `n`, most significant first.
fn digits_string(n: u128) -> (r: String)
    ensures
        r@ == spec_digits(n as nat),
    decreases n,
{
    if n < 10 {
        String::from_str(digit_str(n))
    } else {
        let mut s = digits_string(n / 10);
        s.append(digit_str(n % 10));
        proof {
            assert(s@ =~= spec_digits(n as nat));
        }
        s
    }
}

/// The low `width` digits of `n`, zero-padded to `width` characters.
fn padded_string(n: u128, width: u32) -> (r: String)
    ensures
        r@ == spec_digits_padded(n as nat, width as nat),
    decreases width,
{
    if width == 0 {
        let s = String::new();
        proof {
            assert(s@ =~= spec_digits_padded(n as nat, 0));
        }
        s
    } else {
        let mut s = padded_string(n / 10, width - 1);
        s.append(digit_str(n % 10));
        proof {
            assert(s@ =~= spec_digits_padded(n as nat, width as nat));
        }
        s
    }
}

/// Divide by the `k`-th power of ten.
fn div_pow10(n: u128, k: u32) -> (r: u128)
    ensures
        r as nat == n as nat / pow10(k as nat),
{
    let mut cur = n;
    let mut i: u32 = 0;
    proof {
        assert(pow10(0) == 1);
        assert(n as nat / 1 == n as nat);
    }
    while i < k
        invariant
            0 <= i <= k,
            cur as nat == n as nat / pow10(i as nat),
        decreases k - i,
    {
        proof {
            lemma_pow10_pos(i as nat);
            lemma_div_denominator(n as int, pow10(i as nat) as int, 10);
            assert(pow10((i + 1) as nat) == pow10(i as nat) * 10) by {
                assert(pow10((i + 1) as nat) == 10 * pow10(i as nat));
            }
        }
        cur = cur / 10;
        i += 1;
    }
    cur
}

/// Relies on rust_decimal's `Decimal::from_str` together with its `mantissa`
/// and `scale` accessors: parsing is a function of the characters alone, a
/// parsed decimal always satisfies the 96-bit/scale-28 representation bounds,
/// and rejected input is reported through the error's message.
#[verifier::external_body]
pub(crate) fn parse_decimal(s: &str) -> (r: Result<Price, String>)
    ensures
        r matches Ok(p) ==> spec_parse_decimal(s@) == Some((p.mantissa, p.scale)) && p.wf(),
        r is Err <==> spec_parse_decimal(s@) is None,
{
    match <rust_decimal::Decimal as core::str::FromStr>::from_str(s) {
        Ok(d) => Ok(Price { mantissa: d.mantissa(), scale: d.scale() }),
        Err(e) => Err(e.to_string()),
    }
}

} // verus!
