//! Decimal amounts held as plain integers: a signed mantissa and the number
//! of fractional digits it carries.

use vstd::prelude::*;

verus! {

/// Largest magnitude of a mantissa: 96 bits.
pub const MAX_MANTISSA: i128 = 0xFFFF_FFFF_FFFF_FFFF_FFFF_FFFF;

/// Largest number of fractional digits of an amount.
pub const MAX_SCALE: u32 = 28;

/// Number of fractional digits of every balance of an account.
pub const FIXED_SCALE: u32 = 4;

/// `10^n`.
pub open spec fn pow10(n: nat) -> int
    decreases n,
{
    if n == 0 {
        1
    } else {
        10 * pow10((n - 1) as nat)
    }
}

/// Whether `m` is a mantissa of at most 96 bits.
pub open spec fn fits(m: int) -> bool {
    -MAX_MANTISSA <= m <= MAX_MANTISSA
}

/// `m / p` rounded to the nearest integer, a tie going away from zero.
pub open spec fn round_half_away(m: int, p: int) -> int {
    if m >= 0 {
        (m + p / 2) / p
    } else {
        -((-m + p / 2) / p)
    }
}

/// What an amount stands for: the number `mantissa / 10^scale`.
pub struct AmountView {
    pub mantissa: int,
    pub scale: nat,
}

impl AmountView {
    /// The mantissa has at most 96 bits and the scale is at most 28.
    pub open spec fn in_range(self) -> bool {
        &&& fits(self.mantissa)
        &&& self.scale <= MAX_SCALE
    }

    /// The amount carries exactly four fractional digits.
    pub open spec fn is_fixed(self) -> bool {
        self.scale == FIXED_SCALE
    }

    /// The mantissa of the amount at four fractional digits. Digits beyond
    /// the fourth are dropped and round the mantissa half away from zero.
    /// Missing digits are added as zeros; where the mantissa then needs more
    /// than 96 bits, the amount has no such form.
    pub open spec fn fixed(self) -> Option<int> {
        if self.scale > FIXED_SCALE {
            Some(round_half_away(self.mantissa, pow10((self.scale - FIXED_SCALE) as nat)))
        } else if fits(self.mantissa * pow10((FIXED_SCALE - self.scale) as nat)) {
            Some(self.mantissa * pow10((FIXED_SCALE - self.scale) as nat))
        } else {
            None
        }
    }

    /// `self < other` as numbers.
    pub open spec fn less_than(self, other: AmountView) -> bool {
        self.mantissa * pow10(other.scale) < other.mantissa * pow10(self.scale)
    }
}

/// A decimal number with a 96-bit mantissa and up to 28 fractional digits.
#[derive(Clone, Copy, Debug)]
pub struct Amount {
    pub(crate) mantissa: i128,
    pub(crate) scale: u32,
}

impl View for Amount {
    type V = AmountView;

    closed spec fn view(&self) -> AmountView {
        AmountView { mantissa: self.mantissa as int, scale: self.scale as nat }
    }
}

impl Amount {
    /// Every amount has a mantissa of at most 96 bits and a scale of at most
    /// 28.
    #[verifier::type_invariant]
    pub open spec fn wf(self) -> bool {
        self@.in_range()
    }

    /// The amount `mantissa / 10^scale`, if the mantissa fits in 96 bits and
    /// the scale is at most 28.
    pub fn new(mantissa: i128, scale: u32) -> (result: Option<Amount>)
        ensures
            result is Some <==> fits(mantissa as int) && scale <= MAX_SCALE,
            result matches Some(amount) ==> amount@ == (AmountView {
                mantissa: mantissa as int,
                scale: scale as nat,
            }),
    {
        if -MAX_MANTISSA <= mantissa && mantissa <= MAX_MANTISSA && scale <= MAX_SCALE {
            Some(Amount { mantissa, scale })
        } else {
            None
        }
    }

    /// Zero with four fractional digits.
    pub fn zero() -> (result: Amount)
        ensures
            result@ == (AmountView { mantissa: 0, scale: FIXED_SCALE as nat }),
    {
        Amount { mantissa: 0, scale: FIXED_SCALE }
    }

    /// The mantissa: the amount without its decimal point.
    pub fn mantissa(&self) -> (m: i128)
        ensures
            m == self@.mantissa,
            -MAX_MANTISSA <= m <= MAX_MANTISSA,
    {
        proof {
            use_type_invariant(self);
        }
        self.mantissa
    }

    /// The scale: the number of fractional digits.
    pub fn scale(&self) -> (s: u32)
        ensures
            s == self@.scale,
            s <= MAX_SCALE,
    {
        proof {
            use_type_invariant(self);
        }
        self.scale
    }
}

/// `10^4` is ten thousand.
pub proof fn lemma_pow10_fixed()
    ensures
        pow10(FIXED_SCALE as nat) == 10000,
{
    reveal_with_fuel(pow10, 5);
}

/// Every power of ten is positive.
pub proof fn lemma_pow10_positive(n: nat)
    ensures
        pow10(n) > 0,
    decreases n,
{
    if n > 0 {
        lemma_pow10_positive((n - 1) as nat);
    }
}

/// A positive amount is not negative at four fractional digits.
pub proof fn lemma_fixed_sign(a: AmountView)
    requires
        a.mantissa > 0,
        a.fixed() is Some,
    ensures
        a.fixed().unwrap() >= 0,
{
    if a.scale > FIXED_SCALE {
        let p = pow10((a.scale - FIXED_SCALE) as nat);
        lemma_pow10_positive((a.scale - FIXED_SCALE) as nat);
        assert((a.mantissa + p / 2) / p >= 0) by (nonlinear_arith)
            requires
                a.mantissa > 0,
                p > 0,
        ;
    } else {
        let p = pow10((FIXED_SCALE - a.scale) as nat);
        lemma_pow10_positive((FIXED_SCALE - a.scale) as nat);
        assert(a.mantissa * p >= 0) by (nonlinear_arith)
            requires
                a.mantissa > 0,
                p > 0,
        ;
    }
}

/// `10^(m + n)` is `10^m * 10^n`.
pub proof fn lemma_pow10_adds(m: nat, n: nat)
    ensures
        pow10(m + n) == pow10(m) * pow10(n),
    decreases m,
{
    if m > 0 {
        lemma_pow10_adds((m - 1) as nat, n);
        assert(10 * (pow10((m - 1) as nat) * pow10(n)) == (10 * pow10((m - 1) as nat)) * pow10(n))
            by (nonlinear_arith);
    }
}

/// A positive amount that does not exceed funds of four fractional digits
/// has a form of four fractional digits, and does not exceed the funds in
/// that form either.
pub proof fn lemma_fixed_within(a: AmountView, funds: int)
    requires
        a.mantissa > 0,
        0 <= funds <= MAX_MANTISSA,
        !(AmountView { mantissa: funds, scale: FIXED_SCALE as nat }).less_than(a),
    ensures
        a.fixed() is Some,
        0 <= a.fixed().unwrap() <= funds,
{
    reveal_with_fuel(pow10, 5);
    if a.scale > FIXED_SCALE {
        let d = (a.scale - FIXED_SCALE) as nat;
        let p = pow10(d);
        lemma_pow10_positive(d);
        lemma_pow10_adds(FIXED_SCALE as nat, d);
        assert(a.mantissa <= p * funds) by (nonlinear_arith)
            requires
                funds * (10000 * p) >= a.mantissa * 10000,
        ;
        vstd::arithmetic::div_mod::lemma_div_is_ordered(a.mantissa + p / 2, p * funds + p / 2, p);
        vstd::arithmetic::div_mod::lemma_div_multiples_vanish_fancy(funds, p / 2, p);
    } else if a.scale < FIXED_SCALE {
        let k = (FIXED_SCALE - a.scale) as nat;
        lemma_pow10_adds(k, a.scale);
        lemma_pow10_positive(a.scale);
        lemma_pow10_positive(k);
        assert(0 <= a.mantissa * pow10(k) <= funds) by (nonlinear_arith)
            requires
                funds * pow10(a.scale) >= a.mantissa * (pow10(k) * pow10(a.scale)),
                pow10(a.scale) > 0,
                pow10(k) > 0,
                a.mantissa > 0,
        ;
    } else {
        assert(funds * 10000 >= a.mantissa * 10000);
        assert(a.mantissa * 1 == a.mantissa);
    }
    lemma_fixed_sign(a);
}

} // verus!
