//! The usage figures that one poll brings back.

use vstd::arithmetic::power2::lemma_pow2_adds;
use vstd::arithmetic::power2::lemma_pow2_pos;
use vstd::arithmetic::power2::lemma_pow2_strictly_increases;
use vstd::arithmetic::power2::pow2;
use vstd::prelude::*;

verus! {

/// A percentage as the service reports it: the bits of an IEEE 754 double.
///
/// The bits are kept whole, so nothing is lost between the service's answer and
/// the figure on display.
#[derive(Clone, Copy, Debug, PartialEq, Eq, Structural)]
pub struct Percent {
    pub bits: u64,
}

impl Percent {
    /// The biased exponent, which tells not-a-number and the infinities apart
    /// from the finite values.
    pub open spec fn exponent(self) -> nat {
        ((self.bits as nat) / 0x10_0000_0000_0000) % 0x800
    }

    /// The fraction bits below the exponent.
    pub open spec fn fraction(self) -> nat {
        (self.bits as nat) % 0x10_0000_0000_0000
    }

    pub open spec fn is_negative(self) -> bool {
        self.bits >= 0x8000_0000_0000_0000
    }

    pub open spec fn is_nan(self) -> bool {
        self.exponent() == 0x7FF && self.fraction() != 0
    }

    pub open spec fn is_infinite(self) -> bool {
        self.exponent() == 0x7FF && self.fraction() == 0
    }

    /// The absolute value of a finite percentage, as a multiple of 2^-1074 (the
    /// smallest positive double).
    pub open spec fn scaled(self) -> nat {
        if self.exponent() == 0 {
            self.fraction()
        } else {
            (0x10_0000_0000_0000 + self.fraction()) * pow2((self.exponent() - 1) as nat)
        }
    }

    /// The value of a finite percentage, as a multiple of 2^-1074.
    pub open spec fn value(self) -> int {
        if self.is_negative() {
            -(self.scaled() as int)
        } else {
            self.scaled() as int
        }
    }

    /// The comparison `self <= other` of two numbers; never true of a NaN.
    pub open spec fn at_most(self, other: Percent) -> bool {
        &&& !self.is_nan()
        &&& !other.is_nan()
        &&& if self.is_infinite() {
            self.is_negative() || (other.is_infinite() && !other.is_negative())
        } else if other.is_infinite() {
            !other.is_negative()
        } else {
            self.value() <= other.value()
        }
    }

    /// The comparison `percentage >= threshold` for a positive whole threshold.
    pub open spec fn reaches(self, threshold: nat) -> bool {
        &&& !self.is_nan()
        &&& !self.is_negative()
        &&& self.is_infinite() || self.scaled() >= threshold * pow2(1074)
    }

    /// The percentage zero.
    pub fn zero() -> (p: Percent)
        ensures
            p == (Percent { bits: 0 }),
            !p.is_negative(),
            p.scaled() == 0,
    {
        Percent { bits: 0 }
    }

    /// Whether the percentage is a number of at least `threshold`.
    pub fn at_least(self, threshold: u32) -> (r: bool)
        requires
            threshold > 0,
        ensures
            r == self.reaches(threshold as nat),
    {
        let bits: u64 = self.bits;
        if bits >= 0x8000_0000_0000_0000 {
            return false;
        }
        let exponent: u64 = bits / 0x10_0000_0000_0000;
        let fraction: u64 = bits % 0x10_0000_0000_0000;
        assert(exponent < 0x800);
        assert(exponent == self.exponent());
        if exponent == 0x7FF {
            return fraction == 0;
        }
        let significand: u64 = 0x10_0000_0000_0000 + fraction;
        if exponent < 1023 {
            proof {
                lemma_below_one(self, threshold as nat);
            }
            return false;
        }
        if exponent > 1075 {
            proof {
                lemma_beyond_u32(self, threshold as nat);
            }
            return true;
        }
        let shift: u64 = 1075 - exponent;
        assert(0 <= shift <= 52);
        proof {
            vstd::bits::lemma_u64_shr_is_div(significand, shift);
            lemma_in_range(self, threshold as nat, shift as nat);
        }
        (significand >> shift) >= threshold as u64
    }
}

/// A double with an exponent below the bias lies below one.
proof fn lemma_below_one(p: Percent, threshold: nat)
    requires
        p.exponent() < 1023,
        threshold > 0,
    ensures
        p.scaled() < threshold * pow2(1074),
{
    vstd::arithmetic::power2::lemma2_to64_rest();
    let unit = pow2(1074);
    lemma_pow2_adds(53, 1021);
    assert(unit == pow2(53) * pow2(1021));
    assert(pow2(53) == 0x20_0000_0000_0000);
    lemma_pow2_pos(1021);
    assert(threshold * unit >= unit) by (nonlinear_arith)
        requires
            threshold >= 1,
            unit >= 0,
    ;
    if p.exponent() == 0 {
        assert(pow2(53) * pow2(1021) >= pow2(53)) by (nonlinear_arith)
            requires
                pow2(1021) >= 1,
        ;
    } else {
        let e = (p.exponent() - 1) as nat;
        if e < 1021 {
            lemma_pow2_strictly_increases(e, 1021);
        }
        let s = 0x10_0000_0000_0000 + p.fraction();
        lemma_pow2_pos(e);
        assert(s * pow2(e) < 0x20_0000_0000_0000 * pow2(1021)) by (nonlinear_arith)
            requires
                0 <= s < 0x20_0000_0000_0000,
                0 < pow2(e) <= pow2(1021),
        ;
    }
}

/// A double whose last significand bit weighs more than one exceeds every `u32`.
proof fn lemma_beyond_u32(p: Percent, threshold: nat)
    requires
        1075 < p.exponent() < 0x7FF,
        threshold <= u32::MAX,
    ensures
        p.scaled() >= threshold * pow2(1074),
{
    let e = (p.exponent() - 1) as nat;
    lemma_pow2_strictly_increases(1074, e);
    lemma_pow2_pos(1074);
    let s = 0x10_0000_0000_0000 + p.fraction();
    assert(s * pow2(e) >= threshold * pow2(1074)) by (nonlinear_arith)
        requires
            s >= threshold,
            threshold >= 0,
            pow2(e) >= pow2(1074),
            pow2(1074) > 0,
    ;
}

/// In between, the whole part of the value is the significand shifted right.
proof fn lemma_in_range(p: Percent, threshold: nat, shift: nat)
    requires
        1023 <= p.exponent() <= 1075,
        shift == 1075 - p.exponent(),
    ensures
        p.scaled() >= threshold * pow2(1074) <==> (0x10_0000_0000_0000 + p.fraction()) / pow2(shift)
            >= threshold,
{
    let e = (p.exponent() - 1) as nat;
    let s = 0x10_0000_0000_0000 + p.fraction();
    let d = pow2(shift);
    let u = pow2(e);
    lemma_pow2_adds(shift, e);
    lemma_pow2_pos(shift);
    lemma_pow2_pos(e);
    assert(pow2(1074) == d * u);
    assert(threshold * (d * u) == (threshold * d) * u) by (nonlinear_arith);
    assert(s * u >= (threshold * d) * u <==> s >= threshold * d) by (nonlinear_arith)
        requires
            u > 0,
    ;
    assert(s >= threshold * d <==> s / d >= threshold) by (nonlinear_arith)
        requires
            d > 0,
            s >= 0,
            threshold >= 0,
    ;
}

/// A point on the wall clock, in nanoseconds from the start of 1970 (UTC).
#[derive(Clone, Copy, Debug, PartialEq, Eq, Structural)]
pub struct Timestamp {
    pub nanos: i128,
}

impl Timestamp {
    /// The moment leaves room for what is counted from it: it is within some
    /// hundred thousand million years of 1970.
    pub open spec fn in_range(self) -> bool {
        -0x1000_0000_0000_0000_0000_0000 <= self.nanos <= 0x1000_0000_0000_0000_0000_0000
    }

    /// Whether the moment leaves room for what is counted from it.
    pub fn is_in_range(&self) -> (r: bool)
        ensures
            r == self.in_range(),
    {
        -0x1000_0000_0000_0000_0000_0000 <= self.nanos && self.nanos
            <= 0x1000_0000_0000_0000_0000_0000
    }

    /// The whole seconds from `earlier` to this moment, none where the clock was
    /// set back in between.
    pub open spec fn seconds_since(self, earlier: Timestamp) -> nat {
        if self.nanos >= earlier.nanos {
            ((self.nanos - earlier.nanos) / 1_000_000_000) as nat
        } else {
            0
        }
    }

    /// The whole seconds from `earlier` to this moment.
    pub fn secs_since(&self, earlier: &Timestamp) -> (r: u64)
        requires
            self.in_range(),
            earlier.in_range(),
        ensures
            r == self.seconds_since(*earlier),
    {
        if self.nanos >= earlier.nanos {
            ((self.nanos - earlier.nanos) / 1_000_000_000) as u64
        } else {
            0
        }
    }
}

/// One metered window: how much of it is used and when it starts anew.
#[derive(Clone, Copy, Debug)]
pub struct UsageSection {
    pub percentage: Percent,
    pub resets_at: Option<Timestamp>,
    pub message_count: Option<u32>,
    pub token_count: Option<u64>,
}

impl Default for UsageSection {
    fn default() -> (r: UsageSection)
        ensures
            r.percentage == (Percent { bits: 0 }),
            r.resets_at is None,
            r.message_count is None,
            r.token_count is None,
    {
        UsageSection {
            percentage: Percent::zero(),
            resets_at: None,
            message_count: None,
            token_count: None,
        }
    }
}

/// The two windows of one account, and what is known of its owner.
#[derive(Clone, Debug)]
pub struct UsageData {
    pub session: UsageSection,
    pub weekly: UsageSection,
    pub user_label: Option<String>,
    pub email: Option<String>,
}

impl Default for UsageData {
    fn default() -> (r: UsageData)
        ensures
            r.session.percentage == (Percent { bits: 0 }),
            r.session.resets_at is None,
            r.session.message_count is None,
            r.session.token_count is None,
            r.weekly.percentage == (Percent { bits: 0 }),
            r.weekly.resets_at is None,
            r.weekly.message_count is None,
            r.weekly.token_count is None,
            r.user_label is None,
            r.email is None,
    {
        UsageData {
            session: UsageSection::default(),
            weekly: UsageSection::default(),
            user_label: None,
            email: None,
        }
    }
}

/// What a poll brought back for each model; absent where it brought nothing.
#[derive(Clone, Debug)]
pub struct AppUsageData {
    pub claude_code: Option<UsageData>,
}

impl Default for AppUsageData {
    fn default() -> (r: AppUsageData)
        ensures
            r.claude_code is None,
    {
        AppUsageData { claude_code: None }
    }
}

/// A percentage that reaches a threshold reaches every lower one.
pub proof fn lemma_reaches_is_monotone(p: Percent, low: nat, high: nat)
    requires
        low <= high,
        p.reaches(high),
    ensures
        p.reaches(low),
{
    if !p.is_infinite() {
        lemma_pow2_pos(1074);
        assert(low * pow2(1074) <= high * pow2(1074)) by (nonlinear_arith)
            requires
                low <= high,
                pow2(1074) > 0,
        ;
    }
}

/// A larger percentage reaches every threshold that a smaller one reaches.
pub proof fn lemma_larger_reaches_as_much(a: Percent, b: Percent, threshold: nat)
    requires
        threshold > 0,
        a.at_most(b),
        a.reaches(threshold),
    ensures
        b.reaches(threshold),
{
    lemma_pow2_pos(1074);
    assert(threshold * pow2(1074) > 0) by (nonlinear_arith)
        requires
            threshold > 0,
            pow2(1074) > 0,
    ;
}

} // verus!
