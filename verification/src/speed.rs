//! Clock speeds: how much simulated time passes per unit of real time.

use crate::duration::{SimulationDuration, MAX_NANOS};
use vstd::arithmetic::div_mod::{
    lemma_basic_div, lemma_div_denominator, lemma_div_is_ordered, lemma_fundamental_div_mod,
    lemma_fundamental_div_mod_converse,
};
use vstd::arithmetic::power2::{
    lemma2_to64, lemma_pow2_adds, lemma_pow2_pos, lemma_pow2_strictly_increases,
    lemma_pow2_unfold, pow2,
};
use vstd::prelude::*;

verus! {

/// A speed: `mantissa` times two to the power of `exponent` units of
/// simulated time for each unit of real time.
///
/// Speeds are never negative. Every finite double-precision number that is
/// not negative is a speed of this form, exactly (see
/// [`ClockSpeed::from_binary64`]).
#[derive(Clone, Copy, Debug, PartialEq, Eq, Structural, Hash)]
pub struct ClockSpeed {
    pub mantissa: u64,
    pub exponent: i32,
}

/// The sign bit of a double-precision number, given by its bits.
pub open spec fn binary64_sign(bits: u64) -> nat {
    (bits / 0x8000_0000_0000_0000) as nat
}

/// The eleven exponent bits of a double-precision number.
pub open spec fn binary64_exponent(bits: u64) -> nat {
    (bits / 0x10_0000_0000_0000 % 0x800) as nat
}

/// The fifty-two fraction bits of a double-precision number.
pub open spec fn binary64_fraction(bits: u64) -> nat {
    (bits % 0x10_0000_0000_0000) as nat
}

impl ClockSpeed {
    /// What `nanos` nanoseconds of real time come to at this speed: `nanos`
    /// times the mantissa times two to the power of the exponent. A fraction
    /// of a nanosecond is dropped.
    pub open spec fn scale(self, nanos: nat) -> nat {
        if self.exponent == 0 {
            nanos * (self.mantissa as nat)
        } else if self.exponent > 0 {
            nanos * (self.mantissa as nat) * pow2(self.exponent as nat)
        } else {
            nanos * (self.mantissa as nat) / pow2((-self.exponent) as nat)
        }
    }

    /// The number of parts that a nanosecond falls into when a span is scaled
    /// at this speed: one for a speed that is a whole number, two to the power
    /// of what the exponent lacks to zero for another.
    pub open spec fn parts(self) -> nat {
        if self.exponent >= 0 {
            1
        } else {
            pow2((-self.exponent) as nat)
        }
    }

    /// The fraction of a nanosecond that scaling `nanos` drops, counted in
    /// the parts of [`ClockSpeed::parts`].
    pub open spec fn dropped(self, nanos: nat) -> nat {
        if self.exponent >= 0 {
            0
        } else {
            nanos * (self.mantissa as nat) % pow2((-self.exponent) as nat)
        }
    }

    /// At a speed of mantissa zero every span scales to nothing.
    pub proof fn scale_at_rest(self, nanos: nat)
        requires
            self.mantissa == 0,
        ensures
            self.scale(nanos) == 0,
    {
        assert(nanos * 0 == 0) by (nonlinear_arith);
        if self.exponent > 0 {
            assert(0 * pow2(self.exponent as nat) == 0) by (nonlinear_arith);
        } else if self.exponent < 0 {
            lemma_pow2_pos((-self.exponent) as nat);
            lemma_basic_div(0, pow2((-self.exponent) as nat) as int);
        }
    }

    /// A longer span scales to no less.
    pub proof fn scale_is_monotonic(self, shorter: nat, longer: nat)
        requires
            shorter <= longer,
        ensures
            self.scale(shorter) <= self.scale(longer),
    {
        let a = (shorter * (self.mantissa as nat)) as int;
        let b = (longer * (self.mantissa as nat)) as int;
        assert(a <= b) by (nonlinear_arith)
            requires
                a == shorter * (self.mantissa as nat),
                b == longer * (self.mantissa as nat),
                shorter <= longer,
        ;
        if self.exponent > 0 {
            let factor = pow2(self.exponent as nat) as int;
            assert(a * factor <= b * factor) by (nonlinear_arith)
                requires
                    a <= b,
                    factor >= 0,
            ;
        } else if self.exponent < 0 {
            lemma_pow2_pos((-self.exponent) as nat);
            lemma_div_is_ordered(a, b, pow2((-self.exponent) as nat) as int);
        }
    }

    /// Scaling two spans one by one comes to what scaling their sum comes to,
    /// less one nanosecond where the two fractions dropped add up to a whole
    /// one.
    pub proof fn scale_of_sum(self, first: nat, second: nat)
        ensures
            self.scale(first + second) == self.scale(first) + self.scale(second) + if self.dropped(
                first,
            ) + self.dropped(second) < self.parts() {
                0nat
            } else {
                1nat
            },
    {
        let a = (first * (self.mantissa as nat)) as int;
        let b = (second * (self.mantissa as nat)) as int;
        assert((first + second) * (self.mantissa as nat) == a + b) by (nonlinear_arith)
            requires
                a == first * (self.mantissa as nat),
                b == second * (self.mantissa as nat),
        ;
        if self.exponent > 0 {
            let factor = pow2(self.exponent as nat) as int;
            assert((a + b) * factor == a * factor + b * factor) by (nonlinear_arith);
        } else if self.exponent < 0 {
            let unit = pow2((-self.exponent) as nat) as int;
            lemma_pow2_pos((-self.exponent) as nat);
            lemma_fundamental_div_mod(a, unit);
            lemma_fundamental_div_mod(b, unit);
            let fractions = a % unit + b % unit;
            let wholes = a / unit + b / unit;
            if fractions < unit {
                assert(a + b == wholes * unit + fractions) by (nonlinear_arith)
                    requires
                        a == unit * (a / unit) + a % unit,
                        b == unit * (b / unit) + b % unit,
                        wholes == a / unit + b / unit,
                        fractions == a % unit + b % unit,
                ;
                lemma_fundamental_div_mod_converse(a + b, unit, wholes, fractions);
            } else {
                assert(a + b == (wholes + 1) * unit + (fractions - unit)) by (nonlinear_arith)
                    requires
                        a == unit * (a / unit) + a % unit,
                        b == unit * (b / unit) + b % unit,
                        wholes == a / unit + b / unit,
                        fractions == a % unit + b % unit,
                ;
                lemma_fundamental_div_mod_converse(a + b, unit, wholes + 1, fractions - unit);
            }
        }
    }

    /// The speed that the double-precision number with the given bits stands
    /// for: none for an infinity, for what is not a number and for a negative
    /// number; zero for a zero of either sign. A number with a zero exponent
    /// field is its fraction bits times two to the power of -1074; any other
    /// is two to the 52nd plus its fraction bits, times two to the power of
    /// its exponent field less 1075.
    pub open spec fn of_binary64(bits: u64) -> Option<ClockSpeed> {
        let exponent = binary64_exponent(bits);
        let fraction = binary64_fraction(bits);
        if exponent == 0x7ff {
            None
        } else if exponent == 0 && fraction == 0 {
            Some(ClockSpeed { mantissa: 0, exponent: 0 })
        } else if binary64_sign(bits) != 0 {
            None
        } else if exponent == 0 {
            Some(ClockSpeed { mantissa: fraction as u64, exponent: -1074i32 })
        } else {
            Some(
                ClockSpeed {
                    mantissa: (0x10_0000_0000_0000 + fraction) as u64,
                    exponent: (exponent - 1075) as i32,
                },
            )
        }
    }

    /// The speed at which the clock stands still.
    pub fn paused() -> (speed: ClockSpeed)
        ensures
            speed == (ClockSpeed { mantissa: 0, exponent: 0 }),
    {
        ClockSpeed { mantissa: 0, exponent: 0 }
    }

    /// The speed at which simulated time keeps pace with real time.
    pub fn real_time() -> (speed: ClockSpeed)
        ensures
            speed == (ClockSpeed { mantissa: 1, exponent: 0 }),
    {
        ClockSpeed { mantissa: 1, exponent: 0 }
    }

    /// The speed of `times` units of simulated time for each of real time.
    pub fn whole(times: u64) -> (speed: ClockSpeed)
        ensures
            speed == (ClockSpeed { mantissa: times, exponent: 0 }),
    {
        ClockSpeed { mantissa: times, exponent: 0 }
    }

    /// The speed that the double-precision number with the given bits stands
    /// for, where it stands for one.
    pub fn from_binary64(bits: u64) -> (speed: Option<ClockSpeed>)
        ensures
            speed == ClockSpeed::of_binary64(bits),
    {
        let negative: bool = bits / 0x8000_0000_0000_0000 != 0;
        let exponent: u64 = bits / 0x10_0000_0000_0000 % 0x800;
        let fraction: u64 = bits % 0x10_0000_0000_0000;
        if exponent == 0x7ff {
            None
        } else if exponent == 0 && fraction == 0 {
            Some(ClockSpeed { mantissa: 0, exponent: 0 })
        } else if negative {
            None
        } else if exponent == 0 {
            Some(ClockSpeed { mantissa: fraction, exponent: -1074 })
        } else {
            Some(
                ClockSpeed {
                    mantissa: 0x10_0000_0000_0000 + fraction,
                    exponent: exponent as i32 - 1075,
                },
            )
        }
    }

    /// The span scaled by this speed (see [`ClockSpeed::scale`]), or `None`
    /// where the result is longer than `MAX_NANOS`.
    pub fn checked_scale(self, span: SimulationDuration) -> (r: Option<SimulationDuration>)
        ensures
            r is Some <==> self.scale(span@) <= MAX_NANOS,
            r matches Some(scaled) ==> scaled@ == self.scale(span@),
    {
        // The product of span and mantissa can take more than 128 bits, so
        // it is held in two parts: `high` times two to the 64th, and `low`.
        let nanos: u128 = span.as_nanos();
        let mantissa: u128 = self.mantissa as u128;
        let upper: u128 = nanos / 0x1_0000_0000_0000_0000;
        let lower: u128 = nanos % 0x1_0000_0000_0000_0000;
        assert(upper * mantissa <= 999_999_999 * 0xffff_ffff_ffff_ffff) by (nonlinear_arith)
            requires
                upper <= 999_999_999,
                mantissa <= 0xffff_ffff_ffff_ffff,
        ;
        assert(lower * mantissa <= 0xffff_ffff_ffff_ffff * 0xffff_ffff_ffff_ffff)
            by (nonlinear_arith)
            requires
                lower <= 0xffff_ffff_ffff_ffff,
                mantissa <= 0xffff_ffff_ffff_ffff,
        ;
        let carried: u128 = lower * mantissa;
        let high: u128 = upper * mantissa + carried / 0x1_0000_0000_0000_0000;
        let low: u128 = carried % 0x1_0000_0000_0000_0000;
        assert(nanos * mantissa == upper * mantissa * 0x1_0000_0000_0000_0000 + lower * mantissa)
            by (nonlinear_arith)
            requires
                nanos == upper * 0x1_0000_0000_0000_0000 + lower,
        ;
        assert(span@ * (self.mantissa as nat) == high * 0x1_0000_0000_0000_0000 + low);
        if self.exponent >= 0 {
            proof {
                lemma_powers_of_two();
                let product = high * 0x1_0000_0000_0000_0000 + low;
                assert(product * pow2(0) == product) by (nonlinear_arith)
                    requires
                        pow2(0) == 1,
                ;
            }
            shifted_up(high, low, self.exponent as u32)
        } else {
            let places: i64 = -(self.exponent as i64);
            shifted_down(high, low, places as u32)
        }
    }
}

/// Some powers of two as numbers.
proof fn lemma_powers_of_two()
    ensures
        pow2(0) == 1,
        pow2(64) == 0x1_0000_0000_0000_0000,
        pow2(94) == 0x4000_0000_0000_0000_0000_0000,
        pow2(127) == 0x8000_0000_0000_0000_0000_0000_0000_0000,
        pow2(128) == 0x1_0000_0000_0000_0000_0000_0000_0000_0000,
{
    lemma2_to64();
    lemma_pow2_adds(64, 30);
    lemma_pow2_adds(64, 32);
    lemma_pow2_adds(96, 31);
    lemma_pow2_adds(96, 32);
}

/// A power of two is no smaller than one of a lower exponent.
proof fn lemma_pow2_increases(lower: nat, higher: nat)
    requires
        lower <= higher,
    ensures
        pow2(lower) <= pow2(higher),
{
    if lower < higher {
        lemma_pow2_strictly_increases(lower, higher);
    }
}

/// Two to the power of `exponent`.
fn power_of_two(exponent: u32) -> (power: u128)
    requires
        exponent < 128,
    ensures
        power == pow2(exponent as nat),
{
    proof {
        lemma_powers_of_two();
    }
    let mut power: u128 = 1;
    let mut done: u32 = 0;
    while done < exponent
        invariant
            done <= exponent,
            exponent < 128,
            power == pow2(done as nat),
        decreases exponent - done,
    {
        proof {
            lemma_pow2_unfold((done + 1) as nat);
            lemma_pow2_increases((done + 1) as nat, 127);
            lemma_powers_of_two();
        }
        power = power * 2;
        done = done + 1;
    }
    power
}

/// The span of `high` times two to the 64th and `low`, times two to the
/// power of `exponent`, where that is a span.
fn shifted_up(high: u128, low: u128, exponent: u32) -> (r: Option<SimulationDuration>)
    requires
        low < 0x1_0000_0000_0000_0000,
        high < 0x1_0000_0000_0000_0000_0000_0000,
    ensures
        r is Some <==> (high * 0x1_0000_0000_0000_0000 + low) * pow2(exponent as nat)
            <= MAX_NANOS,
        r matches Some(scaled) ==> scaled@ == (high * 0x1_0000_0000_0000_0000 + low) * pow2(
            exponent as nat,
        ),
{
    let ghost product: int = high * 0x1_0000_0000_0000_0000 + low;
    let ghost factor: int = pow2(exponent as nat) as int;
    proof {
        lemma_powers_of_two();
        lemma_pow2_pos(exponent as nat);
    }
    if high == 0 && low == 0 {
        assert(product * factor == 0) by (nonlinear_arith)
            requires
                product == 0,
        ;
        return Some(SimulationDuration::zero());
    }
    if high >= 0x4000_0000 || exponent >= 94 {
        proof {
            if exponent >= 94 {
                lemma_pow2_increases(94, exponent as nat);
            }
            assert(product * factor >= product && product * factor >= factor)
                by (nonlinear_arith)
                requires
                    product >= 1,
                    factor >= 1,
            ;
        }
        return None;
    }
    let value: u128 = high * 0x1_0000_0000_0000_0000 + low;
    let power: u128 = power_of_two(exponent);
    match value.checked_mul(power) {
        Some(scaled) => SimulationDuration::checked_from_nanos(scaled),
        None => None,
    }
}

/// The span of `high` times two to the 64th and `low`, divided by two to the
/// power of `places`, where that is a span.
fn shifted_down(high: u128, low: u128, places: u32) -> (r: Option<SimulationDuration>)
    requires
        low < 0x1_0000_0000_0000_0000,
        high < 0x1_0000_0000_0000_0000_0000_0000,
        places > 0,
    ensures
        r is Some <==> (high * 0x1_0000_0000_0000_0000 + low) / (pow2(places as nat) as int)
            <= MAX_NANOS,
        r matches Some(scaled) ==> scaled@ == (high * 0x1_0000_0000_0000_0000 + low) / (pow2(
            places as nat,
        ) as int),
{
    let ghost product: int = high * 0x1_0000_0000_0000_0000 + low;
    let ghost divisor: int = pow2(places as nat) as int;
    proof {
        lemma_powers_of_two();
        lemma_pow2_pos(places as nat);
    }
    if places >= 64 {
        let rest: u32 = places - 64;
        proof {
            lemma_pow2_adds(64, rest as nat);
            lemma_pow2_pos(rest as nat);
            lemma_div_denominator(product, 0x1_0000_0000_0000_0000, pow2(rest as nat) as int);
            assert(product / 0x1_0000_0000_0000_0000 == high);
        }
        if rest >= 128 {
            proof {
                lemma_pow2_increases(128, rest as nat);
                lemma_basic_div(high as int, pow2(rest as nat) as int);
            }
            return Some(SimulationDuration::zero());
        }
        let power: u128 = power_of_two(rest);
        SimulationDuration::checked_from_nanos(high / power)
    } else {
        let up: u128 = power_of_two(64 - places);
        let down: u128 = power_of_two(places);
        let below: u128 = low / down;
        proof {
            lemma_pow2_adds((64 - places) as nat, places as nat);
            lemma_fundamental_div_mod(low as int, down as int);
            assert(product == (high * up + below) * down + low % down) by (nonlinear_arith)
                requires
                    product == high * 0x1_0000_0000_0000_0000 + low,
                    0x1_0000_0000_0000_0000 == up * down,
                    low == down * (low / down) + low % down,
                    below == low / down,
            ;
            lemma_fundamental_div_mod_converse(
                product,
                down as int,
                high * up + below,
                (low % down) as int,
            );
        }
        match high.checked_mul(up) {
            Some(above) => match above.checked_add(below) {
                Some(scaled) => SimulationDuration::checked_from_nanos(scaled),
                None => None,
            },
            None => None,
        }
    }
}

} // verus!
