//! Bit timing of the DMX512 line and the coprocessor clock divisor.

use vstd::prelude::*;

verus! {

/// DMX512 bit rate: one bit every 4 µs.
pub const DMX_BIT_RATE_HZ: u32 = 250_000;

/// Number of fractional bits of the coprocessor's fixed-point clock divider.
pub const DIVISOR_FRAC_BITS: u32 = 8;

/// Largest integer part the coprocessor's clock divider accepts.
pub const DIVISOR_INT_MAX: u16 = 65535;

/// Minimum length of the break, in bit periods (88 µs at 250 kbit/s).
pub const BREAK_MIN_BITS: u32 = 88;

/// Minimum length of the mark after break, in bit periods (8 µs at 250 kbit/s).
pub const MAB_MIN_BITS: u32 = 8;

/// Clock divider in the coprocessor's 16.8 fixed-point format: the number of
/// system clock ticks per coprocessor step, which is one DMX bit period.
#[derive(Clone, Copy, Debug, PartialEq, Eq, Structural)]
pub struct ClockDivisor {
    pub int: u16,
    pub frac: u8,
}

/// System clock ticks per DMX bit, in units of 1/256 tick, rounded down.
pub open spec fn divisor_fixed(clock_hz: nat) -> nat {
    (clock_hz * 256) / (DMX_BIT_RATE_HZ as nat)
}

/// The coprocessor can be clocked at the DMX bit rate from this system clock:
/// the divider is at least one and its integer part fits the hardware.
pub open spec fn clock_in_range(clock_hz: nat) -> bool {
    256 <= divisor_fixed(clock_hz) && divisor_fixed(clock_hz) < (DIVISOR_INT_MAX as nat + 1) * 256
}

impl ClockDivisor {
    /// The divider as a count of 1/256 system clock ticks.
    pub open spec fn fixed(self) -> nat {
        self.int as nat * 256 + self.frac as nat
    }

    /// Divider for a system clock of `clock_hz`, so that one coprocessor step
    /// lasts one DMX bit period; `None` where the hardware cannot hold it.
    pub fn for_clock(clock_hz: u32) -> (r: Option<ClockDivisor>)
        ensures
            r.is_some() <==> clock_in_range(clock_hz as nat),
            r matches Some(d) ==> d.fixed() == divisor_fixed(clock_hz as nat) && d.int >= 1,
    {
        let fixed: u64 = (clock_hz as u64 * 256) / (DMX_BIT_RATE_HZ as u64);
        if fixed < 256 || fixed >= (DIVISOR_INT_MAX as u64 + 1) * 256 {
            None
        } else {
            let d = ClockDivisor { int: (fixed / 256) as u16, frac: (fixed % 256) as u8 };
            Some(d)
        }
    }

    /// Whole system clock ticks per DMX bit.
    pub fn ticks_per_bit(&self) -> (r: u16)
        ensures
            r == self.int,
    {
        self.int
    }
}

/// Whether one bit of a system clock of `c1` takes fewer ticks than one of
/// `c2`: compared exactly, as `DMX_BIT_RATE_HZ / c1 > DMX_BIT_RATE_HZ / c2`.
pub open spec fn bit_fraction_greater(c1: nat, c2: nat) -> bool {
    DMX_BIT_RATE_HZ as nat * c2 > DMX_BIT_RATE_HZ as nat * c1
}

/// For a slower system clock the share of a bit per system tick, target bit
/// rate over system clock, is strictly larger; the fixed-point divider, in
/// ticks per bit, never shrinks as the clock grows.
pub proof fn lemma_divisor_monotonic(c1: nat, c2: nat)
    requires
        c1 < c2,
    ensures
        bit_fraction_greater(c1, c2),
        divisor_fixed(c1) <= divisor_fixed(c2),
{
    assert(c1 * 256 <= c2 * 256) by (nonlinear_arith)
        requires c1 < c2;
    vstd::arithmetic::div_mod::lemma_div_is_ordered(
        (c1 * 256) as int,
        (c2 * 256) as int,
        DMX_BIT_RATE_HZ as int,
    );
    assert(DMX_BIT_RATE_HZ as nat * c2 > DMX_BIT_RATE_HZ as nat * c1) by (nonlinear_arith)
        requires c1 < c2;
}

} // verus!
