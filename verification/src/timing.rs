//! Conversion of pulse symbols into hardware tick counts at a configured
//! clock rate.

use vstd::arithmetic::div_mod::lemma_div_is_ordered;
use vstd::arithmetic::div_mod::lemma_fundamental_div_mod;
use vstd::arithmetic::mul::lemma_mul_inequality;
use vstd::prelude::*;

use crate::Symbol;

verus! {

/// The line level a pulse holds for some number of ticks.
#[derive(Clone, Copy, Debug, PartialEq, Eq, Structural)]
pub enum Level {
    /// Line driven high.
    High,
    /// Line driven low.
    Low,
}

/// The hardware representation of one symbol: a level held for a number of
/// ticks, then a second level held for a number of ticks.
#[derive(Clone, Copy, Debug, PartialEq, Eq, Structural)]
pub struct PulseCode {
    /// Level of the leading part.
    pub level_high: Level,
    /// Tick count of the leading part.
    pub ticks_high: u16,
    /// Level of the trailing part.
    pub level_low: Level,
    /// Tick count of the trailing part.
    pub ticks_low: u16,
}

impl PulseCode {
    /// The end-of-stream marker: zero ticks at both levels, read by the
    /// peripheral as the reset/latch signal.
    pub open spec fn spec_empty() -> PulseCode {
        PulseCode { level_high: Level::Low, ticks_high: 0, level_low: Level::Low, ticks_low: 0 }
    }

    /// The end-of-stream marker pulse code.
    pub fn empty() -> (r: PulseCode)
        ensures
            r == PulseCode::spec_empty(),
    {
        PulseCode { level_high: Level::Low, ticks_high: 0, level_low: Level::Low, ticks_low: 0 }
    }
}

/// Ticks a duration spans at a clock rate: `duration_ns * clk_hz / 1e9`,
/// rounded down.
pub open spec fn spec_ticks(clk_hz: u32, duration_ns: u64) -> int {
    (duration_ns * clk_hz) / 1_000_000_000
}

/// A duration is representable at a clock rate when its tick count fits the
/// peripheral's 16-bit tick field.
pub open spec fn ticks_ok(clk_hz: u32, duration_ns: u64) -> bool {
    spec_ticks(clk_hz, duration_ns) <= 0xFFFF
}

/// A representable tick count keeps the underlying product within `u64`.
proof fn lemma_ticks_ok_product_bound(clk_hz: u32, duration_ns: u64)
    requires
        ticks_ok(clk_hz, duration_ns),
    ensures
        duration_ns * clk_hz <= u64::MAX,
{
    let p = duration_ns * clk_hz;
    lemma_fundamental_div_mod(p, 1_000_000_000);
    lemma_mul_inequality(p / 1_000_000_000, 0xFFFF, 1_000_000_000);
}

/// Convert a duration to ticks.  The configuration must be representable:
/// an overflowing combination is a construction-time defect, screened off
/// beforehand with `duration_to_ticks_checked`.
pub fn duration_to_ticks(clk_hz: u32, duration_ns: u64) -> (r: u16)
    requires
        ticks_ok(clk_hz, duration_ns),
    ensures
        r == spec_ticks(clk_hz, duration_ns),
{
    proof {
        lemma_ticks_ok_product_bound(clk_hz, duration_ns);
    }
    let product: u64 = duration_ns * (clk_hz as u64);
    let ticks: u64 = product / 1_000_000_000;
    ticks as u16
}

/// Convert a duration to ticks, detecting overflow: `Some` exactly when the
/// tick count fits the peripheral's 16-bit field, `None` on any combination
/// that would overflow it.
pub fn duration_to_ticks_checked(clk_hz: u32, duration_ns: u64) -> (r: Option<u16>)
    ensures
        match r {
            Some(t) => ticks_ok(clk_hz, duration_ns) && t == spec_ticks(clk_hz, duration_ns),
            None => !ticks_ok(clk_hz, duration_ns),
        },
{
    match duration_ns.checked_mul(clk_hz as u64) {
        Some(product) => {
            let ticks: u64 = product / 1_000_000_000;
            if ticks <= 0xFFFF {
                Some(ticks as u16)
            } else {
                None
            }
        },
        None => {
            proof {
                let p = duration_ns * clk_hz;
                assert(p > u64::MAX);
                lemma_div_is_ordered(u64::MAX + 1, p, 1_000_000_000);
                assert((u64::MAX + 1) / 1_000_000_000 > 0xFFFF);
            }
            None
        },
    }
}

/// For a fixed clock rate, the tick count never decreases as the duration
/// grows.
pub proof fn lemma_ticks_monotonic_in_duration(clk_hz: u32, d1: u64, d2: u64)
    requires
        d1 <= d2,
    ensures
        spec_ticks(clk_hz, d1) <= spec_ticks(clk_hz, d2),
{
    lemma_mul_inequality(d1 as int, d2 as int, clk_hz as int);
    lemma_div_is_ordered(d1 * clk_hz, d2 * clk_hz, 1_000_000_000);
}

/// For a fixed duration, the tick count never decreases as the clock rate
/// grows.
pub proof fn lemma_ticks_monotonic_in_clock(c1: u32, c2: u32, duration_ns: u64)
    requires
        c1 <= c2,
    ensures
        spec_ticks(c1, duration_ns) <= spec_ticks(c2, duration_ns),
{
    lemma_mul_inequality(c1 as int, c2 as int, duration_ns as int);
    assert(duration_ns * c1 == c1 * duration_ns) by (nonlinear_arith);
    assert(duration_ns * c2 == c2 * duration_ns) by (nonlinear_arith);
    lemma_div_is_ordered(duration_ns * c1, duration_ns * c2, 1_000_000_000);
}

/// The pulse code of a symbol at a clock rate: the high time leads at the
/// high level, the low time trails at the low level.
pub open spec fn spec_symbol_to_pulse_code(clk_hz: u32, symbol: Symbol) -> PulseCode {
    PulseCode {
        level_high: Level::High,
        ticks_high: spec_ticks(clk_hz, symbol.high_ns) as u16,
        level_low: Level::Low,
        ticks_low: spec_ticks(clk_hz, symbol.low_ns) as u16,
    }
}

/// Build the pulse code of one symbol at a clock rate.  Done once per
/// symbol at channel construction, never per transmitted bit.
pub fn symbol_to_pulse_code(clk_hz: u32, symbol: &Symbol) -> (r: PulseCode)
    requires
        ticks_ok(clk_hz, symbol.high_ns),
        ticks_ok(clk_hz, symbol.low_ns),
    ensures
        r == spec_symbol_to_pulse_code(clk_hz, *symbol),
{
    let high_ticks = duration_to_ticks(clk_hz, symbol.high_ns);
    let low_ticks = duration_to_ticks(clk_hz, symbol.low_ns);
    PulseCode {
        level_high: Level::High,
        ticks_high: high_ticks,
        level_low: Level::Low,
        ticks_low: low_ticks,
    }
}

/// Durations up to a microsecond are representable at every clock rate a
/// `u32` can hold; the built-in symbol timings all are.
pub proof fn lemma_short_duration_ticks_ok(clk_hz: u32, duration_ns: u64)
    requires
        duration_ns <= 1000,
    ensures
        ticks_ok(clk_hz, duration_ns),
{
    lemma_mul_inequality(duration_ns as int, 1000, clk_hz as int);
    lemma_mul_inequality(clk_hz as int, u32::MAX as int, 1000);
    assert(1000 * (clk_hz as int) == (clk_hz as int) * 1000) by (nonlinear_arith);
    lemma_div_is_ordered(duration_ns * clk_hz, 1000 * (u32::MAX as int), 1_000_000_000);
    assert(1000 * (u32::MAX as int) / 1_000_000_000 <= 0xFFFF);
}

} // verus!
