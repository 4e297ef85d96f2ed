use ws2812::timing::{
    duration_to_ticks, duration_to_ticks_checked, symbol_to_pulse_code, Level, PulseCode,
};
use ws2812::Symbol;

const CLK_80_MHZ: u32 = 80_000_000;

#[test]
fn test_duration_to_ticks_exact_values() {
    assert_eq!(duration_to_ticks(CLK_80_MHZ, 400), 32);
    assert_eq!(duration_to_ticks(CLK_80_MHZ, 850), 68);
    assert_eq!(duration_to_ticks(CLK_80_MHZ, 800), 64);
    assert_eq!(duration_to_ticks(CLK_80_MHZ, 450), 36);
    assert_eq!(duration_to_ticks(1_000_000_000, 123), 123);
    assert_eq!(duration_to_ticks(CLK_80_MHZ, 0), 0);
}

#[test]
fn test_ticks_monotonic_in_duration() {
    let mut previous = 0u16;
    for duration_ns in [0u64, 1, 12, 350, 400, 450, 700, 800, 850, 1000] {
        let ticks = duration_to_ticks(CLK_80_MHZ, duration_ns);
        assert!(ticks >= previous);
        previous = ticks;
    }
}

#[test]
fn test_ticks_monotonic_in_clock_rate() {
    let mut previous = 0u16;
    for clk_hz in [1u32, 1_000, 1_000_000, 10_000_000, 80_000_000, 160_000_000] {
        let ticks = duration_to_ticks(clk_hz, 850);
        assert!(ticks >= previous);
        previous = ticks;
    }
}

#[test]
fn test_overflowing_tick_counts_are_detected() {
    // One full second at 80 MHz wants 80 million ticks: far past 16 bits.
    assert_eq!(duration_to_ticks_checked(CLK_80_MHZ, 1_000_000_000), None);
    // The multiplication itself overflows 64 bits.
    assert_eq!(duration_to_ticks_checked(u32::MAX, u64::MAX / 2), None);
    // The largest representable count is accepted ...
    assert_eq!(
        duration_to_ticks_checked(1_000_000_000, 65_535),
        Some(65_535)
    );
    // ... and one tick more is not.
    assert_eq!(duration_to_ticks_checked(1_000_000_000, 65_536), None);
    assert_eq!(duration_to_ticks_checked(CLK_80_MHZ, 400), Some(32));
}

#[test]
fn test_symbol_to_pulse_code() {
    let p0 = symbol_to_pulse_code(CLK_80_MHZ, &Symbol::t0());
    assert_eq!(
        p0,
        PulseCode {
            level_high: Level::High,
            ticks_high: 32,
            level_low: Level::Low,
            ticks_low: 68,
        }
    );
    let p1 = symbol_to_pulse_code(CLK_80_MHZ, &Symbol::t1());
    assert_eq!(
        p1,
        PulseCode {
            level_high: Level::High,
            ticks_high: 64,
            level_low: Level::Low,
            ticks_low: 36,
        }
    );
}

#[test]
fn test_symbol_from_bool() {
    assert_eq!(Symbol::from(true), Symbol::t1());
    assert_eq!(Symbol::from(false), Symbol::t0());
    assert_eq!(Symbol::t0().high_ns, 400);
    assert_eq!(Symbol::t0().low_ns, 850);
    assert_eq!(Symbol::t1().high_ns, 800);
    assert_eq!(Symbol::t1().low_ns, 450);
}

#[test]
fn test_end_marker_is_all_zero() {
    let end = PulseCode::empty();
    assert_eq!(end.level_high, Level::Low);
    assert_eq!(end.ticks_high, 0);
    assert_eq!(end.level_low, Level::Low);
    assert_eq!(end.ticks_low, 0);
}
