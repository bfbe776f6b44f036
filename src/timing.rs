use vstd::prelude::*;

verus! {

/// Bit period of the LED's line protocol, in nanoseconds (800 kHz).
pub const CODE_PERIOD_NS: u32 = 1250;

/// High phase of a logical 0, in nanoseconds.
pub const T0H_NS: u32 = 400;

/// Low phase of a logical 0, in nanoseconds.
pub const T0L_NS: u32 = CODE_PERIOD_NS - T0H_NS;

/// High phase of a logical 1, in nanoseconds.
pub const T1H_NS: u32 = 850;

/// Low phase of a logical 1, in nanoseconds.
pub const T1L_NS: u32 = CODE_PERIOD_NS - T1H_NS;

/// Largest length, in ticks, that one phase of a pulse entry can hold (15 bits).
pub const MAX_PULSE_TICKS: u16 = 0x7FFF;

/// Largest clock (MHz) for which every phase still fits in a pulse entry.
pub const MAX_CLOCK_MHZ: u32 = 38550;

/// One entry of a pulse frame: a first phase and a second phase, each with
/// its line level (`true` = high) and its length in clock ticks.
#[derive(Clone, Copy, Debug, PartialEq, Eq, Structural)]
pub struct PulseCode {
    pub level1: bool,
    pub length1: u16,
    pub level2: bool,
    pub length2: u16,
}

/// Ticks of a clock of `clock_mhz` MHz that fit in `duration_ns` nanoseconds, truncated.
pub open spec fn ticks_for(duration_ns: int, clock_mhz: int) -> int {
    (duration_ns * clock_mhz) / 1000
}

/// The pulse for one data bit: high for `high_ns`, then low for `low_ns`.
pub open spec fn bit_pulse(high_ns: int, low_ns: int, clock_mhz: int) -> PulseCode {
    PulseCode {
        level1: true,
        length1: ticks_for(high_ns, clock_mhz) as u16,
        level2: false,
        length2: ticks_for(low_ns, clock_mhz) as u16,
    }
}

pub open spec fn zero_pulse(clock_mhz: int) -> PulseCode {
    bit_pulse(T0H_NS as int, T0L_NS as int, clock_mhz)
}

pub open spec fn one_pulse(clock_mhz: int) -> PulseCode {
    bit_pulse(T1H_NS as int, T1L_NS as int, clock_mhz)
}

fn ticks(duration_ns: u32, clock_mhz: u32) -> (r: u16)
    requires
        duration_ns <= T1H_NS,
        clock_mhz <= MAX_CLOCK_MHZ,
    ensures
        r as int == ticks_for(duration_ns as int, clock_mhz as int),
        r <= MAX_PULSE_TICKS,
{
    assert(duration_ns * clock_mhz <= 850 * 38550) by (nonlinear_arith)
        requires
            duration_ns <= 850,
            clock_mhz <= 38550,
    ;
    ((duration_ns * clock_mhz) / 1000) as u16
}

/// The two bit pulses, `(zero, one)`, for a peripheral clocked at `src_clock_mhz` MHz.
pub fn led_pulses_for_clock(src_clock_mhz: u32) -> (r: (PulseCode, PulseCode))
    requires
        0 < src_clock_mhz <= MAX_CLOCK_MHZ,
    ensures
        r.0 == zero_pulse(src_clock_mhz as int),
        r.1 == one_pulse(src_clock_mhz as int),
        r.0.length1 <= MAX_PULSE_TICKS && r.0.length2 <= MAX_PULSE_TICKS,
        r.1.length1 <= MAX_PULSE_TICKS && r.1.length2 <= MAX_PULSE_TICKS,
{
    (
        PulseCode {
            level1: true,
            length1: ticks(T0H_NS, src_clock_mhz),
            level2: false,
            length2: ticks(T0L_NS, src_clock_mhz),
        },
        PulseCode {
            level1: true,
            length1: ticks(T1H_NS, src_clock_mhz),
            level2: false,
            length2: ticks(T1L_NS, src_clock_mhz),
        },
    )
}

/// Both bit pulses last the same number of ticks, and that time, read back
/// in nanoseconds as `ticks * 1000 / f`, is the 1250 ns bit period to within
/// one tick: `1250 * f - 1000 <= ticks * 1000 <= 1250 * f`. This holds at every
/// clock where the two truncated phases together lose no more than one tick.
pub proof fn lemma_pulse_period(f: u32)
    requires
        0 < f <= MAX_CLOCK_MHZ,
        (T0H_NS * f) as int % 1000 + (T0L_NS * f) as int % 1000 <= 1000,
    ensures
        zero_pulse(f as int).length1 + zero_pulse(f as int).length2 == one_pulse(f as int).length1
            + one_pulse(f as int).length2,
        CODE_PERIOD_NS * f - 1000 <= (zero_pulse(f as int).length1 + zero_pulse(f as int).length2) * 1000
            <= CODE_PERIOD_NS * f,
        CODE_PERIOD_NS * f - 1000 <= (one_pulse(f as int).length1 + one_pulse(f as int).length2) * 1000
            <= CODE_PERIOD_NS * f,
{
    let a = 400 * (f as int);
    let b = 850 * (f as int);
    assert(a / 1000 <= 15420 && b / 1000 <= 32767);
    assert(a == (a / 1000) * 1000 + a % 1000);
    assert(b == (b / 1000) * 1000 + b % 1000);
}

} // verus!
