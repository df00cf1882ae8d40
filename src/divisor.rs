//! Turning a requested frequency into the two divisors of a timer: the
//! prescaler (`PSC`) and the auto-reload value (`ARR`).
//!
//! The timer clock is divided by `psc + 1` and the counter wraps every
//! `arr + 1` prescaled ticks, so one period lasts `(psc + 1) * (arr + 1)` ticks
//! of the timer clock.
use vstd::prelude::*;

use crate::rcc::Clocks;

verus! {

/// Relies on `cast::Error`, the error of a checked conversion, held opaque.
#[verifier::external_type_specification]
#[verifier::external_body]
pub struct ExCastError(cast::Error);

/// Why a frequency cannot be programmed.
#[derive(Clone, Copy, Debug, PartialEq, Eq, Structural)]
pub enum ConfigError {
    /// The frequency is zero, or above the timer clock.
    InvalidFrequency,
    /// A divisor does not fit its register field.
    ConfigOverflow,
}

/// Width of a timer's auto-reload register field.
#[derive(Clone, Copy, Debug, PartialEq, Eq, Structural)]
pub enum ReloadWidth {
    Bits16,
    Bits32,
}

impl ReloadWidth {
    /// Number of values the auto-reload field can hold.
    pub open spec fn span(self) -> int {
        match self {
            ReloadWidth::Bits16 => 0x1_0000,
            ReloadWidth::Bits32 => 0x1_0000_0000,
        }
    }

    pub fn span_u64(&self) -> (r: u64)
        ensures
            r == self.span(),
    {
        match self {
            ReloadWidth::Bits16 => 0x1_0000,
            ReloadWidth::Bits32 => 0x1_0000_0000,
        }
    }
}

/// The values written to the prescaler and auto-reload registers.
#[derive(Clone, Copy, Debug, PartialEq, Eq, Structural)]
pub struct Divisors {
    pub psc: u16,
    pub arr: u32,
}

/// Timer-clock ticks in one period of `frequency` (truncated).
pub open spec fn total_ticks(clocks: Clocks, frequency: u32) -> int
    recommends
        frequency > 0,
{
    clocks.timer_clock() / frequency as int
}

/// The smallest prescaler that lets `ticks` be counted by a reload field of `span` values.
pub open spec fn prescaler_for(ticks: int, span: int) -> int {
    (ticks - 1) / span
}

/// The reload value that, after prescaling, makes one period last about `ticks`.
pub open spec fn reload_for(ticks: int, span: int) -> int {
    ticks / (prescaler_for(ticks, span) + 1) - 1
}

/// What programming `frequency` gives on a timer whose reload field is `width` wide.
pub open spec fn divisors_spec(clocks: Clocks, frequency: u32, width: ReloadWidth) -> Result<
    Divisors,
    ConfigError,
> {
    let ticks = total_ticks(clocks, frequency);
    if frequency == 0 || ticks == 0 {
        Err(ConfigError::InvalidFrequency)
    } else if prescaler_for(ticks, width.span()) > u16::MAX {
        Err(ConfigError::ConfigOverflow)
    } else {
        Ok(
            Divisors {
                psc: prescaler_for(ticks, width.span()) as u16,
                arr: reload_for(ticks, width.span()) as u32,
            },
        )
    }
}

/// Relies on `cast::u16` on a `u64`: the same value when it fits, an error otherwise.
#[verifier::external_body]
fn checked_u16(x: u64) -> (r: Result<u16, cast::Error>)
    ensures
        r is Ok <==> x <= u16::MAX,
        r is Ok ==> r->Ok_0 == x,
{
    cast::u16(x)
}

/// Relies on `cast::u32` on a `u64`: the same value when it fits, an error otherwise.
#[verifier::external_body]
fn checked_u32(x: u64) -> (r: Result<u32, cast::Error>)
    ensures
        r is Ok <==> x <= u32::MAX,
        r is Ok ==> r->Ok_0 == x,
{
    cast::u32(x)
}

/// The prescaler and reload values lie in their fields, and one period of
/// `(psc + 1) * (arr + 1)` ticks falls short of `ticks` by less than one
/// prescaler step.
pub proof fn lemma_divisor_bounds(ticks: int, span: int)
    requires
        ticks >= 1,
        span >= 1,
    ensures
        0 <= prescaler_for(ticks, span) <= ticks - 1,
        0 <= reload_for(ticks, span) < span,
        (prescaler_for(ticks, span) + 1) * (reload_for(ticks, span) + 1) <= ticks,
        ticks < (prescaler_for(ticks, span) + 1) * (reload_for(ticks, span) + 2),
{
    let p = prescaler_for(ticks, span);
    let q = ticks / (p + 1);
    assert(0 <= p <= ticks - 1 && ticks - 1 < span * (p + 1)) by (nonlinear_arith)
        requires
            p == (ticks - 1) / span,
            ticks >= 1,
            span >= 1,
    ;
    assert(1 <= q <= span && (p + 1) * q <= ticks < (p + 1) * (q + 1)) by (nonlinear_arith)
        requires
            q == ticks / (p + 1),
            0 <= p <= ticks - 1,
            ticks <= span * (p + 1),
            span >= 1,
    ;
}

/// Every frequency from one hertz up to the timer clock can be programmed, as
/// long as its period needs no prescaler beyond 16 bits. The prescaler then fits
/// its 16-bit field, the reload value fits the reload field, and a period of
/// `(psc + 1) * (arr + 1)` ticks matches the requested one to within one
/// prescaler step.
pub proof fn lemma_divisors_fit(clocks: Clocks, frequency: u32, width: ReloadWidth)
    requires
        1 <= frequency <= clocks.timer_clock(),
        total_ticks(clocks, frequency) <= 0x1_0000 * width.span(),
    ensures
        divisors_spec(clocks, frequency, width) is Ok,
        ({
            let d = divisors_spec(clocks, frequency, width)->Ok_0;
            let ticks = total_ticks(clocks, frequency);
            &&& d.psc <= u16::MAX
            &&& d.arr < width.span()
            &&& (d.psc + 1) * (d.arr + 1) <= ticks
            &&& ticks < (d.psc + 1) * (d.arr + 2)
        }),
{
    let ticks = total_ticks(clocks, frequency);
    let span = width.span();
    let c = clocks.timer_clock();
    assert(ticks >= 1) by (nonlinear_arith)
        requires
            ticks == c / frequency as int,
            1 <= frequency <= c,
    ;
    assert(prescaler_for(ticks, span) <= 0xFFFF) by (nonlinear_arith)
        requires
            1 <= ticks <= 0x1_0000 * span,
            span >= 1,
    ;
    lemma_divisor_bounds(ticks, span);
}

/// Ticks of the timer clock in one period of `frequency`; an error when that is
/// not at least one tick.
pub fn timer_ticks(clocks: &Clocks, frequency: u32) -> (r: Result<u64, ConfigError>)
    ensures
        frequency == 0 || total_ticks(*clocks, frequency) == 0 ==> r == Err::<u64, ConfigError>(
            ConfigError::InvalidFrequency,
        ),
        frequency != 0 && total_ticks(*clocks, frequency) != 0 ==> r == Ok::<u64, ConfigError>(
            total_ticks(*clocks, frequency) as u64,
        ),
{
    if frequency == 0 {
        return Err(ConfigError::InvalidFrequency);
    }
    let ticks = clocks.timer_clock_hz() / frequency as u64;
    if ticks == 0 {
        Err(ConfigError::InvalidFrequency)
    } else {
        Ok(ticks)
    }
}

/// Computes the prescaler and reload values that make a timer with a reload
/// field of `width` expire at `frequency`.
pub fn divisors(clocks: &Clocks, frequency: u32, width: ReloadWidth) -> (r: Result<
    Divisors,
    ConfigError,
>)
    ensures
        r == divisors_spec(*clocks, frequency, width),
{
    let ticks = match timer_ticks(clocks, frequency) {
        Ok(t) => t,
        Err(e) => return Err(e),
    };
    let span = width.span_u64();
    proof {
        lemma_divisor_bounds(ticks as int, span as int);
    }
    let psc = match checked_u16((ticks - 1) / span) {
        Ok(p) => p,
        Err(_) => return Err(ConfigError::ConfigOverflow),
    };
    let arr = match checked_u32(ticks / (psc as u64 + 1) - 1) {
        Ok(a) => a,
        Err(_) => return Err(ConfigError::ConfigOverflow),
    };
    Ok(Divisors { psc, arr })
}

} // verus!
