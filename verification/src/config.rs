//! Channel configuration and the integer arithmetic derived from it.

use vstd::prelude::*;

verus! {

/// Frequency of the clock that drives the PWM timers, in Hz.
pub const SYSTEM_CLK: u32 = 50_000_000;

/// Largest dead-band delay the DBDLY fields can hold (10 bits).
pub const MAX_DEADBAND_CYCLES: u16 = 1023;

/// Counting mode of the channel timer (TIM_CTRL.MODE).
#[derive(Clone, Copy, Debug, PartialEq, Eq)]
pub enum CountingMode {
    /// Count up, wrap at the period.
    Modulo,
    /// Count up to the period, then down (triangle).
    UpAndDown,
}

/// Output action on compare events (PWM_CTRL.CMP).
#[derive(Clone, Copy, Debug, PartialEq, Eq)]
pub enum OutputBehavior {
    SetOnMatch,
    ClearOnMatch,
    ToggleOnMatch,
    SetOnUpClearOnDown,
    ClearOnUpSetOnDown,
    ClearOnCcrSetOnPeriod,
    SetOnCcrClearOnPeriod,
    Initialize,
}

/// Initial output level of the channel (PWM_CTRL.ICOV).
#[derive(Clone, Copy, Debug, PartialEq, Eq)]
pub enum InitialValue {
    /// ICOV cleared: the output starts low.
    Low,
    /// ICOV set: the output starts high.
    High,
}

/// Configuration of one PWM channel.
#[derive(Clone, Copy, Debug, PartialEq, Eq)]
pub struct PwmConfig {
    /// PWM frequency in Hz.
    pub frequency: u32,
    /// Duty cycle as a fraction of the period (0.0 to 1.0), given by the
    /// bits of its IEEE 754 single-precision value.
    pub duty_cycle_bits: u32,
    pub counting_mode: CountingMode,
    /// Dead time in nanoseconds, if dead-band generation is wanted.
    pub deadtime_ns: Option<u32>,
    /// Take duty values from the FIFO rather than from the register.
    pub use_fifo: bool,
    pub output_behavior: OutputBehavior,
    pub initial_value: InitialValue,
}

/// The results of the single-precision arithmetic that sets up a channel,
/// computed by the caller with `f32` values and truncating (saturating)
/// conversions:
///
/// - `period_cycles`: `SYSTEM_CLK` divided by the product of the divider
///   (`clock_divider(frequency)`) and the frequency, as `u32`;
/// - `duty_cycles`: `period_cycles - 1` multiplied by the duty cycle, as
///   `u16`;
/// - `deadband_cycles`: the dead time multiplied by `SYSTEM_CLK`, divided by
///   ten to the ninth, as `u16` (any value when there is no dead time).
#[derive(Clone, Copy, Debug, PartialEq, Eq)]
pub struct ChannelTiming {
    pub period_cycles: u32,
    pub duty_cycles: u16,
    pub deadband_cycles: u16,
}

impl CountingMode {
    pub open spec fn spec_bits(self) -> u32 {
        match self {
            CountingMode::Modulo => 0,
            CountingMode::UpAndDown => 1,
        }
    }

    /// The encoding of the mode in TIM_CTRL.MODE.
    pub fn bits(&self) -> (r: u32)
        ensures
            r == self.spec_bits(),
    {
        match *self {
            CountingMode::Modulo => 0,
            CountingMode::UpAndDown => 1,
        }
    }
}

impl OutputBehavior {
    pub open spec fn spec_bits(self) -> u32 {
        match self {
            OutputBehavior::SetOnMatch => 0b000,
            OutputBehavior::ClearOnMatch => 0b001,
            OutputBehavior::ToggleOnMatch => 0b010,
            OutputBehavior::SetOnUpClearOnDown => 0b011,
            OutputBehavior::ClearOnUpSetOnDown => 0b100,
            OutputBehavior::ClearOnCcrSetOnPeriod => 0b101,
            OutputBehavior::SetOnCcrClearOnPeriod => 0b110,
            OutputBehavior::Initialize => 0b111,
        }
    }

    /// The encoding of the behaviour in PWM_CTRL.CMP.
    pub fn bits(&self) -> (r: u32)
        ensures
            r == self.spec_bits(),
    {
        match *self {
            OutputBehavior::SetOnMatch => 0b000,
            OutputBehavior::ClearOnMatch => 0b001,
            OutputBehavior::ToggleOnMatch => 0b010,
            OutputBehavior::SetOnUpClearOnDown => 0b011,
            OutputBehavior::ClearOnUpSetOnDown => 0b100,
            OutputBehavior::ClearOnCcrSetOnPeriod => 0b101,
            OutputBehavior::SetOnCcrClearOnPeriod => 0b110,
            OutputBehavior::Initialize => 0b111,
        }
    }
}

impl InitialValue {
    pub open spec fn spec_bits(self) -> u32 {
        match self {
            InitialValue::Low => 0,
            InitialValue::High => 1,
        }
    }

    /// The encoding of the level in PWM_CTRL.ICOV.
    pub fn bits(&self) -> (r: u32)
        ensures
            r == self.spec_bits(),
    {
        match *self {
            InitialValue::Low => 0,
            InitialValue::High => 1,
        }
    }
}

/// The single-precision value with these bits lies in 0.0..=1.0: a
/// positive value (sign bit clear) whose bits do not exceed those of 1.0, or
/// negative zero. NaNs and infinities do not.
pub open spec fn spec_duty_bits_in_range(bits: u32) -> bool {
    (bits & 0x8000_0000 == 0 && bits <= 0x3f80_0000) || bits == 0x8000_0000
}

impl PwmConfig {
    /// The duty cycle lies in 0.0..=1.0.
    pub open spec fn spec_duty_in_range(self) -> bool {
        spec_duty_bits_in_range(self.duty_cycle_bits)
    }

    /// The duty cycle lies in 0.0..=1.0.
    pub fn duty_in_range(&self) -> (r: bool)
        ensures
            r == self.spec_duty_in_range(),
    {
        let bits = self.duty_cycle_bits;
        (bits & 0x8000_0000 == 0 && bits <= 0x3f80_0000) || bits == 0x8000_0000
    }
}

/// Clock divider for a frequency: the system clock divided by the
/// frequency, kept to its low 16 bits.
pub open spec fn spec_clock_divider(frequency: u32) -> u16 {
    (SYSTEM_CLK / frequency) as u16
}

/// Dead-band delay: the computed cycles, limited to what the 10-bit delay
/// fields hold.
pub open spec fn spec_deadband_delay(cycles: u16) -> u16 {
    if cycles > MAX_DEADBAND_CYCLES {
        MAX_DEADBAND_CYCLES
    } else {
        cycles
    }
}

/// Clock divider for a frequency (the system clock divided by the frequency,
/// truncated to 16 bits).
pub fn clock_divider(frequency: u32) -> (r: u16)
    requires
        frequency != 0,
    ensures
        r == spec_clock_divider(frequency),
{
    (SYSTEM_CLK / frequency) as u16
}

/// Dead-band delay for the computed dead-band cycles.
pub fn deadband_delay(cycles: u16) -> (r: u16)
    ensures
        r == spec_deadband_delay(cycles),
        r <= MAX_DEADBAND_CYCLES,
{
    if cycles > MAX_DEADBAND_CYCLES {
        MAX_DEADBAND_CYCLES
    } else {
        cycles
    }
}

} // verus!
