use vstd::prelude::*;

verus! {

/// A pulse channel's settings.
#[allow(non_snake_case)]
#[derive(Copy, Clone)]
pub struct PulseSound {
    // $4000 / $4004
    /// Duty cycle in percent, 0-100
    pub dutyCycle: u8,
    /// Length counter halt
    pub lengthCounterHalt: bool,
    /// Constant volume
    pub constantVolume: bool,
    /// Volume, 4 bits
    pub volume: u8,
    // $4001 / $4005
    /// Sweep enabled
    pub isSweepEnable: bool,
    /// Sweep period
    pub sweepPeriod: u8,
    /// Sweep direction (add/sub)
    pub isSweepPositive: bool,
    /// Sweep shift
    pub sweepShift: u8,
    // $4002, $4003 / $4006, $4007
    /// Timer (frequency)
    pub timerValue: u16,
    /// Length counter load
    pub lengthCounterLoad: u8,
}

impl Default for PulseSound {
    fn default() -> (s: Self)
        ensures
            s == (PulseSound {
                dutyCycle: 0,
                lengthCounterHalt: false,
                constantVolume: false,
                volume: 0,
                isSweepEnable: false,
                sweepPeriod: 0,
                isSweepPositive: false,
                sweepShift: 0,
                timerValue: 0,
                lengthCounterLoad: 0,
            }),
    {
        Self {
            dutyCycle: 0,
            lengthCounterHalt: false,
            constantVolume: false,
            volume: 0,
            isSweepEnable: false,
            sweepPeriod: 0,
            isSweepPositive: false,
            sweepShift: 0,
            timerValue: 0,
            lengthCounterLoad: 0,
        }
    }
}

/// The triangle channel's settings.
#[allow(non_snake_case)]
#[derive(Copy, Clone)]
pub struct TriangleSound {
    // $4008
    pub lengthCounterHalt: bool,
    pub counterValue: u8,
    // $400a, $400b
    pub timerValue: u16,
    pub lengthCounterLoad: u8,
}

impl Default for TriangleSound {
    fn default() -> (s: Self)
        ensures
            s == (TriangleSound {
                lengthCounterHalt: false,
                counterValue: 0,
                timerValue: 0,
                lengthCounterLoad: 0,
            }),
    {
        Self { lengthCounterHalt: false, counterValue: 0, timerValue: 0, lengthCounterLoad: 0 }
    }
}

/// The noise channel's settings.
#[allow(non_snake_case)]
#[derive(Copy, Clone)]
pub struct NoiseSound {
    // $400c
    pub lengthCounterHalt: bool,
    pub constantVolume: bool,
    pub volume: u8,
    // $400E
    pub isNoiseTypeLoop: bool,
    pub noisePeriod: u8,
    // $400f
    pub lengthCounterLoad: u8,
}

impl Default for NoiseSound {
    fn default() -> (s: Self)
        ensures
            s == (NoiseSound {
                lengthCounterHalt: false,
                constantVolume: false,
                volume: 0,
                isNoiseTypeLoop: false,
                noisePeriod: 0,
                lengthCounterLoad: 0,
            }),
    {
        Self {
            lengthCounterHalt: false,
            constantVolume: false,
            volume: 0,
            isNoiseTypeLoop: false,
            noisePeriod: 0,
            lengthCounterLoad: 0,
        }
    }
}

/// The delta modulation channel's settings.
#[allow(non_snake_case)]
#[derive(Copy, Clone)]
pub struct DmcSound {
    // $4010
    pub irqEnable: bool,
    pub isLoopEnable: bool,
    pub frequency: u8,
    // $4011
    pub loadCounter: u8,
    // $4012: $C000-FFFF as 11AAAAAA-AA000000
    pub sampleAddress: u8,
    // $4013: 0000LLLL, LLLL0001
    pub sampleLength: u8,
}

impl Default for DmcSound {
    fn default() -> (s: Self)
        ensures
            s == (DmcSound {
                irqEnable: false,
                isLoopEnable: false,
                frequency: 0,
                loadCounter: 0,
                sampleAddress: 0,
                sampleLength: 0,
            }),
    {
        Self {
            irqEnable: false,
            isLoopEnable: false,
            frequency: 0,
            loadCounter: 0,
            sampleAddress: 0,
            sampleLength: 0,
        }
    }
}

pub struct Apu {}

impl Default for Apu {
    fn default() -> (apu: Self) {
        Self {}
    }
}

} // verus!
