use vstd::prelude::*;
use crate::nes::apu::PulseSound;
use crate::nes::system::System;

verus! {

pub const APU_PULSE_1_OFFSET: usize = 0x00;
pub const APU_PULSE_2_OFFSET: usize = 0x04;
pub const APU_TRIANGLE_OFFSET: usize = 0x08;
pub const APU_NOISE_OFFSET: usize = 0x0c;
pub const APU_DMC_OFFSET: usize = 0x10;
pub const APU_STATUS_OFFSET: usize = 0x15;
pub const APU_FRAMECOUNTER_OFFSET: usize = 0x15;

/// The duty cycle in percent that bits 6-7 of $4000 / $4004 select: 87.5,
/// 75, 50 or 25, the first rounded down to 87.
pub open spec fn duty_percent_of(reg: u8) -> u8 {
    let d = (reg >> 6u8) & 0x03u8;
    if d == 0 {
        87
    } else if d == 1 {
        75
    } else if d == 2 {
        50
    } else {
        25
    }
}

impl System {
    /// The pulse settings that the registers hold:
    /// $4000 DDLCVVVV, $4001 EPPPNSSS, $4002 TTTTTTTT, $4003 LLLLLTTT.
    pub open spec fn pulse_config_spec(self, index: u8) -> PulseSound {
        let base: int = if index == 0 { 0 } else { 4 };
        let r0 = self.io_reg[base];
        let r1 = self.io_reg[base + 1];
        let r2 = self.io_reg[base + 2];
        let r3 = self.io_reg[base + 3];
        PulseSound {
            dutyCycle: duty_percent_of(r0),
            lengthCounterHalt: r0 & 0x20u8 == 0x20u8,
            constantVolume: r0 & 0x10u8 == 0x10u8,
            volume: r0 & 0x0fu8,
            isSweepEnable: r1 & 0x80u8 == 0x80u8,
            sweepPeriod: (r1 & 0x70u8) >> 4u8,
            isSweepPositive: r1 & 0x08u8 != 0x08u8,
            sweepShift: r1 & 0x07u8,
            timerValue: (r2 as u16) | (((r3 & 0x07u8) as u16) << 8u16),
            lengthCounterLoad: (r3 & 0xf8u8) >> 3u8,
        }
    }

    /// Reads the settings of pulse channel `index` (0 or 1; any other index
    /// reads pulse 2).
    pub fn read_apu_pulse_config(&self, index: u8) -> (config: PulseSound)
        ensures
            config == self.pulse_config_spec(index),
    {
        let mut dst = PulseSound::default();
        let base_offset = if index == 0 { APU_PULSE_1_OFFSET } else { APU_PULSE_2_OFFSET };
        let r0 = self.io_reg[base_offset];
        let r1 = self.io_reg[base_offset + 1];
        let r2 = self.io_reg[base_offset + 2];
        let r3 = self.io_reg[base_offset + 3];
        let d = (r0 >> 6u8) & 0x03u8;
        dst.dutyCycle = if d == 0 {
            87
        } else if d == 1 {
            75
        } else if d == 2 {
            50
        } else {
            25
        };
        // $4000 DDLCVVVV
        dst.lengthCounterHalt = (r0 & 0x20u8) == 0x20u8;
        dst.constantVolume = (r0 & 0x10u8) == 0x10u8;
        dst.volume = r0 & 0x0fu8;
        // $4001 EPPPNSSS
        dst.isSweepEnable = (r1 & 0x80u8) == 0x80u8;
        dst.sweepPeriod = (r1 & 0x70u8) >> 4u8;
        dst.isSweepPositive = (r1 & 0x08u8) != 0x08u8;
        dst.sweepShift = r1 & 0x07u8;
        // $4002 TTTTTTTT (timer lower), $4003 LLLLLTTT (timer upper)
        dst.timerValue = (r2 as u16) | (((r3 & 0x07u8) as u16) << 8u16);
        dst.lengthCounterLoad = (r3 & 0xf8u8) >> 3u8;
        dst
    }
}

} // verus!
