use vstd::prelude::*;
use crate::apu::{DmcSound, NoiseSound, PulseDutyCycle, PulseSound, TriangleSound};
use crate::system::System;

verus! {

pub const APU_PULSE_1_OFFSET: usize = 0x00;
pub const APU_PULSE_2_OFFSET: usize = 0x04;
pub const APU_TRIANGLE_OFFSET: usize = 0x08;
pub const APU_NOISE_OFFSET: usize = 0x0c;
pub const APU_DMC_OFFSET: usize = 0x10;
pub const APU_STATUS_OFFSET: usize = 0x15;
pub const APU_FRAMECOUNTER_OFFSET: usize = 0x15;

/// The duty cycle that bits 6-7 of $4000 / $4004 select.
pub open spec fn duty_cycle_of(reg: u8) -> PulseDutyCycle {
    let d = (reg >> 6u8) & 0x03u8;
    if d == 0 {
        PulseDutyCycle::Duty12_5
    } else if d == 1 {
        PulseDutyCycle::Duty25_0
    } else if d == 2 {
        PulseDutyCycle::Duty50_0
    } else {
        PulseDutyCycle::Duty75_0
    }
}

impl System {
    /// $4015 bit 0 (pulse 1) or bit 1 (any other index: pulse 2).
    pub open spec fn pulse_enabled(self, index: u8) -> bool {
        if index == 0 {
            self.io_reg[0x15] & 0x01u8 == 0x01u8
        } else {
            self.io_reg[0x15] & 0x02u8 == 0x02u8
        }
    }

    /// The pulse channel settings that the registers hold:
    /// $4000 DDLCVVVV, $4001 EPPPNSSS, $4002 TTTTTTTT, $4003 LLLLLTTT.
    pub open spec fn pulse_config_spec(self, index: u8) -> Option<PulseSound> {
        if !self.pulse_enabled(index) {
            None
        } else {
            let base: int = if index == 0 { 0 } else { 4 };
            let r0 = self.io_reg[base];
            let r1 = self.io_reg[base + 1];
            let r2 = self.io_reg[base + 2];
            let r3 = self.io_reg[base + 3];
            Some(PulseSound {
                duty_cycle: duty_cycle_of(r0),
                is_length_counter_halt: r0 & 0x20u8 == 0x20u8,
                is_constant_volume: r0 & 0x10u8 == 0x10u8,
                volume: r0 & 0x0fu8,
                is_sweep_enable: r1 & 0x80u8 == 0x80u8,
                sweep_period: (r1 & 0x70u8) >> 4u8,
                is_sweep_negative: r1 & 0x08u8 == 0x08u8,
                sweep_shift: r1 & 0x07u8,
                timer_value: (r2 as u16) | (((r3 & 0x07u8) as u16) << 8u16),
                length_counter_load: (r3 & 0xf8u8) >> 3u8,
            })
        }
    }

    /// Reads the settings of pulse channel `index` (0 or 1); `None` while the
    /// channel is disabled.
    pub fn read_apu_pulse_config(&self, index: u8) -> (config: Option<PulseSound>)
        ensures
            config == self.pulse_config_spec(index),
    {
        let mut dst = PulseSound::default();
        if !self.read_apu_is_enable_pulse(index) {
            return None;
        }
        let base_offset = if index == 0 { APU_PULSE_1_OFFSET } else { APU_PULSE_2_OFFSET };
        let r0 = self.io_reg[base_offset];
        let r1 = self.io_reg[base_offset + 1];
        let r2 = self.io_reg[base_offset + 2];
        let r3 = self.io_reg[base_offset + 3];
        let d = (r0 >> 6u8) & 0x03u8;
        dst.duty_cycle = if d == 0 {
            PulseDutyCycle::Duty12_5
        } else if d == 1 {
            PulseDutyCycle::Duty25_0
        } else if d == 2 {
            PulseDutyCycle::Duty50_0
        } else {
            PulseDutyCycle::Duty75_0
        };
        // $4000 DDLCVVVV
        dst.is_length_counter_halt = (r0 & 0x20u8) == 0x20u8;
        dst.is_constant_volume = (r0 & 0x10u8) == 0x10u8;
        dst.volume = r0 & 0x0fu8;
        // $4001 EPPPNSSS
        dst.is_sweep_enable = (r1 & 0x80u8) == 0x80u8;
        dst.sweep_period = (r1 & 0x70u8) >> 4u8;
        dst.is_sweep_negative = (r1 & 0x08u8) == 0x08u8;
        dst.sweep_shift = r1 & 0x07u8;
        // $4002 TTTTTTTT (timer lower), $4003 LLLLLTTT (timer upper)
        dst.timer_value = (r2 as u16) | (((r3 & 0x07u8) as u16) << 8u16);
        dst.length_counter_load = (r3 & 0xf8u8) >> 3u8;
        Some(dst)
    }

    /// The triangle channel settings: $4008 CRRRRRRR, $400a, $400b.
    pub open spec fn tri_config_spec(self) -> Option<TriangleSound> {
        if !(self.io_reg[0x15] & 0x04u8 == 0x04u8) {
            None
        } else {
            let r0 = self.io_reg[8];
            let r2 = self.io_reg[10];
            let r3 = self.io_reg[11];
            Some(TriangleSound {
                is_length_counter_halt: r0 & 0x80u8 == 0x80u8,
                counter_load: r0 & 0x7fu8,
                timer_value: (r2 as u16) | (((r3 & 0x07u8) as u16) << 8u16),
                length_counter_load: (r3 & 0xf8u8) >> 3u8,
            })
        }
    }

    /// Reads the triangle channel settings; `None` while it is disabled.
    pub fn read_apu_tri_config(&self) -> (config: Option<TriangleSound>)
        ensures
            config == self.tri_config_spec(),
    {
        if !self.read_apu_is_enable_tri() {
            return None;
        }
        let mut dst = TriangleSound::default();
        let r0 = self.io_reg[APU_TRIANGLE_OFFSET];
        let r2 = self.io_reg[APU_TRIANGLE_OFFSET + 2];
        let r3 = self.io_reg[APU_TRIANGLE_OFFSET + 3];
        // $4008 CRRRRRRR
        dst.is_length_counter_halt = (r0 & 0x80u8) == 0x80u8;
        dst.counter_load = r0 & 0x7fu8;
        // $400a TTTTTTTT (timer lower), $400b LLLLLTTT (timer upper)
        dst.timer_value = (r2 as u16) | (((r3 & 0x07u8) as u16) << 8u16);
        dst.length_counter_load = (r3 & 0xf8u8) >> 3u8;
        Some(dst)
    }

    /// The noise channel settings: $400c --LCVVVV, $400e L---PPPP, $400f LLLLL---.
    pub open spec fn noise_config_spec(self) -> Option<NoiseSound> {
        if !(self.io_reg[0x15] & 0x08u8 == 0x08u8) {
            None
        } else {
            let r0 = self.io_reg[0x0c];
            let r2 = self.io_reg[0x0e];
            let r3 = self.io_reg[0x0f];
            Some(NoiseSound {
                is_length_counter_halt: r0 & 0x20u8 == 0x20u8,
                is_constant_volume: r0 & 0x10u8 == 0x10u8,
                volume: r0 & 0x0fu8,
                is_noise_type_loop: r2 & 0x80u8 == 0x80u8,
                noise_period: r2 & 0x0fu8,
                length_counter_load: (r3 & 0xf8u8) >> 3u8,
            })
        }
    }

    /// Reads the noise channel settings; `None` while it is disabled.
    pub fn read_apu_noise_config(&self) -> (config: Option<NoiseSound>)
        ensures
            config == self.noise_config_spec(),
    {
        if !self.read_apu_is_enable_noise() {
            return None;
        }
        let mut dst = NoiseSound::default();
        let r0 = self.io_reg[APU_NOISE_OFFSET];
        let r2 = self.io_reg[APU_NOISE_OFFSET + 2];
        let r3 = self.io_reg[APU_NOISE_OFFSET + 3];
        // $400c --LCVVVV
        dst.is_length_counter_halt = (r0 & 0x20u8) == 0x20u8;
        dst.is_constant_volume = (r0 & 0x10u8) == 0x10u8;
        dst.volume = r0 & 0x0fu8;
        // $400E L---PPPP
        dst.is_noise_type_loop = (r2 & 0x80u8) == 0x80u8;
        dst.noise_period = r2 & 0x0fu8;
        // $400F LLLLL---
        dst.length_counter_load = (r3 & 0xf8u8) >> 3u8;
        Some(dst)
    }

    /// The DMC settings: $4010 IL--RRRR, $4011 -DDDDDDD, $4012, $4013.
    pub open spec fn dmc_config_spec(self) -> Option<DmcSound> {
        if !(self.io_reg[0x15] & 0x10u8 == 0x10u8) {
            None
        } else {
            let r0 = self.io_reg[0x10];
            Some(DmcSound {
                is_irq_enable: r0 & 0x80u8 == 0x80u8,
                is_loop_enable: r0 & 0x40u8 == 0x40u8,
                frequency: r0 & 0x0fu8,
                load_counter: self.io_reg[0x11] & 0x7fu8,
                sample_addr: self.io_reg[0x12],
                sample_length: self.io_reg[0x13],
            })
        }
    }

    /// Reads the DMC settings; `None` while it is disabled.
    pub fn read_apu_dmc_config(&self) -> (config: Option<DmcSound>)
        ensures
            config == self.dmc_config_spec(),
    {
        if !self.read_apu_is_enable_dmc() {
            return None;
        }
        let mut dst = DmcSound::default();
        let r0 = self.io_reg[APU_DMC_OFFSET];
        // $4010 IL--RRRR
        dst.is_irq_enable = (r0 & 0x80u8) == 0x80u8;
        dst.is_loop_enable = (r0 & 0x40u8) == 0x40u8;
        dst.frequency = r0 & 0x0fu8;
        // $4011 -DDDDDDD
        dst.load_counter = self.io_reg[APU_DMC_OFFSET + 1] & 0x7fu8;
        // $4012 Sample Address
        dst.sample_addr = self.io_reg[APU_DMC_OFFSET + 2];
        // $4013 Sample Length
        dst.sample_length = self.io_reg[APU_DMC_OFFSET + 3];
        Some(dst)
    }

    // $4015 Status: ---DNTPP
    pub fn read_apu_is_enable_dmc(&self) -> (r: bool)
        ensures
            r == (self.io_reg[0x15] & 0x10u8 == 0x10u8),
    {
        (self.io_reg[APU_STATUS_OFFSET] & 0x10u8) == 0x10u8
    }

    pub fn read_apu_is_enable_noise(&self) -> (r: bool)
        ensures
            r == (self.io_reg[0x15] & 0x08u8 == 0x08u8),
    {
        (self.io_reg[APU_STATUS_OFFSET] & 0x08u8) == 0x08u8
    }

    pub fn read_apu_is_enable_tri(&self) -> (r: bool)
        ensures
            r == (self.io_reg[0x15] & 0x04u8 == 0x04u8),
    {
        (self.io_reg[APU_STATUS_OFFSET] & 0x04u8) == 0x04u8
    }

    /// Pulse 1 (index 0) or pulse 2 (any other index).
    pub fn read_apu_is_enable_pulse(&self, index: u8) -> (r: bool)
        ensures
            r == self.pulse_enabled(index),
    {
        if index == 0 {
            (self.io_reg[APU_STATUS_OFFSET] & 0x01u8) == 0x01u8
        } else {
            (self.io_reg[APU_STATUS_OFFSET] & 0x02u8) == 0x02u8
        }
    }
}

} // verus!
