use vstd::prelude::*;
use crate::cpu::{Cpu, CPU_FREQ};

verus! {

#[derive(Copy, Clone)]
pub enum PulseDutyCycle {
    Duty12_5,
    Duty25_0,
    Duty50_0,
    Duty75_0,
}

/// A pulse (square wave) channel's settings.
#[derive(Copy, Clone)]
pub struct PulseSound {
    // $4000 / $4004
    /// Duty cycle
    pub duty_cycle: PulseDutyCycle,
    /// Length counter halt
    pub is_length_counter_halt: bool,
    /// Constant volume
    pub is_constant_volume: bool,
    /// Volume, 4 bits
    pub volume: u8,
    // $4001 / $4005
    /// Sweep enabled
    pub is_sweep_enable: bool,
    /// Sweep period
    pub sweep_period: u8,
    /// Sweep direction (add/sub)
    pub is_sweep_negative: bool,
    /// Sweep shift
    pub sweep_shift: u8,
    // $4002, $4003 / $4006, $4007
    /// Timer (frequency)
    pub timer_value: u16,
    /// Length counter load
    pub length_counter_load: u8,
}

impl Default for PulseSound {
    fn default() -> (s: Self)
        ensures
            s == (PulseSound {
                duty_cycle: PulseDutyCycle::Duty12_5,
                is_length_counter_halt: false,
                is_constant_volume: false,
                volume: 0,
                is_sweep_enable: false,
                sweep_period: 0,
                is_sweep_negative: false,
                sweep_shift: 0,
                timer_value: 0,
                length_counter_load: 0,
            }),
    {
        Self {
            duty_cycle: PulseDutyCycle::Duty12_5,
            is_length_counter_halt: false,
            is_constant_volume: false,
            volume: 0,
            is_sweep_enable: false,
            sweep_period: 0,
            is_sweep_negative: false,
            sweep_shift: 0,
            timer_value: 0,
            length_counter_load: 0,
        }
    }
}

impl PulseSound {
    /// The frequency in Hz: CPU_FREQ / (16 * (timer + 1)), rounded down.
    pub fn get_freq(&self) -> (freq: u32)
        ensures
            freq == CPU_FREQ as int / (16 * (self.timer_value + 1)),
    {
        CPU_FREQ / (16 * ((self.timer_value as u32) + 1))
    }
}

/// The triangle channel's settings.
#[derive(Copy, Clone)]
pub struct TriangleSound {
    // $4008
    /// Length counter halt
    pub is_length_counter_halt: bool,
    /// Linear counter load
    pub counter_load: u8,
    // $400a, $400b
    /// Timer (frequency)
    pub timer_value: u16,
    /// Length counter load
    pub length_counter_load: u8,
}

impl Default for TriangleSound {
    fn default() -> (s: Self)
        ensures
            s == (TriangleSound {
                is_length_counter_halt: false,
                counter_load: 0,
                timer_value: 0,
                length_counter_load: 0,
            }),
    {
        Self { is_length_counter_halt: false, counter_load: 0, timer_value: 0, length_counter_load: 0 }
    }
}

/// The noise channel's settings.
#[derive(Copy, Clone)]
pub struct NoiseSound {
    // $400c
    /// Length counter halt
    pub is_length_counter_halt: bool,
    /// Constant volume
    pub is_constant_volume: bool,
    /// Volume, 4 bits
    pub volume: u8,
    // $400E
    /// Noise mode
    pub is_noise_type_loop: bool,
    /// Noise period
    pub noise_period: u8,
    // $400f
    /// Length counter load
    pub length_counter_load: u8,
}

impl Default for NoiseSound {
    fn default() -> (s: Self)
        ensures
            s == (NoiseSound {
                is_length_counter_halt: false,
                is_constant_volume: false,
                volume: 0,
                is_noise_type_loop: false,
                noise_period: 0,
                length_counter_load: 0,
            }),
    {
        Self {
            is_length_counter_halt: false,
            is_constant_volume: false,
            volume: 0,
            is_noise_type_loop: false,
            noise_period: 0,
            length_counter_load: 0,
        }
    }
}

/// The delta modulation channel's settings.
#[derive(Copy, Clone)]
pub struct DmcSound {
    // $4010
    /// IRQ on loop
    pub is_irq_enable: bool,
    /// Loop
    pub is_loop_enable: bool,
    /// Rate, 4 bits
    pub frequency: u8,
    // $4011
    /// Direct load
    pub load_counter: u8,
    // $4012
    /// Sample address: $C000-FFFF as 11AAAAAA-AA000000
    pub sample_addr: u8,
    // $4013
    /// Sample length: 0000LLLL, LLLL0001
    pub sample_length: u8,
}

impl Default for DmcSound {
    fn default() -> (s: Self)
        ensures
            s == (DmcSound {
                is_irq_enable: false,
                is_loop_enable: false,
                frequency: 0,
                load_counter: 0,
                sample_addr: 0,
                sample_length: 0,
            }),
    {
        Self {
            is_irq_enable: false,
            is_loop_enable: false,
            frequency: 0,
            load_counter: 0,
            sample_addr: 0,
            sample_length: 0,
        }
    }
}

#[derive(Clone)]
pub struct Apu {
    /// Frame sequencer, advanced with the CPU cycles.
    pub frame_seq_counter: u16,
}

impl Default for Apu {
    fn default() -> (apu: Self)
        ensures
            apu.frame_seq_counter == 0,
    {
        Self { frame_seq_counter: 0 }
    }
}

impl Apu {
    /// Advances the frame sequencer by the CPU cycles; the counter has 11
    /// bits.
    #[allow(dead_code)]
    fn increment_seq(&mut self, cpu_cyc: u8)
        ensures
            final(self).frame_seq_counter == (old(self).frame_seq_counter + cpu_cyc) % 0x800,
    {
        let low: u16 = self.frame_seq_counter % 0x800;
        proof {
            vstd::arithmetic::div_mod::lemma_add_mod_noop(
                self.frame_seq_counter as int,
                cpu_cyc as int,
                0x800,
            );
            assert((cpu_cyc as int) % 0x800 == cpu_cyc);
        }
        self.frame_seq_counter = (low + (cpu_cyc as u16)) % 0x800;
    }

    /// Advances the APU; sound output is not emulated, so nothing changes.
    pub fn step(&mut self, _cpu: &mut Cpu, _cpu_cyc: u8)
        ensures
            final(self).frame_seq_counter == old(self).frame_seq_counter,
            *final(_cpu) == *old(_cpu),
    {
    }
}

} // verus!
