//! The sound unit: two square channels, a wave channel and a noise
//! channel, driven by a frame sequencer that advances on falling edges of
//! bit 4 of the timer divider's upper byte.
//!
//! Only the digital side lives here; the host turns the channel outputs
//! into analogue samples.

pub mod envelope;
pub mod lengthcounter;
pub mod noise;
pub mod square;
pub mod wave;

use vstd::prelude::*;
use crate::apu::envelope::{Envelope, spec_env_tick, spec_env_write};
use crate::apu::lengthcounter::{LengthCounter, spec_lc_tick, spec_lc_write_length};
use crate::apu::noise::{Noise, spec_noise_tick, spec_noise_write_nr44};
use crate::apu::square::{Square, spec_square_tick, spec_square_sweep_tick, spec_square_write_nrx4};
use crate::apu::wave::{Wave, spec_wave_tick, spec_wave_write_nr34, spec_wave_ram_index};

verus! {

pub struct Apu {
    /// Left output level, 0-7.
    pub lvol: u8,
    /// Right output level, 0-7.
    pub rvol: u8,
    pub lvin: bool,
    pub rvin: bool,
    /// Master power, NR52 bit 7.
    pub enable: bool,
    pub ch1: Square,
    pub ch2: Square,
    pub ch3: Wave,
    pub ch4: Noise,
    /// Next frame-sequencer step to fire, 0-7; -1 right after power-on
    /// with the divider bit currently high.
    pub sequencer_step: i8,
    /// Last observed state of divider bit 4 (of the upper byte).
    pub div_bit: bool,
}

/// Whether the next frame-sequencer step will clock the length counters.
pub open spec fn spec_length_next(step: i8) -> bool {
    step == 0 || step == 2 || step == 4 || step == 6
}

/// The sound unit after one clock of the four length counters: each
/// enabled counter counts down and switches its channel off at zero.
pub open spec fn spec_length_stepped(a: Apu) -> Apu {
    Apu {
        ch1: (Square {
            length_counter: spec_lc_tick(a.ch1.length_counter, a.ch1.enabled).0,
            enabled: spec_lc_tick(a.ch1.length_counter, a.ch1.enabled).1,
            ..a.ch1
        }),
        ch2: (Square {
            length_counter: spec_lc_tick(a.ch2.length_counter, a.ch2.enabled).0,
            enabled: spec_lc_tick(a.ch2.length_counter, a.ch2.enabled).1,
            ..a.ch2
        }),
        ch3: (Wave {
            length_counter: spec_lc_tick(a.ch3.length_counter, a.ch3.enabled).0,
            enabled: spec_lc_tick(a.ch3.length_counter, a.ch3.enabled).1,
            ..a.ch3
        }),
        ch4: (Noise {
            length_counter: spec_lc_tick(a.ch4.length_counter, a.ch4.enabled).0,
            enabled: spec_lc_tick(a.ch4.length_counter, a.ch4.enabled).1,
            ..a.ch4
        }),
        ..a
    }
}

/// The sound unit after the pending frame-sequencer step fires and the
/// step counter advances: lengths on steps 0, 2, 4 and 6, the sweep after
/// the lengths on 2 and 6, the envelopes on 7.
pub open spec fn spec_frame_step(a: Apu) -> Apu {
    let s = a.sequencer_step;
    let fired = if s == 0 || s == 4 {
        spec_length_stepped(a)
    } else if s == 2 || s == 6 {
        let l = spec_length_stepped(a);
        Apu { ch1: spec_square_sweep_tick(l.ch1), ..l }
    } else if s == 7 {
        Apu {
            ch1: (Square { envelope: spec_env_tick(a.ch1.envelope), ..a.ch1 }),
            ch2: (Square { envelope: spec_env_tick(a.ch2.envelope), ..a.ch2 }),
            ch4: (Noise { envelope: spec_env_tick(a.ch4.envelope), ..a.ch4 }),
            ..a
        }
    } else {
        a
    };
    Apu {
        sequencer_step: if s < 7 {
            (s + 1) as i8
        } else {
            0i8
        },
        ..fired
    }
}

/// The register file as a 1-to-0 edge of the power bit leaves it: every
/// register from NR10 to NR51 written with zero and all channels stopped,
/// while the waveform positions, wave RAM and sequencer stand still.
pub open spec fn spec_power_off(a: Apu) -> Apu {
    Apu {
        lvol: 0,
        rvol: 0,
        lvin: false,
        rvin: false,
        ch1: (Square {
            left_enable: false,
            right_enable: false,
            enabled: false,
            envelope: (Envelope {
                initial_vol: 0,
                current_vol: 0,
                sweep_increase: false,
                period: 0,
                enabled: a.ch1.envelope.enabled,
                counter: 0,
            }),
            length_counter: (LengthCounter { enabled: false, max_length: 64, counter: 64 }),
            sweep_period: 0,
            sweep_negate: false,
            sweep_shift: 0,
            freq: 0,
            duty: 0,
            dac_enable: false,
            ..a.ch1
        }),
        ch2: (Square {
            left_enable: false,
            right_enable: false,
            enabled: false,
            envelope: (Envelope {
                initial_vol: 0,
                current_vol: 0,
                sweep_increase: false,
                period: 0,
                enabled: a.ch2.envelope.enabled,
                counter: 0,
            }),
            length_counter: (LengthCounter { enabled: false, max_length: 64, counter: 64 }),
            sweep_period: 0,
            sweep_negate: false,
            sweep_shift: 0,
            freq: 0,
            duty: 0,
            dac_enable: false,
            ..a.ch2
        }),
        ch3: (Wave {
            left_enable: false,
            right_enable: false,
            enabled: false,
            length_counter: (LengthCounter { enabled: false, max_length: 256, counter: 256 }),
            freq: 0,
            vol: 0,
            dac_enable: false,
            ..a.ch3
        }),
        ch4: (Noise {
            left_enable: false,
            right_enable: false,
            enabled: false,
            envelope: (Envelope {
                initial_vol: 0,
                current_vol: 0,
                sweep_increase: false,
                period: 0,
                enabled: a.ch4.envelope.enabled,
                counter: 0,
            }),
            length_counter: (LengthCounter { enabled: false, max_length: 64, counter: 64 }),
            shift_clock_freq: 0,
            width_mode: false,
            divisor_code: 0,
            dac_enable: false,
            ..a.ch4
        }),
        ..a
    }
}

impl Apu {
    /// Channels well-formed, the sequencer step in range, and — the heart
    /// of the silence guarantee — no channel runs while the master is off.
    pub open spec fn wf(self) -> bool {
        &&& self.ch1.wf()
        &&& self.ch2.wf()
        &&& self.ch3.wf()
        &&& self.ch4.wf()
        &&& -1 <= self.sequencer_step <= 7
        &&& !self.enable ==> !self.ch1.enabled && !self.ch2.enabled && !self.ch3.enabled
            && !self.ch4.enabled
    }

    pub fn new() -> (r: Apu)
        ensures
            r.wf(),
            !r.enable,
            r.lvol == 0 && r.rvol == 0 && !r.lvin && !r.rvin,
            r.ch1 == square::spec_initial_square(),
            r.ch2 == square::spec_initial_square(),
            r.ch4 == noise::spec_initial_noise(),
            !r.ch3.enabled && !r.ch3.left_enable && !r.ch3.right_enable && !r.ch3.dac_enable,
            r.ch3.length_counter == (LengthCounter { enabled: false, max_length: 256, counter: 0 }),
            r.ch3.freq == 0 && r.ch3.freq_timer == 0 && r.ch3.vol == 0 && r.ch3.table_index == 0,
            r.ch3.wave_table@ == Seq::<u8>::new(16, |i: int| 0u8),
            r.sequencer_step == 0,
            !r.div_bit,
    {
        Apu {
            lvol: 0,
            rvol: 0,
            lvin: false,
            rvin: false,
            enable: false,
            ch1: Square::new(),
            ch2: Square::new(),
            ch3: Wave::new(),
            ch4: Noise::new(),
            sequencer_step: 0,
            div_bit: false,
        }
    }

    /// Advance the digital side of the sound unit by one t-cycle: with the
    /// master off nothing moves; otherwise the four channel timers tick
    /// and a falling edge of divider bit 4 fires one frame-sequencer step
    /// (lengths on even steps, sweep on 2 and 6, envelopes on 7).
    #[verifier::rlimit(100)]
    pub fn tick(&mut self, divider: u8)
        requires
            old(self).wf(),
        ensures
            final(self).wf(),
            !old(self).enable ==> *final(self) == *old(self),
            final(self).enable == old(self).enable,
            final(self).lvol == old(self).lvol,
            final(self).rvol == old(self).rvol,
            final(self).lvin == old(self).lvin,
            final(self).rvin == old(self).rvin,
            old(self).enable ==> final(self).div_bit == ((divider >> 4) & 1 != 0),
            !old(self).ch1.enabled ==> !final(self).ch1.enabled,
            !old(self).ch2.enabled ==> !final(self).ch2.enabled,
            !old(self).ch3.enabled ==> !final(self).ch3.enabled,
            !old(self).ch4.enabled ==> !final(self).ch4.enabled,
            final(self).ch3.wave_table == old(self).ch3.wave_table,
            old(self).enable && old(self).div_bit && !((divider >> 4) & 1 != 0)
                ==> final(self).sequencer_step == (if old(self).sequencer_step < 7 {
                old(self).sequencer_step + 1
            } else {
                0int
            }),
            old(self).enable && !(old(self).div_bit && !((divider >> 4) & 1 != 0))
                ==> final(self).sequencer_step == old(self).sequencer_step,
            old(self).enable ==> *final(self) == ({
                let ticked = Apu {
                    ch1: spec_square_tick(old(self).ch1),
                    ch2: spec_square_tick(old(self).ch2),
                    ch3: spec_wave_tick(old(self).ch3),
                    ch4: spec_noise_tick(old(self).ch4),
                    div_bit: (divider >> 4) & 1 != 0,
                    ..*old(self)
                };
                if old(self).div_bit && !((divider >> 4) & 1 != 0) {
                    spec_frame_step(ticked)
                } else {
                    ticked
                }
            }),
    {
        if !self.enable {
            return ;
        }
        self.ch1.tick();
        self.ch2.tick();
        self.ch3.tick();
        self.ch4.tick();

        let old_div_bit = self.div_bit;
        self.div_bit = (divider >> 4) & 1 != 0;

        if old_div_bit && !self.div_bit {
            self.frame_step();
        }
    }

    /// Fire one frame-sequencer step and advance the step counter.
    #[verifier::rlimit(100)]
    fn frame_step(&mut self)
        requires
            old(self).ch1.wf(),
            old(self).ch2.wf(),
            old(self).ch3.wf(),
            old(self).ch4.wf(),
            -1 <= old(self).sequencer_step <= 7,
        ensures
            *final(self) == spec_frame_step(*old(self)),
            final(self).sequencer_step == (if old(self).sequencer_step < 7 {
                old(self).sequencer_step + 1
            } else {
                0int
            }),
            final(self).div_bit == old(self).div_bit,
            final(self).lvol == old(self).lvol,
            final(self).rvol == old(self).rvol,
            final(self).lvin == old(self).lvin,
            final(self).rvin == old(self).rvin,
            final(self).ch3.wave_table == old(self).ch3.wave_table,
            final(self).ch1.wf(),
            final(self).ch2.wf(),
            final(self).ch3.wf(),
            final(self).ch4.wf(),
            0 <= final(self).sequencer_step <= 7,
            final(self).enable == old(self).enable,
            !final(self).ch1.enabled || old(self).ch1.enabled,
            !final(self).ch2.enabled || old(self).ch2.enabled,
            !final(self).ch3.enabled || old(self).ch3.enabled,
            !final(self).ch4.enabled || old(self).ch4.enabled,
    {
        let s = self.sequencer_step;
        if s == 0 || s == 2 || s == 4 || s == 6 {
            self.length_step();
            if s == 2 || s == 6 {
                self.ch1.tick_sweeper();
            }
        } else if s == 7 {
            self.envelope_step();
        }
        self.sequencer_step = if s < 7 {
            s + 1
        } else {
            0
        };
    }

    /// Clock the four length counters: each enabled counter counts down
    /// and switches its channel off on reaching zero.
    #[verifier::rlimit(100)]
    fn length_step(&mut self)
        ensures
            final(self).ch1 == (Square {
                length_counter: spec_lc_tick(old(self).ch1.length_counter, old(self).ch1.enabled).0,
                enabled: spec_lc_tick(old(self).ch1.length_counter, old(self).ch1.enabled).1,
                ..old(self).ch1
            }),
            final(self).ch2 == (Square {
                length_counter: spec_lc_tick(old(self).ch2.length_counter, old(self).ch2.enabled).0,
                enabled: spec_lc_tick(old(self).ch2.length_counter, old(self).ch2.enabled).1,
                ..old(self).ch2
            }),
            final(self).ch3 == (Wave {
                length_counter: spec_lc_tick(old(self).ch3.length_counter, old(self).ch3.enabled).0,
                enabled: spec_lc_tick(old(self).ch3.length_counter, old(self).ch3.enabled).1,
                ..old(self).ch3
            }),
            final(self).ch4 == (Noise {
                length_counter: spec_lc_tick(old(self).ch4.length_counter, old(self).ch4.enabled).0,
                enabled: spec_lc_tick(old(self).ch4.length_counter, old(self).ch4.enabled).1,
                ..old(self).ch4
            }),
            final(self).lvol == old(self).lvol,
            final(self).rvol == old(self).rvol,
            final(self).lvin == old(self).lvin,
            final(self).rvin == old(self).rvin,
            final(self).enable == old(self).enable,
            final(self).sequencer_step == old(self).sequencer_step,
            final(self).div_bit == old(self).div_bit,
    {
        let mut lc1 = self.ch1.length_counter;
        let mut e1 = self.ch1.enabled;
        lc1.tick(&mut e1);
        self.ch1.length_counter = lc1;
        self.ch1.enabled = e1;
        let mut lc2 = self.ch2.length_counter;
        let mut e2 = self.ch2.enabled;
        lc2.tick(&mut e2);
        self.ch2.length_counter = lc2;
        self.ch2.enabled = e2;
        let mut lc3 = self.ch3.length_counter;
        let mut e3 = self.ch3.enabled;
        lc3.tick(&mut e3);
        self.ch3.length_counter = lc3;
        self.ch3.enabled = e3;
        let mut lc4 = self.ch4.length_counter;
        let mut e4 = self.ch4.enabled;
        lc4.tick(&mut e4);
        self.ch4.length_counter = lc4;
        self.ch4.enabled = e4;
    }

    /// Clock the three envelopes.
    #[verifier::rlimit(100)]
    fn envelope_step(&mut self)
        requires
            old(self).ch1.envelope.wf(),
            old(self).ch2.envelope.wf(),
            old(self).ch4.envelope.wf(),
        ensures
            final(self).ch1 == (Square { envelope: spec_env_tick(old(self).ch1.envelope), ..old(self).ch1 }),
            final(self).ch2 == (Square { envelope: spec_env_tick(old(self).ch2.envelope), ..old(self).ch2 }),
            final(self).ch4 == (Noise { envelope: spec_env_tick(old(self).ch4.envelope), ..old(self).ch4 }),
            final(self).ch3 == old(self).ch3,
            final(self).lvol == old(self).lvol,
            final(self).rvol == old(self).rvol,
            final(self).lvin == old(self).lvin,
            final(self).rvin == old(self).rvin,
            final(self).enable == old(self).enable,
            final(self).sequencer_step == old(self).sequencer_step,
            final(self).div_bit == old(self).div_bit,
            final(self).ch1.envelope.wf(),
            final(self).ch2.envelope.wf(),
            final(self).ch4.envelope.wf(),
    {
        let mut env1 = self.ch1.envelope;
        env1.tick();
        self.ch1.envelope = env1;
        let mut env2 = self.ch2.envelope;
        env2.tick();
        self.ch2.envelope = env2;
        let mut env4 = self.ch4.envelope;
        env4.tick();
        self.ch4.envelope = env4;
    }

    /// Whether the next frame-sequencer step will clock the length
    /// counters.
    pub fn is_length_clock_next(&self) -> (r: bool)
        ensures
            r == spec_length_next(self.sequencer_step),
    {
        self.sequencer_step == 0 || self.sequencer_step == 2 || self.sequencer_step == 4
            || self.sequencer_step == 6
    }

    /// The master volume/VIN register image.
    pub fn read_nr50(&self) -> (r: u8)
        ensures
            r == (((if self.lvin {
                1u8
            } else {
                0u8
            }) << 7) | ((self.lvol & 0x07) << 4) | ((if self.rvin {
                1u8
            } else {
                0u8
            }) << 3) | (self.rvol & 0x07)),
    {
        let lv: u8 = if self.lvin {
            1
        } else {
            0
        };
        let rv: u8 = if self.rvin {
            1
        } else {
            0
        };
        (lv << 7) | ((self.lvol & 0x07) << 4) | (rv << 3) | (self.rvol & 0x07)
    }

    /// The routing register image: one bit per channel and side.
    pub fn read_nr51(&self) -> (r: u8)
        ensures
            r == (spec_bit_if(self.ch4.left_enable, 7) | spec_bit_if(self.ch3.left_enable, 6)
                | spec_bit_if(self.ch2.left_enable, 5) | spec_bit_if(self.ch1.left_enable, 4)
                | spec_bit_if(self.ch4.right_enable, 3) | spec_bit_if(self.ch3.right_enable, 2)
                | spec_bit_if(self.ch2.right_enable, 1) | spec_bit_if(self.ch1.right_enable, 0)),
    {
        bit_if(self.ch4.left_enable, 7) | bit_if(self.ch3.left_enable, 6) | bit_if(
            self.ch2.left_enable,
            5,
        ) | bit_if(self.ch1.left_enable, 4) | bit_if(self.ch4.right_enable, 3) | bit_if(
            self.ch3.right_enable,
            2,
        ) | bit_if(self.ch2.right_enable, 1) | bit_if(self.ch1.right_enable, 0)
    }

    /// The power/status register image: master power plus the read-only
    /// per-channel running flags.
    pub fn read_nr52(&self) -> (r: u8)
        ensures
            r == (0x70u8 | spec_bit_if(self.enable, 7) | spec_bit_if(self.ch4.enabled, 3)
                | spec_bit_if(self.ch3.enabled, 2) | spec_bit_if(self.ch2.enabled, 1) | spec_bit_if(
                self.ch1.enabled,
                0,
            )),
    {
        0x70u8 | bit_if(self.enable, 7) | bit_if(self.ch4.enabled, 3) | bit_if(self.ch3.enabled, 2)
            | bit_if(self.ch2.enabled, 1) | bit_if(self.ch1.enabled, 0)
    }

    /// Write the master volume/VIN register.
    pub fn write_nr50(&mut self, val: u8)
        ensures
            *final(self) == (Apu {
                lvin: val & 0x80 != 0,
                lvol: (val >> 4) & 0x07,
                rvin: val & 0x08 != 0,
                rvol: val & 0x07,
                ..*old(self)
            }),
    {
        self.lvin = (val & 0x80) != 0;
        self.lvol = (val >> 4) & 0x07;
        self.rvin = (val & 0x08) != 0;
        self.rvol = val & 0x07;
    }

    /// Write the routing register.
    pub fn write_nr51(&mut self, val: u8)
        ensures
            *final(self) == (Apu {
                ch1: Square {
                    left_enable: val & 0x10 != 0,
                    right_enable: val & 0x01 != 0,
                    ..old(self).ch1
                },
                ch2: Square {
                    left_enable: val & 0x20 != 0,
                    right_enable: val & 0x02 != 0,
                    ..old(self).ch2
                },
                ch3: Wave {
                    left_enable: val & 0x40 != 0,
                    right_enable: val & 0x04 != 0,
                    ..old(self).ch3
                },
                ch4: Noise {
                    left_enable: val & 0x80 != 0,
                    right_enable: val & 0x08 != 0,
                    ..old(self).ch4
                },
                ..*old(self)
            }),
    {
        self.ch4.left_enable = (val & 0x80) != 0;
        self.ch3.left_enable = (val & 0x40) != 0;
        self.ch2.left_enable = (val & 0x20) != 0;
        self.ch1.left_enable = (val & 0x10) != 0;
        self.ch4.right_enable = (val & 0x08) != 0;
        self.ch3.right_enable = (val & 0x04) != 0;
        self.ch2.right_enable = (val & 0x02) != 0;
        self.ch1.right_enable = (val & 0x01) != 0;
    }

    /// Powering off has the effect of writing zero to every register from
    /// NR10 to NR51 and stops all four channels; the free-running timers,
    /// waveform positions and wave RAM are left as they are.
    #[verifier::rlimit(100)]
    pub fn power_off(&mut self)
        requires
            old(self).wf(),
        ensures
            *final(self) == spec_power_off(*old(self)),
            final(self).ch1 == (Square {
                left_enable: false,
                right_enable: false,
                enabled: false,
                envelope: (Envelope {
                    initial_vol: 0,
                    current_vol: 0,
                    sweep_increase: false,
                    period: 0,
                    enabled: old(self).ch1.envelope.enabled,
                    counter: 0,
                }),
                length_counter: (LengthCounter {
                    enabled: false,
                    max_length: 64,
                    counter: 64,
                }),
                sweep_period: 0,
                sweep_negate: false,
                sweep_shift: 0,
                freq: 0,
                duty: 0,
                dac_enable: false,
                ..old(self).ch1
            }),
            final(self).ch2 == (Square {
                left_enable: false,
                right_enable: false,
                enabled: false,
                envelope: (Envelope {
                    initial_vol: 0,
                    current_vol: 0,
                    sweep_increase: false,
                    period: 0,
                    enabled: old(self).ch2.envelope.enabled,
                    counter: 0,
                }),
                length_counter: (LengthCounter {
                    enabled: false,
                    max_length: 64,
                    counter: 64,
                }),
                sweep_period: 0,
                sweep_negate: false,
                sweep_shift: 0,
                freq: 0,
                duty: 0,
                dac_enable: false,
                ..old(self).ch2
            }),
            final(self).ch3 == (Wave {
                left_enable: false,
                right_enable: false,
                enabled: false,
                length_counter: (LengthCounter {
                    enabled: false,
                    max_length: 256,
                    counter: 256,
                }),
                freq: 0,
                vol: 0,
                dac_enable: false,
                ..old(self).ch3
            }),
            final(self).ch4 == (Noise {
                left_enable: false,
                right_enable: false,
                enabled: false,
                envelope: (Envelope {
                    initial_vol: 0,
                    current_vol: 0,
                    sweep_increase: false,
                    period: 0,
                    enabled: old(self).ch4.envelope.enabled,
                    counter: 0,
                }),
                length_counter: (LengthCounter {
                    enabled: false,
                    max_length: 64,
                    counter: 64,
                }),
                shift_clock_freq: 0,
                width_mode: false,
                divisor_code: 0,
                dac_enable: false,
                ..old(self).ch4
            }),
            final(self).lvol == 0 && final(self).rvol == 0,
            !final(self).lvin && !final(self).rvin,
            final(self).enable == old(self).enable,
            final(self).sequencer_step == old(self).sequencer_step,
            final(self).div_bit == old(self).div_bit,
            final(self).wf() || final(self).enable,
    {
        self.ch1.left_enable = false;
        self.ch1.right_enable = false;
        self.ch1.enabled = false;
        self.ch1.envelope.initial_vol = 0;
        self.ch1.envelope.current_vol = 0;
        self.ch1.envelope.sweep_increase = false;
        self.ch1.envelope.period = 0;
        self.ch1.envelope.counter = 0;
        self.ch1.length_counter.enabled = false;
        self.ch1.length_counter.counter = 64;
        self.ch1.sweep_period = 0;
        self.ch1.sweep_negate = false;
        self.ch1.sweep_shift = 0;
        self.ch1.freq = 0;
        self.ch1.duty = 0;
        self.ch1.dac_enable = false;
        self.ch2.left_enable = false;
        self.ch2.right_enable = false;
        self.ch2.enabled = false;
        self.ch2.envelope.initial_vol = 0;
        self.ch2.envelope.current_vol = 0;
        self.ch2.envelope.sweep_increase = false;
        self.ch2.envelope.period = 0;
        self.ch2.envelope.counter = 0;
        self.ch2.length_counter.enabled = false;
        self.ch2.length_counter.counter = 64;
        self.ch2.sweep_period = 0;
        self.ch2.sweep_negate = false;
        self.ch2.sweep_shift = 0;
        self.ch2.freq = 0;
        self.ch2.duty = 0;
        self.ch2.dac_enable = false;
        self.ch3.left_enable = false;
        self.ch3.right_enable = false;
        self.ch3.enabled = false;
        self.ch3.length_counter.enabled = false;
        self.ch3.length_counter.counter = 256;
        self.ch3.freq = 0;
        self.ch3.vol = 0;
        self.ch3.dac_enable = false;
        self.ch4.left_enable = false;
        self.ch4.right_enable = false;
        self.ch4.enabled = false;
        self.ch4.envelope.initial_vol = 0;
        self.ch4.envelope.current_vol = 0;
        self.ch4.envelope.sweep_increase = false;
        self.ch4.envelope.period = 0;
        self.ch4.envelope.counter = 0;
        self.ch4.length_counter.enabled = false;
        self.ch4.length_counter.counter = 64;
        self.ch4.shift_clock_freq = 0;
        self.ch4.width_mode = false;
        self.ch4.divisor_code = 0;
        self.ch4.dac_enable = false;
        self.lvol = 0;
        self.rvol = 0;
        self.lvin = false;
        self.rvin = false;
    }

    /// Powering back on restarts the frame sequencer so that the next
    /// falling divider edge produces step 0, and rewinds the waveform
    /// positions.
    #[verifier::rlimit(100)]
    pub fn power_on(&mut self)
        ensures
            *final(self) == (Apu {
                sequencer_step: if old(self).div_bit {
                    -1i8
                } else {
                    0i8
                },
                ch1: (Square { phase: 0, ..old(self).ch1 }),
                ch2: (Square { phase: 0, ..old(self).ch2 }),
                ch3: (Wave { table_index: 0, ..old(self).ch3 }),
                ..*old(self)
            }),
    {
        self.sequencer_step = 0;
        if self.div_bit {
            self.sequencer_step = -1;
        }
        self.ch1.phase = 0;
        self.ch2.phase = 0;
        self.ch3.table_index = 0;
    }

    /// Write the power register: a 1-to-0 edge of bit 7 clears the whole
    /// register file, a 0-to-1 edge restarts the frame sequencer.
    pub fn write_nr52(&mut self, val: u8)
        requires
            old(self).wf(),
        ensures
            final(self).enable == (val & 0x80 != 0),
            final(self).wf(),
            old(self).enable && val & 0x80 == 0 ==> (!final(self).ch1.enabled
                && !final(self).ch2.enabled && !final(self).ch3.enabled && !final(self).ch4.enabled
                && final(self).lvol == 0 && final(self).rvol == 0),
            old(self).enable && val & 0x80 == 0 ==> *final(self) == (Apu {
                enable: false,
                ..spec_power_off(*old(self))
            }),
            old(self).enable == (val & 0x80 != 0) ==> *final(self) == (Apu {
                enable: val & 0x80 != 0,
                ..*old(self)
            }),
            !old(self).enable && val & 0x80 != 0 ==> *final(self) == (Apu {
                enable: true,
                sequencer_step: if old(self).div_bit {
                    -1i8
                } else {
                    0i8
                },
                ch1: (Square { phase: 0, ..old(self).ch1 }),
                ch2: (Square { phase: 0, ..old(self).ch2 }),
                ch3: (Wave { table_index: 0, ..old(self).ch3 }),
                ..*old(self)
            }),
    {
        let new_enable = (val & 0x80) != 0;
        if self.enable && !new_enable {
            self.power_off();
        } else if !self.enable && new_enable {
            self.power_on();
        }
        self.enable = new_enable;
    }

    /// Read a sound register or wave RAM, 0xFF10-0xFF3F.
    #[verifier::rlimit(100)]
    pub fn readu8(&self, addr: u16) -> (r: u8)
        requires
            self.wf(),
            0xFF10 <= addr <= 0xFF3F,
        ensures
            r == spec_apu_read(*self, addr),
    {
        proof {
            reveal(spec_apu_read);
            assert(0u8 << 1 == 0 && 0u8 << 2 == 0 && 0u8 << 3 == 0 && 0u8 << 4 == 0 && 0u8 << 5
                == 0 && 0u8 << 6 == 0 && 0u8 << 7 == 0) by (bit_vector);
        }
        if addr == 0xFF10 {
            self.ch1.read_nr10()
        } else if addr == 0xFF11 {
            self.ch1.read_nrx1()
        } else if addr == 0xFF12 {
            self.ch1.envelope.read_nrx2()
        } else if addr == 0xFF14 {
            self.ch1.length_counter.read_nrx4()
        } else if addr == 0xFF16 {
            self.ch2.read_nrx1()
        } else if addr == 0xFF17 {
            self.ch2.envelope.read_nrx2()
        } else if addr == 0xFF19 {
            self.ch2.length_counter.read_nrx4()
        } else if addr == 0xFF1A {
            self.ch3.read_nr30()
        } else if addr == 0xFF1C {
            self.ch3.read_nr32()
        } else if addr == 0xFF1E {
            self.ch3.length_counter.read_nrx4()
        } else if addr == 0xFF21 {
            self.ch4.envelope.read_nrx2()
        } else if addr == 0xFF22 {
            self.ch4.read_nr43()
        } else if addr == 0xFF23 {
            self.ch4.length_counter.read_nrx4()
        } else if addr == 0xFF24 {
            self.read_nr50()
        } else if addr == 0xFF25 {
            self.read_nr51()
        } else if addr == 0xFF26 {
            self.read_nr52()
        } else if 0xFF30 <= addr {
            self.ch3.read_wave_ram((addr & 0x000F) as usize)
        } else {
            0xFF
        }
    }

    /// Write a sound register or wave RAM, 0xFF10-0xFF3F. With the master
    /// power off only NR52, the length-load registers and wave RAM take
    /// effect.
    #[verifier::rlimit(100)]
    pub fn writeu8(&mut self, addr: u16, val: u8)
        requires
            old(self).wf(),
            0xFF10 <= addr <= 0xFF3F,
        ensures
            spec_apu_write_rel(*old(self), *final(self), addr, val),
            final(self).wf(),
    {
        proof {
            reveal(spec_apu_write_rel);
        }
        if !self.enable && addr <= 0xFF25 && (addr % 5 != 2 || addr == 0xFF25) {
            return ;
        }
        if addr <= 0xFF14 {
            self.write_square_reg(true, addr, val);
        } else if addr <= 0xFF19 {
            self.write_square_reg(false, addr, val);
        } else if addr <= 0xFF1E {
            self.write_wave_reg(addr, val);
        } else if addr <= 0xFF23 {
            self.write_noise_reg(addr, val);
        } else if addr == 0xFF24 {
            self.write_nr50(val);
        } else if addr == 0xFF25 {
            self.write_nr51(val);
        } else if addr == 0xFF26 {
            self.write_nr52(val);
        } else if 0xFF30 <= addr {
            self.write_wave_ram_reg(addr, val);
        }
    }

    /// Dispatch a write to one of the square channels' five registers.
    #[verifier::rlimit(100)]
    fn write_square_reg(&mut self, first: bool, addr: u16, val: u8)
        requires
            old(self).wf(),
            first ==> 0xFF10 <= addr <= 0xFF14,
            !first ==> 0xFF15 <= addr <= 0xFF19,
            old(self).enable || addr % 5 == 2,
        ensures
            spec_apu_write_rel(*old(self), *final(self), addr, val),
            final(self).wf(),
    {
        proof {
            reveal(spec_apu_write_rel);
        }
        let length_next = self.is_length_clock_next();
        let power = self.enable;
        let mut ch = if first {
            self.ch1
        } else {
            self.ch2
        };
        if addr == 0xFF10 {
            ch.write_nr10(val);
        } else if addr == 0xFF11 || addr == 0xFF16 {
            ch.write_nrx1(val, power);
        } else if addr == 0xFF12 || addr == 0xFF17 {
            ch.write_nrx2(val);
        } else if addr == 0xFF13 || addr == 0xFF18 {
            ch.write_nrx3(val);
        } else if addr == 0xFF14 || addr == 0xFF19 {
            ch.write_nrx4(length_next, val);
        }
        if first {
            self.ch1 = ch;
        } else {
            self.ch2 = ch;
        }
    }

    /// Dispatch a write to the wave channel's five registers.
    #[verifier::rlimit(100)]
    fn write_wave_reg(&mut self, addr: u16, val: u8)
        requires
            old(self).wf(),
            0xFF1A <= addr <= 0xFF1E,
            old(self).enable || addr % 5 == 2,
        ensures
            spec_apu_write_rel(*old(self), *final(self), addr, val),
            final(self).wf(),
    {
        proof {
            reveal(spec_apu_write_rel);
        }
        let length_next = self.is_length_clock_next();
        if addr == 0xFF1A {
            self.ch3.write_nr30(val);
        } else if addr == 0xFF1B {
            let mut lc = self.ch3.length_counter;
            lc.write_length(val);
            self.ch3.length_counter = lc;
        } else if addr == 0xFF1C {
            self.ch3.write_nr32(val);
        } else if addr == 0xFF1D {
            self.ch3.write_nr33(val);
        } else {
            self.ch3.write_nr34(length_next, val);
        }
    }

    /// Dispatch a write to the noise channel's four registers.
    #[verifier::rlimit(100)]
    fn write_noise_reg(&mut self, addr: u16, val: u8)
        requires
            old(self).wf(),
            0xFF1F <= addr <= 0xFF23,
            old(self).enable || addr % 5 == 2,
        ensures
            spec_apu_write_rel(*old(self), *final(self), addr, val),
            final(self).wf(),
    {
        proof {
            reveal(spec_apu_write_rel);
        }
        let length_next = self.is_length_clock_next();
        let mut ch = self.ch4;
        if addr == 0xFF20 {
            let mut lc = ch.length_counter;
            lc.write_length(val);
            ch.length_counter = lc;
        } else if addr == 0xFF21 {
            ch.write_nr42(val);
        } else if addr == 0xFF22 {
            ch.write_nr43(val);
        } else if addr == 0xFF23 {
            ch.write_nr44(length_next, val);
        }
        self.ch4 = ch;
    }

    /// Write one byte of wave RAM.
    #[verifier::rlimit(100)]
    fn write_wave_ram_reg(&mut self, addr: u16, val: u8)
        requires
            old(self).wf(),
            0xFF30 <= addr <= 0xFF3F,
        ensures
            spec_apu_write_rel(*old(self), *final(self), addr, val),
            final(self).wf(),
    {
        proof {
            reveal(spec_apu_write_rel);
        }
        self.ch3.write_wave_ram((addr & 0x000F) as usize, val);
    }
}

/// One bit at the given position when the flag holds, else zero.
pub open spec fn spec_bit_if(b: bool, pos: u8) -> u8 {
    if b {
        (1u8 << pos) as u8
    } else {
        0u8
    }
}

fn bit_if(b: bool, pos: u8) -> (r: u8)
    requires
        pos < 8,
    ensures
        r == spec_bit_if(b, pos),
{
    if b {
        1u8 << pos
    } else {
        0
    }
}

/// Functional model of a sound-register read.
#[verifier::opaque]
pub open spec fn spec_apu_read(a: Apu, addr: u16) -> u8 {
    if addr == 0xFF10 {
        0x80u8 | ((a.ch1.sweep_period & 0x07) << 4) | (spec_bit_if(a.ch1.sweep_negate, 3)) | (
        a.ch1.sweep_shift & 0x07)
    } else if addr == 0xFF11 {
        0x3Fu8 | ((a.ch1.duty & 0x03) << 6)
    } else if addr == 0xFF12 {
        ((a.ch1.envelope.initial_vol & 0x0F) << 4) | spec_bit_if(a.ch1.envelope.sweep_increase, 3)
            | (a.ch1.envelope.period & 0x07)
    } else if addr == 0xFF14 {
        0xBFu8 | spec_bit_if(a.ch1.length_counter.enabled, 6)
    } else if addr == 0xFF16 {
        0x3Fu8 | ((a.ch2.duty & 0x03) << 6)
    } else if addr == 0xFF17 {
        ((a.ch2.envelope.initial_vol & 0x0F) << 4) | spec_bit_if(a.ch2.envelope.sweep_increase, 3)
            | (a.ch2.envelope.period & 0x07)
    } else if addr == 0xFF19 {
        0xBFu8 | spec_bit_if(a.ch2.length_counter.enabled, 6)
    } else if addr == 0xFF1A {
        0x7Fu8 | spec_bit_if(a.ch3.dac_enable, 7)
    } else if addr == 0xFF1C {
        0x9Fu8 | ((a.ch3.vol & 0x03) << 5)
    } else if addr == 0xFF1E {
        0xBFu8 | spec_bit_if(a.ch3.length_counter.enabled, 6)
    } else if addr == 0xFF21 {
        ((a.ch4.envelope.initial_vol & 0x0F) << 4) | spec_bit_if(a.ch4.envelope.sweep_increase, 3)
            | (a.ch4.envelope.period & 0x07)
    } else if addr == 0xFF22 {
        ((a.ch4.shift_clock_freq & 0x0F) << 4) | spec_bit_if(a.ch4.width_mode, 3) | (
        a.ch4.divisor_code & 0x07)
    } else if addr == 0xFF23 {
        0xBFu8 | spec_bit_if(a.ch4.length_counter.enabled, 6)
    } else if addr == 0xFF24 {
        spec_bit_if(a.lvin, 7) | ((a.lvol & 0x07) << 4) | spec_bit_if(a.rvin, 3) | (a.rvol & 0x07)
    } else if addr == 0xFF25 {
        spec_bit_if(a.ch4.left_enable, 7) | spec_bit_if(a.ch3.left_enable, 6) | spec_bit_if(
            a.ch2.left_enable,
            5,
        ) | spec_bit_if(a.ch1.left_enable, 4) | spec_bit_if(a.ch4.right_enable, 3) | spec_bit_if(
            a.ch3.right_enable,
            2,
        ) | spec_bit_if(a.ch2.right_enable, 1) | spec_bit_if(a.ch1.right_enable, 0)
    } else if addr == 0xFF26 {
        0x70u8 | spec_bit_if(a.enable, 7) | spec_bit_if(a.ch4.enabled, 3) | spec_bit_if(
            a.ch3.enabled,
            2,
        ) | spec_bit_if(a.ch2.enabled, 1) | spec_bit_if(a.ch1.enabled, 0)
    } else if 0xFF30 <= addr <= 0xFF3F {
        a.ch3.wave_table@[spec_wave_ram_index(a.ch3, (addr & 0x000F) as int)]
    } else {
        0xFF
    }
}

/// Relational model of a sound-register write: with the master power off
/// everything below NR52 other than the length-load registers is dropped;
/// otherwise the addressed register's own transition applies and every
/// other part of the unit is untouched.
#[verifier::opaque]
pub open spec fn spec_apu_write_rel(a: Apu, f: Apu, addr: u16, val: u8) -> bool {
    if !a.enable && addr <= 0xFF25 && (addr % 5 != 2 || addr == 0xFF25) {
        f == a
    } else {
        let ln = spec_length_next(a.sequencer_step);
        if addr == 0xFF10 {
            f == (Apu {
                ch1: (Square {
                    sweep_period: (val >> 4) & 0x07,
                    sweep_negate: val & 0x08 != 0,
                    sweep_shift: val & 0x07,
                    ..a.ch1
                }),
                ..a
            })
        } else if addr == 0xFF11 {
            f == (Apu {
                ch1: (Square {
                    duty: if a.enable {
                        val >> 6
                    } else {
                        a.ch1.duty
                    },
                    length_counter: spec_lc_write_length(a.ch1.length_counter, val),
                    ..a.ch1
                }),
                ..a
            })
        } else if addr == 0xFF12 {
            f == (Apu {
                ch1: (Square {
                    envelope: spec_env_write(a.ch1.envelope, val),
                    dac_enable: val & 0xF8 != 0,
                    enabled: a.ch1.enabled && val & 0xF8 != 0,
                    ..a.ch1
                }),
                ..a
            })
        } else if addr == 0xFF13 {
            f == (Apu {
                ch1: (Square { freq: ((a.ch1.freq & 0xFF00) | val as u16) as u16, ..a.ch1 }),
                ..a
            })
        } else if addr == 0xFF14 {
            f == (Apu { ch1: spec_square_write_nrx4(a.ch1, ln, val), ..a })
        } else if addr == 0xFF16 {
            f == (Apu {
                ch2: (Square {
                    duty: if a.enable {
                        val >> 6
                    } else {
                        a.ch2.duty
                    },
                    length_counter: spec_lc_write_length(a.ch2.length_counter, val),
                    ..a.ch2
                }),
                ..a
            })
        } else if addr == 0xFF17 {
            f == (Apu {
                ch2: (Square {
                    envelope: spec_env_write(a.ch2.envelope, val),
                    dac_enable: val & 0xF8 != 0,
                    enabled: a.ch2.enabled && val & 0xF8 != 0,
                    ..a.ch2
                }),
                ..a
            })
        } else if addr == 0xFF18 {
            f == (Apu {
                ch2: (Square { freq: ((a.ch2.freq & 0xFF00) | val as u16) as u16, ..a.ch2 }),
                ..a
            })
        } else if addr == 0xFF19 {
            f == (Apu { ch2: spec_square_write_nrx4(a.ch2, ln, val), ..a })
        } else if addr == 0xFF1A {
            f == (Apu {
                ch3: (Wave {
                    dac_enable: val & 0x80 != 0,
                    enabled: a.ch3.enabled && val & 0x80 != 0,
                    ..a.ch3
                }),
                ..a
            })
        } else if addr == 0xFF1B {
            f == (Apu {
                ch3: (Wave { length_counter: spec_lc_write_length(a.ch3.length_counter, val), ..a.ch3 }),
                ..a
            })
        } else if addr == 0xFF1C {
            f == (Apu { ch3: (Wave { vol: (val >> 5) & 0x03, ..a.ch3 }), ..a })
        } else if addr == 0xFF1D {
            f == (Apu {
                ch3: (Wave { freq: ((a.ch3.freq & 0xFF00) | val as u16) as u16, ..a.ch3 }),
                ..a
            })
        } else if addr == 0xFF1E {
            f == (Apu { ch3: spec_wave_write_nr34(a.ch3, ln, val), ..a })
        } else if addr == 0xFF20 {
            f == (Apu {
                ch4: (Noise { length_counter: spec_lc_write_length(a.ch4.length_counter, val), ..a.ch4 }),
                ..a
            })
        } else if addr == 0xFF21 {
            f == (Apu {
                ch4: (Noise {
                    envelope: spec_env_write(a.ch4.envelope, val),
                    dac_enable: val & 0xF8 != 0,
                    enabled: a.ch4.enabled && val & 0xF8 != 0,
                    ..a.ch4
                }),
                ..a
            })
        } else if addr == 0xFF22 {
            f == (Apu {
                ch4: (Noise {
                    shift_clock_freq: val >> 4,
                    width_mode: val & 0x80 != 0,
                    divisor_code: val & 0x07,
                    ..a.ch4
                }),
                ..a
            })
        } else if addr == 0xFF23 {
            f == (Apu { ch4: spec_noise_write_nr44(a.ch4, ln, val), ..a })
        } else if addr == 0xFF24 {
            f == (Apu {
                lvin: val & 0x80 != 0,
                lvol: (val >> 4) & 0x07,
                rvin: val & 0x08 != 0,
                rvol: val & 0x07,
                ..a
            })
        } else if addr == 0xFF25 {
            f == (Apu {
                ch1: (Square {
                    left_enable: val & 0x10 != 0,
                    right_enable: val & 0x01 != 0,
                    ..a.ch1
                }),
                ch2: (Square {
                    left_enable: val & 0x20 != 0,
                    right_enable: val & 0x02 != 0,
                    ..a.ch2
                }),
                ch3: (Wave { left_enable: val & 0x40 != 0, right_enable: val & 0x04 != 0, ..a.ch3 }),
                ch4: (Noise {
                    left_enable: val & 0x80 != 0,
                    right_enable: val & 0x08 != 0,
                    ..a.ch4
                }),
                ..a
            })
        } else if addr == 0xFF26 {
            &&& f.enable == (val & 0x80 != 0)
            &&& a.enable && val & 0x80 == 0 ==> !f.ch1.enabled && !f.ch2.enabled && !f.ch3.enabled
                && !f.ch4.enabled && f.lvol == 0 && f.rvol == 0
            &&& a.enable && val & 0x80 == 0 ==> f == (Apu { enable: false, ..spec_power_off(a) })
            &&& a.enable == (val & 0x80 != 0) ==> f == (Apu { enable: val & 0x80 != 0, ..a })
            &&& !a.enable && val & 0x80 != 0 ==> f == (Apu {
                enable: true,
                sequencer_step: if a.div_bit {
                    -1i8
                } else {
                    0i8
                },
                ch1: (Square { phase: 0, ..a.ch1 }),
                ch2: (Square { phase: 0, ..a.ch2 }),
                ch3: (Wave { table_index: 0, ..a.ch3 }),
                ..a
            })
        } else if 0xFF30 <= addr <= 0xFF3F {
            &&& f.ch3.wave_table@ == a.ch3.wave_table@.update(
                spec_wave_ram_index(a.ch3, (addr & 0x000F) as int),
                val,
            )
            &&& f == (Apu { ch3: (Wave { wave_table: f.ch3.wave_table, ..a.ch3 }), ..a })
        } else {
            f == a
        }
    }
}

} // verus!
