//! The noise channel: a 15-bit linear-feedback shift register clocked by a
//! divisor-and-shift frequency timer, scaled by a volume envelope.

use vstd::prelude::*;
use crate::apu::envelope::{Envelope, spec_env_write, spec_env_trigger};
use crate::apu::lengthcounter::{LengthCounter, spec_lc_tick, spec_lc_write_length, spec_lc_trigger};

verus! {

#[derive(Clone, Copy, PartialEq, Eq, Structural)]
pub struct Noise {
    pub left_enable: bool,
    pub right_enable: bool,
    pub enabled: bool,
    pub envelope: Envelope,
    pub length_counter: LengthCounter,
    pub shift_clock_freq: u8,
    pub width_mode: bool,
    pub divisor_code: u8,
    pub freq_timer: u16,
    pub lsfr: u16,
    pub dac_enable: bool,
}

/// The base divisor selected by the divisor code: 8 for code zero, else
/// sixteen times the code.
pub open spec fn spec_noise_divisor(code: u8) -> u16 {
    if code == 0 {
        8u16
    } else {
        (16 * code) as u16
    }
}

/// The shift register after one step: bits 0 and 1 are xor-ed into bit 14
/// of the shifted register, and also into bit 6 in narrow mode.
pub open spec fn spec_lsfr_step(lsfr: u16, width_mode: bool) -> u16 {
    let x = (lsfr & 1) ^ ((lsfr >> 1) & 1);
    let shifted = (lsfr >> 1) | (x << 14);
    if width_mode {
        (shifted & (!0x40u16)) | (x << 6)
    } else {
        shifted
    }
}

/// The noise-channel state after one t-cycle.
pub open spec fn spec_noise_tick(n: Noise) -> Noise {
    let t = if n.freq_timer > 0 {
        (n.freq_timer - 1) as u16
    } else {
        0u16
    };
    if t == 0 {
        Noise {
            lsfr: spec_lsfr_step(n.lsfr, n.width_mode),
            freq_timer: (((spec_noise_divisor(n.divisor_code) as u32) << n.shift_clock_freq) as u16),
            ..n
        }
    } else {
        Noise { freq_timer: t, ..n }
    }
}

/// The digital output of the noise channel: envelope volume while the
/// inverted low shift-register bit is set.
pub open spec fn spec_noise_output(n: Noise) -> u8 {
    if !n.enabled {
        0u8
    } else {
        (((n.lsfr & 1) ^ 1) * n.envelope.current_vol as u16) as u8
    }
}

impl Noise {
    /// Register-backed fields stay inside their hardware widths.
    pub open spec fn wf(self) -> bool {
        &&& self.envelope.wf()
        &&& self.length_counter.wf()
        &&& self.length_counter.max_length == 64
        &&& self.shift_clock_freq <= 15
        &&& self.divisor_code <= 7
    }

    pub fn new() -> (r: Noise)
        ensures
            r == spec_initial_noise(),
            r.wf(),
    {
        Noise {
            left_enable: false,
            right_enable: false,
            enabled: false,
            envelope: Envelope::new(),
            length_counter: LengthCounter::new(64),
            shift_clock_freq: 0,
            width_mode: false,
            divisor_code: 0,
            freq_timer: 0,
            lsfr: 0,
            dac_enable: false,
        }
    }

    /// One t-cycle: count the frequency timer down; on expiry step the
    /// shift register and reload the timer from divisor and shift.
    pub fn tick(&mut self)
        requires
            old(self).wf(),
        ensures
            *final(self) == spec_noise_tick(*old(self)),
            final(self).wf(),
    {
        if self.freq_timer > 0 {
            self.freq_timer = self.freq_timer - 1;
        }
        if self.freq_timer == 0 {
            self.step_lsfr();
            let base: u32 = self.base_divisor() as u32;
            proof {
                let b = base;
                let s = self.shift_clock_freq;
                assert(b <= 112 && s <= 15 ==> (b << s) <= 0xE0000000u32) by (bit_vector);
            }
            self.freq_timer = (base << self.shift_clock_freq) as u16;
        }
    }

    /// The base divisor of the frequency timer.
    pub fn base_divisor(&self) -> (r: u16)
        requires
            self.wf(),
        ensures
            r == spec_noise_divisor(self.divisor_code),
            r <= 112,
    {
        if self.divisor_code == 0 {
            8
        } else {
            self.divisor_code as u16 * 16
        }
    }

    /// Advance the shift register by one step.
    pub fn step_lsfr(&mut self)
        ensures
            *final(self) == (Noise {
                lsfr: spec_lsfr_step(old(self).lsfr, old(self).width_mode),
                ..*old(self)
            }),
    {
        let x: u16 = (self.lsfr & 1) ^ ((self.lsfr >> 1) & 1);
        proof {
            let l = self.lsfr;
            assert(((l & 1) ^ ((l >> 1) & 1)) <= 1) by (bit_vector);
        }
        self.lsfr = self.lsfr >> 1;
        self.lsfr = self.lsfr | (x << 14);
        if self.width_mode {
            self.lsfr = self.lsfr & !0x40u16;
            self.lsfr = self.lsfr | (x << 6);
        }
    }

    /// The channel's digital output, 0 to 15.
    pub fn output(&self) -> (r: u8)
        requires
            self.wf(),
        ensures
            r == spec_noise_output(*self),
            r <= 15,
    {
        if !self.enabled {
            0
        } else {
            let bit: u8 = if self.lsfr & 1 == 0 {
                1
            } else {
                0
            };
            proof {
                let l = self.lsfr;
                assert((l & 1 == 0 ==> (l & 1) ^ 1 == 1) && (l & 1 != 0 ==> (l & 1) ^ 1 == 0))
                    by (bit_vector);
            }
            bit * self.envelope.current_vol
        }
    }

    /// Whether the host-side digital-to-analogue stage is driven at all.
    pub fn dac_active(&self) -> (r: bool)
        ensures
            r == (self.enabled && self.envelope.current_vol != 0),
    {
        self.enabled && self.envelope.current_vol != 0
    }

    /// The frequency register image.
    pub fn read_nr43(&self) -> (r: u8)
        ensures
            r == (((self.shift_clock_freq & 0x0F) << 4) | ((if self.width_mode {
                1u8
            } else {
                0u8
            }) << 3) | (self.divisor_code & 0x07)),
    {
        let w: u8 = if self.width_mode {
            1
        } else {
            0
        };
        ((self.shift_clock_freq & 0x0F) << 4) | (w << 3) | (self.divisor_code & 0x07)
    }

    /// Write the envelope register; an all-zero volume and direction turns
    /// the DAC, and with it the channel, off.
    pub fn write_nr42(&mut self, val: u8)
        requires
            old(self).wf(),
        ensures
            final(self).wf(),
            *final(self) == (Noise {
                envelope: spec_env_write(old(self).envelope, val),
                dac_enable: val & 0xF8 != 0,
                enabled: old(self).enabled && val & 0xF8 != 0,
                ..*old(self)
            }),
    {
        self.envelope.write_envelope(val);
        self.dac_enable = (val & 0xF8) != 0;
        if !self.dac_enable {
            self.enabled = false;
        }
    }

    /// Write the frequency register: clock shift, width mode, divisor code.
    pub fn write_nr43(&mut self, val: u8)
        requires
            old(self).wf(),
        ensures
            final(self).wf(),
            *final(self) == (Noise {
                shift_clock_freq: val >> 4,
                width_mode: val & 0x80 != 0,
                divisor_code: val & 0x07,
                ..*old(self)
            }),
            final(self).shift_clock_freq <= 15,
            final(self).divisor_code <= 7,
    {
        self.shift_clock_freq = val >> 4;
        self.width_mode = (val & 0x80) != 0;
        self.divisor_code = val & 0x07;
        proof {
            assert(val >> 4 <= 15 && val & 0x07 <= 7) by (bit_vector);
        }
    }

    /// Write the control register: set the length enable, apply the
    /// freshly-enabled extra length clock, and trigger on bit 7.
    pub fn write_nr44(&mut self, length_next: bool, val: u8)
        requires
            old(self).wf(),
        ensures
            *final(self) == spec_noise_write_nr44(*old(self), length_next, val),
            final(self).wf(),
    {
        let old_length_enable = self.length_counter.enabled;
        self.length_counter.write_enable(val);
        let new_length_enable = self.length_counter.enabled;
        if !length_next && !old_length_enable && new_length_enable {
            let mut en = self.enabled;
            self.length_counter.tick(&mut en);
            self.enabled = en;
        }
        if (val & 0x80) != 0 {
            self.trigger(length_next);
        }
    }

    /// A trigger: switch the channel on (if its DAC is powered), reload
    /// length and envelope, and reset the shift register to all ones.
    pub fn trigger(&mut self, length_next: bool)
        requires
            old(self).wf(),
        ensures
            *final(self) == spec_noise_trigger(*old(self), length_next),
            final(self).wf(),
    {
        if self.dac_enable {
            self.enabled = true;
        }
        self.length_counter.trigger(length_next);
        self.envelope.trigger();
        self.lsfr = 0x7FFF;
    }
}

/// The state the noise channel starts in.
pub open spec fn spec_initial_noise() -> Noise {
    Noise {
        left_enable: false,
        right_enable: false,
        enabled: false,
        envelope: Envelope {
            initial_vol: 0,
            current_vol: 0,
            sweep_increase: false,
            period: 0,
            enabled: false,
            counter: 0,
        },
        length_counter: LengthCounter { enabled: false, max_length: 64, counter: 0 },
        shift_clock_freq: 0,
        width_mode: false,
        divisor_code: 0,
        freq_timer: 0,
        lsfr: 0,
        dac_enable: false,
    }
}

/// The noise-channel state after an NR44 control write.
pub open spec fn spec_noise_write_nr44(n: Noise, length_next: bool, val: u8) -> Noise {
    let lc1 = LengthCounter { enabled: (val >> 6) & 0x01 != 0, ..n.length_counter };
    let clocked = !length_next && !n.length_counter.enabled && (val >> 6) & 0x01 != 0;
    let (lc2, en2) = if clocked {
        spec_lc_tick(lc1, n.enabled)
    } else {
        (lc1, n.enabled)
    };
    let s2 = Noise { length_counter: lc2, enabled: en2, ..n };
    if val & 0x80 != 0 {
        spec_noise_trigger(s2, length_next)
    } else {
        s2
    }
}

/// The noise-channel state after a full trigger.
pub open spec fn spec_noise_trigger(n: Noise, length_next: bool) -> Noise {
    Noise {
        enabled: n.enabled || n.dac_enable,
        length_counter: spec_lc_trigger(n.length_counter, length_next),
        envelope: spec_env_trigger(n.envelope),
        lsfr: 0x7FFF,
        ..n
    }
}

} // verus!
