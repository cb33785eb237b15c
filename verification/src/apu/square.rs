//! A square-wave channel: an 11-bit frequency timer stepping an 8-phase
//! duty waveform, a volume envelope, a length counter, and (for channel 1)
//! a frequency sweep unit.

use vstd::prelude::*;
use crate::apu::envelope::{Envelope, spec_env_write, spec_env_trigger};
use crate::apu::lengthcounter::{LengthCounter, spec_lc_tick, spec_lc_write_length, spec_lc_trigger};

verus! {

#[derive(Clone, Copy, PartialEq, Eq, Structural)]
pub struct Square {
    pub left_enable: bool,
    pub right_enable: bool,
    pub enabled: bool,
    pub envelope: Envelope,
    pub length_counter: LengthCounter,
    pub sweep_period: u8,
    pub sweep_negate: bool,
    pub sweep_shift: u8,
    pub freq_shadow: u16,
    pub sweep_enable: bool,
    pub sweep_timer: u8,
    pub freq: u16,
    pub freq_timer: u16,
    pub duty: u8,
    pub phase: u8,
    pub dac_enable: bool,
}

/// The duty waveform bit for one of the four duty patterns at one of the
/// eight phases.
pub open spec fn spec_duty_wave(duty: u8, phase: u8) -> u8 {
    if duty & 0x03 == 0 {
        if phase & 0x07 == 7 {
            1u8
        } else {
            0u8
        }
    } else if duty & 0x03 == 1 {
        if phase & 0x07 == 0 || phase & 0x07 == 7 {
            1u8
        } else {
            0u8
        }
    } else if duty & 0x03 == 2 {
        if phase & 0x07 == 0 || phase & 0x07 >= 5 {
            1u8
        } else {
            0u8
        }
    } else {
        if 1 <= phase & 0x07 && phase & 0x07 <= 6 {
            1u8
        } else {
            0u8
        }
    }
}

/// The digital output of a square channel: the duty bit scaled by the
/// envelope volume while the channel is enabled.
pub open spec fn spec_square_output(s: Square) -> u8 {
    if !s.enabled {
        0u8
    } else {
        (spec_duty_wave(s.duty, s.phase) * s.envelope.current_vol) as u8
    }
}

/// The square-channel state after one t-cycle.
pub open spec fn spec_square_tick(s: Square) -> Square {
    let t = if s.freq_timer > 0 {
        (s.freq_timer - 1) as u16
    } else {
        0u16
    };
    if t == 0 {
        Square { phase: ((s.phase + 1) % 8) as u8, freq_timer: (4 * (2048 - s.freq)) as u16, ..s }
    } else {
        Square { freq_timer: t, ..s }
    }
}

/// The frequency the sweep unit proposes: shadow plus or minus shadow
/// shifted right by the sweep shift.
pub open spec fn spec_sweep_next_freq(s: Square) -> u16 {
    if s.sweep_negate {
        (s.freq_shadow - (s.freq_shadow >> s.sweep_shift)) as u16
    } else {
        (s.freq_shadow + (s.freq_shadow >> s.sweep_shift)) as u16
    }
}

impl Square {
    /// All register-backed fields stay inside their hardware widths.
    pub open spec fn wf(self) -> bool {
        &&& self.envelope.wf()
        &&& self.length_counter.wf()
        &&& self.length_counter.max_length == 64
        &&& self.freq < 2048
        &&& self.freq_shadow < 2048
        &&& self.sweep_period <= 7
        &&& self.sweep_shift <= 7
        &&& self.duty <= 3
        &&& self.phase <= 7
    }

    pub fn new() -> (r: Square)
        ensures
            r == spec_initial_square(),
            r.wf(),
    {
        Square {
            left_enable: false,
            right_enable: false,
            enabled: false,
            envelope: Envelope::new(),
            length_counter: LengthCounter::new(64),
            sweep_period: 0,
            sweep_negate: false,
            sweep_shift: 0,
            freq_shadow: 0,
            sweep_enable: false,
            sweep_timer: 0,
            freq: 0,
            freq_timer: 0,
            duty: 0,
            phase: 0,
            dac_enable: false,
        }
    }

    /// One t-cycle: count the frequency timer down; on expiry advance the
    /// duty phase and reload the timer from the frequency register.
    pub fn tick(&mut self)
        requires
            old(self).wf(),
        ensures
            *final(self) == spec_square_tick(*old(self)),
            final(self).wf(),
    {
        if self.freq_timer > 0 {
            self.freq_timer = self.freq_timer - 1;
        }
        if self.freq_timer == 0 {
            self.phase = (self.phase + 1) % 8;
            self.freq_timer = 4 * (2048 - self.freq);
        }
    }

    /// One sweep tick: on sweep-timer expiry reload it and, if the sweep
    /// unit is running, move to the proposed frequency (when it fits in 11
    /// bits and the shift is nonzero) and run the overflow check again.
    pub fn tick_sweeper(&mut self)
        requires
            old(self).wf(),
        ensures
            *final(self) == spec_square_sweep_tick(*old(self)),
            final(self).wf(),
    {
        if self.sweep_timer > 0 {
            self.sweep_timer = self.sweep_timer - 1;
        }
        if self.sweep_timer == 0 {
            self.sweep_timer = if self.sweep_period != 0 {
                self.sweep_period
            } else {
                8
            };
            if self.sweep_enable && self.sweep_period != 0 {
                let new_freq = self.sweep_calculation();
                if new_freq <= 2047 && self.sweep_shift != 0 {
                    self.freq = new_freq;
                    self.freq_shadow = new_freq;
                    let _ = self.sweep_calculation();
                }
            }
        }
    }

    /// Compute the sweep's proposed frequency; a result above 2047
    /// switches the channel off.
    pub fn sweep_calculation(&mut self) -> (r: u16)
        requires
            old(self).wf(),
        ensures
            r == spec_sweep_next_freq(*old(self)),
            *final(self) == (Square {
                enabled: old(self).enabled && !(r > 2047),
                ..*old(self)
            }),
            final(self).wf(),
    {
        proof {
            let sh = self.freq_shadow;
            let k = self.sweep_shift;
            assert(sh < 2048 && k <= 7 ==> sh >> k <= sh && sh + (sh >> k) < 4096) by (bit_vector);
        }
        let shifted_freq = self.freq_shadow >> self.sweep_shift;
        let new_freq = if self.sweep_negate {
            self.freq_shadow - shifted_freq
        } else {
            self.freq_shadow + shifted_freq
        };
        if new_freq > 2047 {
            self.enabled = false;
        }
        new_freq
    }

    /// The channel's digital output, 0 to 15.
    pub fn output(&self) -> (r: u8)
        requires
            self.wf(),
        ensures
            r == spec_square_output(*self),
            r <= 15,
    {
        if !self.enabled {
            0
        } else {
            let bit = if self.duty == 0 {
                if self.phase == 7 {
                    1u8
                } else {
                    0u8
                }
            } else if self.duty == 1 {
                if self.phase == 0 || self.phase == 7 {
                    1u8
                } else {
                    0u8
                }
            } else if self.duty == 2 {
                if self.phase == 0 || self.phase >= 5 {
                    1u8
                } else {
                    0u8
                }
            } else {
                if 1 <= self.phase && self.phase <= 6 {
                    1u8
                } else {
                    0u8
                }
            };
            proof {
                let d = self.duty;
                let p = self.phase;
                assert(d <= 3 ==> d & 0x03 == d) by (bit_vector);
                assert(p <= 7 ==> p & 0x07 == p) by (bit_vector);
            }
            bit * self.envelope.current_vol
        }
    }

    /// Whether the host-side digital-to-analogue stage is driven at all:
    /// a disabled channel or a zero envelope volume produces silence.
    pub fn dac_active(&self) -> (r: bool)
        ensures
            r == (self.enabled && self.envelope.current_vol != 0),
    {
        self.enabled && self.envelope.current_vol != 0
    }

    /// The sweep register image.
    pub fn read_nr10(&self) -> (r: u8)
        ensures
            r == (0x80u8 | ((self.sweep_period & 0x07) << 4) | ((if self.sweep_negate {
                1u8
            } else {
                0u8
            }) << 3) | (self.sweep_shift & 0x07)),
    {
        let neg: u8 = if self.sweep_negate {
            1
        } else {
            0
        };
        0x80u8 | ((self.sweep_period & 0x07) << 4) | (neg << 3) | (self.sweep_shift & 0x07)
    }

    /// The duty/length register image: only the duty bits read back.
    pub fn read_nrx1(&self) -> (r: u8)
        ensures
            r == (0x3Fu8 | ((self.duty & 0x03) << 6)),
    {
        0x3Fu8 | ((self.duty & 0x03) << 6)
    }

    /// Write the sweep register.
    pub fn write_nr10(&mut self, val: u8)
        requires
            old(self).wf(),
        ensures
            final(self).wf(),
            *final(self) == (Square {
                sweep_period: (val >> 4) & 0x07,
                sweep_negate: val & 0x08 != 0,
                sweep_shift: val & 0x07,
                ..*old(self)
            }),
    {
        self.sweep_period = (val >> 4) & 0x07;
        self.sweep_negate = (val & 0x08) != 0;
        self.sweep_shift = val & 0x07;
        proof {
            assert((val >> 4) & 0x07 <= 7 && val & 0x07 <= 7) by (bit_vector);
        }
    }

    /// Write the duty/length register; with the master power off only the
    /// length field takes effect.
    pub fn write_nrx1(&mut self, val: u8, power: bool)
        requires
            old(self).wf(),
        ensures
            *final(self) == (Square {
                duty: if power {
                    val >> 6
                } else {
                    old(self).duty
                },
                length_counter: spec_lc_write_length(old(self).length_counter, val),
                ..*old(self)
            }),
            final(self).wf(),
    {
        if power {
            self.duty = val >> 6;
        }
        proof {
            assert(val >> 6 <= 3) by (bit_vector);
        }
        self.length_counter.write_length(val);
    }

    /// Write the envelope register; an all-zero volume and direction turns
    /// the DAC, and with it the channel, off.
    pub fn write_nrx2(&mut self, val: u8)
        requires
            old(self).wf(),
        ensures
            final(self).wf(),
            *final(self) == (Square {
                envelope: spec_env_write(old(self).envelope, val),
                dac_enable: val & 0xF8 != 0,
                enabled: old(self).enabled && val & 0xF8 != 0,
                ..*old(self)
            }),
    {
        self.envelope.write_envelope(val);
        self.dac_enable = (val & 0xF8) != 0;
        if !self.dac_enable {
            self.enabled = false;
        }
    }

    /// Write the low byte of the frequency.
    pub fn write_nrx3(&mut self, val: u8)
        requires
            old(self).wf(),
        ensures
            *final(self) == (Square {
                freq: ((old(self).freq & 0xFF00) | val as u16) as u16,
                ..*old(self)
            }),
            final(self).wf(),
    {
        proof {
            let f = self.freq;
            assert(f < 2048 ==> ((f & 0xFF00) | val as u16) < 2048) by (bit_vector);
        }
        self.freq = (self.freq & 0xFF00) | (val as u16);
    }

    /// Write the high-frequency/control register: set the frequency's top
    /// bits and the length enable, apply the freshly-enabled extra length
    /// clock, and trigger the channel when bit 7 is set.
    pub fn write_nrx4(&mut self, length_next: bool, val: u8)
        requires
            old(self).wf(),
        ensures
            *final(self) == spec_square_write_nrx4(*old(self), length_next, val),
            final(self).wf(),
    {
        proof {
            let f = self.freq;
            assert((f & 0x00FF) | (((val & 0x07) as u16) << 8) < 2048) by (bit_vector);
        }
        self.freq = (self.freq & 0x00FF) | (((val & 0x07) as u16) << 8);
        let old_length_enable = self.length_counter.enabled;
        self.length_counter.write_enable(val);
        let new_length_enable = self.length_counter.enabled;
        if !length_next && !old_length_enable && new_length_enable {
            let mut en = self.enabled;
            self.length_counter.tick(&mut en);
            self.enabled = en;
        }
        if (val & 0x80) != 0 {
            self.trigger(length_next);
        }
    }

    /// A trigger: switch the channel on (if its DAC is powered), reload the
    /// frequency timer, and restart length, envelope and sweep.
    pub fn trigger(&mut self, length_next: bool)
        requires
            old(self).wf(),
        ensures
            *final(self) == spec_square_trigger(*old(self), length_next),
            final(self).wf(),
    {
        if self.dac_enable {
            self.enabled = true;
        }
        self.freq_timer = 4 * (2048 - self.freq);
        self.length_counter.trigger(length_next);
        self.envelope.trigger();
        self.sweep_trigger();
    }

    /// The sweep part of a trigger: copy the frequency into the shadow,
    /// reload the sweep timer, and run one overflow check when shifting.
    pub fn sweep_trigger(&mut self)
        requires
            old(self).wf(),
        ensures
            *final(self) == spec_square_sweep_trigger(*old(self)),
            final(self).wf(),
    {
        self.freq_shadow = self.freq;
        self.sweep_timer = if self.sweep_period != 0 {
            self.sweep_period
        } else {
            8
        };
        self.sweep_enable = (self.sweep_period != 0) || (self.sweep_shift != 0);
        if self.sweep_shift != 0 {
            let _ = self.sweep_calculation();
        }
    }
}

/// The state a square channel starts in.
pub open spec fn spec_initial_square() -> Square {
    Square {
        left_enable: false,
        right_enable: false,
        enabled: false,
        envelope: Envelope {
            initial_vol: 0,
            current_vol: 0,
            sweep_increase: false,
            period: 0,
            enabled: false,
            counter: 0,
        },
        length_counter: LengthCounter { enabled: false, max_length: 64, counter: 0 },
        sweep_period: 0,
        sweep_negate: false,
        sweep_shift: 0,
        freq_shadow: 0,
        sweep_enable: false,
        sweep_timer: 0,
        freq: 0,
        freq_timer: 0,
        duty: 0,
        phase: 0,
        dac_enable: false,
    }
}

/// The square-channel state after one sweep tick of the frame sequencer.
pub open spec fn spec_square_sweep_tick(s: Square) -> Square {
    let t = if s.sweep_timer > 0 {
        (s.sweep_timer - 1) as u8
    } else {
        0u8
    };
    if t != 0 {
        Square { sweep_timer: t, ..s }
    } else {
        let reload = if s.sweep_period != 0 {
            s.sweep_period
        } else {
            8u8
        };
        if s.sweep_enable && s.sweep_period != 0 {
            let f1 = spec_sweep_next_freq(s);
            let e1 = s.enabled && !(f1 > 2047);
            if f1 <= 2047 && s.sweep_shift != 0 {
                let moved = Square {
                    sweep_timer: reload,
                    enabled: e1,
                    freq: f1,
                    freq_shadow: f1,
                    ..s
                };
                let f2 = spec_sweep_next_freq(moved);
                Square { enabled: moved.enabled && !(f2 > 2047), ..moved }
            } else {
                Square { sweep_timer: reload, enabled: e1, ..s }
            }
        } else {
            Square { sweep_timer: reload, ..s }
        }
    }
}

/// The square-channel state after the sweep part of a trigger.
pub open spec fn spec_square_sweep_trigger(s: Square) -> Square {
    let s1 = Square {
        freq_shadow: s.freq,
        sweep_timer: if s.sweep_period != 0 {
            s.sweep_period
        } else {
            8u8
        },
        sweep_enable: s.sweep_period != 0 || s.sweep_shift != 0,
        ..s
    };
    if s.sweep_shift != 0 {
        Square { enabled: s1.enabled && !(spec_sweep_next_freq(s1) > 2047), ..s1 }
    } else {
        s1
    }
}

/// The square-channel state after an NRx4-style control write.
pub open spec fn spec_square_write_nrx4(s: Square, length_next: bool, val: u8) -> Square {
    let s1 = Square {
        freq: ((s.freq & 0x00FF) | (((val & 0x07) as u16) << 8)) as u16,
        length_counter: LengthCounter { enabled: (val >> 6) & 0x01 != 0, ..s.length_counter },
        ..s
    };
    let s2 = if !length_next && !s.length_counter.enabled && (val >> 6) & 0x01 != 0 {
        let (lc, en) = spec_lc_tick(s1.length_counter, s1.enabled);
        Square { length_counter: lc, enabled: en, ..s1 }
    } else {
        s1
    };
    if val & 0x80 != 0 {
        spec_square_trigger(s2, length_next)
    } else {
        s2
    }
}

/// The square-channel state after a full trigger.
pub open spec fn spec_square_trigger(s: Square, length_next: bool) -> Square {
    let s1 = Square {
        enabled: s.enabled || s.dac_enable,
        freq_timer: (4 * (2048 - s.freq)) as u16,
        length_counter: spec_lc_trigger(s.length_counter, length_next),
        envelope: spec_env_trigger(s.envelope),
        ..s
    };
    spec_square_sweep_trigger(s1)
}

} // verus!
