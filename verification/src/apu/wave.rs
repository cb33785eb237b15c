//! The wave-table channel: a 32-nibble sample table stepped by an 11-bit
//! frequency timer, scaled by a two-bit volume shift.

use vstd::prelude::*;
use crate::apu::lengthcounter::{LengthCounter, spec_lc_tick, spec_lc_write_length, spec_lc_trigger};

verus! {

pub struct Wave {
    pub left_enable: bool,
    pub right_enable: bool,
    pub enabled: bool,
    pub length_counter: LengthCounter,
    pub freq: u16,
    pub freq_timer: u16,
    pub vol: u8,
    pub wave_table: Vec<u8>,
    pub table_index: u8,
    pub dac_enable: bool,
}

/// The right-shift applied to a wave sample for each volume code:
/// mute, full, half, quarter.
pub open spec fn spec_wave_vol_shift(vol: u8) -> u8 {
    if vol & 0x03 == 0 {
        4u8
    } else if vol & 0x03 == 1 {
        0u8
    } else if vol & 0x03 == 2 {
        1u8
    } else {
        2u8
    }
}

/// The digital output of the wave channel: the nibble at the current table
/// position (high nibble first within each byte) shifted by the volume code.
pub open spec fn spec_wave_output(w: Wave) -> u8 {
    if !w.enabled {
        0u8
    } else {
        let byte = w.wave_table@[(w.table_index >> 1) as int];
        let shift = (4 * ((w.table_index & 1) ^ 1)) as u8;
        (((byte >> shift) & 0x0F) >> spec_wave_vol_shift(w.vol)) as u8
    }
}

/// The wave-channel state after one t-cycle.
pub open spec fn spec_wave_tick(w: Wave) -> Wave {
    let t = if w.freq_timer > 0 {
        (w.freq_timer - 1) as u16
    } else {
        0u16
    };
    if t == 0 {
        Wave {
            freq_timer: (2 * (2048 - w.freq)) as u16,
            table_index: (((w.table_index + 1) as u8) & 0x1F),
            ..w
        }
    } else {
        Wave { freq_timer: t, ..w }
    }
}

/// The wave-channel state after a trigger.
pub open spec fn spec_wave_trigger(w: Wave, length_next: bool) -> Wave {
    Wave {
        enabled: w.enabled || w.dac_enable,
        length_counter: spec_lc_trigger(w.length_counter, length_next),
        table_index: 0,
        freq_timer: (2 * ((2048 - w.freq) + 2)) as u16,
        ..w
    }
}

/// The wave-channel state after an NR34 control write.
pub open spec fn spec_wave_write_nr34(w: Wave, length_next: bool, val: u8) -> Wave {
    let w1 = Wave {
        freq: ((w.freq & 0x00FF) | (((val & 0x07) as u16) << 8)) as u16,
        length_counter: LengthCounter { enabled: (val >> 6) & 0x01 != 0, ..w.length_counter },
        ..w
    };
    let w2 = if !length_next && !w.length_counter.enabled && (val >> 6) & 0x01 != 0 {
        let (lc, en) = spec_lc_tick(w1.length_counter, w1.enabled);
        Wave { length_counter: lc, enabled: en, ..w1 }
    } else {
        w1
    };
    if val & 0x80 != 0 {
        spec_wave_trigger(w2, length_next)
    } else {
        w2
    }
}

/// The wave-RAM byte a guest access targets: the byte being played while
/// the channel runs with its DAC on, otherwise the addressed one.
pub open spec fn spec_wave_ram_index(w: Wave, offset: int) -> int {
    if w.dac_enable && w.enabled {
        ((w.table_index >> 1) & 0x0F) as int
    } else {
        offset % 16
    }
}

impl Wave {
    /// The table holds 16 bytes and every register field stays in range.
    pub open spec fn wf(self) -> bool {
        &&& self.length_counter.wf()
        &&& self.length_counter.max_length == 256
        &&& self.freq < 2048
        &&& self.vol <= 3
        &&& self.wave_table@.len() == 16
        &&& self.table_index < 32
    }

    pub fn new() -> (r: Wave)
        ensures
            !r.enabled,
            !r.left_enable,
            !r.right_enable,
            !r.dac_enable,
            r.length_counter == (LengthCounter { enabled: false, max_length: 256, counter: 0 }),
            r.freq == 0,
            r.freq_timer == 0,
            r.vol == 0,
            r.table_index == 0,
            r.wave_table@ == Seq::<u8>::new(16, |i: int| 0u8),
            r.wf(),
    {
        let mut wave_table: Vec<u8> = Vec::new();
        let mut i: usize = 0;
        while i < 16
            invariant
                i <= 16,
                wave_table@ == Seq::<u8>::new(i as nat, |j: int| 0u8),
            decreases 16 - i,
        {
            wave_table.push(0u8);
            proof {
                assert(wave_table@ =~= Seq::<u8>::new((i + 1) as nat, |j: int| 0u8));
            }
            i = i + 1;
        }
        Wave {
            left_enable: false,
            right_enable: false,
            enabled: false,
            length_counter: LengthCounter::new(256),
            freq: 0,
            freq_timer: 0,
            vol: 0,
            wave_table,
            table_index: 0,
            dac_enable: false,
        }
    }

    /// One t-cycle: count the frequency timer down; on expiry advance the
    /// table position and reload the timer.
    pub fn tick(&mut self)
        requires
            old(self).wf(),
        ensures
            *final(self) == spec_wave_tick(*old(self)),
            final(self).wf(),
    {
        if self.freq_timer > 0 {
            self.freq_timer = self.freq_timer - 1;
        }
        if self.freq_timer == 0 {
            self.freq_timer = 2 * (2048 - self.freq);
            let next = (self.table_index + 1) & 0x1F;
            proof {
                let t = self.table_index;
                assert(t < 32 ==> (t + 1) as u8 & 0x1F < 32) by (bit_vector);
            }
            self.table_index = next;
        }
    }

    /// The channel's digital output, 0 to 15.
    pub fn output(&self) -> (r: u8)
        requires
            self.wf(),
        ensures
            r == spec_wave_output(*self),
            r <= 15,
    {
        if !self.enabled {
            0
        } else {
            proof {
                let t = self.table_index;
                assert(t < 32 ==> t >> 1 < 16 && (t & 1) ^ 1 <= 1) by (bit_vector);
            }
            let byte = self.wave_table[(self.table_index >> 1) as usize];
            let shift = 4 * ((self.table_index & 1) ^ 1);
            let sample = (byte >> shift) & 0x0F;
            let volshift: u8 = if self.vol == 0 {
                4
            } else if self.vol == 1 {
                0
            } else if self.vol == 2 {
                1
            } else {
                2
            };
            proof {
                let v = self.vol;
                assert(v <= 3 ==> v & 0x03 == v) by (bit_vector);
                let s = sample;
                let k = volshift;
                assert(s <= 15 && k <= 4 ==> s >> k <= 15) by (bit_vector);
                assert((byte >> shift) & 0x0F <= 15) by (bit_vector);
            }
            sample >> volshift
        }
    }

    /// Whether the host-side digital-to-analogue stage is driven at all.
    pub fn dac_active(&self) -> (r: bool)
        ensures
            r == self.enabled,
    {
        self.enabled
    }

    /// The DAC-power register image.
    pub fn read_nr30(&self) -> (r: u8)
        ensures
            r == (0x7Fu8 | ((if self.dac_enable {
                1u8
            } else {
                0u8
            }) << 7)),
    {
        let d: u8 = if self.dac_enable {
            1
        } else {
            0
        };
        0x7Fu8 | (d << 7)
    }

    /// The volume register image.
    pub fn read_nr32(&self) -> (r: u8)
        ensures
            r == (0x9Fu8 | ((self.vol & 0x03) << 5)),
    {
        0x9Fu8 | ((self.vol & 0x03) << 5)
    }

    /// Write the DAC-power register; dropping DAC power stops the channel.
    pub fn write_nr30(&mut self, val: u8)
        requires
            old(self).wf(),
        ensures
            final(self).wf(),
            *final(self) == (Wave {
                dac_enable: val & 0x80 != 0,
                enabled: old(self).enabled && val & 0x80 != 0,
                ..*old(self)
            }),
    {
        self.dac_enable = (val & 0x80) != 0;
        if !self.dac_enable {
            self.enabled = false;
        }
    }

    /// Write the volume register.
    pub fn write_nr32(&mut self, val: u8)
        requires
            old(self).wf(),
        ensures
            final(self).wf(),
            *final(self) == (Wave { vol: (val >> 5) & 0x03, ..*old(self) }),
            final(self).vol <= 3,
    {
        self.vol = (val >> 5) & 0x03;
        proof {
            assert((val >> 5) & 0x03 <= 3) by (bit_vector);
        }
    }

    /// Write the low byte of the frequency.
    pub fn write_nr33(&mut self, val: u8)
        requires
            old(self).wf(),
        ensures
            *final(self) == (Wave {
                freq: ((old(self).freq & 0xFF00) | val as u16) as u16,
                ..*old(self)
            }),
            final(self).wf(),
    {
        proof {
            let f = self.freq;
            assert(f < 2048 ==> ((f & 0xFF00) | val as u16) < 2048) by (bit_vector);
        }
        self.freq = (self.freq & 0xFF00) | (val as u16);
    }

    /// Write the high-frequency/control register: set the frequency's top
    /// bits and the length enable, apply the freshly-enabled extra length
    /// clock, and trigger the channel when bit 7 is set.
    pub fn write_nr34(&mut self, length_next: bool, val: u8)
        requires
            old(self).wf(),
        ensures
            *final(self) == spec_wave_write_nr34(*old(self), length_next, val),
            final(self).wf(),
    {
        proof {
            let f = self.freq;
            assert((f & 0x00FF) | (((val & 0x07) as u16) << 8) < 2048) by (bit_vector);
        }
        self.freq = (self.freq & 0x00FF) | (((val & 0x07) as u16) << 8);
        let old_length_enable = self.length_counter.enabled;
        self.length_counter.write_enable(val);
        let new_length_enable = self.length_counter.enabled;
        if !length_next && !old_length_enable && new_length_enable {
            let mut en = self.enabled;
            self.length_counter.tick(&mut en);
            self.enabled = en;
        }
        if (val & 0x80) != 0 {
            self.trigger(length_next);
        }
    }

    /// Read a wave-RAM byte; while the channel plays with its DAC on, the
    /// byte currently being played is returned instead.
    pub fn read_wave_ram(&self, offset: usize) -> (r: u8)
        requires
            self.wf(),
        ensures
            r == self.wave_table@[spec_wave_ram_index(*self, offset as int)],
    {
        let index: usize = if self.dac_enable && self.enabled {
            proof {
                let t = self.table_index;
                assert((t >> 1) & 0x0F < 16) by (bit_vector);
            }
            ((self.table_index >> 1) & 0x0F) as usize
        } else {
            offset % 16
        };
        self.wave_table[index]
    }

    /// Write a wave-RAM byte, with the same playing-position redirection
    /// as reads.
    pub fn write_wave_ram(&mut self, offset: usize, val: u8)
        requires
            old(self).wf(),
        ensures
            final(self).wave_table@ == old(self).wave_table@.update(
                spec_wave_ram_index(*old(self), offset as int),
                val,
            ),
            final(self).enabled == old(self).enabled,
            final(self).left_enable == old(self).left_enable,
            final(self).right_enable == old(self).right_enable,
            final(self).length_counter == old(self).length_counter,
            final(self).freq == old(self).freq,
            final(self).freq_timer == old(self).freq_timer,
            final(self).vol == old(self).vol,
            final(self).table_index == old(self).table_index,
            final(self).dac_enable == old(self).dac_enable,
            final(self).wf(),
    {
        let index: usize = if self.dac_enable && self.enabled {
            proof {
                let t = self.table_index;
                assert((t >> 1) & 0x0F < 16) by (bit_vector);
            }
            ((self.table_index >> 1) & 0x0F) as usize
        } else {
            offset % 16
        };
        self.wave_table.set(index, val);
    }

    /// A trigger: switch the channel on (if its DAC is powered), restart
    /// the table from its first nibble, and reload length and timer.
    pub fn trigger(&mut self, length_next: bool)
        requires
            old(self).wf(),
        ensures
            *final(self) == spec_wave_trigger(*old(self), length_next),
            final(self).wf(),
    {
        if self.dac_enable {
            self.enabled = true;
        }
        self.length_counter.trigger(length_next);
        self.table_index = 0;
        self.freq_timer = 2 * ((2048 - self.freq) + 2);
    }
}

} // verus!
