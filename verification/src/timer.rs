//! The system timer: a free-running 16-bit divider plus the TIMA counter
//! that increments whenever the selected divider bits are all set, with a
//! one-cycle delayed reload from TMA on overflow.

use vstd::prelude::*;
use vstd::wrapping::u16_specs;

verus! {

pub struct Timer {
    /// Free-running 16-bit divider, incremented once per t-cycle.
    pub div: u16,
    /// Mask selecting the divider bits that clock TIMA; one of
    /// 0x03FF, 0x000F, 0x003F, 0x00FF.
    pub div_mask: u16,
    /// The timer counter (TIMA register).
    pub tima: u8,
    /// The timer modulo (TMA register), reloaded into TIMA on overflow.
    pub tma: u8,
    /// TAC bit 2: whether TIMA counts at all.
    pub is_tima_enable: bool,
    /// Set when TIMA wrapped to zero; the reload and interrupt fire on the
    /// following t-cycle.
    pub is_tima_overflowed: bool,
}

impl Timer {
    /// The mask is always one of the four selectable divider masks.
    pub open spec fn wf(self) -> bool {
        self.div_mask == 0x03FF || self.div_mask == 0x000F || self.div_mask == 0x003F
            || self.div_mask == 0x00FF
    }

    pub fn new() -> (r: Timer)
        ensures
            r.div == 0,
            r.div_mask == 0x03FF,
            r.tima == 0,
            r.tma == 0,
            !r.is_tima_enable,
            !r.is_tima_overflowed,
            r.wf(),
    {
        Timer {
            div: 0,
            div_mask: 0x03FF,
            tima: 0,
            tma: 0,
            is_tima_enable: false,
            is_tima_overflowed: false,
        }
    }

    /// Advance the timer by one t-cycle: bump the divider; then, if TIMA is
    /// enabled, either perform a pending delayed reload (raising IF bit 2)
    /// or count TIMA when the selected divider bits are all set.
    pub fn tick(&mut self, iff: &mut u8)
        ensures
            final(self).div == u16_specs::wrapping_add(old(self).div, 1),
            final(self).div_mask == old(self).div_mask,
            final(self).tma == old(self).tma,
            final(self).is_tima_enable == old(self).is_tima_enable,
            ({
                let div = u16_specs::wrapping_add(old(self).div, 1);
                if old(self).is_tima_enable {
                    if old(self).is_tima_overflowed {
                        &&& final(self).tima == old(self).tma
                        &&& !final(self).is_tima_overflowed
                        &&& *final(iff) == (*old(iff) | 0x04u8)
                    } else if div & old(self).div_mask == old(self).div_mask {
                        &&& final(self).tima == vstd::wrapping::u8_specs::wrapping_add(old(self).tima, 1)
                        &&& final(self).is_tima_overflowed == (final(self).tima == 0)
                        &&& *final(iff) == *old(iff)
                    } else {
                        &&& final(self).tima == old(self).tima
                        &&& final(self).is_tima_overflowed == old(self).is_tima_overflowed
                        &&& *final(iff) == *old(iff)
                    }
                } else {
                    &&& final(self).tima == old(self).tima
                    &&& final(self).is_tima_overflowed == old(self).is_tima_overflowed
                    &&& *final(iff) == *old(iff)
                }
            }),
    {
        self.div = self.div.wrapping_add(1);
        if self.is_tima_enable {
            if self.is_tima_overflowed {
                self.is_tima_overflowed = false;
                self.tima = self.tma;
                *iff = *iff | 0x04u8;
            } else if self.div & self.div_mask == self.div_mask {
                self.tima = self.tima.wrapping_add(1);
                if self.tima == 0 {
                    self.is_tima_overflowed = true;
                }
            }
        }
    }

    /// DIV as the guest sees it: the high byte of the internal divider.
    pub fn read_div(&self) -> (r: u8)
        ensures
            r == (self.div >> 8) as u8,
    {
        (self.div >> 8) as u8
    }

    /// Reconfigure TAC: bit 2 enables TIMA, bits 0-1 select the divider mask.
    pub fn write_tac(&mut self, val: u8)
        ensures
            final(self).is_tima_enable == (val & 0x04 != 0),
            final(self).div_mask == spec_tac_mask(val),
            final(self).div == old(self).div,
            final(self).tima == old(self).tima,
            final(self).tma == old(self).tma,
            final(self).is_tima_overflowed == old(self).is_tima_overflowed,
            final(self).wf(),
    {
        self.is_tima_enable = (val & 0x04) != 0;
        self.div_mask = match val & 0x03 {
            0x0 => 0x03FF,
            0x1 => 0x000F,
            0x2 => 0x003F,
            _ => 0x00FF,
        };
        proof {
            assert((val & 0x03) < 4) by (bit_vector);
        }
    }

    /// TAC as the guest reads it: unused bits high, then enable and mask code.
    pub fn read_tac(&self) -> (r: u8)
        requires
            self.wf(),
        ensures
            r == (0xF8u8 | ((if self.is_tima_enable {
                4u8
            } else {
                0u8
            }) | spec_tac_freq(self.div_mask))),
    {
        let enable: u8 = if self.is_tima_enable {
            4
        } else {
            0
        };
        let freq: u8 = match self.div_mask {
            0x03FF => 0x0,
            0x000F => 0x1,
            0x003F => 0x2,
            _ => 0x3,
        };
        0xF8u8 | (enable | freq)
    }
}

/// The divider mask selected by the low two bits of a TAC write.
pub open spec fn spec_tac_mask(val: u8) -> u16 {
    if val & 0x03 == 0 {
        0x03FF
    } else if val & 0x03 == 1 {
        0x000F
    } else if val & 0x03 == 2 {
        0x003F
    } else {
        0x00FF
    }
}

/// The TAC frequency code corresponding to a divider mask.
pub open spec fn spec_tac_freq(mask: u16) -> u8 {
    if mask == 0x03FF {
        0
    } else if mask == 0x000F {
        1
    } else if mask == 0x003F {
        2
    } else {
        3
    }
}

} // verus!
