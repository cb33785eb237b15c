//! The length counter sub-unit: counts length ticks down while enabled and
//! switches its channel off when it reaches zero.

use vstd::prelude::*;

verus! {

#[derive(Clone, Copy, PartialEq, Eq, Structural)]
pub struct LengthCounter {
    pub enabled: bool,
    pub max_length: u16,
    pub counter: u16,
}

/// The counter/channel pair after one length tick.
pub open spec fn spec_lc_tick(lc: LengthCounter, channel_enable: bool) -> (LengthCounter, bool) {
    if lc.enabled {
        let counter = if lc.counter > 0 {
            (lc.counter - 1) as u16
        } else {
            0u16
        };
        (
            LengthCounter { counter, ..lc },
            if counter == 0 {
                false
            } else {
                channel_enable
            },
        )
    } else {
        (lc, channel_enable)
    }
}

/// The counter after a length-load register write.
pub open spec fn spec_lc_write_length(lc: LengthCounter, val: u8) -> LengthCounter {
    LengthCounter { counter: (lc.max_length - (val as u16 & ((lc.max_length - 1) as u16))) as u16, ..lc }
}

/// The counter after a trigger: an expired counter reloads to the maximum,
/// one less when the counter was just enabled outside a length step.
pub open spec fn spec_lc_trigger(lc: LengthCounter, length_next: bool) -> LengthCounter {
    if lc.counter == 0 {
        LengthCounter {
            counter: (lc.max_length - (if !length_next && lc.enabled {
                1int
            } else {
                0int
            })) as u16,
            ..lc
        }
    } else {
        lc
    }
}

impl LengthCounter {
    /// The maximum is 64 for square and noise, 256 for wave, and the count
    /// never exceeds it.
    pub open spec fn wf(self) -> bool {
        (self.max_length == 64 || self.max_length == 256) && self.counter <= self.max_length
    }

    pub fn new(max_length: u16) -> (r: LengthCounter)
        requires
            max_length == 64 || max_length == 256,
        ensures
            r == (LengthCounter { enabled: false, max_length, counter: 0 }),
            r.wf(),
    {
        LengthCounter { enabled: false, max_length, counter: 0 }
    }

    /// One length tick: while enabled, count down and report whether the
    /// channel must switch off.
    pub fn tick(&mut self, channel_enable: &mut bool)
        ensures
            (*final(self), *final(channel_enable)) == spec_lc_tick(
                *old(self),
                *old(channel_enable),
            ),
            final(self).max_length == old(self).max_length,
            final(self).counter <= old(self).counter,
    {
        if self.enabled {
            if self.counter > 0 {
                self.counter = self.counter - 1;
            }
            if self.counter == 0 {
                *channel_enable = false;
            }
        }
    }

    /// Load the counter from a length register write; the length field is
    /// the value reduced below the counter's maximum.
    pub fn write_length(&mut self, val: u8)
        requires
            old(self).wf(),
        ensures
            *final(self) == spec_lc_write_length(*old(self), val),
            final(self).wf(),
            final(self).counter >= 1,
    {
        let field: u16 = (val as u16) & (self.max_length - 1);
        proof {
            let m = self.max_length;
            let v = val as u16;
            assert(m == 64 || m == 256 ==> (v & (m - 1) as u16) < m) by (bit_vector);
        }
        self.counter = self.max_length - field;
    }

    /// Set the length-enable flag from bit 6 of an NRx4-style write.
    pub fn write_enable(&mut self, val: u8)
        ensures
            *final(self) == (LengthCounter { enabled: (val >> 6) & 0x01 != 0, ..*old(self) }),
    {
        self.enabled = ((val >> 6) & 0x01) != 0;
    }

    /// The register image: only the enable bit is readable.
    pub fn read_nrx4(&self) -> (r: u8)
        ensures
            r == (0xBFu8 | ((if self.enabled {
                1u8
            } else {
                0u8
            }) << 6)),
    {
        let e: u8 = if self.enabled {
            1
        } else {
            0
        };
        0xBF | (e << 6)
    }

    /// A channel trigger reloads an expired counter to its maximum.
    pub fn trigger(&mut self, length_next: bool)
        requires
            old(self).wf(),
        ensures
            *final(self) == spec_lc_trigger(*old(self), length_next),
            final(self).wf(),
    {
        if self.counter == 0 {
            let extra: u16 = if !length_next && self.enabled {
                1
            } else {
                0
            };
            self.counter = self.max_length - extra;
        }
    }
}

} // verus!
