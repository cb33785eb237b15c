//! The volume envelope sub-unit shared by the square and noise channels:
//! a period counter that, while the envelope is active, walks the current
//! volume one step toward its direction and stops at the rails.

use vstd::prelude::*;

verus! {

#[derive(Clone, Copy, PartialEq, Eq, Structural)]
pub struct Envelope {
    pub initial_vol: u8,
    pub current_vol: u8,
    pub sweep_increase: bool,
    pub period: u8,
    pub enabled: bool,
    pub counter: u8,
}

/// The envelope state after one envelope tick.
pub open spec fn spec_env_tick(e: Envelope) -> Envelope {
    let counter = if e.counter <= 1 {
        if e.period != 0 {
            e.period
        } else {
            8u8
        }
    } else {
        (e.counter - 1) as u8
    };
    if e.counter <= 1 && e.enabled && e.period != 0 {
        let vol = if e.sweep_increase {
            if e.current_vol < 15 {
                (e.current_vol + 1) as u8
            } else {
                e.current_vol
            }
        } else if e.current_vol > 0 {
            (e.current_vol - 1) as u8
        } else {
            0u8
        };
        Envelope {
            counter,
            current_vol: vol,
            enabled: !(vol == 0 || vol == 15),
            ..e
        }
    } else {
        Envelope { counter, ..e }
    }
}

/// The envelope state after a register write.
pub open spec fn spec_env_write(e: Envelope, val: u8) -> Envelope {
    Envelope {
        initial_vol: val >> 4,
        current_vol: val >> 4,
        sweep_increase: val & 0x08 != 0,
        period: val & 0x07,
        counter: val & 0x07,
        ..e
    }
}

/// The envelope state after a channel trigger.
pub open spec fn spec_env_trigger(e: Envelope) -> Envelope {
    Envelope { current_vol: e.initial_vol, counter: e.period, enabled: true, ..e }
}

impl Envelope {
    /// The volume fields never leave their 4-bit range and the period its
    /// 3-bit range.
    pub open spec fn wf(self) -> bool {
        self.current_vol <= 15 && self.initial_vol <= 15 && self.period <= 7
    }

    pub fn new() -> (r: Envelope)
        ensures
            r == (Envelope {
                initial_vol: 0,
                current_vol: 0,
                sweep_increase: false,
                period: 0,
                enabled: false,
                counter: 0,
            }),
    {
        Envelope {
            initial_vol: 0,
            current_vol: 0,
            sweep_increase: false,
            period: 0,
            enabled: false,
            counter: 0,
        }
    }

    /// One envelope tick of the frame sequencer.
    pub fn tick(&mut self)
        requires
            old(self).wf(),
        ensures
            *final(self) == spec_env_tick(*old(self)),
            final(self).wf(),
    {
        self.counter = if self.counter > 0 {
            self.counter - 1
        } else {
            0
        };
        if self.counter == 0 {
            self.counter = if self.period != 0 {
                self.period
            } else {
                8
            };
            if self.enabled && self.period != 0 {
                if self.sweep_increase {
                    if self.current_vol < 15 {
                        self.current_vol = self.current_vol + 1;
                    }
                } else {
                    if self.current_vol > 0 {
                        self.current_vol = self.current_vol - 1;
                    }
                }
                if self.current_vol == 0 || self.current_vol == 15 {
                    self.enabled = false;
                }
            }
        }
    }

    /// The register image: volume, direction, period.
    pub fn read_nrx2(&self) -> (r: u8)
        ensures
            r == (((self.initial_vol & 0x0F) << 4) | ((if self.sweep_increase {
                1u8
            } else {
                0u8
            }) << 3) | (self.period & 0x07)),
    {
        let dir: u8 = if self.sweep_increase {
            1
        } else {
            0
        };
        ((self.initial_vol & 0x0F) << 4) | (dir << 3) | (self.period & 0x07)
    }

    /// A register write reloads every envelope field from the new value.
    pub fn write_envelope(&mut self, val: u8)
        ensures
            *final(self) == spec_env_write(*old(self), val),
            final(self).wf(),
    {
        self.initial_vol = val >> 4;
        self.current_vol = self.initial_vol;
        self.sweep_increase = (val & 0x08) != 0;
        self.period = val & 0x07;
        self.counter = self.period;
        proof {
            assert(val >> 4 <= 15 && val & 0x07 <= 7) by (bit_vector);
        }
    }

    /// A channel trigger restarts the envelope from its initial volume.
    pub fn trigger(&mut self)
        ensures
            *final(self) == spec_env_trigger(*old(self)),
    {
        self.current_vol = self.initial_vol;
        self.counter = self.period;
        self.enabled = true;
    }
}

} // verus!
