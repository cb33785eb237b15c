//! The cartridge: ROM image, optional boot ROM shadow, battery RAM, and a
//! bank-switching controller chosen from the header byte at 0x0147.
//!
//! Banked ROM addresses are reduced modulo the number of 16 KiB banks the
//! image actually has, so every read stays inside the ROM; RAM accesses
//! outside the fitted RAM read 0xFF and drop writes.

use vstd::prelude::*;

verus! {

/// The memory-bank controller variant with its private registers.
#[derive(Clone, Copy, PartialEq, Eq, Structural)]
pub enum Mbc {
    RomOnly,
    Mbc1 { bank_mode: bool, is_ram_enable: bool, rom_bank_lo: u8, rom_bank_hi: u8 },
    Mbc2 { is_ram_enable: bool, rom_bank: u8 },
    Mbc3 {
        is_enable: bool,
        rtcs: u8,
        rtcm: u8,
        rtch: u8,
        rtcdl: u8,
        rtcdh: u8,
        rom_bank: u8,
        ram_or_rtc: u8,
        latched: u8,
    },
    Mbc5 { is_ram_enable: bool, rom_bank_lo: u8, rom_bank_hi: u8, ram_bank: u8 },
}

pub struct Cartridge {
    pub rom: Vec<u8>,
    pub bootrom: Vec<u8>,
    pub sram: Vec<u8>,
    pub romsize: usize,
    pub rombank: usize,
    pub ramsize: usize,
    pub rambank: usize,
    pub mbc: Mbc,
    /// Wall-clock seconds supplied by the host; the real-time-clock
    /// registers of an Mbc3 cartridge are derived from this on latch.
    pub clock_secs: u64,
}

/// Seconds field of the real-time clock derived from wall-clock seconds.
pub open spec fn spec_rtc_s(secs: u64) -> u8 {
    (secs % 60) as u8
}

/// Minutes field of the real-time clock.
pub open spec fn spec_rtc_m(secs: u64) -> u8 {
    ((secs / 60) % 60) as u8
}

/// Hours field of the real-time clock.
pub open spec fn spec_rtc_h(secs: u64) -> u8 {
    ((secs / 3600) % 24) as u8
}

/// Day-of-year counter: whole days folded into a mean-year cycle of
/// 365.2425 days, computed in exact tenth-of-millidays.
pub open spec fn spec_rtc_day(secs: u64) -> u16 {
    (((secs / 86400) % 3652425) * 10000 % 3652425 / 10000) as u16
}

pub fn get_rtc_s(secs: u64) -> (r: u8)
    ensures
        r == spec_rtc_s(secs),
{
    (secs % 60) as u8
}

pub fn get_rtc_m(secs: u64) -> (r: u8)
    ensures
        r == spec_rtc_m(secs),
{
    ((secs / 60) % 60) as u8
}

pub fn get_rtc_h(secs: u64) -> (r: u8)
    ensures
        r == spec_rtc_h(secs),
{
    ((secs / 3600) % 24) as u8
}

pub fn get_rtc_dl(secs: u64) -> (r: u8)
    ensures
        r == (spec_rtc_day(secs) & 0x00FF) as u8,
{
    let day: u64 = (secs / 86400) % 3652425;
    proof {
        assert(day * 10000 <= 3652424 * 10000) by (nonlinear_arith)
            requires
                day <= 3652424,
        ;
    }
    let doy: u64 = day * 10000 % 3652425 / 10000;
    ((doy as u16) & 0x00FF) as u8
}

pub fn get_rtc_dh(secs: u64) -> (r: u8)
    ensures
        r == ((spec_rtc_day(secs) & 0x0100) >> 8) as u8,
{
    let day: u64 = (secs / 86400) % 3652425;
    proof {
        assert(day * 10000 <= 3652424 * 10000) by (nonlinear_arith)
            requires
                day <= 3652424,
        ;
    }
    let doy: u64 = day * 10000 % 3652425 / 10000;
    (((doy as u16) & 0x0100) >> 8) as u8
}

/// The RAM size in bytes selected by header byte 0x0149.
pub open spec fn spec_header_ram_size(code: u8) -> usize {
    if code == 0x02 {
        8192
    } else if code == 0x03 {
        32768
    } else if code == 0x04 {
        131072
    } else if code == 0x05 {
        65536
    } else {
        0
    }
}

/// Whether header byte 0x0147 names a controller this crate models.
pub open spec fn spec_header_mbc_supported(code: u8) -> bool {
    code == 0x00 || (0x01 <= code && code <= 0x03) || code == 0x05 || code == 0x06 || (0x0F
        <= code && code <= 0x13) || (0x19 <= code && code <= 0x1E)
}

impl Cartridge {
    /// Structural invariant: the ROM length matches the header-declared
    /// size, which is a whole number of 16 KiB banks; the boot ROM shadow
    /// is exactly 256 bytes; the fitted RAM matches its recorded size.
    pub open spec fn wf(self) -> bool {
        &&& self.rom@.len() == self.romsize
        &&& self.romsize == self.rombank * 0x4000
        &&& self.rombank >= 2
        &&& self.rombank <= 512
        &&& self.bootrom@.len() == 256
        &&& self.sram@.len() == self.ramsize
        &&& self.ramsize <= 131072
    }

    /// Build a cartridge from a ROM image and a 256-byte boot ROM.
    ///
    /// The header must be self-consistent: the image length equals the
    /// size declared at 0x0148, the RAM code at 0x0149 is one this crate
    /// knows, and the controller code at 0x0147 is supported. The caller
    /// checks these before constructing.
    pub fn new(rom: Vec<u8>, bootrom: Vec<u8>) -> (r: Cartridge)
        requires
            rom@.len() >= 0x150,
            rom@[0x148] <= 8,
            rom@.len() == 0x8000usize << rom@[0x148],
            spec_header_ram_size(rom@[0x149]) > 0 || rom@[0x149] == 0 || rom@[0x149] == 1,
            spec_header_mbc_supported(rom@[0x147]),
            bootrom@.len() == 256,
        ensures
            r.wf(),
            r.rom@ == rom@,
            r.bootrom@ == bootrom@,
            r.romsize == rom@.len(),
            r.rombank == r.romsize / 0x4000,
            r.ramsize == (if rom@[0x147] == 0x05 || rom@[0x147] == 0x06 {
                512usize
            } else {
                spec_header_ram_size(rom@[0x149])
            }),
            r.sram@ == Seq::<u8>::new(r.ramsize as nat, |i: int| 0u8),
            r.mbc == spec_initial_mbc(rom@[0x147]),
            r.clock_secs == 0,
    {
        let size_code = rom[0x0148];
        proof {
            assert(0x8000usize << size_code == 0x8000usize * (1usize << size_code) && 1usize
                << size_code >= 1 && 1usize << size_code <= 256) by (bit_vector)
                requires
                    size_code <= 8,
            ;
        }
        let romsize: usize = 0x8000usize << size_code;
        let rombank: usize = romsize / 16384;
        let ram_code = rom[0x0149];
        let mbc_code = rom[0x0147];
        let mut ramsize: usize = if ram_code == 0x02 {
            8192
        } else if ram_code == 0x03 {
            32768
        } else if ram_code == 0x04 {
            131072
        } else if ram_code == 0x05 {
            65536
        } else {
            0
        };
        let mbc = if mbc_code == 0x00 {
            Mbc::RomOnly
        } else if 0x01 <= mbc_code && mbc_code <= 0x03 {
            Mbc::Mbc1 { bank_mode: false, is_ram_enable: false, rom_bank_lo: 0x01, rom_bank_hi: 0x00 }
        } else if mbc_code == 0x05 || mbc_code == 0x06 {
            Mbc::Mbc2 { is_ram_enable: false, rom_bank: 0x01 }
        } else if 0x0F <= mbc_code && mbc_code <= 0x13 {
            Mbc::Mbc3 {
                is_enable: false,
                rtcs: 0,
                rtcm: 0,
                rtch: 0,
                rtcdl: 0,
                rtcdh: 0,
                rom_bank: 0x01,
                ram_or_rtc: 0x00,
                latched: 0xFF,
            }
        } else {
            Mbc::Mbc5 { is_ram_enable: false, rom_bank_hi: 0x00, rom_bank_lo: 0x00, ram_bank: 0x00 }
        };
        if mbc_code == 0x05 || mbc_code == 0x06 {
            // The Mbc2 controller carries its own 512-nibble RAM.
            ramsize = 512;
        }
        let mut sram: Vec<u8> = Vec::new();
        let mut i: usize = 0;
        while i < ramsize
            invariant
                i <= ramsize,
                sram@ == Seq::<u8>::new(i as nat, |j: int| 0u8),
            decreases ramsize - i,
        {
            sram.push(0u8);
            proof {
                assert(sram@ =~= Seq::<u8>::new((i + 1) as nat, |j: int| 0u8));
            }
            i = i + 1;
        }
        let rambank: usize = ramsize / 8192;
        Cartridge { rom, bootrom, sram, romsize, rombank, ramsize, rambank, mbc, clock_secs: 0 }
    }

    /// Record the host wall clock; the Mbc3 real-time clock latches from it.
    pub fn set_clock(&mut self, secs: u64)
        ensures
            *final(self) == (Cartridge { clock_secs: secs, ..*old(self) }),
    {
        self.clock_secs = secs;
    }

    /// Read one byte through the controller's current bank mapping.
    pub fn readu8(&self, addr: u16) -> (r: u8)
        requires
            self.wf(),
            addr < 0x8000 || (0xA000 <= addr && addr < 0xC000),
        ensures
            r == spec_cart_read(*self, addr),
    {
        match self.mbc {
            Mbc::RomOnly => {
                if addr < 0x8000 {
                    self.rom[addr as usize]
                } else {
                    self.sram_read((addr & 0x1FFF) as usize)
                }
            },
            Mbc::Mbc1 { bank_mode, is_ram_enable, rom_bank_lo, rom_bank_hi } => {
                if addr < 0x4000 {
                    if !bank_mode || self.romsize < 524288 {
                        self.rom[addr as usize]
                    } else {
                        let bank: usize = (((rom_bank_hi & 0x03) as usize) * 32) % self.rombank;
                        proof {
                            lemma_bank_offset_in_bounds(self.rombank, bank, addr);
                            assert(addr & 0x3FFF == addr) by (bit_vector)
                                requires
                                    addr < 0x4000,
                            ;
                        }
                        self.rom[bank * 0x4000 + addr as usize]
                    }
                } else if addr < 0x8000 {
                    let bank: usize = ((((rom_bank_hi & 0x03) as usize) * 32 + ((rom_bank_lo
                        & 0x1F) as usize))) % self.rombank;
                    proof {
                        lemma_bank_offset_in_bounds(self.rombank, bank, addr);
                    }
                    self.rom[bank * 0x4000 + (addr & 0x3FFF) as usize]
                } else if !is_ram_enable {
                    0xFF
                } else if self.romsize <= 524288 && bank_mode {
                    self.sram_read(
                        ((rom_bank_hi & 0x03) as usize) * 0x2000 + (addr & 0x1FFF) as usize,
                    )
                } else {
                    self.sram_read((addr & 0x1FFF) as usize)
                }
            },
            Mbc::Mbc2 { is_ram_enable, rom_bank } => {
                if addr < 0x4000 {
                    self.rom[addr as usize]
                } else if addr < 0x8000 {
                    let bank: usize = ((rom_bank & 0x0F) as usize) % self.rombank;
                    proof {
                        lemma_bank_offset_in_bounds(self.rombank, bank, addr);
                    }
                    self.rom[bank * 0x4000 + (addr & 0x3FFF) as usize]
                } else if !is_ram_enable {
                    0xFF
                } else {
                    self.sram_read((addr & 0x01FF) as usize) & 0x0F
                }
            },
            Mbc::Mbc3 { is_enable, rtcs, rtcm, rtch, rtcdl, rtcdh, rom_bank, ram_or_rtc, latched: _ } => {
                if addr < 0x4000 {
                    self.rom[addr as usize]
                } else if addr < 0x8000 {
                    let bank: usize = ((rom_bank & 0x7F) as usize) % self.rombank;
                    proof {
                        lemma_bank_offset_in_bounds(self.rombank, bank, addr);
                    }
                    self.rom[bank * 0x4000 + (addr & 0x3FFF) as usize]
                } else if !is_enable {
                    0xFF
                } else if ram_or_rtc <= 0x03 {
                    self.sram_read(
                        ((ram_or_rtc & 0x03) as usize) * 0x2000 + (addr & 0x1FFF) as usize,
                    )
                } else if ram_or_rtc == 0x08 {
                    rtcs
                } else if ram_or_rtc == 0x09 {
                    rtcm
                } else if ram_or_rtc == 0x0A {
                    rtch
                } else if ram_or_rtc == 0x0B {
                    rtcdl
                } else if ram_or_rtc == 0x0C {
                    rtcdh
                } else {
                    0xFF
                }
            },
            Mbc::Mbc5 { is_ram_enable, rom_bank_hi, rom_bank_lo, ram_bank } => {
                if addr < 0x4000 {
                    self.rom[addr as usize]
                } else if addr < 0x8000 {
                    let bank: usize = (((rom_bank_hi & 0x01) as usize) * 256 + (rom_bank_lo
                        as usize)) % self.rombank;
                    proof {
                        lemma_bank_offset_in_bounds(self.rombank, bank, addr);
                    }
                    self.rom[bank * 0x4000 + (addr & 0x3FFF) as usize]
                } else if !is_ram_enable {
                    0xFF
                } else {
                    self.sram_read(
                        ((ram_bank & 0x0F) as usize) * 0x2000 + (addr & 0x1FFF) as usize,
                    )
                }
            },
        }
    }

    /// Fitted-RAM read: out-of-range indices float high.
    fn sram_read(&self, idx: usize) -> (r: u8)
        ensures
            r == spec_sram_read(*self, idx as int),
    {
        if idx < self.sram.len() {
            self.sram[idx]
        } else {
            0xFF
        }
    }

    /// Fitted-RAM write: out-of-range indices are dropped.
    fn sram_write(&mut self, idx: usize, val: u8)
        ensures
            final(self).sram@ == spec_sram_written(*old(self), idx as int, val),
            final(self).rom == old(self).rom,
            final(self).bootrom == old(self).bootrom,
            final(self).romsize == old(self).romsize,
            final(self).rombank == old(self).rombank,
            final(self).ramsize == old(self).ramsize,
            final(self).rambank == old(self).rambank,
            final(self).mbc == old(self).mbc,
            final(self).clock_secs == old(self).clock_secs,
    {
        if idx < self.sram.len() {
            self.sram.set(idx, val);
        }
    }

    /// Write one byte: controller registers below 0x8000, fitted RAM or
    /// real-time-clock registers at 0xA000-0xBFFF.
    pub fn writeu8(&mut self, addr: u16, val: u8)
        requires
            old(self).wf(),
            addr < 0x8000 || (0xA000 <= addr && addr < 0xC000),
        ensures
            final(self).mbc == spec_cart_write_mbc(*old(self), addr, val),
            final(self).sram@ == spec_cart_write_sram(*old(self), addr, val),
            final(self).rom == old(self).rom,
            final(self).bootrom == old(self).bootrom,
            final(self).romsize == old(self).romsize,
            final(self).rombank == old(self).rombank,
            final(self).ramsize == old(self).ramsize,
            final(self).rambank == old(self).rambank,
            final(self).clock_secs == old(self).clock_secs,
            final(self).wf(),
    {
        match self.mbc {
            Mbc::RomOnly => {
                if addr >= 0xA000 {
                    self.sram_write((addr & 0x1FFF) as usize, val);
                }
            },
            Mbc::Mbc1 { bank_mode, is_ram_enable, rom_bank_lo, rom_bank_hi } => {
                if addr < 0x2000 {
                    self.mbc = Mbc::Mbc1 {
                        bank_mode,
                        is_ram_enable: val & 0x0F == 0x0A,
                        rom_bank_lo,
                        rom_bank_hi,
                    };
                } else if addr < 0x4000 {
                    let v5 = val & 0x1F;
                    self.mbc = Mbc::Mbc1 {
                        bank_mode,
                        is_ram_enable,
                        rom_bank_lo: if v5 == 0 {
                            0x01
                        } else {
                            v5
                        },
                        rom_bank_hi,
                    };
                } else if addr < 0x6000 {
                    self.mbc = Mbc::Mbc1 {
                        bank_mode,
                        is_ram_enable,
                        rom_bank_lo,
                        rom_bank_hi: val & 0x03,
                    };
                } else if addr < 0x8000 {
                    self.mbc = Mbc::Mbc1 {
                        bank_mode: val != 0,
                        is_ram_enable,
                        rom_bank_lo,
                        rom_bank_hi,
                    };
                } else if is_ram_enable {
                    if self.romsize <= 524288 && bank_mode {
                        self.sram_write(
                            ((rom_bank_hi & 0x03) as usize) * 0x2000 + (addr & 0x1FFF) as usize,
                            val,
                        );
                    } else {
                        self.sram_write((addr & 0x1FFF) as usize, val);
                    }
                }
            },
            Mbc::Mbc2 { is_ram_enable, rom_bank } => {
                if addr < 0x4000 {
                    if addr & 0x0100 == 0 {
                        self.mbc = Mbc::Mbc2 { is_ram_enable: val == 0x0A, rom_bank };
                    } else {
                        let v4 = val & 0x0F;
                        self.mbc = Mbc::Mbc2 {
                            is_ram_enable,
                            rom_bank: if v4 == 0 {
                                0x01
                            } else {
                                v4
                            },
                        };
                    }
                } else if addr >= 0xA000 && is_ram_enable {
                    self.sram_write((addr & 0x01FF) as usize, val & 0x0F);
                }
            },
            Mbc::Mbc3 { is_enable, rtcs, rtcm, rtch, rtcdl, rtcdh, rom_bank, ram_or_rtc, latched } => {
                if addr < 0x2000 {
                    self.mbc = Mbc::Mbc3 {
                        is_enable: val == 0x0A,
                        rtcs,
                        rtcm,
                        rtch,
                        rtcdl,
                        rtcdh,
                        rom_bank,
                        ram_or_rtc,
                        latched,
                    };
                } else if addr < 0x4000 {
                    let v7 = val & 0x7F;
                    self.mbc = Mbc::Mbc3 {
                        is_enable,
                        rtcs,
                        rtcm,
                        rtch,
                        rtcdl,
                        rtcdh,
                        rom_bank: if v7 == 0 {
                            0x01
                        } else {
                            v7
                        },
                        ram_or_rtc,
                        latched,
                    };
                } else if addr < 0x6000 {
                    self.mbc = Mbc::Mbc3 {
                        is_enable,
                        rtcs,
                        rtcm,
                        rtch,
                        rtcdl,
                        rtcdh,
                        rom_bank,
                        ram_or_rtc: val & 0x0F,
                        latched,
                    };
                } else if addr < 0x8000 {
                    if latched == 0x00 && val == 0x01 {
                        self.mbc = Mbc::Mbc3 {
                            is_enable,
                            rtcs: get_rtc_s(self.clock_secs),
                            rtcm: get_rtc_m(self.clock_secs),
                            rtch: get_rtc_h(self.clock_secs),
                            rtcdl: get_rtc_dl(self.clock_secs),
                            rtcdh: get_rtc_dh(self.clock_secs),
                            rom_bank,
                            ram_or_rtc,
                            latched: 0x01,
                        };
                    } else {
                        self.mbc = Mbc::Mbc3 {
                            is_enable,
                            rtcs,
                            rtcm,
                            rtch,
                            rtcdl,
                            rtcdh,
                            rom_bank,
                            ram_or_rtc,
                            latched: val,
                        };
                    }
                } else if is_enable {
                    if ram_or_rtc <= 0x03 {
                        self.sram_write(
                            ((ram_or_rtc & 0x03) as usize) * 0x2000 + (addr & 0x1FFF) as usize,
                            val,
                        );
                    } else if 0x08 <= ram_or_rtc && ram_or_rtc <= 0x0C {
                        self.mbc = Mbc::Mbc3 {
                            is_enable,
                            rtcs: if ram_or_rtc == 0x08 {
                                val
                            } else {
                                rtcs
                            },
                            rtcm: if ram_or_rtc == 0x09 {
                                val
                            } else {
                                rtcm
                            },
                            rtch: if ram_or_rtc == 0x0A {
                                val
                            } else {
                                rtch
                            },
                            rtcdl: if ram_or_rtc == 0x0B {
                                val
                            } else {
                                rtcdl
                            },
                            rtcdh: if ram_or_rtc == 0x0C {
                                val
                            } else {
                                rtcdh
                            },
                            rom_bank,
                            ram_or_rtc,
                            latched,
                        };
                    }
                }
            },
            Mbc::Mbc5 { is_ram_enable, rom_bank_hi, rom_bank_lo, ram_bank } => {
                if addr < 0x2000 {
                    self.mbc = Mbc::Mbc5 {
                        is_ram_enable: val == 0x0A,
                        rom_bank_hi,
                        rom_bank_lo,
                        ram_bank,
                    };
                } else if addr < 0x3000 {
                    self.mbc = Mbc::Mbc5 { is_ram_enable, rom_bank_hi, rom_bank_lo: val, ram_bank };
                } else if addr < 0x4000 {
                    self.mbc = Mbc::Mbc5 {
                        is_ram_enable,
                        rom_bank_hi: val & 0x01,
                        rom_bank_lo,
                        ram_bank,
                    };
                } else if addr < 0x6000 {
                    self.mbc = Mbc::Mbc5 {
                        is_ram_enable,
                        rom_bank_hi,
                        rom_bank_lo,
                        ram_bank: val & 0x0F,
                    };
                } else if addr >= 0xA000 && is_ram_enable {
                    self.sram_write(
                        ((ram_bank & 0x0F) as usize) * 0x2000 + (addr & 0x1FFF) as usize,
                        val,
                    );
                }
            },
        }
    }

    /// Read the boot ROM shadow that overlays 0x0000-0x00FF.
    pub fn read_bootrom(&self, addr: u16) -> (r: u8)
        requires
            self.wf(),
        ensures
            r == self.bootrom@[(addr & 0xFF) as int],
    {
        proof {
            assert(addr & 0xFF < 256) by (bit_vector);
        }
        self.bootrom[(addr & 0xFF) as usize]
    }
}

/// The controller state a fresh cartridge starts with.
pub open spec fn spec_initial_mbc(code: u8) -> Mbc {
    if code == 0x00 {
        Mbc::RomOnly
    } else if 0x01 <= code && code <= 0x03 {
        Mbc::Mbc1 { bank_mode: false, is_ram_enable: false, rom_bank_lo: 0x01, rom_bank_hi: 0x00 }
    } else if code == 0x05 || code == 0x06 {
        Mbc::Mbc2 { is_ram_enable: false, rom_bank: 0x01 }
    } else if 0x0F <= code && code <= 0x13 {
        Mbc::Mbc3 {
            is_enable: false,
            rtcs: 0,
            rtcm: 0,
            rtch: 0,
            rtcdl: 0,
            rtcdh: 0,
            rom_bank: 0x01,
            ram_or_rtc: 0x00,
            latched: 0xFF,
        }
    } else {
        Mbc::Mbc5 { is_ram_enable: false, rom_bank_hi: 0x00, rom_bank_lo: 0x00, ram_bank: 0x00 }
    }
}

/// Fitted-RAM read model: out-of-range indices float high.
pub open spec fn spec_sram_read(c: Cartridge, idx: int) -> u8 {
    if 0 <= idx < c.sram@.len() {
        c.sram@[idx]
    } else {
        0xFF
    }
}

/// Fitted-RAM write model: out-of-range indices leave the RAM unchanged.
pub open spec fn spec_sram_written(c: Cartridge, idx: int, val: u8) -> Seq<u8> {
    if 0 <= idx < c.sram@.len() {
        c.sram@.update(idx, val)
    } else {
        c.sram@
    }
}

/// The switchable-window ROM bank currently selected by the controller.
pub open spec fn spec_rom_bank(c: Cartridge) -> int {
    match c.mbc {
        Mbc::RomOnly => 1,
        Mbc::Mbc1 { bank_mode, is_ram_enable, rom_bank_lo, rom_bank_hi } => (((rom_bank_hi
            & 0x03) as int) * 32 + ((rom_bank_lo & 0x1F) as int)) % (c.rombank as int),
        Mbc::Mbc2 { is_ram_enable, rom_bank } => ((rom_bank & 0x0F) as int) % (c.rombank as int),
        Mbc::Mbc3 { rom_bank, .. } => ((rom_bank & 0x7F) as int) % (c.rombank as int),
        Mbc::Mbc5 { is_ram_enable, rom_bank_hi, rom_bank_lo, ram_bank } => (((rom_bank_hi
            & 0x01) as int) * 256 + (rom_bank_lo as int)) % (c.rombank as int),
    }
}

/// Functional model of a cartridge read.
pub open spec fn spec_cart_read(c: Cartridge, addr: u16) -> u8 {
    match c.mbc {
        Mbc::RomOnly => {
            if addr < 0x8000 {
                c.rom@[addr as int]
            } else {
                spec_sram_read(c, (addr & 0x1FFF) as int)
            }
        },
        Mbc::Mbc1 { bank_mode, is_ram_enable, rom_bank_hi, rom_bank_lo } => {
            if addr < 0x4000 {
                if !bank_mode || c.romsize < 524288 {
                    c.rom@[addr as int]
                } else {
                    c.rom@[((((rom_bank_hi & 0x03) as int) * 32) % (c.rombank as int)) * 0x4000
                        + ((addr & 0x3FFF) as int)]
                }
            } else if addr < 0x8000 {
                c.rom@[spec_rom_bank(c) * 0x4000 + ((addr & 0x3FFF) as int)]
            } else if !is_ram_enable {
                0xFF
            } else if c.romsize <= 524288 && bank_mode {
                spec_sram_read(c, ((rom_bank_hi & 0x03) as int) * 0x2000 + ((addr & 0x1FFF) as int))
            } else {
                spec_sram_read(c, (addr & 0x1FFF) as int)
            }
        },
        Mbc::Mbc2 { is_ram_enable, rom_bank } => {
            if addr < 0x4000 {
                c.rom@[addr as int]
            } else if addr < 0x8000 {
                c.rom@[spec_rom_bank(c) * 0x4000 + ((addr & 0x3FFF) as int)]
            } else if !is_ram_enable {
                0xFF
            } else {
                spec_sram_read(c, (addr & 0x01FF) as int) & 0x0F
            }
        },
        Mbc::Mbc3 { is_enable, rtcs, rtcm, rtch, rtcdl, rtcdh, rom_bank, ram_or_rtc, latched } => {
            if addr < 0x4000 {
                c.rom@[addr as int]
            } else if addr < 0x8000 {
                c.rom@[spec_rom_bank(c) * 0x4000 + ((addr & 0x3FFF) as int)]
            } else if !is_enable {
                0xFF
            } else if ram_or_rtc <= 0x03 {
                spec_sram_read(c, ((ram_or_rtc & 0x03) as int) * 0x2000 + ((addr & 0x1FFF) as int))
            } else if ram_or_rtc == 0x08 {
                rtcs
            } else if ram_or_rtc == 0x09 {
                rtcm
            } else if ram_or_rtc == 0x0A {
                rtch
            } else if ram_or_rtc == 0x0B {
                rtcdl
            } else if ram_or_rtc == 0x0C {
                rtcdh
            } else {
                0xFF
            }
        },
        Mbc::Mbc5 { is_ram_enable, rom_bank_hi, rom_bank_lo, ram_bank } => {
            if addr < 0x4000 {
                c.rom@[addr as int]
            } else if addr < 0x8000 {
                c.rom@[spec_rom_bank(c) * 0x4000 + ((addr & 0x3FFF) as int)]
            } else if !is_ram_enable {
                0xFF
            } else {
                spec_sram_read(c, ((ram_bank & 0x0F) as int) * 0x2000 + ((addr & 0x1FFF) as int))
            }
        },
    }
}

/// Functional model of the controller-register part of a cartridge write.
pub open spec fn spec_cart_write_mbc(c: Cartridge, addr: u16, val: u8) -> Mbc {
    match c.mbc {
        Mbc::RomOnly => c.mbc,
        Mbc::Mbc1 { bank_mode, is_ram_enable, rom_bank_lo, rom_bank_hi } => {
            if addr < 0x2000 {
                Mbc::Mbc1 { bank_mode, is_ram_enable: val & 0x0F == 0x0A, rom_bank_lo, rom_bank_hi }
            } else if addr < 0x4000 {
                Mbc::Mbc1 {
                    bank_mode,
                    is_ram_enable,
                    rom_bank_lo: if val & 0x1F == 0 {
                        1u8
                    } else {
                        val & 0x1F
                    },
                    rom_bank_hi,
                }
            } else if addr < 0x6000 {
                Mbc::Mbc1 { bank_mode, is_ram_enable, rom_bank_lo, rom_bank_hi: val & 0x03 }
            } else if addr < 0x8000 {
                Mbc::Mbc1 { bank_mode: val != 0, is_ram_enable, rom_bank_lo, rom_bank_hi }
            } else {
                c.mbc
            }
        },
        Mbc::Mbc2 { is_ram_enable, rom_bank } => {
            if addr < 0x4000 {
                if addr & 0x0100 == 0 {
                    Mbc::Mbc2 { is_ram_enable: val == 0x0A, rom_bank }
                } else {
                    Mbc::Mbc2 {
                        is_ram_enable,
                        rom_bank: if val & 0x0F == 0 {
                            1u8
                        } else {
                            val & 0x0F
                        },
                    }
                }
            } else {
                c.mbc
            }
        },
        Mbc::Mbc3 { is_enable, rtcs, rtcm, rtch, rtcdl, rtcdh, rom_bank, ram_or_rtc, latched } => {
            if addr < 0x2000 {
                Mbc::Mbc3 {
                    is_enable: val == 0x0A,
                    rtcs,
                    rtcm,
                    rtch,
                    rtcdl,
                    rtcdh,
                    rom_bank,
                    ram_or_rtc,
                    latched,
                }
            } else if addr < 0x4000 {
                Mbc::Mbc3 {
                    is_enable,
                    rtcs,
                    rtcm,
                    rtch,
                    rtcdl,
                    rtcdh,
                    rom_bank: if val & 0x7F == 0 {
                        1u8
                    } else {
                        val & 0x7F
                    },
                    ram_or_rtc,
                    latched,
                }
            } else if addr < 0x6000 {
                Mbc::Mbc3 {
                    is_enable,
                    rtcs,
                    rtcm,
                    rtch,
                    rtcdl,
                    rtcdh,
                    rom_bank,
                    ram_or_rtc: val & 0x0F,
                    latched,
                }
            } else if addr < 0x8000 {
                if latched == 0x00 && val == 0x01 {
                    Mbc::Mbc3 {
                        is_enable,
                        rtcs: spec_rtc_s(c.clock_secs),
                        rtcm: spec_rtc_m(c.clock_secs),
                        rtch: spec_rtc_h(c.clock_secs),
                        rtcdl: (spec_rtc_day(c.clock_secs) & 0x00FF) as u8,
                        rtcdh: ((spec_rtc_day(c.clock_secs) & 0x0100) >> 8) as u8,
                        rom_bank,
                        ram_or_rtc,
                        latched: 0x01,
                    }
                } else {
                    Mbc::Mbc3 {
                        is_enable,
                        rtcs,
                        rtcm,
                        rtch,
                        rtcdl,
                        rtcdh,
                        rom_bank,
                        ram_or_rtc,
                        latched: val,
                    }
                }
            } else if is_enable && 0x08 <= ram_or_rtc && ram_or_rtc <= 0x0C {
                Mbc::Mbc3 {
                    is_enable,
                    rtcs: if ram_or_rtc == 0x08 {
                        val
                    } else {
                        rtcs
                    },
                    rtcm: if ram_or_rtc == 0x09 {
                        val
                    } else {
                        rtcm
                    },
                    rtch: if ram_or_rtc == 0x0A {
                        val
                    } else {
                        rtch
                    },
                    rtcdl: if ram_or_rtc == 0x0B {
                        val
                    } else {
                        rtcdl
                    },
                    rtcdh: if ram_or_rtc == 0x0C {
                        val
                    } else {
                        rtcdh
                    },
                    rom_bank,
                    ram_or_rtc,
                    latched,
                }
            } else {
                c.mbc
            }
        },
        Mbc::Mbc5 { is_ram_enable, rom_bank_hi, rom_bank_lo, ram_bank } => {
            if addr < 0x2000 {
                Mbc::Mbc5 { is_ram_enable: val == 0x0A, rom_bank_hi, rom_bank_lo, ram_bank }
            } else if addr < 0x3000 {
                Mbc::Mbc5 { is_ram_enable, rom_bank_hi, rom_bank_lo: val, ram_bank }
            } else if addr < 0x4000 {
                Mbc::Mbc5 { is_ram_enable, rom_bank_hi: val & 0x01, rom_bank_lo, ram_bank }
            } else if addr < 0x6000 {
                Mbc::Mbc5 { is_ram_enable, rom_bank_hi, rom_bank_lo, ram_bank: val & 0x0F }
            } else {
                c.mbc
            }
        },
    }
}

/// Functional model of the fitted-RAM part of a cartridge write.
pub open spec fn spec_cart_write_sram(c: Cartridge, addr: u16, val: u8) -> Seq<u8> {
    if addr < 0xA000 {
        c.sram@
    } else {
        match c.mbc {
            Mbc::RomOnly => spec_sram_written(c, (addr & 0x1FFF) as int, val),
            Mbc::Mbc1 { bank_mode, is_ram_enable, rom_bank_lo, rom_bank_hi } => {
                if !is_ram_enable {
                    c.sram@
                } else if c.romsize <= 524288 && bank_mode {
                    spec_sram_written(
                        c,
                        ((rom_bank_hi & 0x03) as int) * 0x2000 + ((addr & 0x1FFF) as int),
                        val,
                    )
                } else {
                    spec_sram_written(c, (addr & 0x1FFF) as int, val)
                }
            },
            Mbc::Mbc2 { is_ram_enable, rom_bank } => {
                if is_ram_enable {
                    spec_sram_written(c, (addr & 0x01FF) as int, val & 0x0F)
                } else {
                    c.sram@
                }
            },
            Mbc::Mbc3 { is_enable, ram_or_rtc, .. } => {
                if is_enable && ram_or_rtc <= 0x03 {
                    spec_sram_written(
                        c,
                        ((ram_or_rtc & 0x03) as int) * 0x2000 + ((addr & 0x1FFF) as int),
                        val,
                    )
                } else {
                    c.sram@
                }
            },
            Mbc::Mbc5 { is_ram_enable, ram_bank, .. } => {
                if is_ram_enable {
                    spec_sram_written(
                        c,
                        ((ram_bank & 0x0F) as int) * 0x2000 + ((addr & 0x1FFF) as int),
                        val,
                    )
                } else {
                    c.sram@
                }
            },
        }
    }
}

/// A bank number below the bank count addresses bytes inside the ROM.
proof fn lemma_bank_offset_in_bounds(rombank: usize, bank: usize, addr: u16)
    requires
        rombank >= 1,
        bank < rombank,
    ensures
        (addr & 0x3FFF) < 0x4000,
        bank * 0x4000 + ((addr & 0x3FFF) as usize) < rombank * 0x4000,
{
    assert(addr & 0x3FFF < 0x4000) by (bit_vector);
    assert(bank * 0x4000 + ((addr & 0x3FFF) as usize) < rombank * 0x4000) by (nonlinear_arith)
        requires
            bank < rombank,
            (addr & 0x3FFF) < 0x4000,
    ;
}

} // verus!
