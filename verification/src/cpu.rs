//! The 8-bit CPU core: eight registers pairable into four 16-bit pairs, a
//! stack pointer and program counter, and the arithmetic/logic operations
//! with their exact flag behaviour.
//!
//! The flag register F keeps Z in bit 7, N in bit 6, H in bit 5 and C in
//! bit 4; its low four bits are always zero after any flag-writing
//! operation.

use vstd::prelude::*;
use vstd::wrapping::{u8_specs, u16_specs};

verus! {

pub struct Cpu {
    pub a: u8,
    pub b: u8,
    pub c: u8,
    pub d: u8,
    pub e: u8,
    pub h: u8,
    pub l: u8,
    pub f: u8,
    pub sp: u16,
    pub pc: u16,
}

/// A 16-bit word from a high and a low byte.
pub open spec fn spec_word(hi: u8, lo: u8) -> u16 {
    (((hi as u16) << 8) | (lo as u16)) as u16
}

/// Zero flag by result: bit 7 when the byte is zero.
pub open spec fn spec_z(v: u8) -> u8 {
    if v == 0 {
        0x80u8
    } else {
        0u8
    }
}

impl Cpu {
    pub fn new() -> (r: Cpu)
        ensures
            r.a == 0 && r.b == 0 && r.c == 0 && r.d == 0 && r.e == 0 && r.h == 0 && r.l == 0
                && r.f == 0,
            r.sp == 0 && r.pc == 0,
    {
        Cpu { a: 0, b: 0, c: 0, d: 0, e: 0, h: 0, l: 0, f: 0, sp: 0, pc: 0 }
    }

    /// The documented register state right after the boot ROM hands over.
    pub fn after_bootup(&mut self)
        ensures
            final(self).a == 0x01 && final(self).f == 0xB0,
            final(self).b == 0x00 && final(self).c == 0x13,
            final(self).d == 0x00 && final(self).e == 0xD8,
            final(self).h == 0x01 && final(self).l == 0x4D,
            final(self).pc == 0x0100 && final(self).sp == 0xFFFE,
    {
        self.a = 0x01;
        self.f = 0xB0;
        self.b = 0x00;
        self.c = 0x13;
        self.d = 0x00;
        self.e = 0xD8;
        self.h = 0x01;
        self.l = 0x4D;
        self.pc = 0x0100;
        self.sp = 0xFFFE;
    }

    pub fn as_word(hi: u8, lo: u8) -> (r: u16)
        ensures
            r == spec_word(hi, lo),
    {
        ((hi as u16) << 8) | (lo as u16)
    }

    pub fn hi_byte(word: u16) -> (r: u8)
        ensures
            r == ((word & 0xFF00) >> 8) as u8,
    {
        ((word & 0xFF00) >> 8) as u8
    }

    pub fn lo_byte(word: u16) -> (r: u8)
        ensures
            r == (word & 0x00FF) as u8,
    {
        (word & 0x00FF) as u8
    }

    pub fn as_bytes(word: u16) -> (r: (u8, u8))
        ensures
            r.0 == ((word & 0xFF00) >> 8) as u8,
            r.1 == (word & 0x00FF) as u8,
    {
        (Cpu::hi_byte(word), Cpu::lo_byte(word))
    }

    /// Increment a register pair, wrapping; flags untouched.
    pub fn inc_r16(r16hi: &mut u8, r16lo: &mut u8) -> (cycles: usize)
        ensures
            spec_word(*final(r16hi), *final(r16lo)) == u16_specs::wrapping_add(
                spec_word(*old(r16hi), *old(r16lo)),
                1,
            ),
            cycles == 2,
    {
        let mut r16 = Cpu::as_word(*r16hi, *r16lo);
        r16 = r16.wrapping_add(1);
        let hi = Cpu::hi_byte(r16);
        let lo = Cpu::lo_byte(r16);
        proof {
            assert(((((r16 & 0xFF00) >> 8) as u8 as u16) << 8) | ((r16 & 0x00FF) as u8 as u16)
                == r16) by (bit_vector);
        }
        *r16hi = hi;
        *r16lo = lo;
        2
    }

    /// Decrement a register pair, wrapping; flags untouched.
    pub fn dec_r16(r16hi: &mut u8, r16lo: &mut u8) -> (cycles: usize)
        ensures
            spec_word(*final(r16hi), *final(r16lo)) == u16_specs::wrapping_sub(
                spec_word(*old(r16hi), *old(r16lo)),
                1,
            ),
            cycles == 2,
    {
        let mut r16 = Cpu::as_word(*r16hi, *r16lo);
        r16 = r16.wrapping_sub(1);
        let hi = Cpu::hi_byte(r16);
        let lo = Cpu::lo_byte(r16);
        proof {
            assert(((((r16 & 0xFF00) >> 8) as u8 as u16) << 8) | ((r16 & 0x00FF) as u8 as u16)
                == r16) by (bit_vector);
        }
        *r16hi = hi;
        *r16lo = lo;
        2
    }

    pub fn inc_sp(&mut self) -> (cycles: usize)
        ensures
            *final(self) == (Cpu { sp: u16_specs::wrapping_add(old(self).sp, 1), ..*old(self) }),
            cycles == 2,
    {
        self.sp = self.sp.wrapping_add(1);
        2
    }

    pub fn dec_sp(&mut self) -> (cycles: usize)
        ensures
            *final(self) == (Cpu { sp: u16_specs::wrapping_sub(old(self).sp, 1), ..*old(self) }),
            cycles == 2,
    {
        self.sp = self.sp.wrapping_sub(1);
        2
    }

    pub fn ld_sp_hl(&mut self) -> (cycles: usize)
        ensures
            *final(self) == (Cpu { sp: spec_word(old(self).h, old(self).l), ..*old(self) }),
            cycles == 2,
    {
        self.sp = Cpu::as_word(self.h, self.l);
        2
    }

    /// Copy one register into another; flags untouched.
    pub fn ld_rr(&mut self, rdest: &mut u8, rsrc: u8) -> (cycles: usize)
        ensures
            *final(rdest) == rsrc,
            *final(self) == *old(self),
            cycles == 1,
    {
        *rdest = rsrc;
        1
    }

    /// Jump to the address in HL.
    pub fn jp_hl(&mut self) -> (cycles: usize)
        ensures
            *final(self) == (Cpu { pc: spec_word(old(self).h, old(self).l), ..*old(self) }),
            cycles == 1,
    {
        self.pc = Cpu::as_word(self.h, self.l);
        1
    }

    /// 16-bit add into HL: N cleared, H from bit 11, C from bit 15, Z kept.
    pub fn add_hl_r16(&mut self, r16hi: u8, r16lo: u8) -> (cycles: usize)
        ensures
            ({
                let hl = spec_word(old(self).h, old(self).l);
                let r16 = spec_word(r16hi, r16lo);
                let halfcarry = (if ((hl & 0x0FFF) + (r16 & 0x0FFF)) as u16 & 0x1000 == 0x1000 {
                    1u8
                } else {
                    0u8
                }) << 5;
                let carry = (if ((hl as u32) + (r16 as u32)) as u32 & 0x00010000 == 0x00010000 {
                    1u8
                } else {
                    0u8
                }) << 4;
                let sum = u16_specs::wrapping_add(hl, r16);
                &&& final(self).h == ((sum & 0xFF00) >> 8) as u8
                &&& final(self).l == (sum & 0x00FF) as u8
                &&& final(self).f == (((old(self).f & 0x80) | halfcarry | carry) & !(1u8 << 6))
            }),
            final(self).a == old(self).a,
            final(self).b == old(self).b && final(self).c == old(self).c,
            final(self).d == old(self).d && final(self).e == old(self).e,
            final(self).sp == old(self).sp && final(self).pc == old(self).pc,
            cycles == 2,
    {
        let mut hl = Cpu::as_word(self.h, self.l);
        let r16 = Cpu::as_word(r16hi, r16lo);
        proof {
            let a = hl;
            let b = r16;
            assert((a & 0x0FFF) + (b & 0x0FFF) < 0x2000) by (bit_vector);
        }
        let halfcarry = (if ((hl & 0x0FFF) + (r16 & 0x0FFF)) & 0x1000 == 0x1000 {
            1u8
        } else {
            0u8
        }) << 5;
        let carry = (if ((hl as u32) + (r16 as u32)) & 0x00010000 == 0x00010000 {
            1u8
        } else {
            0u8
        }) << 4;
        hl = hl.wrapping_add(r16);
        self.h = Cpu::hi_byte(hl);
        self.l = Cpu::lo_byte(hl);
        self.f = ((self.f & 0x80) | halfcarry | carry) & !(1u8 << 6);
        2
    }

    /// ADD: A += operand. Z by result, H from bit 3, C from bit 7, N = 0.
    pub fn add_r8(&mut self, r8: u8) -> (cycles: usize)
        ensures
            final(self).a == u8_specs::wrapping_add(old(self).a, r8),
            final(self).f == ((spec_z(final(self).a) | (spec_add_h(old(self).a, r8) << 5) | (
            spec_add_c(old(self).a, r8) << 4)) & !(1u8 << 6)),
            final(self).b == old(self).b && final(self).c == old(self).c,
            final(self).d == old(self).d && final(self).e == old(self).e,
            final(self).h == old(self).h && final(self).l == old(self).l,
            final(self).sp == old(self).sp && final(self).pc == old(self).pc,
            cycles == 1,
    {
        proof {
            let a = self.a;
            assert((a & 0x0F) + (r8 & 0x0F) < 0x20) by (bit_vector);
        }
        let halfcarry: u8 = if ((self.a & 0x0F) + (r8 & 0x0F)) & 0x10 == 0x10 {
            1
        } else {
            0
        };
        let carry: u8 = if ((self.a as u16) + (r8 as u16)) & 0x0100 == 0x0100 {
            1
        } else {
            0
        };
        self.a = self.a.wrapping_add(r8);
        let z: u8 = if self.a == 0 {
            0x80
        } else {
            0
        };
        self.f = (z | (halfcarry << 5) | (carry << 4)) & !(1u8 << 6);
        1
    }

    /// ADC: A += operand + carry-in, carry-in counted in both H and C.
    pub fn adc_r8(&mut self, r8: u8) -> (cycles: usize)
        ensures
            ({
                let carryin = (old(self).f & 0x10) >> 4;
                let a2 = u8_specs::wrapping_add(old(self).a, u8_specs::wrapping_add(r8, carryin));
                let halfcarry = if ((old(self).a & 0x0F) + (r8 & 0x0F) + carryin) as u8 & 0x10
                    == 0x10 {
                    1u8
                } else {
                    0u8
                };
                let carryout = if ((old(self).a as u16) + (r8 as u16) + (carryin as u16)) as u16
                    & 0x0100 == 0x0100 {
                    1u8
                } else {
                    0u8
                };
                &&& final(self).a == a2
                &&& final(self).f == ((spec_z(a2) | (halfcarry << 5) | (carryout << 4)) & !(1u8
                    << 6))
            }),
            final(self).b == old(self).b && final(self).c == old(self).c,
            final(self).d == old(self).d && final(self).e == old(self).e,
            final(self).h == old(self).h && final(self).l == old(self).l,
            final(self).sp == old(self).sp && final(self).pc == old(self).pc,
            cycles == 1,
    {
        let carryin = (self.f & 0x10) >> 4;
        proof {
            let f = self.f;
            let a = self.a;
            assert((f & 0x10) >> 4 <= 1) by (bit_vector);
            assert((a & 0x0F) + (r8 & 0x0F) < 0x20) by (bit_vector);
        }
        let halfcarry: u8 = if ((self.a & 0x0F) + (r8 & 0x0F) + carryin) & 0x10 == 0x10 {
            1
        } else {
            0
        };
        let carryout: u8 = if ((self.a as u16) + (r8 as u16) + (carryin as u16)) & 0x0100 == 0x0100 {
            1
        } else {
            0
        };
        self.a = self.a.wrapping_add(r8.wrapping_add(carryin));
        let z: u8 = if self.a == 0 {
            0x80
        } else {
            0
        };
        self.f = (z | (halfcarry << 5) | (carryout << 4)) & !(1u8 << 6);
        1
    }

    /// SUB: A -= operand. Z by result, H on low-nibble borrow, C on
    /// borrow, N = 1.
    pub fn sub_r8(&mut self, r8: u8) -> (cycles: usize)
        ensures
            final(self).a == u8_specs::wrapping_sub(old(self).a, r8),
            final(self).f == (spec_z(final(self).a) | (1u8 << 6) | (spec_sub_h(old(self).a, r8)
                << 5) | (spec_sub_c(old(self).a, r8) << 4)),
            final(self).b == old(self).b && final(self).c == old(self).c,
            final(self).d == old(self).d && final(self).e == old(self).e,
            final(self).h == old(self).h && final(self).l == old(self).l,
            final(self).sp == old(self).sp && final(self).pc == old(self).pc,
            cycles == 1,
    {
        let halfcarry: u8 = if (self.a & 0x0F).wrapping_sub(r8 & 0x0F) & 0x10 != 0 {
            1
        } else {
            0
        };
        let carry: u8 = if self.a < r8 {
            1
        } else {
            0
        };
        proof {
            let a = self.a;
            assert((u8_specs::wrapping_sub((a & 0x0F) as u8, (r8 & 0x0F) as u8) & 0x10 != 0) == ((a
                & 0x0F) < (r8 & 0x0F))) by (bit_vector);
        }
        self.a = self.a.wrapping_sub(r8);
        let z: u8 = if self.a == 0 {
            0x80
        } else {
            0
        };
        self.f = z | (1u8 << 6) | (halfcarry << 5) | (carry << 4);
        1
    }

    /// SBC: A -= operand + carry-in, carry-in counted in both checks.
    pub fn sbc_r8(&mut self, r8: u8) -> (cycles: usize)
        ensures
            ({
                let carryin = (old(self).f & 0x10) >> 4;
                let a2 = u8_specs::wrapping_sub(
                    u8_specs::wrapping_sub(old(self).a, r8),
                    carryin,
                );
                let halfcarry = if u8_specs::wrapping_sub(
                    u8_specs::wrapping_sub((old(self).a & 0x0F) as u8, (r8 & 0x0F) as u8),
                    carryin,
                ) & 0x10 != 0 {
                    1u8
                } else {
                    0u8
                };
                let carryout = if (old(self).a as u16) < (r8 as u16) + (carryin as u16) {
                    1u8
                } else {
                    0u8
                };
                &&& final(self).a == a2
                &&& final(self).f == (spec_z(a2) | (1u8 << 6) | (halfcarry << 5) | (carryout
                    << 4))
            }),
            final(self).b == old(self).b && final(self).c == old(self).c,
            final(self).d == old(self).d && final(self).e == old(self).e,
            final(self).h == old(self).h && final(self).l == old(self).l,
            final(self).sp == old(self).sp && final(self).pc == old(self).pc,
            cycles == 1,
    {
        let carryin = (self.f & 0x10) >> 4;
        proof {
            let f = self.f;
            assert((f & 0x10) >> 4 <= 1) by (bit_vector);
        }
        let halfcarry: u8 = if (self.a & 0x0F).wrapping_sub(r8 & 0x0F).wrapping_sub(carryin) & 0x10
            != 0 {
            1
        } else {
            0
        };
        let carryout: u8 = if (self.a as u16) < (r8 as u16) + (carryin as u16) {
            1
        } else {
            0
        };
        self.a = self.a.wrapping_sub(r8).wrapping_sub(carryin);
        let z: u8 = if self.a == 0 {
            0x80
        } else {
            0
        };
        self.f = z | (1u8 << 6) | (halfcarry << 5) | (carryout << 4);
        1
    }

    /// AND: N = 0, H = 1, C = 0, Z by result.
    pub fn and_r8(&mut self, r8: u8) -> (cycles: usize)
        ensures
            final(self).a == (old(self).a & r8),
            final(self).f == ((spec_z(final(self).a) | (1u8 << 5)) & !((1u8 << 6) | (1u8 << 4))),
            final(self).b == old(self).b && final(self).c == old(self).c,
            final(self).d == old(self).d && final(self).e == old(self).e,
            final(self).h == old(self).h && final(self).l == old(self).l,
            final(self).sp == old(self).sp && final(self).pc == old(self).pc,
            cycles == 1,
    {
        self.a = self.a & r8;
        let z: u8 = if self.a == 0 {
            0x80
        } else {
            0
        };
        self.f = (z | (1u8 << 5)) & !((1u8 << 6) | (1u8 << 4));
        1
    }

    /// XOR: N = H = C = 0, Z by result.
    pub fn xor_r8(&mut self, r8: u8) -> (cycles: usize)
        ensures
            final(self).a == (old(self).a ^ r8),
            final(self).f == spec_z(final(self).a),
            final(self).b == old(self).b && final(self).c == old(self).c,
            final(self).d == old(self).d && final(self).e == old(self).e,
            final(self).h == old(self).h && final(self).l == old(self).l,
            final(self).sp == old(self).sp && final(self).pc == old(self).pc,
            cycles == 1,
    {
        self.a = self.a ^ r8;
        let z: u8 = if self.a == 0 {
            0x80
        } else {
            0
        };
        proof {
            assert(0x80u8 & !((1u8 << 6) | (1u8 << 5) | (1u8 << 4)) == 0x80u8 && 0u8 & !((1u8 << 6)
                | (1u8 << 5) | (1u8 << 4)) == 0u8) by (bit_vector);
        }
        self.f = z & !((1u8 << 6) | (1u8 << 5) | (1u8 << 4));
        1
    }

    /// OR: N = H = C = 0, Z by result.
    pub fn or_r8(&mut self, r8: u8) -> (cycles: usize)
        ensures
            final(self).a == (old(self).a | r8),
            final(self).f == spec_z(final(self).a),
            final(self).b == old(self).b && final(self).c == old(self).c,
            final(self).d == old(self).d && final(self).e == old(self).e,
            final(self).h == old(self).h && final(self).l == old(self).l,
            final(self).sp == old(self).sp && final(self).pc == old(self).pc,
            cycles == 1,
    {
        self.a = self.a | r8;
        let z: u8 = if self.a == 0 {
            0x80
        } else {
            0
        };
        proof {
            assert(0x80u8 & !((1u8 << 6) | (1u8 << 5) | (1u8 << 4)) == 0x80u8 && 0u8 & !((1u8 << 6)
                | (1u8 << 5) | (1u8 << 4)) == 0u8) by (bit_vector);
        }
        self.f = z & !((1u8 << 6) | (1u8 << 5) | (1u8 << 4));
        1
    }

    /// CP: compare, SUB that discards the result.
    pub fn cp_r8(&mut self, r8: u8) -> (cycles: usize)
        ensures
            final(self).a == old(self).a,
            final(self).f == (spec_z(u8_specs::wrapping_sub(old(self).a, r8)) | (1u8 << 6) | (
            spec_sub_h(old(self).a, r8) << 5) | (spec_sub_c(old(self).a, r8) << 4)),
            final(self).b == old(self).b && final(self).c == old(self).c,
            final(self).d == old(self).d && final(self).e == old(self).e,
            final(self).h == old(self).h && final(self).l == old(self).l,
            final(self).sp == old(self).sp && final(self).pc == old(self).pc,
            cycles == 1,
    {
        let z: u8 = if self.a.wrapping_sub(r8) == 0 {
            0x80
        } else {
            0
        };
        let halfcarry: u8 = if (self.a & 0x0F) < (r8 & 0x0F) {
            1
        } else {
            0
        };
        let carry: u8 = if self.a < r8 {
            1
        } else {
            0
        };
        self.f = z | (1u8 << 6) | (halfcarry << 5) | (carry << 4);
        1
    }

    /// DAA: adjust A to valid packed decimal after an add or subtract,
    /// using the N/H/C flags; Z by result, H cleared, C set if the
    /// adjustment carried.
    pub fn daa(&mut self) -> (cycles: usize)
        ensures
            ({
                let (a2, f2) = spec_daa(old(self).a, old(self).f);
                final(self).a == a2 && final(self).f == f2
            }),
            final(self).b == old(self).b && final(self).c == old(self).c,
            final(self).d == old(self).d && final(self).e == old(self).e,
            final(self).h == old(self).h && final(self).l == old(self).l,
            final(self).sp == old(self).sp && final(self).pc == old(self).pc,
            cycles == 1,
    {
        if self.f & (1u8 << 6) == 0 {
            if (self.f & (1u8 << 4) != 0) || (self.a > 0x99) {
                self.a = self.a.wrapping_add(0x60);
                self.f = self.f | (1u8 << 4);
            }
            if (self.f & (1u8 << 5) != 0) || ((self.a & 0x0F) > 0x09) {
                self.a = self.a.wrapping_add(0x06);
            }
        } else {
            if self.f & (1u8 << 4) != 0 {
                self.a = self.a.wrapping_sub(0x60);
            }
            if self.f & (1u8 << 5) != 0 {
                self.a = self.a.wrapping_sub(0x06);
            }
        }
        let z: u8 = if self.a == 0 {
            0x80
        } else {
            0
        };
        self.f = ((self.f & 0x50) | z) & !(1u8 << 5);
        1
    }

    /// CPL: complement A; N and H set, Z and C kept.
    pub fn cpl(&mut self) -> (cycles: usize)
        ensures
            final(self).a == !old(self).a,
            final(self).f == (old(self).f | ((1u8 << 6) | (1u8 << 5))),
            final(self).b == old(self).b && final(self).c == old(self).c,
            final(self).d == old(self).d && final(self).e == old(self).e,
            final(self).h == old(self).h && final(self).l == old(self).l,
            final(self).sp == old(self).sp && final(self).pc == old(self).pc,
            cycles == 1,
    {
        self.a = !self.a;
        self.f = self.f | ((1u8 << 6) | (1u8 << 5));
        1
    }

    /// SCF: set carry; N and H cleared, Z kept.
    pub fn scf(&mut self) -> (cycles: usize)
        ensures
            final(self).f == (((old(self).f & 0x80) | (1u8 << 4)) & !0x60u8),
            final(self).a == old(self).a,
            final(self).b == old(self).b && final(self).c == old(self).c,
            final(self).d == old(self).d && final(self).e == old(self).e,
            final(self).h == old(self).h && final(self).l == old(self).l,
            final(self).sp == old(self).sp && final(self).pc == old(self).pc,
            cycles == 1,
    {
        self.f = ((self.f & 0x80) | (1u8 << 4)) & !0x60u8;
        1
    }

    /// CCF: flip carry; Z kept, N and H cleared.
    pub fn ccf(&mut self) -> (cycles: usize)
        ensures
            final(self).f == ((old(self).f & 0x80) | ((old(self).f ^ 0x10) & 0x10)),
            final(self).a == old(self).a,
            final(self).b == old(self).b && final(self).c == old(self).c,
            final(self).d == old(self).d && final(self).e == old(self).e,
            final(self).h == old(self).h && final(self).l == old(self).l,
            final(self).sp == old(self).sp && final(self).pc == old(self).pc,
            cycles == 1,
    {
        self.f = (self.f & 0x80) | ((self.f ^ 0x10) & 0x10);
        1
    }

    /// RLCA: rotate A left; C gets the old bit 7, Z/N/H cleared.
    pub fn rlca(&mut self) -> (cycles: usize)
        ensures
            final(self).a == (((old(self).a & 0x7F) << 1) | ((old(self).a & 0x80) >> 7)),
            final(self).f == (((old(self).a & 0x80) >> 3) & !0xE0u8),
            final(self).b == old(self).b && final(self).c == old(self).c,
            final(self).d == old(self).d && final(self).e == old(self).e,
            final(self).h == old(self).h && final(self).l == old(self).l,
            final(self).sp == old(self).sp && final(self).pc == old(self).pc,
            cycles == 1,
    {
        let carry = (self.a & 0x80) >> 3;
        self.a = ((self.a & 0x7F) << 1) | ((self.a & 0x80) >> 7);
        self.f = carry & !0xE0u8;
        1
    }

    /// RRCA: rotate A right; C gets the old bit 0, Z/N/H cleared.
    pub fn rrca(&mut self) -> (cycles: usize)
        ensures
            final(self).a == (((old(self).a & 0x01) << 7) | ((old(self).a & 0xFE) >> 1)),
            final(self).f == (((old(self).a & 0x01) << 4) & !0xE0u8),
            final(self).b == old(self).b && final(self).c == old(self).c,
            final(self).d == old(self).d && final(self).e == old(self).e,
            final(self).h == old(self).h && final(self).l == old(self).l,
            final(self).sp == old(self).sp && final(self).pc == old(self).pc,
            cycles == 1,
    {
        let carry = (self.a & 0x01) << 4;
        self.a = ((self.a & 0x01) << 7) | ((self.a & 0xFE) >> 1);
        self.f = carry & !0xE0u8;
        1
    }

    /// RLA: rotate A left through carry; Z/N/H cleared.
    pub fn rla(&mut self) -> (cycles: usize)
        ensures
            final(self).a == (((old(self).a & 0x7F) << 1) | ((old(self).f & 0x10) >> 4)),
            final(self).f == (((old(self).a & 0x80) >> 3) & !0xE0u8),
            final(self).b == old(self).b && final(self).c == old(self).c,
            final(self).d == old(self).d && final(self).e == old(self).e,
            final(self).h == old(self).h && final(self).l == old(self).l,
            final(self).sp == old(self).sp && final(self).pc == old(self).pc,
            cycles == 1,
    {
        let carry = (self.a & 0x80) >> 3;
        self.a = ((self.a & 0x7F) << 1) | ((self.f & 0x10) >> 4);
        self.f = carry & !0xE0u8;
        1
    }

    /// RRA: rotate A right through carry; Z/N/H cleared.
    pub fn rra(&mut self) -> (cycles: usize)
        ensures
            final(self).a == (((old(self).a & 0xFE) >> 1) | ((old(self).f & 0x10) << 3)),
            final(self).f == (((old(self).a & 0x01) << 4) & !0xE0u8),
            final(self).b == old(self).b && final(self).c == old(self).c,
            final(self).d == old(self).d && final(self).e == old(self).e,
            final(self).h == old(self).h && final(self).l == old(self).l,
            final(self).sp == old(self).sp && final(self).pc == old(self).pc,
            cycles == 1,
    {
        let carry = (self.a & 0x01) << 4;
        self.a = ((self.a & 0xFE) >> 1) | ((self.f & 0x10) << 3);
        self.f = carry & !0xE0u8;
        1
    }

    /// BIT: test one bit of a register; Z by the tested bit, N cleared,
    /// H set, C kept.
    pub fn bit_u3_r8(&mut self, u3: u8, r8: u8) -> (cycles: usize)
        ensures
            final(self).f == ((if r8 & ((1u8 << (u3 & 0x07)) as u8) == 0 {
                0x80u8
            } else {
                0u8
            }) | (1u8 << 5) | (old(self).f & 0x10)),
            final(self).a == old(self).a,
            final(self).b == old(self).b && final(self).c == old(self).c,
            final(self).d == old(self).d && final(self).e == old(self).e,
            final(self).h == old(self).h && final(self).l == old(self).l,
            final(self).sp == old(self).sp && final(self).pc == old(self).pc,
            cycles == 2,
    {
        proof {
            assert(u3 & 0x07 < 8) by (bit_vector);
        }
        let zeroflag: u8 = if r8 & (1u8 << (u3 & 0x07)) == 0 {
            0x80
        } else {
            0
        };
        self.f = zeroflag | (1u8 << 5) | (self.f & 0x10);
        2
    }

    /// AF as one word.
    pub fn af(&self) -> (r: u16)
        ensures
            r == spec_word(self.a, self.f),
    {
        Cpu::as_word(self.a, self.f)
    }

    /// BC as one word.
    pub fn bc(&self) -> (r: u16)
        ensures
            r == spec_word(self.b, self.c),
    {
        Cpu::as_word(self.b, self.c)
    }

    /// DE as one word.
    pub fn de(&self) -> (r: u16)
        ensures
            r == spec_word(self.d, self.e),
    {
        Cpu::as_word(self.d, self.e)
    }

    /// HL as one word.
    pub fn hl(&self) -> (r: u16)
        ensures
            r == spec_word(self.h, self.l),
    {
        Cpu::as_word(self.h, self.l)
    }
}

/// Half-carry of an 8-bit add: carry out of bit 3.
pub open spec fn spec_add_h(a: u8, b: u8) -> u8 {
    if ((a & 0x0F) + (b & 0x0F)) as u16 & 0x10 == 0x10 {
        1u8
    } else {
        0u8
    }
}

/// Carry of an 8-bit add: carry out of bit 7.
pub open spec fn spec_add_c(a: u8, b: u8) -> u8 {
    if ((a as u16) + (b as u16)) as u16 & 0x0100 == 0x0100 {
        1u8
    } else {
        0u8
    }
}

/// Half-borrow of an 8-bit subtract: borrow into bit 4.
pub open spec fn spec_sub_h(a: u8, b: u8) -> u8 {
    if (a & 0x0F) < (b & 0x0F) {
        1u8
    } else {
        0u8
    }
}

/// Borrow of an 8-bit subtract.
pub open spec fn spec_sub_c(a: u8, b: u8) -> u8 {
    if a < b {
        1u8
    } else {
        0u8
    }
}

/// The accumulator and flags after a decimal adjust, from the flags the
/// preceding arithmetic left behind.
pub open spec fn spec_daa(a0: u8, f0: u8) -> (u8, u8) {
    let (a1, f1) = if f0 & (1u8 << 6) == 0 {
        let (ah, fh) = if f0 & (1u8 << 4) != 0 || a0 > 0x99 {
            (u8_specs::wrapping_add(a0, 0x60), (f0 | (1u8 << 4)) as u8)
        } else {
            (a0, f0)
        };
        if fh & (1u8 << 5) != 0 || (ah & 0x0F) > 0x09 {
            (u8_specs::wrapping_add(ah, 0x06), fh)
        } else {
            (ah, fh)
        }
    } else {
        let a_c = if f0 & (1u8 << 4) != 0 {
            u8_specs::wrapping_sub(a0, 0x60)
        } else {
            a0
        };
        let a_h = if f0 & (1u8 << 5) != 0 {
            u8_specs::wrapping_sub(a_c, 0x06)
        } else {
            a_c
        };
        (a_h, f0)
    };
    let z = if a1 == 0 {
        0x80u8
    } else {
        0u8
    };
    (a1, (((f1 & 0x50) | z) & !(1u8 << 5)) as u8)
}

/// The flag register of the 8-bit arithmetic and logic operations keeps
/// its low four bits clear: Z, N, H and C live in the high nibble alone.
pub proof fn lemma_flags_low_nibble_clear(a: u8, b: u8, f: u8)
    by (bit_vector)
    ensures
        ((if u8_specs::wrapping_add(a, b) == 0 {
            0x80u8
        } else {
            0u8
        }) | (spec_add_h(a, b) << 5) | (spec_add_c(a, b) << 4)) & !(1u8 << 6) & 0x0F == 0,
        ((if u8_specs::wrapping_sub(a, b) == 0 {
            0x80u8
        } else {
            0u8
        }) | (1u8 << 6) | (spec_sub_h(a, b) << 5) | (spec_sub_c(a, b) << 4)) & 0x0F == 0,
{
}

/// ADD sets Z exactly when the 8-bit sum wraps to zero, H exactly when
/// the low nibbles carry into bit 4, C exactly when the true sum exceeds
/// 0xFF, and always clears N.
pub proof fn lemma_add_flags(a: u8, b: u8, z: bool, n: bool, h: bool, c: bool)
    requires
        z == ((spec_z(u8_specs::wrapping_add(a, b)) | (spec_add_h(a, b) << 5) | (spec_add_c(a, b)
            << 4)) & !(1u8 << 6) & 0x80 != 0),
        n == ((spec_z(u8_specs::wrapping_add(a, b)) | (spec_add_h(a, b) << 5) | (spec_add_c(a, b)
            << 4)) & !(1u8 << 6) & 0x40 != 0),
        h == ((spec_z(u8_specs::wrapping_add(a, b)) | (spec_add_h(a, b) << 5) | (spec_add_c(a, b)
            << 4)) & !(1u8 << 6) & 0x20 != 0),
        c == ((spec_z(u8_specs::wrapping_add(a, b)) | (spec_add_h(a, b) << 5) | (spec_add_c(a, b)
            << 4)) & !(1u8 << 6) & 0x10 != 0),
    ensures
        z <==> (a + b) as u8 == 0,
        h <==> ((a & 0xF) + (b & 0xF)) as u16 & 0x10 != 0,
        c <==> a + b > 0xFF,
        !n,
{
    assert((spec_z(u8_specs::wrapping_add(a, b)) | (spec_add_h(a, b) << 5) | (spec_add_c(a, b)
        << 4)) & !(1u8 << 6) & 0x80 != 0 <==> (a + b) as u8 == 0) by (bit_vector);
    assert((spec_z(u8_specs::wrapping_add(a, b)) | (spec_add_h(a, b) << 5) | (spec_add_c(a, b)
        << 4)) & !(1u8 << 6) & 0x20 != 0 <==> ((a & 0xF) + (b & 0xF)) as u16 & 0x10 != 0)
        by (bit_vector);
    assert((spec_z(u8_specs::wrapping_add(a, b)) | (spec_add_h(a, b) << 5) | (spec_add_c(a, b)
        << 4)) & !(1u8 << 6) & 0x10 != 0 <==> a + b > 0xFF) by (bit_vector);
    assert((spec_z(u8_specs::wrapping_add(a, b)) | (spec_add_h(a, b) << 5) | (spec_add_c(a, b)
        << 4)) & !(1u8 << 6) & 0x40 == 0) by (bit_vector);
}

/// SUB sets Z exactly when the operands are equal, H exactly when the low
/// nibble of the subtrahend exceeds that of A, C exactly on borrow, and
/// always sets N.
pub proof fn lemma_sub_flags(a: u8, b: u8, z: bool, n: bool, h: bool, c: bool)
    requires
        z == ((spec_z(u8_specs::wrapping_sub(a, b)) | (1u8 << 6) | (spec_sub_h(a, b) << 5) | (
        spec_sub_c(a, b) << 4)) & 0x80 != 0),
        n == ((spec_z(u8_specs::wrapping_sub(a, b)) | (1u8 << 6) | (spec_sub_h(a, b) << 5) | (
        spec_sub_c(a, b) << 4)) & 0x40 != 0),
        h == ((spec_z(u8_specs::wrapping_sub(a, b)) | (1u8 << 6) | (spec_sub_h(a, b) << 5) | (
        spec_sub_c(a, b) << 4)) & 0x20 != 0),
        c == ((spec_z(u8_specs::wrapping_sub(a, b)) | (1u8 << 6) | (spec_sub_h(a, b) << 5) | (
        spec_sub_c(a, b) << 4)) & 0x10 != 0),
    ensures
        z <==> a == b,
        h <==> (a & 0xF) < (b & 0xF),
        c <==> a < b,
        n,
{
    assert((spec_z(u8_specs::wrapping_sub(a, b)) | (1u8 << 6) | (spec_sub_h(a, b) << 5) | (
    spec_sub_c(a, b) << 4)) & 0x80 != 0 <==> a == b) by (bit_vector);
    assert((spec_z(u8_specs::wrapping_sub(a, b)) | (1u8 << 6) | (spec_sub_h(a, b) << 5) | (
    spec_sub_c(a, b) << 4)) & 0x20 != 0 <==> (a & 0xF) < (b & 0xF)) by (bit_vector);
    assert((spec_z(u8_specs::wrapping_sub(a, b)) | (1u8 << 6) | (spec_sub_h(a, b) << 5) | (
    spec_sub_c(a, b) << 4)) & 0x10 != 0 <==> a < b) by (bit_vector);
    assert((spec_z(u8_specs::wrapping_sub(a, b)) | (1u8 << 6) | (spec_sub_h(a, b) << 5) | (
    spec_sub_c(a, b) << 4)) & 0x40 != 0) by (bit_vector);
}

} // verus!
