//! Adds, subtracts, compares, multiplies and bitwise logic.

use super::CPU;
use crate::isa::{
    arith_effect, logic_effect, mul_effect, signed16,
    C_BIT,
};
use crate::word::{
    get_dst, get_ims, get_opc, get_src, is_carry, is_neg, is_ovf, is_zero, low16, opc_of, wrap16,
};
use vstd::prelude::*;

verus! {

/// The signed product of two words, and the high half of its low 32 bits.
fn signed_high(a: u16, b: u16) -> (r: u16)
    ensures
        r == low16((signed16(a) * signed16(b)) / 0x10000),
{
    let sa: i64 = if a >= 0x8000 {
        a as i64 - 0x10000
    } else {
        a as i64
    };
    let sb: i64 = if b >= 0x8000 {
        b as i64 - 0x10000
    } else {
        b as i64
    };
    assert(-0x4000_0000 <= sa * sb <= 0x4000_0000) by (nonlinear_arith)
        requires
            -0x8000 <= sa <= 0x7FFF,
            -0x8000 <= sb <= 0x7FFF,
    ;
    let p: i64 = sa * sb;
    let wide: i64 = p + 0x1_0000_0000;
    let h: i64 = (wide / 0x10000) % 0x10000;
    assert(h == (p / 0x10000) % 0x10000) by {
        assert(wide / 0x10000 == p / 0x10000 + 0x10000);
    }
    h as u16
}

impl CPU {
    /// Opcodes 64..=77.
    pub(super) fn exec_arith(&mut self, iw: u16)
        requires
            old(self).wf(),
            64 <= opc_of(iw) <= 77,
        ensures
            final(self).wf(),
            final(self)@ == arith_effect(old(self)@, iw),
    {
        let op = get_opc(iw);
        let d = get_dst(iw);
        let s = get_src(iw);
        let on_y = op == 65 || op == 67 || op == 69 || op == 72 || op == 74 || op == 77;
        let a: u16 = if on_y {
            self.yr(d)
        } else {
            self.xr(d)
        };
        let b: u16 = if op == 66 || op == 67 {
            self.get_imx()
        } else if op == 68 || op == 69 || op == 73 || op == 74 {
            get_ims(iw)
        } else if op == 77 {
            self.yr(s)
        } else {
            self.xr(s)
        };
        let c: i32 = if self.st_bit(C_BIT) {
            1
        } else {
            0
        };
        let a = a as i32;
        let b = b as i32;
        let sum: i32 = if op == 68 || op == 69 {
            a + b + 1
        } else if op == 70 {
            a + b + c
        } else if op <= 70 {
            a + b
        } else if op == 75 {
            a - b - (1 - c)
        } else {
            a - b
        };
        self.set_flags(is_neg(sum), is_ovf(a, b, sum), is_carry(sum), is_zero(sum));
        if op == 76 || op == 77 {
        } else if on_y {
            self.set_y(d, wrap16(sum));
        } else {
            self.set_x(d, wrap16(sum));
        }
    }

    /// Opcodes 80..=85.
    pub(super) fn exec_mul(&mut self, iw: u16)
        requires
            old(self).wf(),
            80 <= opc_of(iw) <= 85,
        ensures
            final(self).wf(),
            final(self)@ == mul_effect(old(self)@, iw),
    {
        let op = get_opc(iw);
        let d = get_dst(iw);
        let s = get_src(iw);
        let a: u16 = if op % 2 == 0 {
            self.xr(d)
        } else {
            self.xr(s)
        };
        let b: u16 = if op % 2 == 0 {
            self.xr(s)
        } else {
            self.get_imx()
        };
        if op <= 81 {
            assert(a as u32 * b as u32 <= 0xFFFE_0001) by (nonlinear_arith)
                requires
                    a <= 0xFFFF,
                    b <= 0xFFFF,
            ;
            let prod: u32 = a as u32 * b as u32;
            let lo: u16 = (prod % 0x10000) as u16;
            self.set_flags(lo >= 0x8000, prod >= 0x10000, false, lo == 0);
            self.set_x(d, lo);
        } else if op <= 83 {
            assert(a as u32 * b as u32 <= 0xFFFE_0001) by (nonlinear_arith)
                requires
                    a <= 0xFFFF,
                    b <= 0xFFFF,
            ;
            let prod: u32 = a as u32 * b as u32;
            let h: u16 = (prod / 0x10000) as u16;
            self.set_flags(h >= 0x8000, false, false, h == 0);
            self.set_x(d, h);
        } else {
            let h = signed_high(a, b);
            self.set_flags(h >= 0x8000, false, false, h == 0);
            self.set_x(d, h);
        }
    }

    /// Opcodes 86..=95.
    pub(super) fn exec_logic(&mut self, iw: u16)
        requires
            old(self).wf(),
            86 <= opc_of(iw) <= 95,
        ensures
            final(self).wf(),
            final(self)@ == logic_effect(old(self)@, iw),
    {
        let op = get_opc(iw);
        let d = get_dst(iw);
        let s = get_src(iw);
        let a: u16 = if op % 2 == 0 {
            self.xr(d)
        } else {
            self.xr(s)
        };
        let b: u16 = if op % 2 == 0 {
            self.xr(s)
        } else {
            self.get_imx()
        };
        let res: u16 = if op <= 87 {
            a & b
        } else if op <= 89 {
            !(a & b)
        } else if op <= 91 {
            a | b
        } else if op <= 93 {
            !(a | b)
        } else {
            a ^ b
        };
        self.set_flags(is_neg(res as i32), false, false, res == 0);
        self.set_x(d, res);
    }
}

} // verus!
