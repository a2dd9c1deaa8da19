//! Nibble and bit permutations, single-bit operations, shifts and RF bit moves.

use super::CPU;
use crate::isa::{
    bits_effect, pen_nibble, pen_word, peb_bit, peb_word, perm_effect, rev4, rfbits_effect,
    sar16, shift_effect, C_BIT,
};
use crate::word::{
    bit16, get_dst, get_ims, get_opc, get_src, is_carry, is_neg, is_zero, lemma_masks, opc_of,
    with_bit, wrap16,
};
use vstd::prelude::*;

verus! {

/// A nibble reversed end for end.
fn rev_nibble(n: u16) -> (r: u16)
    ensures
        r == rev4(n),
{
    ((n & 1) << 3) | ((n & 2) << 1) | ((n >> 1) & 2) | ((n >> 3) & 1)
}

/// One output nibble of PEN.
fn pen_nibble_of(v: u16, op: u16) -> (r: u16)
    ensures
        r == pen_nibble(v, op),
{
    proof {
        lemma_masks(op);
    }
    let shift = (op & 3) * 4;
    let n = (v >> shift) & 15;
    let f = (op >> 2) & 3;
    if f == 0 {
        n
    } else if f == 1 {
        n ^ 15
    } else if f == 2 {
        rev_nibble(n)
    } else if op & 1 == 1 {
        15
    } else {
        0
    }
}

/// The PEN result for source word `v` and control word `imm`.
fn pen(v: u16, imm: u16) -> (r: u16)
    ensures
        r == pen_word(v, imm),
{
    pen_nibble_of(v, imm & 15) | (pen_nibble_of(v, (imm >> 4) & 15) << 4) | (pen_nibble_of(
        v,
        (imm >> 8) & 15,
    ) << 8) | (pen_nibble_of(v, (imm >> 12) & 15) << 12)
}

/// One output bit of PEB.
fn peb_bit_of(n: u16, op: u16) -> (r: u16)
    ensures
        r == peb_bit(n, op),
{
    proof {
        lemma_masks(op);
    }
    ((n >> (op & 3)) & 1) ^ ((op >> 2) & 1)
}

/// The PEB result for source word `v` and control word `imm`.
fn peb(v: u16, imm: u16) -> (r: u16)
    ensures
        r == peb_word(v, imm),
{
    proof {
        lemma_masks(imm >> 14u16);
        lemma_masks(imm >> 12u16);
    }
    let si = ((imm >> 14) & 3) * 4;
    let di = ((imm >> 12) & 3) * 4;
    let n = (v >> si) & 15;
    let out = peb_bit_of(n, imm & 7) | (peb_bit_of(n, (imm >> 3) & 7) << 1) | (peb_bit_of(
        n,
        (imm >> 6) & 7,
    ) << 2) | (peb_bit_of(n, (imm >> 9) & 7) << 3);
    (v & !(15u16 << di)) | (out << di)
}

/// Arithmetic right shift of a word by `k`.
fn sar(v: u16, k: u16) -> (r: u16)
    requires
        k < 16,
    ensures
        r == sar16(v, k),
{
    if bit16(v, 15) {
        (v >> k) | !(0xFFFFu16 >> k)
    } else {
        v >> k
    }
}

impl CPU {
    /// Opcodes 78 and 79.
    pub(super) fn exec_perm(&mut self, iw: u16)
        requires
            old(self).wf(),
            78 <= opc_of(iw) <= 79,
        ensures
            final(self).wf(),
            final(self)@ == perm_effect(old(self)@, iw),
    {
        let op = get_opc(iw);
        let v = self.xr(get_src(iw));
        let imm = self.get_imx();
        let res = if op == 78 {
            pen(v, imm)
        } else {
            peb(v, imm)
        };
        self.set_flags(is_neg(res as i32), false, false, res == 0);
        self.set_x(get_dst(iw), res);
    }

    /// The bit position of a bit opcode: X[src] & 15 or the nibble immediate.
    fn bit_index(&self, iw: u16) -> (r: u16)
        requires
            self.wf(),
        ensures
            r == crate::isa::bit_pos(self@, iw),
            r < 16,
    {
        if get_opc(iw) % 2 == 0 {
            let v = self.xr(get_src(iw));
            proof {
                lemma_masks(v);
            }
            v & 15
        } else {
            get_ims(iw)
        }
    }

    /// Opcodes 96..=107.
    pub(super) fn exec_bits(&mut self, iw: u16)
        requires
            old(self).wf(),
            96 <= opc_of(iw) <= 107,
        ensures
            final(self).wf(),
            final(self)@ == bits_effect(old(self)@, iw),
    {
        let op = get_opc(iw);
        let d = get_dst(iw);
        let k = self.bit_index(iw);
        if op <= 97 {
            let b = bit16(self.xr(d), k);
            self.set_flags(false, false, b, false);
        } else if op <= 99 {
            let c = self.st_bit(C_BIT);
            let v = with_bit(self.xr(d), k, c);
            self.set_x(d, v);
        } else if op <= 101 {
            let v = self.xr(d) ^ (1u16 << k);
            self.set_x(d, v);
        } else if op <= 103 {
            let b = bit16(self.reg_rf, k);
            self.set_flags(false, false, b, false);
        } else if op <= 105 {
            let c = self.st_bit(C_BIT);
            self.reg_rf = with_bit(self.reg_rf, k, c);
        } else {
            let v: u16 = if bit16(self.reg_rf, k) {
                0xFFFF
            } else {
                0
            };
            self.set_x(d, v);
        }
    }

    /// Opcodes 108 and 110..=119.
    pub(super) fn exec_shift(&mut self, iw: u16)
        requires
            old(self).wf(),
            108 <= opc_of(iw) <= 119,
            opc_of(iw) != 109,
        ensures
            final(self).wf(),
            final(self)@ == shift_effect(old(self)@, iw),
    {
        let op = get_opc(iw);
        let d = get_dst(iw);
        let s = get_src(iw);
        let k = self.bit_index(iw);
        let c = self.st_bit(C_BIT);
        if op == 108 {
            let v = self.xr(s);
            let res = sar(v, 1);
            self.set_x(d, res);
            self.set_flags(is_neg(res as i32), false, bit16(v, 0), res == 0);
        } else if op <= 111 {
            let res = sar(self.xr(d), k);
            self.set_x(d, res);
            self.set_flags(is_neg(res as i32), false, false, res == 0);
        } else if op <= 113 {
            let v = self.xr(s);
            let top: u16 = if op == 113 && c {
                0x8000
            } else {
                0
            };
            let res = (v >> 1) | top;
            self.set_x(d, res);
            self.set_flags(is_neg(res as i32), false, bit16(v, 0), res == 0);
        } else if op <= 115 {
            let res = self.xr(d) >> k;
            self.set_x(d, res);
            self.set_flags(is_neg(res as i32), false, false, res == 0);
        } else if op <= 117 {
            let low: i32 = if op == 117 && c {
                1
            } else {
                0
            };
            let w: i32 = self.xr(s) as i32 * 2 + low;
            self.set_x(d, wrap16(w));
            self.set_flags(is_neg(w), false, is_carry(w), is_zero(w));
        } else {
            let res = self.xr(d) << k;
            self.set_x(d, res);
            self.set_flags(is_neg(res as i32), false, false, res == 0);
        }
    }

    /// Opcodes 120..=123.
    pub(super) fn exec_rfbits(&mut self, iw: u16)
        requires
            old(self).wf(),
            120 <= opc_of(iw) <= 123,
        ensures
            final(self).wf(),
            final(self)@ == rfbits_effect(old(self)@, iw),
    {
        let op = get_opc(iw);
        let from = bit16(self.reg_rf, get_ims(iw));
        let to = get_dst(iw) as u16;
        if op == 120 {
            self.reg_rf = with_bit(self.reg_rf, to, from);
        } else if op == 121 {
            self.reg_rf = with_bit(self.reg_rf, to, !from);
        } else if op == 122 {
            if !from {
                self.reg_rf = with_bit(self.reg_rf, to, false);
            }
        } else {
            if from {
                self.reg_rf = with_bit(self.reg_rf, to, true);
            }
        }
    }
}

} // verus!
