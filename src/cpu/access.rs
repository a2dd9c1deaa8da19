//! Loads and stores, byte immediates, port input and output.

use super::CPU;
use crate::isa::{imm_effect, mem_effect, port_effect};
use crate::memory::{lemma_cell_of, Addressable};
use crate::word::{get_dst, get_imh, get_opc, get_src, lemma_masks, opc_of, sxt8, wrap16};
use vstd::prelude::*;

verus! {

impl CPU {
    /// The memory word at `base + offset`, address taken modulo 0x10000.
    fn load(&self, base: u16, offset: u16) -> (r: u16)
        requires
            self.wf(),
        ensures
            r == self@.mem[((base + offset) % 0x10000) as int],
    {
        let loc = base as i32 + offset as i32;
        proof {
            lemma_cell_of(loc);
        }
        let v = self.mem.read(loc);
        v as u16
    }

    /// Stores `val` at `base + offset`, address taken modulo 0x10000.
    fn store(&mut self, base: u16, offset: u16, val: u16)
        requires
            old(self).wf(),
        ensures
            final(self).wf(),
            final(self)@ == (crate::isa::Machine {
                mem: old(self)@.mem.update((base + offset) % 0x10000, val),
                ..old(self)@
            }),
    {
        let loc = base as i32 + offset as i32;
        proof {
            lemma_cell_of(loc);
            lemma_masks(val);
        }
        self.mem.write(loc, val as i32);
    }

    /// Opcodes 124..=127 and 224..=239.
    pub(super) fn exec_mem(&mut self, iw: u16)
        requires
            old(self).wf(),
            124 <= opc_of(iw) <= 127 || 224 <= opc_of(iw) <= 239,
        ensures
            final(self).wf(),
            final(self)@ == mem_effect(old(self)@, iw),
    {
        let op = get_opc(iw);
        let d = get_dst(iw);
        let s = get_src(iw);
        if op <= 127 {
            let base = self.xr(s);
            let imm: u16 = if op % 2 == 1 {
                self.get_imx()
            } else {
                0
            };
            if op <= 125 {
                let v = self.load(base, imm);
                self.set_x(d, v);
            } else {
                let v = self.xr(d);
                self.store(base, imm, v);
            }
        } else {
            let mode = op % 4;
            let with_imm = (op / 4) % 2 == 1;
            let base = self.yr(s);
            let y1: u16 = if mode == 1 {
                wrap16(base as i32 - 1)
            } else if mode == 0 {
                base
            } else {
                wrap16(base as i32 + 1)
            };
            let eff: u16 = if mode == 1 || mode == 3 {
                y1
            } else {
                base
            };
            let imm: u16 = if with_imm {
                self.get_imx()
            } else {
                0
            };
            self.set_y(s, y1);
            if op <= 231 {
                let v = self.load(eff, imm);
                self.set_x(d, v);
            } else {
                let v = self.xr(d);
                self.store(eff, imm, v);
            }
        }
    }

    /// Opcodes 128..=159.
    pub(super) fn exec_imm(&mut self, iw: u16)
        requires
            old(self).wf(),
            128 <= opc_of(iw) <= 159,
        ensures
            final(self).wf(),
            final(self)@ == imm_effect(old(self)@, iw),
    {
        let d = get_dst(iw);
        let imh = get_imh(iw);
        if get_opc(iw) <= 143 {
            self.set_x(d, sxt8(imh));
        } else {
            let v = (self.xr(d) & 0xFF) | (imh << 8);
            self.set_x(d, v);
        }
    }

    /// Opcodes 160..=191.
    pub(super) fn exec_port(&mut self, iw: u16)
        requires
            old(self).wf(),
            160 <= opc_of(iw) <= 191,
            opc_of(iw) <= 175 ==> old(self)@.io.term_in.len() >= crate::io::input_needed(
                crate::word::imh_of(iw),
            ),
        ensures
            final(self).wf(),
            final(self)@ == port_effect(old(self)@, iw),
    {
        let d = get_dst(iw);
        let loc = get_imh(iw);
        if get_opc(iw) <= 175 {
            let v = self.io_space.read(loc);
            self.set_x(d, v);
        } else {
            let v = self.xr(d);
            self.io_space.write(loc, v);
        }
    }
}

} // verus!
