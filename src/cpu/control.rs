//! Register moves, jumps and branches, predication.

use super::{inc16, CPU};
use crate::isa::{flow_effect, pred_effect, regs_effect};
use crate::word::{
    bit16, get_dst, get_iml, get_ims, get_opc, get_src, opc_of, sxt8, with_bit, wrap16,
};
use vstd::prelude::*;

verus! {

impl CPU {
    /// Opcodes 0..=12.
    pub(super) fn exec_regs(&mut self, iw: u16)
        requires
            old(self).wf(),
            opc_of(iw) <= 12,
        ensures
            final(self).wf(),
            final(self)@ == regs_effect(old(self)@, iw),
    {
        let op = get_opc(iw);
        let d = get_dst(iw);
        let s = get_src(iw);
        if op == 0 {
            self.reg_st = self.reg_st ^ (1u16 << get_ims(iw));
        } else if op == 1 {
            let v = self.xr(s);
            self.set_x(d, v);
        } else if op == 2 {
            let v = self.xr(s);
            self.set_y(d, v);
        } else if op == 3 {
            let v = self.yr(s);
            self.set_x(d, v);
        } else if op == 4 {
            let v = self.yr(s);
            self.set_y(d, v);
        } else if op == 5 {
            self.reg_st = self.xr(s);
        } else if op == 6 {
            let v = self.reg_st;
            self.set_x(d, v);
        } else if op == 7 {
            self.reg_rf = self.xr(s);
        } else if op == 8 {
            let v = self.reg_rf;
            self.set_x(d, v);
        } else if op == 9 {
            self.reg_jp = self.xr(s);
        } else if op == 10 {
            let v = self.reg_jp;
            self.set_x(d, v);
        } else if op == 11 {
            self.reg_ip = self.reg_jp;
        } else {
            let v = wrap16(self.reg_ip as i32 + get_ims(iw) as i32);
            self.set_x(d, v);
        }
    }

    /// IP plus the sign-extended low byte of `iw`, less one.
    fn rel_jump(&self, iw: u16) -> (r: u16)
        ensures
            r == crate::isa::rel_target(self@.ip, iw),
    {
        wrap16(self.reg_ip as i32 + sxt8(get_iml(iw)) as i32 - 1)
    }

    /// Opcodes 13, 14, 192..=223 and 240..=247.
    pub(super) fn exec_flow(&mut self, iw: u16)
        requires
            old(self).wf(),
            13 <= opc_of(iw) <= 14 || 192 <= opc_of(iw) <= 223 || 240 <= opc_of(iw) <= 247,
        ensures
            final(self).wf(),
            final(self)@ == flow_effect(old(self)@, iw),
    {
        let op = get_opc(iw);
        let d = get_dst(iw);
        let s = get_src(iw);
        if op == 13 {
            self.reg_ip = self.rel_jump(iw);
        } else if op == 14 {
            let link = inc16(self.reg_ip);
            self.set_x(d, link);
            let base = self.xr(s);
            let imm = self.get_imx();
            self.reg_ip = wrap16(base as i32 + imm as i32);
        } else if op <= 199 {
            if self.eval_cond(op) {
                self.reg_ip = self.xr(s);
            }
        } else if op <= 207 {
            let v = self.xr(d);
            if self.eval_prop(op, v) {
                self.reg_ip = self.xr(s);
            }
        } else if op <= 215 {
            let imm = self.get_imx();
            if self.eval_cond(op) {
                let base = self.xr(s);
                self.reg_ip = wrap16(base as i32 + imm as i32);
            }
        } else if op <= 223 {
            let imm = self.get_imx();
            let v = self.xr(d);
            if self.eval_prop(op, v) {
                let base = self.xr(s);
                self.reg_ip = wrap16(base as i32 + imm as i32);
            }
        } else {
            if self.eval_cond(op) {
                self.reg_ip = self.rel_jump(iw);
            }
        }
    }

    /// Opcodes 15..=63.
    pub(super) fn exec_pred(&mut self, iw: u16)
        requires
            old(self).wf(),
            15 <= opc_of(iw) <= 63,
        ensures
            final(self).wf(),
            final(self)@ == pred_effect(old(self)@, iw),
    {
        let op = get_opc(iw);
        let d = get_dst(iw);
        let k = get_ims(iw);
        if op == 15 {
            self.skip = !bit16(self.reg_rf, k);
        } else if op <= 23 {
            self.skip = !self.eval_cond(op);
        } else if op <= 31 {
            let v = self.xr(d);
            self.skip = !self.eval_prop(op, v);
        } else if op <= 39 {
            if !self.eval_cond(op) {
                self.reg_rf = with_bit(self.reg_rf, k, false);
            }
        } else if op <= 47 {
            let v = self.xr(d);
            if !self.eval_prop(op, v) {
                self.reg_rf = with_bit(self.reg_rf, k, false);
            }
        } else if op <= 55 {
            if self.eval_cond(op) {
                self.reg_rf = with_bit(self.reg_rf, k, true);
            }
        } else {
            let v = self.xr(d);
            if self.eval_prop(op, v) {
                self.reg_rf = with_bit(self.reg_rf, k, true);
            }
        }
    }
}

} // verus!
