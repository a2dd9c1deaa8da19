//! The interpreter: architectural state, fetch, skip handling and dispatch.

mod access;
mod alu;
mod bitops;
mod control;

use crate::io::{input_needed, IO};
use crate::isa::{
    cond_holds, defined_op, double_word, execute, faults, fetch, imm_at, inc,
    machine_wf, prop_holds, put_st, put_x, put_y, skip_imm, starved, step, with_flags,
    Machine, C_BIT, N_BIT, V_BIT, Z_BIT,
};
use crate::image::{header_ok, image_words, loaded, ImageError};
use crate::memory::{Memory, MEM_WORDS};
use crate::word::{bit16, bit_of, get_imh, get_opc, imh_of, opc_of};
use vstd::prelude::*;

verus! {

/// Why a step did not run.
#[derive(Debug, Clone, Copy, PartialEq, Eq)]
pub enum StepError {
    /// The fetched word holds an opcode with no meaning.
    UnknownOpcode { opcode: u16, word: u16 },
    /// The fetched word reads a terminal port whose bytes have not arrived.
    AwaitingInput { port: u16 },
}

/// The processor: two register files of 16 words, IP, JP, RF, ST, the skip
/// latch, the memory and the port surface.
pub struct CPU {
    primary_regfile: Vec<u16>,
    secondary_regfile: Vec<u16>,
    reg_ip: u16,
    reg_jp: u16,
    reg_rf: u16,
    pub reg_st: u16,
    skip: bool,
    mem: Memory,
    pub io_space: IO,
}

impl View for CPU {
    type V = Machine;

    closed spec fn view(&self) -> Machine {
        Machine {
            x: self.primary_regfile@,
            y: self.secondary_regfile@,
            ip: self.reg_ip,
            jp: self.reg_jp,
            rf: self.reg_rf,
            st: self.reg_st,
            skip: self.skip,
            mem: self.mem@,
            io: self.io_space@,
        }
    }
}

/// The double-word bitmap, 32 opcodes per group: bit `k` of group `g` is
/// set when opcode `32 * g + k` takes an immediate.
fn double_word_group(g: u16) -> (r: u32)
    requires
        g < 8,
    ensures
        r == double_word_bits(g),
{
    if g == 0 {
        0x00004000
    } else if g == 1 {
        0x00000000
    } else if g == 2 {
        0xAAAAC00C
    } else if g == 3 {
        0xA0000000
    } else if g == 4 {
        0x00000000
    } else if g == 5 {
        0x00000000
    } else if g == 6 {
        0xFFFF0000
    } else {
        0x0000F0F0
    }
}

/// The double-word bitmap as a function of the group number.
pub open spec fn double_word_bits(g: u16) -> u32 {
    if g == 0 {
        0x00004000
    } else if g == 2 {
        0xAAAAC00C
    } else if g == 3 {
        0xA0000000
    } else if g == 6 {
        0xFFFF0000
    } else if g == 7 {
        0x0000F0F0
    } else {
        0
    }
}

/// The bitmap marks exactly the opcodes that take an immediate.
pub proof fn lemma_double_word_table(op: u16)
    by (bit_vector)
    requires
        op < 256,
    ensures
        (double_word_bits(op >> 5u16) & (1u32 << ((op & 31) as u32)) != 0) == double_word(op),
{
}

/// Whether opcode `op` takes an immediate, read from the bitmap.
fn is_double_word(op: u16) -> (r: bool)
    requires
        op < 256,
    ensures
        r == double_word(op),
{
    proof {
        lemma_double_word_table(op);
        assert(op >> 5u16 < 8 && (op & 31) < 32) by (bit_vector)
            requires
                op < 256,
        ;
    }
    (double_word_group(op >> 5) & (1u32 << ((op & 31) as u32))) != 0
}

/// Whether opcode `op` has a meaning.
fn is_defined(op: u16) -> (r: bool)
    ensures
        r == defined_op(op),
{
    op != 109 && op < 248
}

/// A 16-bit increment that wraps.
fn inc16(v: u16) -> (r: u16)
    ensures
        r == inc(v),
{
    if v == 0xFFFF {
        0
    } else {
        v + 1
    }
}

impl CPU {
    /// The register files have 16 entries and the memory its full size.
    pub open spec fn wf(&self) -> bool {
        machine_wf(self@)
    }

    /// A processor with every register, flag and word of memory zero, the
    /// skip latch clear and no port traffic.
    pub fn new() -> (r: CPU)
        ensures
            r.wf(),
            r@.x == Seq::new(16, |i: int| 0u16),
            r@.y == Seq::new(16, |i: int| 0u16),
            r@.ip == 0 && r@.jp == 0 && r@.rf == 0 && r@.st == 0,
            !r@.skip,
            r@.mem == Seq::new(MEM_WORDS as nat, |i: int| 0u16),
            r@.io.console.len() == 0 && r@.io.term_in.len() == 0 && r@.io.term_out.len() == 0,
    {
        let primary_regfile = vec![0u16; 16];
        let secondary_regfile = vec![0u16; 16];
        assert(primary_regfile@ =~= Seq::new(16, |i: int| 0u16));
        assert(secondary_regfile@ =~= Seq::new(16, |i: int| 0u16));
        CPU {
            primary_regfile,
            secondary_regfile,
            reg_ip: 0,
            reg_jp: 0,
            reg_rf: 0,
            reg_st: 0,
            skip: false,
            mem: Memory::new(),
            io_space: IO::new(),
        }
    }

    /// Loads a program image into memory (see `Memory::load_image`) and
    /// returns the number of words it held less one.
    pub fn load_prog(&mut self, image: &[u8]) -> (r: Result<i32, ImageError>)
        requires
            old(self).wf(),
            image@.len() <= i32::MAX,
        ensures
            final(self).wf(),
            match r {
                Ok(n) => {
                    &&& header_ok(image@)
                    &&& n == image_words(image@).len() - 1
                    &&& final(self)@ == (Machine {
                        mem: loaded(old(self)@.mem, image_words(image@)),
                        ..old(self)@
                    })
                },
                Err(ImageError::BadHeader) => {
                    &&& !header_ok(image@)
                    &&& final(self)@ == old(self)@
                },
            },
    {
        self.mem.load_image(image)
    }

    /// X[i].
    pub fn reg_x(&self, i: usize) -> (r: u16)
        requires
            self.wf(),
            i < 16,
        ensures
            r == self@.x[i as int],
    {
        self.primary_regfile[i]
    }

    /// Y[i].
    pub fn reg_y(&self, i: usize) -> (r: u16)
        requires
            self.wf(),
            i < 16,
        ensures
            r == self@.y[i as int],
    {
        self.secondary_regfile[i]
    }

    /// Sets X[i].
    pub fn set_reg_x(&mut self, i: usize, v: u16)
        requires
            old(self).wf(),
            i < 16,
        ensures
            final(self).wf(),
            final(self)@ == put_x(old(self)@, i as int, v),
    {
        self.set_x(i, v);
    }

    /// Sets Y[i].
    pub fn set_reg_y(&mut self, i: usize, v: u16)
        requires
            old(self).wf(),
            i < 16,
        ensures
            final(self).wf(),
            final(self)@ == put_y(old(self)@, i as int, v),
    {
        self.set_y(i, v);
    }

    /// IP.
    pub fn reg_ip(&self) -> (r: u16)
        ensures
            r == self@.ip,
    {
        self.reg_ip
    }

    /// Sets IP.
    pub fn set_reg_ip(&mut self, v: u16)
        ensures
            final(self)@ == crate::isa::put_ip(old(self)@, v),
    {
        self.reg_ip = v;
    }

    /// JP.
    pub fn reg_jp(&self) -> (r: u16)
        ensures
            r == self@.jp,
    {
        self.reg_jp
    }

    /// RF.
    pub fn reg_rf(&self) -> (r: u16)
        ensures
            r == self@.rf,
    {
        self.reg_rf
    }

    /// Sets RF.
    pub fn set_reg_rf(&mut self, v: u16)
        ensures
            final(self)@ == crate::isa::put_rf(old(self)@, v),
    {
        self.reg_rf = v;
    }

    /// Whether the skip latch is set.
    pub fn skip_pending(&self) -> (r: bool)
        ensures
            r == self@.skip,
    {
        self.skip
    }

    /// Whether the halt bit of ST is set.
    pub fn halted(&self) -> (r: bool)
        ensures
            r == bit_of(self@.st, crate::isa::HALT_BIT),
    {
        self.st_bit(crate::isa::HALT_BIT)
    }

    /// The memory word at `addr`.
    pub fn peek(&self, addr: u16) -> (r: u16)
        requires
            self.wf(),
        ensures
            r == self@.mem[addr as int],
    {
        self.mem.word(addr)
    }

    /// Stores `val` at `addr`.
    pub fn poke(&mut self, addr: u16, val: u16)
        requires
            old(self).wf(),
        ensures
            final(self).wf(),
            final(self)@ == (Machine { mem: old(self)@.mem.update(addr as int, val), ..old(self)@ }),
    {
        self.mem.set_word(addr, val);
    }

    /// X[i].
    fn xr(&self, i: usize) -> (r: u16)
        requires
            self.wf(),
            i < 16,
        ensures
            r == self@.x[i as int],
    {
        self.primary_regfile[i]
    }

    /// Y[i].
    fn yr(&self, i: usize) -> (r: u16)
        requires
            self.wf(),
            i < 16,
        ensures
            r == self@.y[i as int],
    {
        self.secondary_regfile[i]
    }

    /// X[i] <- v.
    fn set_x(&mut self, i: usize, v: u16)
        requires
            old(self).wf(),
            i < 16,
        ensures
            final(self).wf(),
            final(self)@ == put_x(old(self)@, i as int, v),
    {
        self.primary_regfile.set(i, v);
    }

    /// Y[i] <- v.
    fn set_y(&mut self, i: usize, v: u16)
        requires
            old(self).wf(),
            i < 16,
        ensures
            final(self).wf(),
            final(self)@ == put_y(old(self)@, i as int, v),
    {
        self.secondary_regfile.set(i, v);
    }

    /// Reads the immediate at IP and moves IP past it.
    fn get_imx(&mut self) -> (r: u16)
        requires
            old(self).wf(),
        ensures
            final(self).wf(),
            r == imm_at(old(self)@),
            final(self)@ == skip_imm(old(self)@),
    {
        let ip = self.reg_ip;
        self.reg_ip = inc16(ip);
        self.mem.word(ip)
    }

    /// Keeps the low 12 bits of ST and writes N, V, C, Z to bits 15..12.
    fn set_flags(&mut self, n: bool, v: bool, c: bool, z: bool)
        requires
            old(self).wf(),
        ensures
            final(self).wf(),
            final(self)@ == put_st(old(self)@, with_flags(old(self)@.st, n, v, c, z)),
    {
        let mut flags: u16 = self.reg_st % 4096;
        if z {
            flags = flags + 0x1000;
        }
        if c {
            flags = flags + 0x2000;
        }
        if v {
            flags = flags + 0x4000;
        }
        if n {
            flags = flags + 0x8000;
        }
        self.reg_st = flags;
    }

    /// Status bit `k` of ST.
    fn st_bit(&self, k: u16) -> (r: bool)
        requires
            k < 16,
        ensures
            r == bit_of(self@.st, k),
    {
        bit16(self.reg_st, k)
    }

    /// The branch condition `opcode & 7` on ST.
    fn eval_cond(&self, opcode: u16) -> (r: bool)
        ensures
            r == cond_holds(self@.st, opcode),
    {
        let code = opcode % 8;
        if code == 0 {
            self.st_bit(C_BIT)
        } else if code == 1 {
            self.st_bit(V_BIT)
        } else if code == 2 {
            self.st_bit(Z_BIT)
        } else if code == 3 {
            !self.st_bit(Z_BIT)
        } else if code == 4 {
            !self.st_bit(C_BIT)
        } else if code == 5 {
            !self.st_bit(C_BIT) || self.st_bit(Z_BIT)
        } else if code == 6 {
            (self.st_bit(N_BIT) != self.st_bit(V_BIT)) || self.st_bit(Z_BIT)
        } else {
            false
        }
    }

    /// The proposition `opcode & 7` on `regval` and RF.
    fn eval_prop(&self, opcode: u16, regval: u16) -> (r: bool)
        ensures
            r == prop_holds(self@.rf, opcode, regval),
    {
        let code = opcode % 8;
        proof {
            assert(((regval & 0x8000) != 0) == bit_of(regval, 15) && ((regval & 1) != 0) == bit_of(
                regval,
                0,
            )) by (bit_vector);
        }
        if code == 0 {
            regval == 0
        } else if code == 1 {
            regval == self.reg_rf
        } else if code == 2 {
            (regval & 0x8000) != 0
        } else if code == 3 {
            (regval & 1) != 0
        } else if code == 4 {
            regval != 0
        } else if code == 5 {
            regval != self.reg_rf
        } else if code == 6 {
            (regval & 0x8000) == 0
        } else {
            (regval & 1) == 0
        }
    }

    /// Runs the defined opcode `opcode` of `iw`, with IP already past `iw`.
    fn exec_opcode(&mut self, opcode: u16, iw: u16)
        requires
            old(self).wf(),
            opcode == opc_of(iw),
            defined_op(opcode),
            160 <= opcode <= 175 ==> old(self)@.io.term_in.len() >= input_needed(imh_of(iw)),
        ensures
            final(self).wf(),
            final(self)@ == execute(old(self)@, iw),
    {
        if opcode <= 12 {
            self.exec_regs(iw);
        } else if opcode <= 14 || (192 <= opcode && opcode <= 223) || opcode >= 240 {
            self.exec_flow(iw);
        } else if opcode <= 63 {
            self.exec_pred(iw);
        } else if opcode <= 77 {
            self.exec_arith(iw);
        } else if opcode <= 79 {
            self.exec_perm(iw);
        } else if opcode <= 85 {
            self.exec_mul(iw);
        } else if opcode <= 95 {
            self.exec_logic(iw);
        } else if opcode <= 107 {
            self.exec_bits(iw);
        } else if opcode <= 119 {
            self.exec_shift(iw);
        } else if opcode <= 123 {
            self.exec_rfbits(iw);
        } else if opcode <= 127 || opcode >= 224 {
            self.exec_mem(iw);
        } else if opcode <= 159 {
            self.exec_imm(iw);
        } else {
            self.exec_port(iw);
        }
    }

    /// One step. With the skip latch set, the word at IP is dropped, with the
    /// immediate after it when its opcode takes one, and the latch clears.
    /// Otherwise the instruction runs and X[0] is cleared after it. A step
    /// that meets an undefined opcode, or a port read whose terminal bytes
    /// have not arrived, changes nothing and says why.
    pub fn exec(&mut self) -> (r: Result<(), StepError>)
        requires
            old(self).wf(),
        ensures
            final(self).wf(),
            match r {
                Ok(()) => {
                    &&& !faults(old(self)@)
                    &&& !starved(old(self)@)
                    &&& final(self)@ == step(old(self)@)
                },
                Err(StepError::UnknownOpcode { opcode, word }) => {
                    &&& faults(old(self)@)
                    &&& word == fetch(old(self)@)
                    &&& opcode == opc_of(word)
                    &&& final(self)@ == old(self)@
                },
                Err(StepError::AwaitingInput { port }) => {
                    &&& starved(old(self)@)
                    &&& port == imh_of(fetch(old(self)@))
                    &&& final(self)@ == old(self)@
                },
            },
    {
        let instr_word = self.mem.word(self.reg_ip);
        let opcode = get_opc(instr_word);
        if self.skip {
            self.reg_ip = inc16(self.reg_ip);
            if is_double_word(opcode) {
                self.reg_ip = inc16(self.reg_ip);
            }
            self.skip = false;
            return Ok(());
        }
        if !is_defined(opcode) {
            return Err(StepError::UnknownOpcode { opcode, word: instr_word });
        }
        if 160 <= opcode && opcode <= 175 {
            let port = get_imh(instr_word);
            if !self.io_space.can_read(port) {
                return Err(StepError::AwaitingInput { port });
            }
        }
        self.reg_ip = inc16(self.reg_ip);
        self.exec_opcode(opcode, instr_word);
        self.set_x(0, 0);
        Ok(())
    }
}

} // verus!
