//! The architectural state as plain values, and what one step does to it.

use crate::io::{after_read, after_write, input_needed, read_value, Ports};
use crate::word::{bit_of, put_bit, carry_of, dst_of, iml_of, imh_of, low16, neg_of, opc_of, ovf_of, src_of, sxt8_of, zero_of};
use vstd::prelude::*;

verus! {

/// The whole machine: both register files, the special registers, the skip
/// latch, the memory and the ports.
pub struct Machine {
    pub x: Seq<u16>,
    pub y: Seq<u16>,
    pub ip: u16,
    pub jp: u16,
    pub rf: u16,
    pub st: u16,
    pub skip: bool,
    pub mem: Seq<u16>,
    pub io: Ports,
}

/// Status-register bit of the halt flag.
pub const HALT_BIT: u16 = 0;

/// Status-register bit of the zero flag.
pub const Z_BIT: u16 = 12;

/// Status-register bit of the carry flag.
pub const C_BIT: u16 = 13;

/// Status-register bit of the overflow flag.
pub const V_BIT: u16 = 14;

/// Status-register bit of the negative flag.
pub const N_BIT: u16 = 15;

pub open spec fn z_flag(st: u16) -> bool {
    bit_of(st, Z_BIT)
}

pub open spec fn c_flag(st: u16) -> bool {
    bit_of(st, C_BIT)
}

pub open spec fn v_flag(st: u16) -> bool {
    bit_of(st, V_BIT)
}

pub open spec fn n_flag(st: u16) -> bool {
    bit_of(st, N_BIT)
}

/// `st` with its low 12 bits kept and N, V, C, Z written to bits 15..12.
pub open spec fn with_flags(st: u16, n: bool, v: bool, c: bool, z: bool) -> u16 {
    (st % 0x1000 + (if z { 0x1000int } else { 0 }) + (if c { 0x2000int } else { 0 }) + (if v {
        0x4000int
    } else {
        0
    }) + (if n { 0x8000int } else { 0 })) as u16
}

/// A 16-bit word read as two's complement.
pub open spec fn signed16(v: u16) -> int {
    if v >= 0x8000 {
        v - 0x10000
    } else {
        v as int
    }
}

/// `v` shifted right by `k`, with its bit 15 copied into the vacated bits.
pub open spec fn sar16(v: u16, k: u16) -> u16 {
    if bit_of(v, 15) {
        (v >> k) | !(0xFFFFu16 >> k)
    } else {
        v >> k
    }
}

/// Branch conditions on the status register, by the low 3 bits of `code`.
pub open spec fn cond_holds(st: u16, code: u16) -> bool {
    let k = code % 8;
    if k == 0 {
        c_flag(st)
    } else if k == 1 {
        v_flag(st)
    } else if k == 2 {
        z_flag(st)
    } else if k == 3 {
        !z_flag(st)
    } else if k == 4 {
        !c_flag(st)
    } else if k == 5 {
        !c_flag(st) || z_flag(st)
    } else if k == 6 {
        (n_flag(st) != v_flag(st)) || z_flag(st)
    } else {
        false
    }
}

/// Propositions on a register value and RF, by the low 3 bits of `code`.
pub open spec fn prop_holds(rf: u16, code: u16, v: u16) -> bool {
    let k = code % 8;
    if k == 0 {
        v == 0
    } else if k == 1 {
        v == rf
    } else if k == 2 {
        bit_of(v, 15)
    } else if k == 3 {
        bit_of(v, 0)
    } else if k == 4 {
        v != 0
    } else if k == 5 {
        v != rf
    } else if k == 6 {
        !bit_of(v, 15)
    } else {
        !bit_of(v, 0)
    }
}

/// The opcode has a meaning; 109 and 248..=255 have none.
pub open spec fn defined_op(op: u16) -> bool {
    op != 109 && op < 248
}

/// The opcode takes the word after it as an immediate.
pub open spec fn double_word(op: u16) -> bool {
    ||| op == 14
    ||| op == 66
    ||| op == 67
    ||| op == 78
    ||| op == 79
    ||| (81 <= op <= 95 && op % 2 == 1)
    ||| op == 125
    ||| op == 127
    ||| 208 <= op <= 223
    ||| 228 <= op <= 231
    ||| 236 <= op <= 239
}

/// A 16-bit increment that wraps.
pub open spec fn inc(v: u16) -> u16 {
    low16(v + 1)
}

pub open spec fn put_x(m: Machine, i: int, v: u16) -> Machine {
    Machine { x: m.x.update(i, v), ..m }
}

pub open spec fn put_y(m: Machine, i: int, v: u16) -> Machine {
    Machine { y: m.y.update(i, v), ..m }
}

pub open spec fn put_st(m: Machine, st: u16) -> Machine {
    Machine { st, ..m }
}

pub open spec fn put_rf(m: Machine, rf: u16) -> Machine {
    Machine { rf, ..m }
}

pub open spec fn put_ip(m: Machine, ip: u16) -> Machine {
    Machine { ip, ..m }
}

/// The word at IP, the immediate of a double-word instruction.
pub open spec fn imm_at(m: Machine) -> u16 {
    m.mem[m.ip as int]
}

/// Past the immediate.
pub open spec fn skip_imm(m: Machine) -> Machine {
    put_ip(m, inc(m.ip))
}

/// The flags that a result sets when it leaves V and C clear.
pub open spec fn nz_flags(st: u16, r: u16) -> u16 {
    with_flags(st, neg_of(r as int), false, false, r == 0)
}

/// Opcodes 0..=12: status toggle, register moves, special registers.
pub open spec fn regs_effect(m: Machine, iw: u16) -> Machine {
    let op = opc_of(iw);
    let d = dst_of(iw) as int;
    let s = src_of(iw) as int;
    if op == 0 {
        put_st(m, m.st ^ (1u16 << src_of(iw)))
    } else if op == 1 {
        put_x(m, d, m.x[s])
    } else if op == 2 {
        put_y(m, d, m.x[s])
    } else if op == 3 {
        put_x(m, d, m.y[s])
    } else if op == 4 {
        put_y(m, d, m.y[s])
    } else if op == 5 {
        put_st(m, m.x[s])
    } else if op == 6 {
        put_x(m, d, m.st)
    } else if op == 7 {
        put_rf(m, m.x[s])
    } else if op == 8 {
        put_x(m, d, m.rf)
    } else if op == 9 {
        Machine { jp: m.x[s], ..m }
    } else if op == 10 {
        put_x(m, d, m.jp)
    } else if op == 11 {
        put_ip(m, m.jp)
    } else {
        put_x(m, d, low16(m.ip + src_of(iw)))
    }
}

/// IP moved by a sign-extended byte offset, less one.
pub open spec fn rel_target(ip: u16, iw: u16) -> u16 {
    low16(ip + sxt8_of(iml_of(iw)) - 1)
}

/// Jumps and branches: 13, 14, 192..=223 and 240..=247.
pub open spec fn flow_effect(m: Machine, iw: u16) -> Machine {
    let op = opc_of(iw);
    let d = dst_of(iw) as int;
    let s = src_of(iw) as int;
    if op == 13 {
        put_ip(m, rel_target(m.ip, iw))
    } else if op == 14 {
        let m1 = put_x(m, d, inc(m.ip));
        put_ip(m1, low16(m1.x[s] + imm_at(m1)))
    } else if 192 <= op <= 199 {
        if cond_holds(m.st, op) {
            put_ip(m, m.x[s])
        } else {
            m
        }
    } else if 200 <= op <= 207 {
        if prop_holds(m.rf, op, m.x[d]) {
            put_ip(m, m.x[s])
        } else {
            m
        }
    } else if 208 <= op <= 215 {
        if cond_holds(m.st, op) {
            put_ip(m, low16(m.x[s] + imm_at(m)))
        } else {
            skip_imm(m)
        }
    } else if 216 <= op <= 223 {
        if prop_holds(m.rf, op, m.x[d]) {
            put_ip(m, low16(m.x[s] + imm_at(m)))
        } else {
            skip_imm(m)
        }
    } else {
        if cond_holds(m.st, op) {
            put_ip(m, rel_target(m.ip, iw))
        } else {
            m
        }
    }
}

/// Predication and RF bit updates: 15..=63.
pub open spec fn pred_effect(m: Machine, iw: u16) -> Machine {
    let op = opc_of(iw);
    let d = dst_of(iw) as int;
    let k = src_of(iw);
    if op == 15 {
        Machine { skip: !bit_of(m.rf, k), ..m }
    } else if op <= 23 {
        Machine { skip: !cond_holds(m.st, op), ..m }
    } else if op <= 31 {
        Machine { skip: !prop_holds(m.rf, op, m.x[d]), ..m }
    } else if op <= 39 {
        if cond_holds(m.st, op) {
            m
        } else {
            put_rf(m, put_bit(m.rf, k, false))
        }
    } else if op <= 47 {
        if prop_holds(m.rf, op, m.x[d]) {
            m
        } else {
            put_rf(m, put_bit(m.rf, k, false))
        }
    } else if op <= 55 {
        if cond_holds(m.st, op) {
            put_rf(m, put_bit(m.rf, k, true))
        } else {
            m
        }
    } else {
        if prop_holds(m.rf, op, m.x[d]) {
            put_rf(m, put_bit(m.rf, k, true))
        } else {
            m
        }
    }
}

/// Add and subtract opcodes whose destination is in the Y file.
pub open spec fn arith_on_y(op: u16) -> bool {
    op == 65 || op == 67 || op == 69 || op == 72 || op == 74 || op == 77
}

/// The first operand of an add or subtract.
pub open spec fn arith_a(m: Machine, iw: u16) -> u16 {
    if arith_on_y(opc_of(iw)) {
        m.y[dst_of(iw) as int]
    } else {
        m.x[dst_of(iw) as int]
    }
}

/// The second operand of an add or subtract.
pub open spec fn arith_b(m: Machine, iw: u16) -> u16 {
    let op = opc_of(iw);
    if op == 66 || op == 67 {
        imm_at(m)
    } else if op == 68 || op == 69 || op == 73 || op == 74 {
        src_of(iw)
    } else if op == 77 {
        m.y[src_of(iw) as int]
    } else {
        m.x[src_of(iw) as int]
    }
}

/// The wide result of an add or subtract, before it is cut to 16 bits.
pub open spec fn arith_sum(m: Machine, iw: u16) -> int {
    let op = opc_of(iw);
    let a = arith_a(m, iw) as int;
    let b = arith_b(m, iw) as int;
    let c: int = if c_flag(m.st) { 1 } else { 0 };
    if op == 68 || op == 69 {
        a + b + 1
    } else if op == 70 {
        a + b + c
    } else if op <= 70 {
        a + b
    } else if op == 75 {
        a - b - (1 - c)
    } else {
        a - b
    }
}

/// Adds, subtracts and compares: 64..=77.
pub open spec fn arith_effect(m: Machine, iw: u16) -> Machine {
    let op = opc_of(iw);
    let d = dst_of(iw) as int;
    let a = arith_a(m, iw) as int;
    let b = arith_b(m, iw) as int;
    let sum = arith_sum(m, iw);
    let st = with_flags(m.st, neg_of(sum), ovf_of(a, b, sum), carry_of(sum), zero_of(sum));
    let m1 = put_st(
        if op == 66 || op == 67 {
            skip_imm(m)
        } else {
            m
        },
        st,
    );
    if op == 76 || op == 77 {
        m1
    } else if arith_on_y(op) {
        put_y(m1, d, low16(sum))
    } else {
        put_x(m1, d, low16(sum))
    }
}

/// A nibble reversed end for end.
pub open spec fn rev4(n: u16) -> u16 {
    ((n & 1) << 3u16) | ((n & 2) << 1u16) | ((n >> 1u16) & 2) | ((n >> 3u16) & 1)
}

/// One output nibble of PEN: the low 2 bits of `op` pick a nibble of `v`,
/// the high 2 bits keep it, invert it, reverse it, or give a constant.
pub open spec fn pen_nibble(v: u16, op: u16) -> u16 {
    let n = (v >> ((op & 3) * 4)) & 15;
    let f = (op >> 2u16) & 3;
    if f == 0 {
        n
    } else if f == 1 {
        n ^ 15
    } else if f == 2 {
        rev4(n)
    } else if op & 1 == 1 {
        15
    } else {
        0
    }
}

/// The PEN result: nibble `k` comes from bits `4k..4k+3` of `imm`.
pub open spec fn pen_word(v: u16, imm: u16) -> u16 {
    pen_nibble(v, imm & 15) | (pen_nibble(v, (imm >> 4u16) & 15) << 4u16) | (pen_nibble(
        v,
        (imm >> 8u16) & 15,
    ) << 8u16) | (pen_nibble(v, (imm >> 12u16) & 15) << 12u16)
}

/// One output bit of PEB: the low 2 bits of `op` pick a bit of `n`, bit 2
/// inverts it.
pub open spec fn peb_bit(n: u16, op: u16) -> u16 {
    ((n >> (op & 3)) & 1) ^ ((op >> 2u16) & 1)
}

/// The PEB result: the nibble of `v` at `4 * imm[15:14]` is permuted bit by
/// bit as `imm[11:0]` says and stored over the nibble at `4 * imm[13:12]`.
pub open spec fn peb_word(v: u16, imm: u16) -> u16 {
    let si = ((imm >> 14u16) & 3) * 4;
    let di = ((imm >> 12u16) & 3) * 4;
    let n = (v >> si) & 15;
    let out = peb_bit(n, imm & 7) | (peb_bit(n, (imm >> 3u16) & 7) << 1u16) | (peb_bit(
        n,
        (imm >> 6u16) & 7,
    ) << 2u16) | (peb_bit(n, (imm >> 9u16) & 7) << 3u16);
    (v & !(15u16 << di)) | (out << di)
}

/// Nibble and bit permutations: 78 and 79.
pub open spec fn perm_effect(m: Machine, iw: u16) -> Machine {
    let v = m.x[src_of(iw) as int];
    let r = if opc_of(iw) == 78 {
        pen_word(v, imm_at(m))
    } else {
        peb_word(v, imm_at(m))
    };
    put_x(put_st(skip_imm(m), nz_flags(m.st, r)), dst_of(iw) as int, r)
}

/// Multiplies: 80..=85. Even opcodes multiply X[dst] by X[src], odd ones
/// X[src] by the immediate.
pub open spec fn mul_effect(m: Machine, iw: u16) -> Machine {
    let op = opc_of(iw);
    let d = dst_of(iw) as int;
    let s = src_of(iw) as int;
    let a = if op % 2 == 0 {
        m.x[d]
    } else {
        m.x[s]
    };
    let b = if op % 2 == 0 {
        m.x[s]
    } else {
        imm_at(m)
    };
    let m1 = if op % 2 == 0 {
        m
    } else {
        skip_imm(m)
    };
    if op <= 81 {
        let p = a as int * b as int;
        put_x(
            put_st(m1, with_flags(m.st, neg_of(p), p >= 0x10000, false, zero_of(p))),
            d,
            low16(p),
        )
    } else {
        let h = if op <= 83 {
            low16((a as int * b as int) / 0x10000)
        } else {
            low16((signed16(a) * signed16(b)) / 0x10000)
        };
        put_x(put_st(m1, nz_flags(m.st, h)), d, h)
    }
}

/// Bitwise logic: 86..=95, in pairs AND, NAND, OR, NOR, XOR. Even opcodes
/// combine X[dst] with X[src], odd ones X[src] with the immediate.
pub open spec fn logic_effect(m: Machine, iw: u16) -> Machine {
    let op = opc_of(iw);
    let d = dst_of(iw) as int;
    let s = src_of(iw) as int;
    let a = if op % 2 == 0 {
        m.x[d]
    } else {
        m.x[s]
    };
    let b = if op % 2 == 0 {
        m.x[s]
    } else {
        imm_at(m)
    };
    let m1 = if op % 2 == 0 {
        m
    } else {
        skip_imm(m)
    };
    let r = if op <= 87 {
        a & b
    } else if op <= 89 {
        !(a & b)
    } else if op <= 91 {
        a | b
    } else if op <= 93 {
        !(a | b)
    } else {
        a ^ b
    };
    put_x(put_st(m1, nz_flags(m.st, r)), d, r)
}

/// The bit position of a bit opcode: X[src] & 15 for even opcodes, the
/// nibble immediate for odd ones.
pub open spec fn bit_pos(m: Machine, iw: u16) -> u16 {
    if opc_of(iw) % 2 == 0 {
        m.x[src_of(iw) as int] & 15
    } else {
        src_of(iw)
    }
}

/// Single-bit operations on X[dst] and RF: 96..=107.
pub open spec fn bits_effect(m: Machine, iw: u16) -> Machine {
    let op = opc_of(iw);
    let d = dst_of(iw) as int;
    let k = bit_pos(m, iw);
    if op <= 97 {
        put_st(m, with_flags(m.st, false, false, bit_of(m.x[d], k), false))
    } else if op <= 99 {
        put_x(m, d, put_bit(m.x[d], k, c_flag(m.st)))
    } else if op <= 101 {
        put_x(m, d, m.x[d] ^ (1u16 << k))
    } else if op <= 103 {
        put_st(m, with_flags(m.st, false, false, bit_of(m.rf, k), false))
    } else if op <= 105 {
        put_rf(m, put_bit(m.rf, k, c_flag(m.st)))
    } else {
        put_x(
            m,
            d,
            if bit_of(m.rf, k) {
                0xFFFF
            } else {
                0
            },
        )
    }
}

/// Shifts and rotates: 108 and 110..=119.
pub open spec fn shift_effect(m: Machine, iw: u16) -> Machine {
    let op = opc_of(iw);
    let d = dst_of(iw) as int;
    let s = src_of(iw) as int;
    let k = if op % 2 == 0 {
        m.x[s] & 15
    } else {
        src_of(iw)
    };
    let c = c_flag(m.st);
    if op == 108 {
        let r = sar16(m.x[s], 1);
        put_x(put_st(m, with_flags(m.st, neg_of(r as int), false, bit_of(m.x[s], 0), r == 0)), d, r)
    } else if op <= 111 {
        let r = sar16(m.x[d], k);
        put_x(put_st(m, nz_flags(m.st, r)), d, r)
    } else if op == 112 || op == 113 {
        let r = (m.x[s] >> 1u16) | (if op == 113 && c {
            0x8000u16
        } else {
            0
        });
        put_x(put_st(m, with_flags(m.st, neg_of(r as int), false, bit_of(m.x[s], 0), r == 0)), d, r)
    } else if op <= 115 {
        let r = m.x[d] >> k;
        put_x(put_st(m, nz_flags(m.st, r)), d, r)
    } else if op <= 117 {
        let w = m.x[s] * 2 + (if op == 117 && c {
            1int
        } else {
            0
        });
        put_x(
            put_st(m, with_flags(m.st, neg_of(w), false, carry_of(w), zero_of(w))),
            d,
            low16(w),
        )
    } else {
        let r = m.x[d] << k;
        put_x(put_st(m, nz_flags(m.st, r)), d, r)
    }
}

/// RF bit to RF bit: copy, negate, clear when clear, set when set (120..=123).
pub open spec fn rfbits_effect(m: Machine, iw: u16) -> Machine {
    let op = opc_of(iw);
    let from = bit_of(m.rf, src_of(iw));
    let to = dst_of(iw);
    if op == 120 {
        put_rf(m, put_bit(m.rf, to, from))
    } else if op == 121 {
        put_rf(m, put_bit(m.rf, to, !from))
    } else if op == 122 {
        if from {
            m
        } else {
            put_rf(m, put_bit(m.rf, to, false))
        }
    } else {
        if from {
            put_rf(m, put_bit(m.rf, to, true))
        } else {
            m
        }
    }
}

/// Loads and stores: 124..=127 through X, 224..=239 through Y.
pub open spec fn mem_effect(m: Machine, iw: u16) -> Machine {
    let op = opc_of(iw);
    let d = dst_of(iw) as int;
    let s = src_of(iw) as int;
    if op <= 127 {
        let m1 = if op % 2 == 1 {
            skip_imm(m)
        } else {
            m
        };
        let addr = if op % 2 == 1 {
            low16(m.x[s] + imm_at(m))
        } else {
            m.x[s]
        };
        if op <= 125 {
            put_x(m1, d, m.mem[addr as int])
        } else {
            Machine { mem: m.mem.update(addr as int, m.x[d]), ..m1 }
        }
    } else {
        let mode = op % 4;
        let with_imm = (op / 4) % 2 == 1;
        let base = m.y[s];
        let y1 = if mode == 1 {
            low16(base - 1)
        } else if mode == 0 {
            base
        } else {
            inc(base)
        };
        let eff = if mode == 1 || mode == 3 {
            y1
        } else {
            base
        };
        let addr = if with_imm {
            low16(eff + imm_at(m))
        } else {
            eff
        };
        let m1 = put_y(
            if with_imm {
                skip_imm(m)
            } else {
                m
            },
            s,
            y1,
        );
        if op <= 231 {
            put_x(m1, d, m.mem[addr as int])
        } else {
            Machine { mem: m.mem.update(addr as int, m.x[d]), ..m1 }
        }
    }
}

/// Byte immediates: LSI (128..=143) and LUI (144..=159).
pub open spec fn imm_effect(m: Machine, iw: u16) -> Machine {
    let d = dst_of(iw) as int;
    if opc_of(iw) <= 143 {
        put_x(m, d, sxt8_of(imh_of(iw)))
    } else {
        put_x(m, d, (m.x[d] & 0xFF) | (imh_of(iw) << 8u16))
    }
}

/// Port input (160..=175) and output (176..=191).
pub open spec fn port_effect(m: Machine, iw: u16) -> Machine {
    let d = dst_of(iw) as int;
    let loc = imh_of(iw);
    if opc_of(iw) <= 175 {
        put_x(Machine { io: after_read(m.io, loc), ..m }, d, read_value(m.io, loc))
    } else {
        Machine { io: after_write(m.io, loc, m.x[d]), ..m }
    }
}

/// What a defined opcode does, once its word has been fetched and IP
/// advanced past it.
pub open spec fn execute(m: Machine, iw: u16) -> Machine {
    let op = opc_of(iw);
    if op <= 12 {
        regs_effect(m, iw)
    } else if op <= 14 || (192 <= op <= 223) || op >= 240 {
        flow_effect(m, iw)
    } else if op <= 63 {
        pred_effect(m, iw)
    } else if op <= 77 {
        arith_effect(m, iw)
    } else if op <= 79 {
        perm_effect(m, iw)
    } else if op <= 85 {
        mul_effect(m, iw)
    } else if op <= 95 {
        logic_effect(m, iw)
    } else if op <= 107 {
        bits_effect(m, iw)
    } else if op <= 119 {
        shift_effect(m, iw)
    } else if op <= 123 {
        rfbits_effect(m, iw)
    } else if op <= 127 || op >= 224 {
        mem_effect(m, iw)
    } else if op <= 159 {
        imm_effect(m, iw)
    } else {
        port_effect(m, iw)
    }
}

/// The instruction word at IP.
pub open spec fn fetch(m: Machine) -> u16 {
    m.mem[m.ip as int]
}

/// The step would execute an undefined opcode.
pub open spec fn faults(m: Machine) -> bool {
    !m.skip && !defined_op(opc_of(fetch(m)))
}

/// The step would read terminal bytes that have not arrived.
pub open spec fn starved(m: Machine) -> bool {
    let iw = fetch(m);
    &&& !m.skip
    &&& 160 <= opc_of(iw) <= 175
    &&& m.io.term_in.len() < input_needed(imh_of(iw))
}

/// One step: fetch the word at IP; with the skip latch set, drop it (and the
/// immediate of a double-word opcode) and clear the latch; otherwise execute
/// it and clear X[0].
pub open spec fn step(m: Machine) -> Machine {
    let iw = fetch(m);
    let m1 = put_ip(m, inc(m.ip));
    if m.skip {
        Machine {
            skip: false,
            ip: if double_word(opc_of(iw)) {
                inc(m1.ip)
            } else {
                m1.ip
            },
            ..m1
        }
    } else {
        put_x(execute(m1, iw), 0, 0)
    }
}

/// A machine whose parts have the sizes the hardware gives them.
pub open spec fn machine_wf(m: Machine) -> bool {
    &&& m.x.len() == 16
    &&& m.y.len() == 16
    &&& m.mem.len() == 0x10000
}

} // verus!
