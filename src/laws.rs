//! Properties of the instruction set that hold of every state, proved from
//! the step semantics that the interpreter is verified against.

use crate::isa::{
    arith_a, arith_b, arith_sum, c_flag, double_word, execute, fetch, inc, machine_wf, n_flag,
    put_ip, step, v_flag, with_flags, z_flag, Machine,
};
use crate::word::{bit_of, imh_of, low16, neg_of, opc_of, ovf_of, src_of, dst_of, zero_of};
use vstd::prelude::*;

verus! {

/// The flag bits of `with_flags` read back as written, and the other bits
/// of the status register are kept.
pub proof fn lemma_flag_bits(st: u16, n: bool, v: bool, c: bool, z: bool)
    ensures
        z_flag(with_flags(st, n, v, c, z)) == z,
        c_flag(with_flags(st, n, v, c, z)) == c,
        v_flag(with_flags(st, n, v, c, z)) == v,
        n_flag(with_flags(st, n, v, c, z)) == n,
        with_flags(st, n, v, c, z) % 0x1000 == st % 0x1000,
{
    assert({
        let g = (st % 0x1000 + (if z { 0x1000u16 } else { 0 }) + (if c { 0x2000u16 } else { 0 })
            + (if v { 0x4000u16 } else { 0 }) + (if n { 0x8000u16 } else { 0 })) as u16;
        &&& bit_of(g, 12) == z
        &&& bit_of(g, 13) == c
        &&& bit_of(g, 14) == v
        &&& bit_of(g, 15) == n
        &&& g % 0x1000 == st % 0x1000
    }) by (bit_vector);
}

/// Bit 15 of a word is set exactly when the word is at least 0x8000.
pub proof fn lemma_bit15(v: u16)
    by (bit_vector)
    ensures
        bit_of(v, 15) == (v >= 0x8000),
{
}

/// Every step that executes an instruction leaves X[0] at zero.
pub proof fn law_zero_sink(m: Machine)
    requires
        machine_wf(m),
        !m.skip,
    ensures
        step(m).x[0] == 0,
{
}

/// Every register of the files holds a value in `0..=0xFFFF` after a step.
pub proof fn law_registers_in_range(m: Machine)
    requires
        machine_wf(m),
    ensures
        forall|i: int| 0 <= i < 16 ==> 0 <= #[trigger] step(m).x[i] <= 0xFFFF,
        forall|i: int| 0 <= i < 16 ==> 0 <= #[trigger] step(m).y[i] <= 0xFFFF,
{
}

/// After an add, subtract or compare (opcodes 64..=77), Z says whether the
/// low 16 bits of the result are zero and N is bit 15 of the result.
pub proof fn law_arith_zn(m: Machine, iw: u16)
    requires
        machine_wf(m),
        64 <= opc_of(iw) <= 77,
    ensures
        z_flag(execute(m, iw).st) == (low16(arith_sum(m, iw)) == 0),
        n_flag(execute(m, iw).st) == bit_of(low16(arith_sum(m, iw)), 15),
{
    let sum = arith_sum(m, iw);
    let a = arith_a(m, iw) as int;
    let b = arith_b(m, iw) as int;
    lemma_flag_bits(m.st, neg_of(sum), ovf_of(a, b, sum), crate::word::carry_of(sum), zero_of(sum));
    lemma_bit15(low16(sum));
}

/// After an add (opcodes 64..=70), C is the carry out of bit 15 of the
/// unsigned sum and V is the signed-overflow rule: both operands have one
/// sign and the result the other.
pub proof fn law_add_cv(m: Machine, iw: u16)
    requires
        machine_wf(m),
        64 <= opc_of(iw) <= 70,
    ensures
        c_flag(execute(m, iw).st) == (arith_sum(m, iw) >= 0x10000),
        v_flag(execute(m, iw).st) == ovf_of(arith_a(m, iw) as int, arith_b(m, iw) as int, arith_sum(m, iw)),
{
    let sum = arith_sum(m, iw);
    let a = arith_a(m, iw) as int;
    let b = arith_b(m, iw) as int;
    lemma_flag_bits(m.st, neg_of(sum), ovf_of(a, b, sum), crate::word::carry_of(sum), zero_of(sum));
    assert(0 <= sum < 0x20000);
}

/// A set skip latch is spent by exactly one step: that step drops the word
/// at IP, and its immediate when the opcode takes one, changes nothing else
/// and clears the latch. A step that executes starts with the latch clear.
pub proof fn law_skip(m: Machine)
    requires
        machine_wf(m),
    ensures
        m.skip ==> step(m) == (Machine {
            ip: if double_word(opc_of(fetch(m))) {
                inc(inc(m.ip))
            } else {
                inc(m.ip)
            },
            skip: false,
            ..m
        }),
        !m.skip ==> step(m) == crate::isa::put_x(
            execute(put_ip(m, inc(m.ip)), fetch(m)),
            0,
            0,
        ),
{
}

/// The opcodes that may set IP to a target of their own.
pub open spec fn transfers_control(op: u16) -> bool {
    op == 11 || op == 13 || op == 14 || (192 <= op <= 223) || op >= 240
}

/// An instruction that does not transfer control leaves IP past its
/// immediate exactly when its opcode is marked double-word: the skip latch
/// drops the same words that execution reads.
pub proof fn law_immediate_width(m: Machine, iw: u16)
    requires
        machine_wf(m),
        crate::isa::defined_op(opc_of(iw)),
        !transfers_control(opc_of(iw)),
    ensures
        execute(m, iw).ip == if double_word(opc_of(iw)) {
            inc(m.ip)
        } else {
            m.ip
        },
{
}

/// The instruction word with opcode `op`, source field `s` and destination
/// field `d`.
pub open spec fn encode(op: u16, s: u16, d: u16) -> u16 {
    (op * 256 + s * 16 + d) as u16
}

/// LSI into X[d] with byte `b`.
pub open spec fn lsi_word(d: u16, b: u16) -> u16 {
    encode((128 + b / 16) as u16, b % 16, d)
}

/// LUI into X[d] with byte `b`.
pub open spec fn lui_word(d: u16, b: u16) -> u16 {
    encode((144 + b / 16) as u16, b % 16, d)
}

/// The fields of an encoded word read back.
pub proof fn lemma_encode(op: u16, s: u16, d: u16)
    by (bit_vector)
    requires
        op < 256,
        s < 16,
        d < 16,
    ensures
        opc_of(((op * 256 + s * 16 + d) as u16)) == op,
        src_of(((op * 256 + s * 16 + d) as u16)) == s,
        dst_of(((op * 256 + s * 16 + d) as u16)) == d,
        imh_of(((op * 256 + s * 16 + d) as u16)) == (op % 16) * 16 + s,
{
}

/// LSI with the low byte of `w`, then LUI with its high byte, leave `w` in
/// X[d], for any register but the zero sink X[0].
pub proof fn law_lsi_lui(m: Machine, d: u16, w: u16)
    requires
        machine_wf(m),
        !m.skip,
        1 <= d < 16,
        m.mem[m.ip as int] == lsi_word(d, w % 256),
        m.mem[inc(m.ip) as int] == lui_word(d, w / 256),
    ensures
        step(step(m)).x[d as int] == w,
{
    let lo = w % 256;
    let hi = w / 256;
    lemma_encode((128 + lo / 16) as u16, lo % 16, d);
    lemma_encode((144 + hi / 16) as u16, hi % 16, d);
    assert((crate::word::sxt8_of(lo) & 0xFF) | (hi << 8u16) == w) by (bit_vector)
        requires
            lo == w % 256,
            hi == w / 256,
    ;
}

/// STRX stores X[b] at the address in X[a]; LDRX from the same address
/// then gives that value, for an address register other than X[0], a
/// destination other than X[0], and a store that does not hit the LDRX word.
pub proof fn law_store_load(m: Machine, a: u16, b: u16, c: u16)
    requires
        machine_wf(m),
        !m.skip,
        1 <= a < 16,
        b < 16,
        1 <= c < 16,
        m.x[a as int] != inc(m.ip),
        m.mem[m.ip as int] == encode(126, a, b),
        m.mem[inc(m.ip) as int] == encode(124, a, c),
    ensures
        step(step(m)).x[c as int] == m.x[b as int],
{
    lemma_encode(126, a, b);
    lemma_encode(124, a, c);
}

/// MOVXX X[a] <- X[b], then MOVXX X[c] <- X[a], leave X[b] in X[c], for
/// `a` and `c` other than the zero sink X[0].
pub proof fn law_move_chain(m: Machine, a: u16, b: u16, c: u16)
    requires
        machine_wf(m),
        !m.skip,
        1 <= a < 16,
        b < 16,
        1 <= c < 16,
        m.mem[m.ip as int] == encode(1, b, a),
        m.mem[inc(m.ip) as int] == encode(1, a, c),
    ensures
        step(step(m)).x[c as int] == m.x[b as int],
{
    lemma_encode(1, b, a);
    lemma_encode(1, a, c);
}

} // verus!
