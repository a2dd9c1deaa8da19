//! Instruction-word fields, sign extension, bit tests and the flag rules.

use vstd::prelude::*;

verus! {

/// The opcode: bits 15..8 of an instruction word.
pub open spec fn opc_of(w: u16) -> u16 {
    w / 256
}

/// The source field (also the nibble immediate `ims`): bits 7..4.
pub open spec fn src_of(w: u16) -> u16 {
    (w / 16) % 16
}

/// The destination field: bits 3..0.
pub open spec fn dst_of(w: u16) -> u16 {
    w % 16
}

/// The high immediate `imh`: bits 11..4.
pub open spec fn imh_of(w: u16) -> u16 {
    (w / 16) % 256
}

/// The low immediate `iml`: bits 7..0.
pub open spec fn iml_of(w: u16) -> u16 {
    w % 256
}

/// Bit `k` of `v`.
pub open spec fn bit_of(v: u16, k: u16) -> bool {
    (v >> k) & 1 == 1
}

/// An 8-bit value extended to 16 bits by its bit 7.
pub open spec fn sxt8_of(v: u16) -> u16 {
    if v <= 127 {
        v
    } else {
        (v + 0xFF00) as u16
    }
}

/// The low 16 bits of a wide result (two's complement for negative ones).
pub open spec fn low16(v: int) -> u16 {
    (v % 0x10000) as u16
}

/// Bit 15 of a wide result.
pub open spec fn neg_of(v: int) -> bool {
    v % 0x10000 >= 0x8000
}

/// The low 16 bits of a wide result are all clear.
pub open spec fn zero_of(v: int) -> bool {
    v % 0x10000 == 0
}

/// Bit 16 of a wide result: the carry out of bit 15.
pub open spec fn carry_of(v: int) -> bool {
    v % 0x20000 >= 0x10000
}

/// Operands of one sign whose result has the other sign.
pub open spec fn ovf_of(a: int, b: int, sum: int) -> bool {
    neg_of(a) == neg_of(b) && neg_of(a) != neg_of(sum)
}

proof fn lemma_fields(w: u16)
    by (bit_vector)
    ensures
        w >> 8u16 == w / 256,
        (w >> 4u16) & 15 == (w / 16) % 16,
        w & 15 == w % 16,
        (w >> 4u16) & 255 == (w / 16) % 256,
        w & 255 == w % 256,
{
}

/// The opcode of `word`.
pub fn get_opc(word: u16) -> (r: u16)
    ensures
        r == opc_of(word),
        r < 256,
{
    proof {
        lemma_fields(word);
    }
    word >> 8
}

/// The source register index of `word`.
pub fn get_src(word: u16) -> (r: usize)
    ensures
        r == src_of(word),
        r < 16,
{
    proof {
        lemma_fields(word);
    }
    ((word >> 4) & 15) as usize
}

/// The destination register index of `word`.
pub fn get_dst(word: u16) -> (r: usize)
    ensures
        r == dst_of(word),
        r < 16,
{
    proof {
        lemma_fields(word);
    }
    (word & 15) as usize
}

/// The high byte immediate of `word`.
pub fn get_imh(word: u16) -> (r: u16)
    ensures
        r == imh_of(word),
        r < 256,
{
    proof {
        lemma_fields(word);
    }
    (word >> 4) & 255
}

/// The low byte immediate of `word`.
pub fn get_iml(word: u16) -> (r: u16)
    ensures
        r == iml_of(word),
        r < 256,
{
    proof {
        lemma_fields(word);
    }
    word & 255
}

/// The nibble immediate of `word`.
pub fn get_ims(word: u16) -> (r: u16)
    ensures
        r == src_of(word),
        r < 16,
{
    proof {
        lemma_fields(word);
    }
    (word >> 4) & 15
}

/// Sign-extends a byte to a word.
pub fn sxt8(val: u16) -> (r: u16)
    requires
        val <= 255,
    ensures
        r == sxt8_of(val),
        val <= 127 ==> r == val,
        val >= 128 ==> r == 0xFF00 | val,
{
    if val <= 127 {
        val
    } else {
        assert(0xFF00 | val == val + 0xFF00) by (bit_vector)
            requires
                128 <= val <= 255,
        ;
        0xFF00 | val
    }
}

/// Whether bit `pos & 15` of the low 16 bits of `num` is set.
pub fn is_set(num: i32, pos: i32) -> (r: bool)
    ensures
        r == bit_of((num & 0xFFFF) as u16, (pos & 15) as u16),
{
    let n: u32 = (num & 65535) as u32;
    let k: u32 = (pos & 15) as u32;
    proof {
        assert(0 <= num & 65535 <= 65535 && 0 <= pos & 15 <= 15) by (bit_vector);
    }
    let r = (n & (1u32 << k)) != 0;
    assert(r == bit_of(n as u16, k as u16)) by (bit_vector)
        requires
            r == ((n & (1u32 << k)) != 0),
            n <= 65535,
            k <= 15,
    ;
    r
}

/// `v` with bit `k` set to `b`.
pub open spec fn put_bit(v: u16, k: u16, b: bool) -> u16 {
    if b {
        v | (1u16 << k)
    } else {
        v & !(1u16 << k)
    }
}

/// Facts on wide results: masks agree with the modular definitions.
proof fn lemma_wide(v: i32)
    by (bit_vector)
    requires
        -0x20000 <= v <= 0x20000,
    ensures
        (v & 0x8000 != 0) == (v % 0x10000 >= 0x8000),
        (v & 0xFFFF == 0) == (v % 0x10000 == 0),
        (v & 0x10000 != 0) == (v % 0x20000 >= 0x10000),
        v & 0xFFFF == v % 0x10000,
{
}

/// Facts on masked fields of a word.
pub proof fn lemma_masks(v: u16)
    by (bit_vector)
    ensures
        v & 15 < 16,
        v & 3 < 4,
        v & 7 < 8,
        (v >> 2u16) & 3 < 4,
        ((v as i32) & 0xFFFF) as u16 == v,
{
}

/// The low 16 bits of a wide result.
pub fn wrap16(v: i32) -> (r: u16)
    requires
        -0x20000 <= v <= 0x20000,
    ensures
        r == low16(v as int),
{
    proof {
        lemma_wide(v);
    }
    (v & 0xFFFF) as u16
}

/// Bit 15 of a wide result.
pub fn is_neg(val: i32) -> (r: bool)
    requires
        -0x20000 <= val <= 0x20000,
    ensures
        r == neg_of(val as int),
{
    proof {
        lemma_wide(val);
    }
    (val & 32768) != 0
}

/// The low 16 bits of a wide result are clear.
pub fn is_zero(val: i32) -> (r: bool)
    requires
        -0x20000 <= val <= 0x20000,
    ensures
        r == zero_of(val as int),
{
    proof {
        lemma_wide(val);
    }
    (val & 65535) == 0
}

/// Bit 16 of a wide result.
pub fn is_carry(val: i32) -> (r: bool)
    requires
        -0x20000 <= val <= 0x20000,
    ensures
        r == carry_of(val as int),
{
    proof {
        lemma_wide(val);
    }
    (val & 65536) != 0
}

/// Signed overflow: `a` and `b` share a sign that `sum` does not have.
pub fn is_ovf(a: i32, b: i32, sum: i32) -> (r: bool)
    requires
        -0x20000 <= a <= 0x20000,
        -0x20000 <= b <= 0x20000,
        -0x20000 <= sum <= 0x20000,
    ensures
        r == ovf_of(a as int, b as int, sum as int),
{
    (is_neg(a) != is_neg(sum)) && (is_neg(a) == is_neg(b))
}

/// Bit `k` of `v`.
pub fn bit16(v: u16, k: u16) -> (r: bool)
    requires
        k < 16,
    ensures
        r == bit_of(v, k),
{
    proof {
        lemma_masks(v);
        assert(((k as i32) & 15) as u16 == k) by (bit_vector)
            requires
                k < 16,
        ;
    }
    is_set(v as i32, k as i32)
}

/// `v` with bit `k` set to `b`.
pub fn with_bit(v: u16, k: u16, b: bool) -> (r: u16)
    requires
        k < 16,
    ensures
        r == put_bit(v, k, b),
{
    if b {
        v | (1u16 << k)
    } else {
        v & !(1u16 << k)
    }
}

} // verus!
