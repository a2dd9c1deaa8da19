use pplus_emu::cpu::CPU;

const N: u16 = 1 << 15;
const V: u16 = 1 << 14;
const C: u16 = 1 << 13;
const Z: u16 = 1 << 12;
const FLAGS: u16 = N | V | C | Z;

fn enc(op: u16, s: u16, d: u16) -> u16 {
    (op << 8) | (s << 4) | d
}

fn machine(words: &[u16]) -> CPU {
    let mut cpu = CPU::new();
    for (i, &w) in words.iter().enumerate() {
        cpu.poke(i as u16, w);
    }
    cpu
}

fn run(cpu: &mut CPU, steps: usize) {
    for _ in 0..steps {
        cpu.exec().unwrap();
    }
}

#[test]
fn lsi_then_lui_builds_any_word() {
    for &w in &[0xBEEFu16, 0x0000, 0xFFFF, 0x0080, 0x7F7F, 0x8000] {
        let lo = w & 0xFF;
        let hi = w >> 8;
        let mut cpu = machine(&[0x8000 | (lo << 4) | 3, 0x9000 | (hi << 4) | 3]);
        run(&mut cpu, 2);
        assert_eq!(cpu.reg_x(3), w);
    }
}

#[test]
fn lsi_sign_extends() {
    let mut cpu = machine(&[0x8EF3, 0x87F4]);
    run(&mut cpu, 2);
    assert_eq!(cpu.reg_x(3), 0xFFEF);
    assert_eq!(cpu.reg_x(4), 0x007F);
}

#[test]
fn store_then_load_same_address() {
    let mut cpu = machine(&[enc(126, 4, 5), enc(124, 4, 6)]);
    cpu.set_reg_x(4, 0x0300);
    cpu.set_reg_x(5, 0xABCD);
    run(&mut cpu, 2);
    assert_eq!(cpu.peek(0x0300), 0xABCD);
    assert_eq!(cpu.reg_x(6), 0xABCD);
}

#[test]
fn indexed_store_and_load_wrap() {
    let mut cpu = machine(&[enc(127, 4, 5), 0x0010, enc(125, 4, 6), 0x0010]);
    cpu.set_reg_x(4, 0xFFF8);
    cpu.set_reg_x(5, 0x1357);
    run(&mut cpu, 2);
    assert_eq!(cpu.peek(0x0008), 0x1357);
    assert_eq!(cpu.reg_x(6), 0x1357);
    assert_eq!(cpu.reg_ip(), 4);
}

#[test]
fn move_chain_copies_through() {
    let mut cpu = machine(&[enc(1, 2, 7), enc(1, 7, 9)]);
    cpu.set_reg_x(2, 0x1111);
    run(&mut cpu, 2);
    assert_eq!(cpu.reg_x(9), 0x1111);
    assert_eq!(cpu.reg_x(7), 0x1111);
}

#[test]
fn x0_is_cleared_after_each_step() {
    let mut cpu = machine(&[enc(1, 2, 0), enc(1, 0, 3)]);
    cpu.set_reg_x(2, 0x4444);
    run(&mut cpu, 1);
    assert_eq!(cpu.reg_x(0), 0);
    run(&mut cpu, 1);
    assert_eq!(cpu.reg_x(3), 0);
}

#[test]
fn register_file_moves() {
    let mut cpu = machine(&[enc(2, 1, 4), enc(3, 4, 5), enc(4, 4, 6)]);
    cpu.set_reg_x(1, 0x0A0A);
    run(&mut cpu, 3);
    assert_eq!(cpu.reg_y(4), 0x0A0A);
    assert_eq!(cpu.reg_x(5), 0x0A0A);
    assert_eq!(cpu.reg_y(6), 0x0A0A);
}

#[test]
fn special_registers() {
    let mut cpu = machine(&[enc(9, 1, 0), enc(10, 0, 2), enc(7, 1, 0), enc(8, 0, 3), enc(12, 5, 4), enc(11, 0, 0)]);
    cpu.set_reg_x(1, 0x0040);
    run(&mut cpu, 6);
    assert_eq!(cpu.reg_jp(), 0x0040);
    assert_eq!(cpu.reg_x(2), 0x0040);
    assert_eq!(cpu.reg_rf(), 0x0040);
    assert_eq!(cpu.reg_x(3), 0x0040);
    assert_eq!(cpu.reg_x(4), 5 + 5);
    assert_eq!(cpu.reg_ip(), 0x0040);
}

#[test]
fn status_register_load_and_store() {
    let mut cpu = machine(&[enc(5, 1, 0), enc(6, 0, 2)]);
    cpu.set_reg_x(1, 0xF00F);
    run(&mut cpu, 2);
    assert_eq!(cpu.reg_st, 0xF00F);
    assert_eq!(cpu.reg_x(2), 0xF00F);
}

#[test]
fn sig_toggles_halt() {
    let mut cpu = machine(&[enc(0, 0, 0), enc(0, 0, 0), enc(0, 5, 0)]);
    run(&mut cpu, 1);
    assert!(cpu.halted());
    run(&mut cpu, 1);
    assert!(!cpu.halted());
    run(&mut cpu, 1);
    assert_eq!(cpu.reg_st, 1 << 5);
}

#[test]
fn subtract_borrow_sets_carry() {
    let mut cpu = machine(&[enc(71, 2, 1)]);
    cpu.set_reg_x(1, 3);
    cpu.set_reg_x(2, 5);
    run(&mut cpu, 1);
    assert_eq!(cpu.reg_x(1), 0xFFFE);
    assert_eq!(cpu.reg_st & FLAGS, N | V | C);
}

#[test]
fn add_carry_out_and_zero() {
    let mut cpu = machine(&[enc(64, 2, 1)]);
    cpu.set_reg_x(1, 0xFFFF);
    cpu.set_reg_x(2, 0x0001);
    run(&mut cpu, 1);
    assert_eq!(cpu.reg_x(1), 0);
    assert_eq!(cpu.reg_st & FLAGS, C | Z);
}

#[test]
fn flags_keep_low_status_bits() {
    let mut cpu = machine(&[enc(64, 2, 1)]);
    cpu.reg_st = 0x0FFF;
    cpu.set_reg_x(1, 1);
    cpu.set_reg_x(2, 1);
    run(&mut cpu, 1);
    assert_eq!(cpu.reg_st, 0x0FFF);
}

#[test]
fn add_with_carry_in() {
    let mut cpu = machine(&[enc(70, 2, 1)]);
    cpu.reg_st = C;
    cpu.set_reg_x(1, 10);
    cpu.set_reg_x(2, 20);
    run(&mut cpu, 1);
    assert_eq!(cpu.reg_x(1), 31);
    assert_eq!(cpu.reg_st & FLAGS, 0);
}

#[test]
fn subtract_with_borrow_in() {
    let mut cpu = machine(&[enc(75, 2, 1), enc(75, 2, 3)]);
    cpu.set_reg_x(1, 10);
    cpu.set_reg_x(2, 3);
    cpu.set_reg_x(3, 10);
    run(&mut cpu, 1);
    assert_eq!(cpu.reg_x(1), 6);
    cpu.reg_st = C;
    run(&mut cpu, 1);
    assert_eq!(cpu.reg_x(3), 7);
}

#[test]
fn short_immediate_add_and_subtract() {
    let mut cpu = machine(&[enc(68, 4, 1), enc(73, 4, 2), enc(69, 15, 3), enc(74, 1, 3)]);
    cpu.set_reg_x(1, 10);
    cpu.set_reg_x(2, 10);
    cpu.set_reg_y(3, 100);
    run(&mut cpu, 4);
    assert_eq!(cpu.reg_x(1), 15);
    assert_eq!(cpu.reg_x(2), 6);
    assert_eq!(cpu.reg_y(3), 100 + 16 - 1);
}

#[test]
fn immediate_adds() {
    let mut cpu = machine(&[enc(66, 0, 1), 0x0100, enc(67, 0, 2), 0x0010]);
    cpu.set_reg_x(1, 1);
    cpu.set_reg_y(2, 5);
    run(&mut cpu, 2);
    assert_eq!(cpu.reg_x(1), 0x0101);
    assert_eq!(cpu.reg_y(2), 0x0015);
    assert_eq!(cpu.reg_ip(), 4);
}

#[test]
fn y_register_add_and_subtract() {
    let mut cpu = machine(&[enc(65, 1, 2), enc(72, 1, 3)]);
    cpu.set_reg_x(1, 7);
    cpu.set_reg_y(2, 1);
    cpu.set_reg_y(3, 1);
    run(&mut cpu, 2);
    assert_eq!(cpu.reg_y(2), 8);
    assert_eq!(cpu.reg_y(3), 0xFFFA);
}

#[test]
fn compare_sets_flags_only() {
    let mut cpu = machine(&[enc(76, 2, 1), enc(77, 2, 1)]);
    cpu.set_reg_x(1, 9);
    cpu.set_reg_x(2, 9);
    cpu.set_reg_y(1, 1);
    cpu.set_reg_y(2, 2);
    run(&mut cpu, 1);
    assert_eq!(cpu.reg_x(1), 9);
    assert_eq!(cpu.reg_st & FLAGS, Z);
    run(&mut cpu, 1);
    assert_eq!(cpu.reg_y(1), 1);
    assert_eq!(cpu.reg_st & FLAGS, N | V | C);
}

#[test]
fn multiply_low_half() {
    let mut cpu = machine(&[enc(80, 2, 1), enc(81, 2, 3), 0x0003]);
    cpu.set_reg_x(1, 0x1234);
    cpu.set_reg_x(2, 0x0100);
    run(&mut cpu, 1);
    assert_eq!(cpu.reg_x(1), 0x3400);
    assert_eq!(cpu.reg_st & FLAGS, V);
    run(&mut cpu, 1);
    assert_eq!(cpu.reg_x(3), 0x0300);
    assert_eq!(cpu.reg_st & FLAGS, 0);
}

#[test]
fn multiply_high_half_immediate() {
    let mut cpu = machine(&[enc(83, 2, 1), 0xFFFF, enc(85, 2, 3), 0xFFFF]);
    cpu.set_reg_x(2, 0x0002);
    run(&mut cpu, 2);
    assert_eq!(cpu.reg_x(1), 0x0001);
    assert_eq!(cpu.reg_x(3), 0xFFFF);
}

#[test]
fn signed_multiply_of_two_negatives() {
    let mut cpu = machine(&[enc(84, 2, 1)]);
    cpu.set_reg_x(1, 0x8000);
    cpu.set_reg_x(2, 0x8000);
    run(&mut cpu, 1);
    assert_eq!(cpu.reg_x(1), 0x4000);
}

#[test]
fn logic_results_are_sixteen_bits() {
    let mut cpu = machine(&[enc(88, 2, 1), enc(92, 2, 3), enc(86, 2, 4), enc(90, 2, 5), enc(94, 2, 6)]);
    cpu.set_reg_x(1, 0x00FF);
    cpu.set_reg_x(2, 0x0F0F);
    cpu.set_reg_x(3, 0x00FF);
    cpu.set_reg_x(4, 0x00FF);
    cpu.set_reg_x(5, 0x00FF);
    cpu.set_reg_x(6, 0x00FF);
    run(&mut cpu, 1);
    assert_eq!(cpu.reg_x(1), 0xFFF0);
    assert_eq!(cpu.reg_st & FLAGS, N);
    run(&mut cpu, 4);
    assert_eq!(cpu.reg_x(3), 0xF000);
    assert_eq!(cpu.reg_x(4), 0x000F);
    assert_eq!(cpu.reg_x(5), 0x0FFF);
    assert_eq!(cpu.reg_x(6), 0x0FF0);
}

#[test]
fn logic_immediates_use_source_register() {
    let mut cpu = machine(&[enc(87, 2, 1), 0x00F0, enc(95, 2, 3), 0xFFFF, enc(93, 2, 4), 0x0000]);
    cpu.set_reg_x(2, 0x0F0F);
    run(&mut cpu, 3);
    assert_eq!(cpu.reg_x(1), 0x0000);
    assert_eq!(cpu.reg_x(3), 0xF0F0);
    assert_eq!(cpu.reg_x(4), 0xF0F0);
    assert_eq!(cpu.reg_st & FLAGS, N);
}

#[test]
fn pen_identity_reverse_and_constants() {
    let mut cpu = machine(&[enc(78, 2, 1), 0x3210, enc(78, 2, 3), 0xBA98, enc(78, 2, 4), 0xFCFC, enc(78, 2, 5), 0x4444]);
    cpu.set_reg_x(2, 0x1234);
    run(&mut cpu, 4);
    assert_eq!(cpu.reg_x(1), 0x1234);
    assert_eq!(cpu.reg_x(3), 0x84C2);
    assert_eq!(cpu.reg_x(4), 0xF0F0);
    assert_eq!(cpu.reg_x(5), 0xBBBB);
}

#[test]
fn pen_reverse_table() {
    let table = [0u16, 8, 4, 12, 2, 10, 6, 14, 1, 9, 5, 13, 3, 11, 7, 15];
    for n in 0..16u16 {
        let mut cpu = machine(&[enc(78, 2, 1), 0x0008]);
        cpu.set_reg_x(2, n);
        run(&mut cpu, 1);
        assert_eq!(cpu.reg_x(1) & 15, table[n as usize]);
    }
}

#[test]
fn peb_copies_and_inverts_bits() {
    let mut cpu = machine(&[enc(79, 2, 1), 0x1688, enc(79, 2, 3), 0x0FAC]);
    cpu.set_reg_x(2, 0x000A);
    run(&mut cpu, 2);
    assert_eq!(cpu.reg_x(1), 0x00AA);
    assert_eq!(cpu.reg_x(3), 0x0005);
    assert_eq!(cpu.reg_ip(), 4);
}

#[test]
fn bit_extract_deposit_toggle() {
    let mut cpu = machine(&[enc(97, 3, 1), enc(99, 8, 2), enc(101, 0, 2), enc(96, 4, 1), enc(98, 4, 2)]);
    cpu.set_reg_x(1, 0x0008);
    cpu.set_reg_x(4, 0x0010);
    run(&mut cpu, 1);
    assert_eq!(cpu.reg_st & FLAGS, C);
    run(&mut cpu, 1);
    assert_eq!(cpu.reg_x(2), 0x0100);
    run(&mut cpu, 1);
    assert_eq!(cpu.reg_x(2), 0x0101);
    run(&mut cpu, 1);
    assert_eq!(cpu.reg_st & FLAGS, 0);
    run(&mut cpu, 1);
    assert_eq!(cpu.reg_x(2), 0x0100);
}

#[test]
fn rf_bit_operations() {
    let mut cpu = machine(&[enc(103, 2, 0), enc(105, 7, 0), enc(107, 7, 1), enc(106, 2, 3), enc(102, 2, 0)]);
    cpu.set_reg_rf(0x0004);
    cpu.set_reg_x(2, 0x0013);
    run(&mut cpu, 1);
    assert_eq!(cpu.reg_st & FLAGS, C);
    run(&mut cpu, 1);
    assert_eq!(cpu.reg_rf(), 0x0084);
    run(&mut cpu, 1);
    assert_eq!(cpu.reg_x(1), 0xFFFF);
    run(&mut cpu, 1);
    assert_eq!(cpu.reg_x(3), 0x0000);
    run(&mut cpu, 1);
    assert_eq!(cpu.reg_st & FLAGS, 0);
}

#[test]
fn rf_to_rf_bit_moves() {
    let mut cpu = machine(&[enc(120, 0, 5), enc(121, 0, 6), enc(122, 1, 0), enc(123, 2, 7)]);
    cpu.set_reg_rf(0x0005);
    run(&mut cpu, 1);
    assert_eq!(cpu.reg_rf(), 0x0025);
    run(&mut cpu, 1);
    assert_eq!(cpu.reg_rf(), 0x0025);
    run(&mut cpu, 1);
    assert_eq!(cpu.reg_rf(), 0x0024);
    run(&mut cpu, 1);
    assert_eq!(cpu.reg_rf(), 0x00A4);
}

#[test]
fn arithmetic_shifts() {
    let mut cpu = machine(&[enc(108, 2, 1), enc(111, 4, 3), enc(110, 4, 5)]);
    cpu.set_reg_x(2, 0x8003);
    cpu.set_reg_x(3, 0x8000);
    cpu.set_reg_x(4, 0x0002);
    cpu.set_reg_x(5, 0x7FF0);
    run(&mut cpu, 1);
    assert_eq!(cpu.reg_x(1), 0xC001);
    assert_eq!(cpu.reg_st & FLAGS, N | C);
    run(&mut cpu, 1);
    assert_eq!(cpu.reg_x(3), 0xF800);
    run(&mut cpu, 1);
    assert_eq!(cpu.reg_x(5), 0x1FFC);
    assert_eq!(cpu.reg_st & FLAGS, 0);
}

#[test]
fn logical_shifts_and_rotates() {
    let mut cpu = machine(&[enc(112, 2, 1), enc(113, 4, 3), enc(115, 4, 5), enc(119, 4, 6), enc(118, 7, 8)]);
    cpu.set_reg_x(2, 0x8003);
    cpu.set_reg_x(4, 0x0002);
    cpu.set_reg_x(5, 0x000F);
    cpu.set_reg_x(6, 0x00FF);
    cpu.set_reg_x(7, 0x0008);
    cpu.set_reg_x(8, 0x0101);
    run(&mut cpu, 1);
    assert_eq!(cpu.reg_x(1), 0x4001);
    assert_eq!(cpu.reg_st & FLAGS, C);
    run(&mut cpu, 1);
    assert_eq!(cpu.reg_x(3), 0x8001);
    assert_eq!(cpu.reg_st & FLAGS, N);
    run(&mut cpu, 1);
    assert_eq!(cpu.reg_x(5), 0x0000);
    assert_eq!(cpu.reg_st & FLAGS, Z);
    run(&mut cpu, 1);
    assert_eq!(cpu.reg_x(6), 0x0FF0);
    run(&mut cpu, 1);
    assert_eq!(cpu.reg_x(8), 0x0100);
}

#[test]
fn left_shifts_carry_out_of_bit_fifteen() {
    let mut cpu = machine(&[enc(116, 2, 1), enc(117, 2, 3), enc(117, 4, 5)]);
    cpu.set_reg_x(2, 0x8001);
    cpu.set_reg_x(4, 0x0000);
    run(&mut cpu, 1);
    assert_eq!(cpu.reg_x(1), 0x0002);
    assert_eq!(cpu.reg_st & FLAGS, C);
    run(&mut cpu, 1);
    assert_eq!(cpu.reg_x(3), 0x0003);
    assert_eq!(cpu.reg_st & FLAGS, C);
    run(&mut cpu, 1);
    assert_eq!(cpu.reg_x(5), 0x0001);
    assert_eq!(cpu.reg_st & FLAGS, 0);
}

#[test]
fn jump_and_link() {
    let mut cpu = machine(&[]);
    cpu.poke(10, enc(14, 3, 4));
    cpu.poke(11, 0x0020);
    cpu.set_reg_ip(10);
    cpu.set_reg_x(3, 0x0100);
    run(&mut cpu, 1);
    assert_eq!(cpu.reg_x(4), 12);
    assert_eq!(cpu.reg_ip(), 0x0120);
}

#[test]
fn conditional_register_branches() {
    let mut cpu = machine(&[enc(194, 1, 0), enc(199, 1, 0), enc(200, 1, 2)]);
    cpu.set_reg_x(1, 0x0030);
    run(&mut cpu, 1);
    assert_eq!(cpu.reg_ip(), 1);
    run(&mut cpu, 1);
    assert_eq!(cpu.reg_ip(), 2);
    run(&mut cpu, 1);
    assert_eq!(cpu.reg_ip(), 0x0030);
}

#[test]
fn conditional_immediate_branches() {
    let mut cpu = machine(&[enc(208, 1, 0), 0x0005, enc(212, 1, 0), 0x0005]);
    cpu.set_reg_x(1, 0x0100);
    run(&mut cpu, 1);
    assert_eq!(cpu.reg_ip(), 2);
    run(&mut cpu, 1);
    assert_eq!(cpu.reg_ip(), 0x0105);
}

#[test]
fn proposition_immediate_branch() {
    let mut cpu = machine(&[enc(218, 1, 2), 0x0007]);
    cpu.set_reg_x(1, 0x0200);
    cpu.set_reg_x(2, 0x8000);
    run(&mut cpu, 1);
    assert_eq!(cpu.reg_ip(), 0x0207);
}

#[test]
fn conditional_relative_jump() {
    let mut cpu = machine(&[]);
    cpu.poke(50, enc(243, 0, 5));
    cpu.poke(56, enc(242, 0, 5));
    cpu.set_reg_ip(50);
    run(&mut cpu, 1);
    assert_eq!(cpu.reg_ip(), 55);
    cpu.set_reg_ip(56);
    run(&mut cpu, 1);
    assert_eq!(cpu.reg_ip(), 57);
}

#[test]
fn predicates_on_conditions_and_propositions() {
    let mut cpu = machine(&[enc(18, 0, 0), 0x0000, enc(24, 0, 1), 0x0000, enc(28, 0, 1)]);
    cpu.set_reg_x(1, 0);
    run(&mut cpu, 1);
    assert!(cpu.skip_pending());
    run(&mut cpu, 1);
    run(&mut cpu, 1);
    assert!(!cpu.skip_pending());
    run(&mut cpu, 1);
    run(&mut cpu, 1);
    assert!(cpu.skip_pending());
}

#[test]
fn rf_bits_from_conditions() {
    let mut cpu = machine(&[enc(52, 3, 0), enc(34, 3, 0), enc(56, 5, 1), enc(44, 5, 1)]);
    run(&mut cpu, 1);
    assert_eq!(cpu.reg_rf(), 0x0008);
    run(&mut cpu, 1);
    assert_eq!(cpu.reg_rf(), 0x0000);
    run(&mut cpu, 1);
    assert_eq!(cpu.reg_rf(), 0x0020);
    run(&mut cpu, 1);
    assert_eq!(cpu.reg_rf(), 0x0000);
}

#[test]
fn y_indexed_addressing_modes() {
    let mut cpu = machine(&[enc(224, 1, 2), enc(225, 1, 3), enc(226, 1, 4), enc(227, 1, 5)]);
    cpu.poke(0x4F, 0x004F);
    cpu.poke(0x50, 0x0050);
    cpu.poke(0x51, 0x0051);
    cpu.set_reg_y(1, 0x50);
    run(&mut cpu, 1);
    assert_eq!((cpu.reg_x(2), cpu.reg_y(1)), (0x50, 0x50));
    run(&mut cpu, 1);
    assert_eq!((cpu.reg_x(3), cpu.reg_y(1)), (0x4F, 0x4F));
    run(&mut cpu, 1);
    assert_eq!((cpu.reg_x(4), cpu.reg_y(1)), (0x4F, 0x50));
    run(&mut cpu, 1);
    assert_eq!((cpu.reg_x(5), cpu.reg_y(1)), (0x51, 0x51));
}

#[test]
fn y_indexed_immediate_loads() {
    let mut cpu = machine(&[enc(228, 1, 2), 0x10, enc(229, 1, 3), 0x10, enc(230, 1, 4), 0x10, enc(231, 1, 5), 0x10]);
    for a in 0x5Fu16..0x62 {
        cpu.poke(a, a);
    }
    cpu.set_reg_y(1, 0x50);
    run(&mut cpu, 4);
    assert_eq!(cpu.reg_x(2), 0x60);
    assert_eq!(cpu.reg_x(3), 0x5F);
    assert_eq!(cpu.reg_x(4), 0x5F);
    assert_eq!(cpu.reg_x(5), 0x61);
    assert_eq!(cpu.reg_y(1), 0x51);
    assert_eq!(cpu.reg_ip(), 8);
}

#[test]
fn y_indexed_stores_and_wrap() {
    let mut cpu = machine(&[enc(233, 1, 2), enc(234, 1, 3), enc(235, 1, 4), enc(232, 1, 5), enc(237, 1, 6), 0x0100]);
    cpu.set_reg_y(1, 0);
    cpu.set_reg_x(2, 0xAAAA);
    cpu.set_reg_x(3, 0xBBBB);
    cpu.set_reg_x(4, 0xCCCC);
    cpu.set_reg_x(5, 0xDDDD);
    cpu.set_reg_x(6, 0xEEEE);
    run(&mut cpu, 1);
    assert_eq!(cpu.reg_y(1), 0xFFFF);
    assert_eq!(cpu.peek(0xFFFF), 0xAAAA);
    run(&mut cpu, 1);
    assert_eq!(cpu.peek(0xFFFF), 0xBBBB);
    assert_eq!(cpu.reg_y(1), 0x0000);
    run(&mut cpu, 1);
    assert_eq!(cpu.peek(0x0001), 0xCCCC);
    run(&mut cpu, 1);
    assert_eq!(cpu.peek(0x0001), 0xDDDD);
    run(&mut cpu, 1);
    assert_eq!(cpu.peek(0x0100), 0xEEEE);
    assert_eq!(cpu.reg_y(1), 0x0000);
}

#[test]
fn skipped_opcodes_follow_the_double_word_table() {
    const TABLE: [u32; 8] = [0x00004000, 0x00000000, 0xAAAAC00C, 0xA0000000, 0x00000000, 0x00000000, 0xFFFF0000, 0x0000F0F0];
    for op in 0..256u16 {
        let mut cpu = machine(&[0x0F00, op << 8]);
        run(&mut cpu, 2);
        let takes_imm = TABLE[(op >> 5) as usize] & (1 << (op & 31)) != 0;
        assert_eq!(cpu.reg_ip(), if takes_imm { 3 } else { 2 }, "opcode {}", op);
    }
}

#[test]
fn instruction_pointer_wraps() {
    let mut cpu = machine(&[]);
    cpu.poke(0xFFFF, enc(1, 2, 1));
    cpu.set_reg_ip(0xFFFF);
    run(&mut cpu, 1);
    assert_eq!(cpu.reg_ip(), 0);
}

#[test]
fn executed_opcodes_read_immediates_per_the_table() {
    const TABLE: [u32; 8] = [0x00004000, 0x00000000, 0xAAAAC00C, 0xA0000000, 0x00000000, 0x00000000, 0xFFFF0000, 0x0000F0F0];
    for op in 0..248u16 {
        let control = op == 11 || op == 13 || op == 14 || (192..=223).contains(&op) || op >= 240;
        if op == 109 || control {
            continue;
        }
        let mut cpu = machine(&[op << 8]);
        run(&mut cpu, 1);
        let takes_imm = TABLE[(op >> 5) as usize] & (1 << (op & 31)) != 0;
        assert_eq!(cpu.reg_ip(), if takes_imm { 2 } else { 1 }, "opcode {}", op);
    }
}
