use v86_jit::builder::{CpuContext, JitContext};
use v86_jit::interp::State;
use v86_jit::op::Op;
use v86_jit::ops_0f::instr32_0FB1_reg_jit;
use v86_jit::ops_control::{instr32_F7_4_reg_jit, instr_D7_jit};
use v86_jit::sse::{instr_0F29_mem_jit, instr_660F6F_mem_jit};
use v86_jit::ops_group::{instr16_8B_mem_jit, instr16_8C_mem_jit, instr16_8F_0_mem_jit, instr32_89_mem_jit, instr_8A_mem_jit};
use v86_jit::ops_stack::{instr16_40_jit, instr16_48_jit, instr32_40_jit, instr32_48_jit};

fn generate_with(address_size_32: bool, gen: impl Fn(&mut JitContext)) -> Vec<Op> {
    let mut ctx = JitContext::new(CpuContext { eip: 0, prefixes: 0, address_size_32 }, 0);
    gen(&mut ctx);
    ctx.builder.code
}

fn generate(gen: impl Fn(&mut JitContext)) -> Vec<Op> {
    generate_with(true, gen)
}

#[test]
fn byte_load_keeps_the_other_bits() {
    let code = generate(|ctx| instr_8A_mem_jit(ctx, 0x03, 4));
    let mut s = State::new([0x1122_3344, 0, 0, 0, 0, 0, 0, 0]);
    s.store8(0x50, 0xAB);
    s.operand_address = 0x50;
    assert!(s.execute(&code));
    assert_eq!(s.regs[0], 0x1122_AB44);
    assert!(!s.faulted);
}

#[test]
fn word_load_keeps_the_high_half() {
    let code = generate(|ctx| instr16_8B_mem_jit(ctx, 0x03, 2));
    let mut s = State::new([0, 0, 0xDEAD_BEEF, 0, 0, 0, 0, 0]);
    s.store16(0x60, 0x1234);
    s.operand_address = 0x60;
    assert!(s.execute(&code));
    assert_eq!(s.regs[2], 0xDEAD_1234);
}

#[test]
fn memory_is_little_endian() {
    let mut s = State::new([0; 8]);
    s.store32(0x10, 0x1122_3344);
    assert_eq!(s.load8(0x10), Some(0x44));
    assert_eq!(s.load8(0x13), Some(0x11));
    assert_eq!(s.load16(0x11), Some(0x2233));
    assert_eq!(s.load32(0x11), None);
}

#[test]
fn faulting_reads_and_writes_change_nothing() {
    let code = generate(|ctx| instr_8A_mem_jit(ctx, 0x03, 0));
    let mut s = State::new([7, 0, 0, 0, 0, 0, 0, 0]);
    s.operand_address = 0x70;
    assert!(s.execute(&code));
    assert!(s.faulted);
    assert_eq!(s.regs[0], 7);
    let code = generate(|ctx| instr32_89_mem_jit(ctx, 0x03, 1));
    let mut s = State::new([0, 9, 0, 0, 0, 0, 0, 0]);
    s.store16(0x80, 0x5555);
    s.operand_address = 0x80;
    assert!(s.execute(&code));
    assert!(s.faulted);
    assert_eq!(s.load16(0x80), Some(0x5555));
    assert_eq!(s.load8(0x82), None);
}

#[test]
fn store_segment_selector_writes_two_bytes() {
    let code = generate(|ctx| instr16_8C_mem_jit(ctx, 0x03, 3));
    let mut s = State::new([0; 8]);
    s.sregs[3] = 0x2B;
    s.store32(0x90, 0xFFFF_FFFF);
    s.operand_address = 0x90;
    assert!(s.execute(&code));
    assert_eq!(s.load32(0x90), Some(0xFFFF_002B));
}

#[test]
fn xlat_wraps_its_offset_at_16_bits() {
    let code = generate_with(false, |ctx| instr_D7_jit(ctx));
    let mut s = State::new([0xAAAA_AA02, 0, 0, 0x0000_FFFF, 0, 0, 0, 0]);
    s.store8(0x0001, 0x5A);
    assert!(s.execute(&code));
    assert_eq!(s.regs[0], 0xAAAA_AA5A);
}

#[test]
fn xlat_adds_the_data_segment() {
    let code = generate(|ctx| instr_D7_jit(ctx));
    let mut s = State::new([0x3, 0, 0, 0x100, 0, 0, 0, 0]);
    s.segment_offsets[3] = 0x1000;
    s.store8(0x1103, 0x77);
    assert!(s.execute(&code));
    assert_eq!(s.regs[0], 0x77);
}

#[test]
fn pop_to_memory_moves_the_word_and_the_stack_pointer() {
    let code = generate(|ctx| instr16_8F_0_mem_jit(ctx, 0x03));
    let mut s = State::new([0, 0, 0, 0, 0x200, 0, 0, 0]);
    s.store16(0x200, 0xBEEF);
    s.store16(0x300, 0);
    s.operand_address = 0x300;
    assert!(s.execute(&code));
    assert_eq!(s.load16(0x300), Some(0xBEEF));
    assert_eq!(s.regs[4], 0x202);
    assert!(s.temps.is_empty());
}

#[test]
fn pop_to_memory_restores_the_stack_pointer_when_the_store_faults() {
    let code = generate(|ctx| instr16_8F_0_mem_jit(ctx, 0x03));
    let mut s = State::new([0, 0, 0, 0, 0x1_FFFF, 0, 0, 0]);
    s.stack_size_32 = false;
    s.store16(0xFFFF, 0xBEEF);
    s.operand_address = 0x300;
    assert!(s.execute(&code));
    assert!(s.faulted);
    assert_eq!(s.regs[4], 0x1_FFFF);
    assert_eq!(s.load8(0x300), None);
}

#[test]
fn inc_and_dec_at_16_bits() {
    let inc = generate(|ctx| instr16_40_jit(ctx));
    let dec = generate(|ctx| instr16_48_jit(ctx));
    let mut s = State::new([0x1234_FFFF, 0, 0, 0, 0, 0, 0, 0]);
    assert!(s.execute(&inc));
    assert_eq!(s.regs[0], 0x1234_0000);
    assert_eq!(s.last_op1, 0xFFFF);
    assert_eq!(s.last_result, 0);
    assert_eq!(s.last_op_size, 15);
    assert_eq!(s.flags_changed, 0x8D4);
    assert!(s.execute(&dec));
    assert_eq!(s.regs[0], 0x1234_FFFF);
    assert_eq!(s.last_result, 0xFFFF);
    assert_eq!(s.flags_changed, 0x8000_08D4);
}

#[test]
fn inc_keeps_the_carry_flag() {
    let inc = generate(|ctx| instr32_40_jit(ctx));
    let mut s = State::new([41, 0, 0, 0, 0, 0, 0, 0]);
    s.carry = true;
    assert!(s.execute(&inc));
    assert_eq!(s.regs[0], 42);
    assert_eq!(s.flags & 1, 1);
    assert_eq!(s.flags_changed & 1, 0);
    let dec = generate(|ctx| instr32_48_jit(ctx));
    let mut s = State::new([0, 0, 0, 0, 0, 0, 0, 0]);
    s.flags = 1;
    assert!(s.execute(&dec));
    assert_eq!(s.regs[0], 0xFFFF_FFFF);
    assert_eq!(s.flags & 1, 0);
}

#[test]
fn mul_is_unsigned_and_sets_carry_and_overflow() {
    let code = generate(|ctx| instr32_F7_4_reg_jit(ctx, 1));
    let mut s = State::new([0x8000_0000, 4, 0, 0, 0, 0, 0, 0]);
    assert!(s.execute_blocks(&code));
    assert_eq!(s.regs[2], 2);
    assert_eq!(s.regs[0], 0);
    assert_eq!(s.flags & 1, 1);
    assert_ne!(s.flags & 0x800, 0);
    assert_eq!(s.last_result, 0);
    assert!(s.stack.is_empty());
    assert!(s.temps64.is_empty());
}

#[test]
fn mul_without_high_half_clears_carry_and_overflow() {
    let code = generate(|ctx| instr32_F7_4_reg_jit(ctx, 1));
    let mut s = State::new([6, 7, 0, 0, 0, 0, 0, 0]);
    s.flags = 0x801;
    assert!(s.execute_blocks(&code));
    assert_eq!(s.regs[0], 42);
    assert_eq!(s.regs[2], 0);
    assert_eq!(s.flags & 0x801, 0);
}

#[test]
fn compare_exchange_when_different_loads_eax() {
    let code = generate(|ctx| instr32_0FB1_reg_jit(ctx, 3, 2));
    let mut s = State::new([5, 0, 9, 7, 0, 0, 0, 0]);
    s.zero = false;
    assert!(s.execute_blocks(&code));
    assert_eq!(s.regs[0], 7);
    assert_eq!(s.regs[3], 7);
    assert_eq!(s.last_result, 0xFFFF_FFFE);
    assert_eq!(s.last_op1, 5);
}

#[test]
fn compare_exchange_when_equal_stores_the_source() {
    let code = generate(|ctx| instr32_0FB1_reg_jit(ctx, 3, 2));
    let mut s = State::new([5, 0, 9, 5, 0, 0, 0, 0]);
    s.zero = true;
    assert!(s.execute_blocks(&code));
    assert_eq!(s.regs[0], 5);
    assert_eq!(s.regs[3], 9);
    assert_eq!(s.last_result, 0);
}

#[test]
fn aligned_sse_moves_raise_gp_on_unaligned_addresses() {
    let store = generate(|ctx| instr_0F29_mem_jit(ctx, 0x03, 1));
    assert!(store.contains(&Op::TriggerGp(0)));
    let mut s = State::new([0; 8]);
    s.store32(0x1004, 0xAAAA_AAAA);
    s.operand_address = 0x1004;
    assert!(s.execute_blocks(&store));
    assert!(s.faulted);
    assert_eq!(s.load32(0x1004), Some(0xAAAA_AAAA));
    let load = generate(|ctx| instr_660F6F_mem_jit(ctx, 0x03, 1));
    assert!(load.contains(&Op::TriggerGp(0)));
    let mut s = State::new([0; 8]);
    s.operand_address = 0x2008;
    assert!(s.execute_blocks(&load));
    assert!(s.faulted);
}

#[test]
fn aligned_sse_moves_pass_the_check_on_aligned_addresses() {
    let load = generate(|ctx| instr_660F6F_mem_jit(ctx, 0x03, 1));
    let mut s = State::new([0; 8]);
    s.operand_address = 0x2010;
    assert!(!s.execute_blocks(&load));
    assert!(!s.faulted);
}

#[test]
fn xlat_uses_the_segment_the_prefix_names() {
    let code = generate(|ctx| instr_D7_jit(ctx));
    let mut s = State::new([0x1, 0, 0, 0x10, 0, 0, 0, 0]);
    s.segment_offsets[3] = 0x1000;
    s.segment_offsets[4] = 0x8000;
    s.segment_prefix = 5;
    s.store8(0x8011, 0x42);
    assert!(s.execute(&code));
    assert_eq!(s.regs[0], 0x42);
}
