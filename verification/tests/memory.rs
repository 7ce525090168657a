use v86_jit::builder::{CpuContext, JitContext};
use v86_jit::interp::State;
use v86_jit::op::Op;
use v86_jit::ops_alu::{instr32_01_mem_jit, instr32_03_mem_jit, instr32_29_mem_jit, instr32_33_mem_jit, instr32_39_mem_jit, instr32_3B_mem_jit};
use v86_jit::ops_control::instr32_C7_0_mem_jit;
use v86_jit::ops_group::{instr32_85_mem_jit, instr32_81_0_mem_jit, instr32_83_5_mem_jit, instr32_87_mem_jit, instr32_89_mem_jit, instr32_8B_mem_jit};

fn generate(gen: impl Fn(&mut JitContext)) -> Vec<Op> {
    let mut ctx = JitContext::new(CpuContext { eip: 0, prefixes: 0, address_size_32: true }, 0);
    gen(&mut ctx);
    ctx.builder.code
}

fn machine(regs: [u32; 8], address: u32, value: u32) -> State {
    let mut state = State::new(regs);
    state.store32(address, value);
    state.operand_address = address;
    state
}

#[test]
fn add_register_into_memory() {
    let code = generate(|ctx| instr32_01_mem_jit(ctx, 0x03, 2));
    let mut s = machine([0, 0, 40, 0, 0, 0, 0, 0], 0x1000, 2);
    assert!(s.execute(&code));
    assert_eq!(s.load32(0x1000), Some(42));
    assert_eq!(s.regs, vec![0, 0, 40, 0, 0, 0, 0, 0]);
    assert_eq!(s.last_op1, 2);
    assert_eq!(s.last_result, 42);
    assert!(s.temps.is_empty());
    assert!(s.accesses.is_empty());
    assert!(s.stack.is_empty());
}

#[test]
fn subtract_register_from_memory_borrows() {
    let code = generate(|ctx| instr32_29_mem_jit(ctx, 0x03, 1));
    let mut s = machine([0, 5, 0, 0, 0, 0, 0, 0], 0x20, 3);
    assert!(s.execute(&code));
    assert_eq!(s.load32(0x20), Some(0xFFFF_FFFE));
    assert_eq!(s.flags_changed, 0x8000_08D5);
}

#[test]
fn add_memory_into_register_leaves_memory() {
    let code = generate(|ctx| instr32_03_mem_jit(ctx, 0x03, 0));
    let mut s = machine([7, 0, 0, 0, 0, 0, 0, 0], 0x40, 0xFFFF_FFFF);
    assert!(s.execute(&code));
    assert_eq!(s.regs[0], 6);
    assert_eq!(s.load32(0x40), Some(0xFFFF_FFFF));
    assert!(s.temps.is_empty());
}

#[test]
fn xor_memory_into_register() {
    let code = generate(|ctx| instr32_33_mem_jit(ctx, 0x03, 3));
    let mut s = machine([0, 0, 0, 0xF0F0, 0, 0, 0, 0], 0x44, 0xFF00);
    assert!(s.execute(&code));
    assert_eq!(s.regs[3], 0x0FF0);
    assert_eq!(s.flags_changed, 0x0C4);
}

#[test]
fn group_81_adds_the_immediate_into_memory() {
    let code = generate(|ctx| instr32_81_0_mem_jit(ctx, 0x03));
    let mut s = machine([0; 8], 0x80, 100);
    s.immediates.push(23);
    assert!(s.execute(&code));
    assert_eq!(s.load32(0x80), Some(123));
    assert_eq!(s.pending, 23);
    assert!(s.immediates.is_empty());
}

#[test]
fn group_83_subtracts_a_sign_extended_immediate() {
    let code = generate(|ctx| instr32_83_5_mem_jit(ctx, 0x03));
    let mut s = machine([0; 8], 0x84, 10);
    s.immediates.push(0xFFFF_FFFF);
    assert!(s.execute(&code));
    assert_eq!(s.load32(0x84), Some(11));
}

#[test]
fn memory_forms_need_an_accessible_doubleword() {
    let code = generate(|ctx| instr32_01_mem_jit(ctx, 0x03, 2));
    let mut s = State::new([0; 8]);
    s.operand_address = 0x1000;
    assert!(s.execute(&code));
    assert!(s.faulted);
    assert_eq!(s.load8(0x1000), None);
}

#[test]
fn store_then_load_reads_back_the_register() {
    let store = generate(|ctx| instr32_89_mem_jit(ctx, 0x03, 1));
    let load = generate(|ctx| instr32_8B_mem_jit(ctx, 0x03, 6));
    let mut s = machine([0, 0xCAFE_BABE, 0, 0, 0, 0, 0, 0], 0x100, 0);
    s.store32(0x104, 9);
    assert!(s.execute(&store));
    assert!(s.execute(&load));
    assert_eq!(s.regs[6], 0xCAFE_BABE);
    assert_eq!(s.load32(0x100), Some(0xCAFE_BABE));
    assert_eq!(s.load32(0x104), Some(9));
}

#[test]
fn store_immediate_to_memory() {
    let code = generate(|ctx| instr32_C7_0_mem_jit(ctx, 0x03));
    let mut s = machine([0; 8], 0x200, 1);
    s.immediates.push(0x1234_5678);
    assert!(s.execute(&code));
    assert_eq!(s.load32(0x200), Some(0x1234_5678));
    assert!(s.temps.is_empty());
}

#[test]
fn exchange_register_with_memory() {
    let code = generate(|ctx| instr32_87_mem_jit(ctx, 0x03, 2));
    let mut s = machine([0, 0, 11, 0, 0, 0, 0, 0], 0x300, 22);
    assert!(s.execute(&code));
    assert_eq!(s.regs[2], 22);
    assert_eq!(s.load32(0x300), Some(11));
    assert!(s.accesses.is_empty());
}

#[test]
fn writing_memory_changes_only_the_address_written() {
    let mut s = State::new([0; 8]);
    s.store32(4, 1);
    s.store32(8, 2);
    s.store32(4, 3);
    assert_eq!(s.load32(4), Some(3));
    assert_eq!(s.load32(8), Some(2));
    assert_eq!(s.load32(12), None);
}

#[test]
fn compare_memory_with_register_and_back() {
    let code = generate(|ctx| instr32_39_mem_jit(ctx, 0x03, 1));
    let mut s = machine([0, 4, 0, 0, 0, 0, 0, 0], 0x10, 10);
    assert!(s.execute(&code));
    assert_eq!(s.last_result, 6);
    assert_eq!(s.last_op1, 10);
    assert_eq!(s.load32(0x10), Some(10));
    assert_eq!(s.regs[1], 4);
    let code = generate(|ctx| instr32_3B_mem_jit(ctx, 0x03, 1));
    let mut s = machine([0, 4, 0, 0, 0, 0, 0, 0], 0x10, 10);
    assert!(s.execute(&code));
    assert_eq!(s.last_result, 0xFFFF_FFFA);
    assert_eq!(s.last_op1, 4);
    assert_eq!(s.flags_changed, 0x8000_08D5);
}

#[test]
fn test_memory_against_register() {
    let code = generate(|ctx| instr32_85_mem_jit(ctx, 0x03, 0));
    let mut s = machine([0x0F, 0, 0, 0, 0, 0, 0, 0], 0x10, 0x3C);
    s.flags = 0xFFF;
    assert!(s.execute(&code));
    assert_eq!(s.last_result, 0x0C);
    assert_eq!(s.flags, 0xFFF & !0x811);
    assert!(s.temps.is_empty());
}
