use v86_jit::builder::{CpuContext, JitContext};
use v86_jit::interp::State;
use v86_jit::op::Op;
use v86_jit::ops_0f::{instr32_0FA3_reg_jit, instr32_0FB6_reg_jit, instr32_0FBA_4_reg_jit, instr32_0FBE_reg_jit, instr32_0FBF_reg_jit};
use v86_jit::ops_alu::{instr32_01_reg_jit, instr32_0D_jit, instr32_25_jit, instr32_29_reg_jit, instr32_33_reg_jit, instr32_3B_reg_jit};
use v86_jit::ops_control::{instr_FC_jit, instr_FD_jit};
use v86_jit::ops_group::{instr16_87_reg_jit, instr32_85_reg_jit, instr32_87_reg_jit, instr32_89_reg_jit, instr_86_reg_jit};
use v86_jit::ops_move::{instr32_93_jit, instr32_98_jit, instr32_99_jit, instr32_B9_jit, instr_9E_jit};

fn generate(gen: impl Fn(&mut JitContext)) -> Vec<Op> {
    let mut ctx = JitContext::new(CpuContext { eip: 0, prefixes: 0, address_size_32: true }, 0);
    gen(&mut ctx);
    ctx.builder.code
}

fn run(regs: [u32; 8], code: &Vec<Op>) -> State {
    let mut state = State::new(regs);
    assert!(state.execute(code));
    state
}

#[test]
fn add_register_to_register() {
    let code = generate(|ctx| instr32_01_reg_jit(ctx, 0, 3));
    let s = run([5, 0, 0, 7, 0, 0, 0, 0], &code);
    assert_eq!(s.regs, vec![12, 0, 0, 7, 0, 0, 0, 0]);
    assert_eq!(s.last_op1, 5);
    assert_eq!(s.last_result, 12);
    assert_eq!(s.last_op_size, 31);
    assert_eq!(s.flags_changed, 0x8D5);
    assert!(s.stack.is_empty());
}

#[test]
fn add_wraps_around() {
    let code = generate(|ctx| instr32_01_reg_jit(ctx, 1, 2));
    let s = run([0, 0xFFFF_FFFF, 2, 0, 0, 0, 0, 0], &code);
    assert_eq!(s.regs[1], 1);
}

#[test]
fn sub_borrows_around() {
    let code = generate(|ctx| instr32_29_reg_jit(ctx, 0, 1));
    let s = run([3, 5, 0, 0, 0, 0, 0, 0], &code);
    assert_eq!(s.regs[0], 0xFFFF_FFFE);
    assert_eq!(s.last_op1, 3);
    assert_eq!(s.flags_changed, 0x8000_08D5);
}

#[test]
fn logic_with_immediates_and_registers() {
    let code = generate(|ctx| instr32_25_jit(ctx, 0x0F0F));
    let s = run([0x1234_5678, 0, 0, 0, 0, 0, 0, 0], &code);
    assert_eq!(s.regs[0], 0x0000_0608);
    assert_eq!(s.flags_changed, 0x0C4);
    let code = generate(|ctx| instr32_0D_jit(ctx, 0x8000_0000));
    let s = run([1, 0, 0, 0, 0, 0, 0, 0], &code);
    assert_eq!(s.regs[0], 0x8000_0001);
    let code = generate(|ctx| instr32_33_reg_jit(ctx, 2, 2));
    let s = run([0, 0, 0xDEAD_BEEF, 0, 0, 0, 0, 0], &code);
    assert_eq!(s.regs[2], 0);
}

#[test]
fn logic_clears_carry_overflow_and_adjust() {
    let code = generate(|ctx| instr32_25_jit(ctx, 1));
    let mut state = State::new([1, 0, 0, 0, 0, 0, 0, 0]);
    state.flags = 0xFFF;
    assert!(state.execute(&code));
    assert_eq!(state.flags, 0xFFF & !0x811);
}

#[test]
fn compare_and_test_leave_registers_unchanged() {
    let code = generate(|ctx| instr32_3B_reg_jit(ctx, 1, 0));
    let s = run([10, 4, 0, 0, 0, 0, 0, 0], &code);
    assert_eq!(s.regs, vec![10, 4, 0, 0, 0, 0, 0, 0]);
    assert_eq!(s.last_result, 6);
    assert_eq!(s.last_op1, 10);
    let code = generate(|ctx| instr32_85_reg_jit(ctx, 0, 1));
    let s = run([0xF0, 0x3C, 0, 0, 0, 0, 0, 0], &code);
    assert_eq!(s.last_result, 0x30);
    assert_eq!(s.regs[0], 0xF0);
}

#[test]
fn exchanges_swap_registers_and_release_their_temporary() {
    let code = generate(|ctx| instr32_87_reg_jit(ctx, 1, 6));
    let s = run([0, 11, 0, 0, 0, 0, 66, 0], &code);
    assert_eq!(s.regs[1], 66);
    assert_eq!(s.regs[6], 11);
    assert!(s.temps.is_empty());
    let code = generate(instr32_93_jit);
    let s = run([1, 0, 0, 3, 0, 0, 0, 0], &code);
    assert_eq!(s.regs[0], 3);
    assert_eq!(s.regs[3], 1);
}

#[test]
fn moves_and_immediates() {
    let code = generate(|ctx| instr32_89_reg_jit(ctx, 2, 5));
    let s = run([0, 0, 0, 0, 0, 55, 0, 0], &code);
    assert_eq!(s.regs[2], 55);
    let code = generate(|ctx| instr32_B9_jit(ctx, 0xCAFE_F00D));
    let s = run([0; 8], &code);
    assert_eq!(s.regs[1], 0xCAFE_F00D);
}

#[test]
fn cdq_copies_the_sign_of_eax() {
    let code = generate(instr32_99_jit);
    assert_eq!(run([0x8000_0000, 0, 7, 0, 0, 0, 0, 0], &code).regs[2], 0xFFFF_FFFF);
    assert_eq!(run([0x7FFF_FFFF, 0, 7, 0, 0, 0, 0, 0], &code).regs[2], 0);
}

#[test]
fn cwde_sign_extends_ax() {
    let code = generate(instr32_98_jit);
    assert_eq!(run([0x1234_8001, 0, 0, 0, 0, 0, 0, 0], &code).regs[0], 0xFFFF_8001);
    assert_eq!(run([0x1234_7001, 0, 0, 0, 0, 0, 0, 0], &code).regs[0], 0x0000_7001);
}

#[test]
fn zero_and_sign_extension_from_registers() {
    let code = generate(|ctx| instr32_0FB6_reg_jit(ctx, 4, 1));
    assert_eq!(run([0xAB80, 0, 0, 0, 0, 0, 0, 0], &code).regs[1], 0xAB);
    let code = generate(|ctx| instr32_0FBE_reg_jit(ctx, 0, 1));
    assert_eq!(run([0xAB80, 0, 0, 0, 0, 0, 0, 0], &code).regs[1], 0xFFFF_FF80);
    let code = generate(|ctx| instr32_0FBF_reg_jit(ctx, 0, 1));
    assert_eq!(run([0x1_FFFE, 0, 0, 0, 0, 0, 0, 0], &code).regs[1], 0xFFFF_FFFE);
}

#[test]
fn sahf_loads_the_low_flags_from_ah() {
    let code = generate(instr_9E_jit);
    let mut state = State::new([0xFF00, 0, 0, 0, 0, 0, 0, 0]);
    state.flags = 0x700;
    state.flags_changed = 0x8D5;
    assert!(state.execute(&code));
    assert_eq!(state.flags, 0x7D7);
    assert_eq!(state.flags_changed, 0x800);
}

#[test]
fn cld_and_std_change_only_the_direction_flag() {
    let mut state = State::new([0; 8]);
    state.flags = 0x0446;
    assert!(state.execute(&generate(instr_FC_jit)));
    assert_eq!(state.flags, 0x0046);
    assert!(state.execute(&generate(instr_FD_jit)));
    assert_eq!(state.flags, 0x0446);
}

#[test]
fn bt_copies_the_selected_bit_into_the_carry_flag() {
    let code = generate(|ctx| instr32_0FA3_reg_jit(ctx, 0, 1));
    let mut state = State::new([0b1000, 35, 0, 0, 0, 0, 0, 0]);
    state.flags_changed = 0x8D5;
    assert!(state.execute(&code));
    assert_eq!(state.flags & 1, 1);
    assert_eq!(state.flags_changed, 0x8D4);
    let code = generate(|ctx| instr32_0FBA_4_reg_jit(ctx, 0, 2));
    let mut state = State::new([0b1000, 0, 0, 0, 0, 0, 0, 0]);
    state.flags = 0x47;
    assert!(state.execute(&code));
    assert_eq!(state.flags, 0x46);
}

#[test]
fn code_outside_the_machine_has_no_meaning() {
    let mut state = State::new([0; 8]);
    assert!(!state.execute(&vec![Op::TriggerUd]));
    let mut state = State::new([0; 8]);
    assert!(!state.execute(&vec![Op::AddI32]));
}

#[test]
fn byte_exchange_swaps_only_the_two_bytes() {
    let code = generate(|ctx| instr_86_reg_jit(ctx, 0, 4));
    let s = run([0x1122_3344, 0, 0, 0, 0, 0, 0, 0], &code);
    assert_eq!(s.regs[0], 0x1122_4433);
    assert!(s.temps.is_empty());
    let code = generate(|ctx| instr_86_reg_jit(ctx, 1, 7));
    let s = run([0, 0x0000_00AA, 0, 0x0000_BB00, 0, 0, 0, 0], &code);
    assert_eq!(s.regs[1], 0x0000_00BB);
    assert_eq!(s.regs[3], 0x0000_AA00);
}

#[test]
fn word_exchange_keeps_the_high_halves() {
    let code = generate(|ctx| instr16_87_reg_jit(ctx, 2, 5));
    let s = run([0, 0, 0xAAAA_1111, 0, 0, 0xBBBB_2222, 0, 0], &code);
    assert_eq!(s.regs[2], 0xAAAA_2222);
    assert_eq!(s.regs[5], 0xBBBB_1111);
}
