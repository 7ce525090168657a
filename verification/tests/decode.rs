use v86_jit::builder::{CpuContext, JitContext};
use v86_jit::decode::{instr_66_jit, jit_instruction};
use v86_jit::op::{DispatchTable, Op};

fn context() -> JitContext {
    JitContext::new(CpuContext { eip: 0x1000, prefixes: 0x20, address_size_32: true }, 0)
}

#[test]
fn instruction_start_clears_prefixes() {
    let mut ctx = context();
    jit_instruction(&mut ctx);
    assert_eq!(ctx.cpu.prefixes, 0);
    assert_eq!(ctx.start_of_current_instruction, 0x1000);
    assert_eq!(ctx.builder.code, vec![Op::Dispatch(DispatchTable::OneByte)]);
}

#[test]
fn operand_size_prefix_is_recorded() {
    let mut ctx = context();
    ctx.cpu.prefixes = 0;
    instr_66_jit(&mut ctx);
    assert_eq!(ctx.cpu.prefixes, 0x20);
    assert_eq!(ctx.builder.code, vec![Op::Dispatch(DispatchTable::OneByte)]);
}
