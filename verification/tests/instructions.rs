use v86_jit::builder::{CpuContext, JitContext};
use v86_jit::fpu::{instr16_DD_2_mem_jit, instr16_D9_4_mem_jit, instr16_D9_4_reg_jit, instr16_D9_2_reg_jit, instr32_D9_2_reg_jit};
use v86_jit::op::{BitSize, GlobalPointer, ImmKind, Op, WasmLocal};
use v86_jit::ops_0f::{instr16_0FBA_4_mem_jit, instr16_0FC1_reg_jit, instr32_0F44_reg_jit, instr_0F18_mem_jit, instr_0F94_mem_jit};
use v86_jit::ops_alu::{instr32_01_reg_jit, instr32_05_jit, instr_00_mem_jit, instr_04_jit, instr_3A_mem_jit};
use v86_jit::ops_control::{instr16_C2_jit, instr16_F7_6_reg_jit, instr32_F7_4_reg_jit, instr_C0_4_reg_jit, instr_D7_jit};
use v86_jit::ops_group::{instr16_83_7_mem_jit, instr16_8C_mem_jit, instr16_8C_reg_jit, instr16_8F_0_mem_jit, instr32_81_0_mem_jit};
use v86_jit::ops_move::{instr16_9C_jit, instr16_9D_jit};
use v86_jit::ops_stack::{instr16_50_jit, instr16_70_jit};
use v86_jit::sse::instr_0FF7_reg_jit;
use v86_jit::strings::{instr16_F26D_jit, instr32_AF_jit, instr_A4_jit, instr_F3A6_jit};

fn context(address_size_32: bool, start: u32) -> JitContext {
    JitContext::new(CpuContext { eip: start, prefixes: 0, address_size_32 }, start)
}

fn temp(i: u32) -> WasmLocal {
    WasmLocal::Temp(i)
}

#[test]
fn add_register_form_uses_the_register_locals() {
    let mut ctx = context(true, 0);
    instr32_01_reg_jit(&mut ctx, 0, 3);
    assert_eq!(ctx.builder.code[0], Op::SetLastOp1(WasmLocal::Register(0)));
    assert_eq!(ctx.builder.code[2], Op::GetLocal(WasmLocal::Register(3)));
    assert_eq!(ctx.builder.code.len(), 8);
    assert_eq!(ctx.builder.next_local, 0);
}

#[test]
fn add8_to_memory_reads_and_writes_back() {
    let mut ctx = context(true, 0);
    instr_00_mem_jit(&mut ctx, 0x05, 3);
    assert_eq!(
        ctx.builder.code,
        vec![
            Op::ModrmResolve(0x05),
            Op::SetNewLocal(0),
            Op::SafeReadWriteBegin(BitSize::Byte, temp(0)),
            Op::GetReg8(3),
            Op::CallFn2Ret("add8"),
            Op::SafeReadWriteEnd,
            Op::FreeLocal(0),
        ]
    );
    assert_eq!(ctx.builder.next_local, 1);
}

#[test]
fn temporaries_are_numbered_from_the_next_free_local() {
    let mut ctx = context(true, 0);
    ctx.builder.next_local = 5;
    instr_3A_mem_jit(&mut ctx, 0x06, 4);
    assert_eq!(ctx.builder.code[0], Op::AliasReg8(4, 5));
    assert_eq!(ctx.builder.code[2], Op::SetNewLocal(6));
    assert_eq!(ctx.builder.code[ctx.builder.code.len() - 2], Op::FreeReg8Alias(4, 5));
    assert_eq!(ctx.builder.code[ctx.builder.code.len() - 1], Op::FreeLocal(6));
    assert_eq!(ctx.builder.next_local, 7);
}

#[test]
fn accumulator_immediates() {
    let mut ctx = context(true, 0);
    instr_04_jit(&mut ctx, 0x7F);
    assert_eq!(ctx.builder.code, vec![Op::GetReg8(0), Op::ConstI32(0x7F), Op::CallFn2Ret("add8"), Op::SetReg8(0)]);
    let mut ctx = context(true, 0);
    instr32_05_jit(&mut ctx, 0xFFFF_FFFF);
    assert_eq!(ctx.builder.code[2], Op::ConstI32(-1));
    assert_eq!(ctx.builder.code[3], Op::AddI32);
}

#[test]
fn immediate_after_addressing_bytes_is_read_inside_the_access() {
    let mut ctx = context(true, 0);
    instr32_81_0_mem_jit(&mut ctx, 0x04);
    assert_eq!(ctx.builder.code[0], Op::ModrmResolve(0x04));
    assert_eq!(ctx.builder.code[1], Op::SetNewLocal(0));
    assert_eq!(ctx.builder.code[2], Op::ReadImm(ImmKind::Imm32));
    assert_eq!(ctx.builder.code[3], Op::SafeReadWriteBegin(BitSize::Dword, temp(0)));
    assert_eq!(ctx.builder.code[4], Op::SetNewLocal(1));
    assert_eq!(ctx.builder.code[7], Op::ConstPendingImm(-1, 0));
    let mut ctx = context(true, 0);
    instr16_83_7_mem_jit(&mut ctx, 0x04);
    assert_eq!(ctx.builder.code[0], Op::ModrmResolveSafeRead16(0x04));
    assert_eq!(ctx.builder.code[2], Op::ReadImm(ImmKind::Imm8s));
}

#[test]
fn segment_register_beyond_gs_is_an_invalid_opcode() {
    let mut ctx = context(true, 0);
    instr16_8C_reg_jit(&mut ctx, 1, 7);
    assert_eq!(ctx.builder.code, vec![Op::TriggerUd]);
    let mut ctx = context(true, 0);
    instr16_8C_reg_jit(&mut ctx, 1, 3);
    assert_eq!(ctx.builder.code, vec![Op::GetSreg(3), Op::SetReg16(1)]);
    let mut ctx = context(true, 0);
    instr16_8C_mem_jit(&mut ctx, 0x00, 6);
    assert_eq!(ctx.builder.code, vec![Op::ModrmResolve(0), Op::SetNewLocal(0), Op::TriggerUd, Op::FreeLocal(0)]);
}

#[test]
fn pop_to_memory_adjusts_the_stack_pointer_around_the_write() {
    let mut ctx = context(true, 0);
    instr16_8F_0_mem_jit(&mut ctx, 0x06);
    assert_eq!(
        ctx.builder.code,
        vec![
            Op::AdjustStackReg(2),
            Op::ModrmResolve(0x06),
            Op::SetNewLocal(0),
            Op::AdjustStackReg(0xFFFF_FFFE),
            Op::Pop16,
            Op::SetNewLocal(1),
            Op::AdjustStackReg(0xFFFF_FFFE),
            Op::SafeWrite16(temp(0), temp(1)),
            Op::FreeLocal(0),
            Op::FreeLocal(1),
            Op::AdjustStackReg(2),
        ]
    );
}

#[test]
fn xlat_follows_the_address_size() {
    let mut ctx = context(true, 0);
    instr_D7_jit(&mut ctx);
    assert_eq!(ctx.builder.code[0], Op::GetReg32(3));
    assert_eq!(ctx.builder.code[3], Op::AddSegOffset(3));
    let mut ctx = context(false, 0);
    instr_D7_jit(&mut ctx);
    assert_eq!(
        ctx.builder.code,
        vec![
            Op::GetReg16(3),
            Op::GetReg8(0),
            Op::AddI32,
            Op::ConstI32(0xFFFF),
            Op::AndI32,
            Op::AddSegOffset(3),
            Op::SetNewLocal(0),
            Op::SafeRead8(temp(0)),
            Op::FreeLocal(0),
            Op::SetReg8(0),
        ]
    );
}

#[test]
fn ret_imm_releases_stack_and_jumps() {
    let mut ctx = context(true, 0);
    instr16_C2_jit(&mut ctx, 8);
    assert_eq!(
        ctx.builder.code,
        vec![Op::Pop16, Op::AddCsOffset, Op::SetNewLocal(0), Op::AdjustStackReg(8), Op::AbsoluteIndirectJump(0)]
    );
}

#[test]
fn division_fault_raises_divide_error() {
    let mut ctx = context(true, 0);
    instr16_F7_6_reg_jit(&mut ctx, 1);
    assert_eq!(
        ctx.builder.code,
        vec![
            Op::GetReg16(1),
            Op::MoveRegistersFromLocalsToMemory,
            Op::CallFn1Ret("div16_without_fault"),
            Op::MoveRegistersFromMemoryToLocals,
            Op::EqzI32,
            Op::IfVoid,
            Op::TriggerDe,
            Op::BlockEnd,
        ]
    );
}

#[test]
fn mul32_sets_carry_and_overflow_from_the_high_half() {
    let mut ctx = context(true, 0);
    instr32_F7_4_reg_jit(&mut ctx, 3);
    let code = &ctx.builder.code;
    assert_eq!(code[0], Op::GetReg32(3));
    assert_eq!(code[5], Op::TeeNewLocalI64(0));
    assert_eq!(code[9], Op::SetReg32(2));
    assert_eq!(code[16], Op::SetFlagsBits(1 | 2048));
    assert_eq!(code[18], Op::ClearFlagsBits(1 | 2048));
    assert_eq!(code.len(), 23);
}

#[test]
fn shift_count_immediate_is_cut_to_five_bits() {
    let mut ctx = context(true, 0);
    instr_C0_4_reg_jit(&mut ctx, 2, 33);
    assert_eq!(ctx.builder.code, vec![Op::GetReg8(2), Op::ConstI32(1), Op::CallFn2Ret("shl8"), Op::SetReg8(2)]);
}

#[test]
fn xadd16_passes_the_register_half_index() {
    let mut ctx = context(true, 0);
    instr16_0FC1_reg_jit(&mut ctx, 1, 5);
    assert_eq!(ctx.builder.code[1], Op::ConstI32(10));
    assert_eq!(ctx.builder.code[3], Op::CallFn2Ret("xadd16"));
}

#[test]
fn bt_memory_immediate_offsets_the_address_by_bytes() {
    let mut ctx = context(true, 0);
    instr16_0FBA_4_mem_jit(&mut ctx, 0x03);
    assert_eq!(ctx.builder.code[1], Op::ReadImm(ImmKind::Imm8));
    assert_eq!(ctx.builder.code[2], Op::ConstPendingImm(15, 3));
    assert_eq!(ctx.builder.code[3], Op::AddI32);
    assert_eq!(ctx.builder.code[ctx.builder.code.len() - 1], Op::FreeLocal(1));
}

#[test]
fn hints_only_skip_their_addressing_bytes() {
    let mut ctx = context(true, 0);
    instr_0F18_mem_jit(&mut ctx, 0x84, 0);
    assert_eq!(ctx.builder.code, vec![Op::ModrmSkip(0x84)]);
}

#[test]
fn conditional_move_and_set() {
    let mut ctx = context(true, 0);
    instr32_0F44_reg_jit(&mut ctx, 1, 2);
    assert_eq!(ctx.builder.code, vec![Op::ConditionFn(4), Op::IfVoid, Op::GetReg32(1), Op::SetReg32(2), Op::BlockEnd]);
    let mut ctx = context(true, 0);
    instr_0F94_mem_jit(&mut ctx, 0x00, 0);
    assert_eq!(ctx.builder.code[2], Op::ConditionFn(4));
    assert_eq!(ctx.builder.code[6], Op::SafeWrite8(temp(0), temp(1)));
}

#[test]
fn fldenv_records_the_instruction_offset_and_leaves_on_page_fault() {
    let mut ctx = context(true, 0x0804_1234);
    instr16_D9_4_mem_jit(&mut ctx, 0x00);
    assert_eq!(
        ctx.builder.code,
        vec![
            Op::ModrmResolve(0),
            Op::SetPreviousEipOffsetFromEipWithLowBits(0x234),
            Op::MoveRegistersFromLocalsToMemory,
            Op::CallFn1("fpu_fldenv32"),
            Op::MoveRegistersFromMemoryToLocals,
            Op::LoadU8(GlobalPointer::PageFault),
            Op::IfVoid,
            Op::DebugTrackJitExit(0x0804_1234),
            Op::MoveRegistersFromLocalsToMemory,
            Op::Return,
            Op::BlockEnd,
        ]
    );
}

#[test]
fn fpu_register_forms_reject_undefined_encodings() {
    let mut ctx = context(true, 0);
    instr16_D9_4_reg_jit(&mut ctx, 2);
    assert_eq!(ctx.builder.code, vec![Op::TriggerUd]);
    let mut ctx = context(true, 0);
    instr16_D9_4_reg_jit(&mut ctx, 5);
    assert_eq!(ctx.builder.code, vec![Op::ConstI32(5), Op::CallFn1("instr16_D9_4_reg")]);
    let mut ctx = context(true, 0);
    instr16_D9_2_reg_jit(&mut ctx, 0);
    assert!(ctx.builder.code.is_empty());
    let mut ctx = context(true, 0);
    instr32_D9_2_reg_jit(&mut ctx, 3);
    assert_eq!(ctx.builder.code, vec![Op::TriggerUd]);
}

#[test]
fn fst_to_memory_uses_a_64_bit_temporary() {
    let mut ctx = context(true, 0);
    instr16_DD_2_mem_jit(&mut ctx, 0x00);
    assert_eq!(ctx.builder.code[4], Op::SetNewLocalI64(1));
    assert_eq!(ctx.builder.code[5], Op::SafeWrite64(temp(0), 1));
    assert_eq!(ctx.builder.code[7], Op::FreeLocalI64(1));
}

#[test]
fn string_helpers_are_named_after_instruction_size_and_prefix() {
    let mut ctx = context(true, 0);
    instr_F3A6_jit(&mut ctx);
    assert_eq!(
        ctx.builder.code,
        vec![
            Op::ConstI32(1),
            Op::ConstI32(0),
            Op::AddSegOffset(3),
            Op::MoveRegistersFromLocalsToMemory,
            Op::CallStringFn2("cmps", "b", "_repz"),
            Op::MoveRegistersFromMemoryToLocals,
        ]
    );
    let mut ctx = context(false, 0);
    instr16_F26D_jit(&mut ctx);
    assert_eq!(
        ctx.builder.code,
        vec![
            Op::ConstI32(0),
            Op::MoveRegistersFromLocalsToMemory,
            Op::CallStringFn1("ins", "w", "_rep"),
            Op::MoveRegistersFromMemoryToLocals,
        ]
    );
    let mut ctx = context(true, 0);
    instr32_AF_jit(&mut ctx);
    assert_eq!(ctx.builder.code[2], Op::CallStringFn1("scas", "d", "_no_rep"));
    let mut ctx = context(true, 0);
    instr_A4_jit(&mut ctx);
    assert_eq!(ctx.builder.code[4], Op::CallStringFn2("movs", "b", "_no_rep"));
}

#[test]
fn pushf_checks_before_pushing() {
    let mut ctx = context(true, 0);
    instr16_9C_jit(&mut ctx);
    assert_eq!(
        ctx.builder.code,
        vec![
            Op::Fn0ConstRet("instr_9C_check"),
            Op::IfVoid,
            Op::TriggerGp(0),
            Op::Else,
            Op::Fn0ConstRet("get_eflags"),
            Op::SetNewLocal(0),
            Op::Push16(temp(0)),
            Op::BlockEnd,
            Op::FreeLocal(0),
        ]
    );
}

#[test]
fn popf16_keeps_the_high_flags() {
    let mut ctx = context(true, 0x40);
    instr16_9D_jit(&mut ctx);
    let code = &ctx.builder.code;
    assert_eq!(code[6], Op::GetLocal(temp(0)));
    assert_eq!(code[7], Op::ConstI32(!0xFFFF));
    assert_eq!(code[9], Op::Pop16);
    assert_eq!(code[11], Op::CallFn1("update_eflags"));
    assert!(code.contains(&Op::DebugTrackJitExit(0x40)));
    assert!(code.contains(&Op::Fn0Const("handle_irqs")));
    assert_eq!(code[code.len() - 1], Op::BlockEnd);
}

#[test]
fn conditional_branches_generate_nothing() {
    let mut ctx = context(true, 0);
    instr16_70_jit(&mut ctx, 0x10);
    assert!(ctx.builder.code.is_empty());
    assert_eq!(ctx.builder.next_local, 0);
}

#[test]
fn push16_register_goes_through_a_temporary() {
    let mut ctx = context(true, 0);
    instr16_50_jit(&mut ctx);
    assert_eq!(ctx.builder.code, vec![Op::GetReg16(0), Op::SetNewLocal(0), Op::Push16(temp(0)), Op::FreeLocal(0)]);
}

#[test]
fn maskmovq_addresses_di_with_16_bit_addresses() {
    let mut ctx = context(false, 0x100);
    instr_0FF7_reg_jit(&mut ctx, 1, 2);
    assert_eq!(ctx.builder.code[0], Op::SetPreviousEipOffsetFromEipWithLowBits(0x100));
    assert_eq!(ctx.builder.code[4], Op::GetReg16(7));
    assert_eq!(ctx.builder.code[6], Op::CallFn3("maskmovq"));
}
