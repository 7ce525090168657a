//! Opcodes `90` to `BF`: exchanges with the accumulator, sign extensions, the flags, moves
//! to and from fixed addresses, and moves of immediates.

use vstd::prelude::*;
use crate::op::{Op, WasmLocal, LocalOrImmedate, GlobalPointer};
use crate::consts::{OPSIZE_8, OPSIZE_16, OPSIZE_32, FLAG_INTERRUPT, FLAGS_MASK, FLAGS_DEFAULT, NOT_LOW_BYTE, NOT_LOW_WORD, EAX, EDX, AX, CX, DX, BX, SP, BP, SI, DI, AL, AH, DS};
use crate::builder::{JitContext, ready, emits, restores_by};
use crate::alu::{gen_test8, gen_test16, gen_test32, gen_test_code};
use crate::templates::{gen_xchg_reg16, gen_xchg_reg16_code, gen_xchg_reg32, gen_xchg_reg32_code, gen_mov_reg8_imm, gen_mov_reg8_imm_code, gen_mov_reg16_imm, gen_mov_reg16_imm_code, gen_mov_reg32_imm, gen_mov_reg32_imm_code};

verus! {

/// `nop` generates nothing.
pub fn instr_90_jit(ctx: &mut JitContext)
    requires
        ready(old(ctx).builder, 8),
    ensures
        emits(*old(ctx), *final(ctx), Seq::<Op>::empty(), 0),
        restores_by(old(ctx).builder, final(ctx).builder, 0),
{
    proof {
        assert(ctx.builder.code@ =~= old(ctx).builder.code@ + Seq::<Op>::empty());
        assert(ctx.builder.frame().live =~= old(ctx).builder.frame().live);
        assert(ctx.builder.frame().live64 =~= old(ctx).builder.frame().live64);
        assert(ctx.builder.frame().ctrl =~= old(ctx).builder.frame().ctrl);
    }
}

/// Exchanges AX with CX.
pub fn instr16_91_jit(ctx: &mut JitContext)
    requires
        ready(old(ctx).builder, 8),
    ensures
        emits(*old(ctx), *final(ctx), gen_xchg_reg16_code(CX, old(ctx).builder.next_local), 1),
        restores_by(old(ctx).builder, final(ctx).builder, 0),
{
    gen_xchg_reg16(ctx, CX);
    proof {
        assert(ctx.builder.code@ =~= old(ctx).builder.code@ + gen_xchg_reg16_code(CX, old(ctx).builder.next_local));
        assert(ctx.builder.frame().live =~= old(ctx).builder.frame().live);
        assert(ctx.builder.frame().live64 =~= old(ctx).builder.frame().live64);
        assert(ctx.builder.frame().ctrl =~= old(ctx).builder.frame().ctrl);
    }
}

/// Exchanges AX with DX.
pub fn instr16_92_jit(ctx: &mut JitContext)
    requires
        ready(old(ctx).builder, 8),
    ensures
        emits(*old(ctx), *final(ctx), gen_xchg_reg16_code(DX, old(ctx).builder.next_local), 1),
        restores_by(old(ctx).builder, final(ctx).builder, 0),
{
    gen_xchg_reg16(ctx, DX);
    proof {
        assert(ctx.builder.code@ =~= old(ctx).builder.code@ + gen_xchg_reg16_code(DX, old(ctx).builder.next_local));
        assert(ctx.builder.frame().live =~= old(ctx).builder.frame().live);
        assert(ctx.builder.frame().live64 =~= old(ctx).builder.frame().live64);
        assert(ctx.builder.frame().ctrl =~= old(ctx).builder.frame().ctrl);
    }
}

/// Exchanges AX with BX.
pub fn instr16_93_jit(ctx: &mut JitContext)
    requires
        ready(old(ctx).builder, 8),
    ensures
        emits(*old(ctx), *final(ctx), gen_xchg_reg16_code(BX, old(ctx).builder.next_local), 1),
        restores_by(old(ctx).builder, final(ctx).builder, 0),
{
    gen_xchg_reg16(ctx, BX);
    proof {
        assert(ctx.builder.code@ =~= old(ctx).builder.code@ + gen_xchg_reg16_code(BX, old(ctx).builder.next_local));
        assert(ctx.builder.frame().live =~= old(ctx).builder.frame().live);
        assert(ctx.builder.frame().live64 =~= old(ctx).builder.frame().live64);
        assert(ctx.builder.frame().ctrl =~= old(ctx).builder.frame().ctrl);
    }
}

/// Exchanges AX with SP.
pub fn instr16_94_jit(ctx: &mut JitContext)
    requires
        ready(old(ctx).builder, 8),
    ensures
        emits(*old(ctx), *final(ctx), gen_xchg_reg16_code(SP, old(ctx).builder.next_local), 1),
        restores_by(old(ctx).builder, final(ctx).builder, 0),
{
    gen_xchg_reg16(ctx, SP);
    proof {
        assert(ctx.builder.code@ =~= old(ctx).builder.code@ + gen_xchg_reg16_code(SP, old(ctx).builder.next_local));
        assert(ctx.builder.frame().live =~= old(ctx).builder.frame().live);
        assert(ctx.builder.frame().live64 =~= old(ctx).builder.frame().live64);
        assert(ctx.builder.frame().ctrl =~= old(ctx).builder.frame().ctrl);
    }
}

/// Exchanges AX with BP.
pub fn instr16_95_jit(ctx: &mut JitContext)
    requires
        ready(old(ctx).builder, 8),
    ensures
        emits(*old(ctx), *final(ctx), gen_xchg_reg16_code(BP, old(ctx).builder.next_local), 1),
        restores_by(old(ctx).builder, final(ctx).builder, 0),
{
    gen_xchg_reg16(ctx, BP);
    proof {
        assert(ctx.builder.code@ =~= old(ctx).builder.code@ + gen_xchg_reg16_code(BP, old(ctx).builder.next_local));
        assert(ctx.builder.frame().live =~= old(ctx).builder.frame().live);
        assert(ctx.builder.frame().live64 =~= old(ctx).builder.frame().live64);
        assert(ctx.builder.frame().ctrl =~= old(ctx).builder.frame().ctrl);
    }
}

/// Exchanges AX with SI.
pub fn instr16_96_jit(ctx: &mut JitContext)
    requires
        ready(old(ctx).builder, 8),
    ensures
        emits(*old(ctx), *final(ctx), gen_xchg_reg16_code(SI, old(ctx).builder.next_local), 1),
        restores_by(old(ctx).builder, final(ctx).builder, 0),
{
    gen_xchg_reg16(ctx, SI);
    proof {
        assert(ctx.builder.code@ =~= old(ctx).builder.code@ + gen_xchg_reg16_code(SI, old(ctx).builder.next_local));
        assert(ctx.builder.frame().live =~= old(ctx).builder.frame().live);
        assert(ctx.builder.frame().live64 =~= old(ctx).builder.frame().live64);
        assert(ctx.builder.frame().ctrl =~= old(ctx).builder.frame().ctrl);
    }
}

/// Exchanges AX with DI.
pub fn instr16_97_jit(ctx: &mut JitContext)
    requires
        ready(old(ctx).builder, 8),
    ensures
        emits(*old(ctx), *final(ctx), gen_xchg_reg16_code(DI, old(ctx).builder.next_local), 1),
        restores_by(old(ctx).builder, final(ctx).builder, 0),
{
    gen_xchg_reg16(ctx, DI);
    proof {
        assert(ctx.builder.code@ =~= old(ctx).builder.code@ + gen_xchg_reg16_code(DI, old(ctx).builder.next_local));
        assert(ctx.builder.frame().live =~= old(ctx).builder.frame().live);
        assert(ctx.builder.frame().live64 =~= old(ctx).builder.frame().live64);
        assert(ctx.builder.frame().ctrl =~= old(ctx).builder.frame().ctrl);
    }
}

/// Exchanges EAX with ECX.
pub fn instr32_91_jit(ctx: &mut JitContext)
    requires
        ready(old(ctx).builder, 8),
    ensures
        emits(*old(ctx), *final(ctx), gen_xchg_reg32_code(CX, old(ctx).builder.next_local), 1),
        restores_by(old(ctx).builder, final(ctx).builder, 0),
{
    gen_xchg_reg32(ctx, CX);
    proof {
        assert(ctx.builder.code@ =~= old(ctx).builder.code@ + gen_xchg_reg32_code(CX, old(ctx).builder.next_local));
        assert(ctx.builder.frame().live =~= old(ctx).builder.frame().live);
        assert(ctx.builder.frame().live64 =~= old(ctx).builder.frame().live64);
        assert(ctx.builder.frame().ctrl =~= old(ctx).builder.frame().ctrl);
    }
}

/// Exchanges EAX with EDX.
pub fn instr32_92_jit(ctx: &mut JitContext)
    requires
        ready(old(ctx).builder, 8),
    ensures
        emits(*old(ctx), *final(ctx), gen_xchg_reg32_code(DX, old(ctx).builder.next_local), 1),
        restores_by(old(ctx).builder, final(ctx).builder, 0),
{
    gen_xchg_reg32(ctx, DX);
    proof {
        assert(ctx.builder.code@ =~= old(ctx).builder.code@ + gen_xchg_reg32_code(DX, old(ctx).builder.next_local));
        assert(ctx.builder.frame().live =~= old(ctx).builder.frame().live);
        assert(ctx.builder.frame().live64 =~= old(ctx).builder.frame().live64);
        assert(ctx.builder.frame().ctrl =~= old(ctx).builder.frame().ctrl);
    }
}

/// Exchanges EAX with EBX.
pub fn instr32_93_jit(ctx: &mut JitContext)
    requires
        ready(old(ctx).builder, 8),
    ensures
        emits(*old(ctx), *final(ctx), gen_xchg_reg32_code(BX, old(ctx).builder.next_local), 1),
        restores_by(old(ctx).builder, final(ctx).builder, 0),
{
    gen_xchg_reg32(ctx, BX);
    proof {
        assert(ctx.builder.code@ =~= old(ctx).builder.code@ + gen_xchg_reg32_code(BX, old(ctx).builder.next_local));
        assert(ctx.builder.frame().live =~= old(ctx).builder.frame().live);
        assert(ctx.builder.frame().live64 =~= old(ctx).builder.frame().live64);
        assert(ctx.builder.frame().ctrl =~= old(ctx).builder.frame().ctrl);
    }
}

/// Exchanges EAX with ESP.
pub fn instr32_94_jit(ctx: &mut JitContext)
    requires
        ready(old(ctx).builder, 8),
    ensures
        emits(*old(ctx), *final(ctx), gen_xchg_reg32_code(SP, old(ctx).builder.next_local), 1),
        restores_by(old(ctx).builder, final(ctx).builder, 0),
{
    gen_xchg_reg32(ctx, SP);
    proof {
        assert(ctx.builder.code@ =~= old(ctx).builder.code@ + gen_xchg_reg32_code(SP, old(ctx).builder.next_local));
        assert(ctx.builder.frame().live =~= old(ctx).builder.frame().live);
        assert(ctx.builder.frame().live64 =~= old(ctx).builder.frame().live64);
        assert(ctx.builder.frame().ctrl =~= old(ctx).builder.frame().ctrl);
    }
}

/// Exchanges EAX with EBP.
pub fn instr32_95_jit(ctx: &mut JitContext)
    requires
        ready(old(ctx).builder, 8),
    ensures
        emits(*old(ctx), *final(ctx), gen_xchg_reg32_code(BP, old(ctx).builder.next_local), 1),
        restores_by(old(ctx).builder, final(ctx).builder, 0),
{
    gen_xchg_reg32(ctx, BP);
    proof {
        assert(ctx.builder.code@ =~= old(ctx).builder.code@ + gen_xchg_reg32_code(BP, old(ctx).builder.next_local));
        assert(ctx.builder.frame().live =~= old(ctx).builder.frame().live);
        assert(ctx.builder.frame().live64 =~= old(ctx).builder.frame().live64);
        assert(ctx.builder.frame().ctrl =~= old(ctx).builder.frame().ctrl);
    }
}

/// Exchanges EAX with ESI.
pub fn instr32_96_jit(ctx: &mut JitContext)
    requires
        ready(old(ctx).builder, 8),
    ensures
        emits(*old(ctx), *final(ctx), gen_xchg_reg32_code(SI, old(ctx).builder.next_local), 1),
        restores_by(old(ctx).builder, final(ctx).builder, 0),
{
    gen_xchg_reg32(ctx, SI);
    proof {
        assert(ctx.builder.code@ =~= old(ctx).builder.code@ + gen_xchg_reg32_code(SI, old(ctx).builder.next_local));
        assert(ctx.builder.frame().live =~= old(ctx).builder.frame().live);
        assert(ctx.builder.frame().live64 =~= old(ctx).builder.frame().live64);
        assert(ctx.builder.frame().ctrl =~= old(ctx).builder.frame().ctrl);
    }
}

/// Exchanges EAX with EDI.
pub fn instr32_97_jit(ctx: &mut JitContext)
    requires
        ready(old(ctx).builder, 8),
    ensures
        emits(*old(ctx), *final(ctx), gen_xchg_reg32_code(DI, old(ctx).builder.next_local), 1),
        restores_by(old(ctx).builder, final(ctx).builder, 0),
{
    gen_xchg_reg32(ctx, DI);
    proof {
        assert(ctx.builder.code@ =~= old(ctx).builder.code@ + gen_xchg_reg32_code(DI, old(ctx).builder.next_local));
        assert(ctx.builder.frame().live =~= old(ctx).builder.frame().live);
        assert(ctx.builder.frame().live64 =~= old(ctx).builder.frame().live64);
        assert(ctx.builder.frame().ctrl =~= old(ctx).builder.frame().ctrl);
    }
}

/// The code that [`instr16_98_jit`] appends.
pub open spec fn instr16_98_jit_code() -> Seq<Op> {
    seq![Op::GetReg8(AL), Op::SignExtendI8, Op::SetReg16(AX)]
}

/// `cbw`: AX = AL sign-extended.
pub fn instr16_98_jit(ctx: &mut JitContext)
    requires
        ready(old(ctx).builder, 8),
    ensures
        emits(*old(ctx), *final(ctx), instr16_98_jit_code(), 0),
        restores_by(old(ctx).builder, final(ctx).builder, 0),
{
    ctx.builder.emit(Op::GetReg8(AL));
    ctx.builder.emit(Op::SignExtendI8);
    ctx.builder.emit(Op::SetReg16(AX));
    proof {
        assert(ctx.builder.code@ =~= old(ctx).builder.code@ + instr16_98_jit_code());
        assert(ctx.builder.frame().live =~= old(ctx).builder.frame().live);
        assert(ctx.builder.frame().live64 =~= old(ctx).builder.frame().live64);
        assert(ctx.builder.frame().ctrl =~= old(ctx).builder.frame().ctrl);
    }
}

/// The code that [`instr32_98_jit`] appends.
pub open spec fn instr32_98_jit_code() -> Seq<Op> {
    seq![Op::GetReg16(AX), Op::SignExtendI16, Op::SetReg32(EAX)]
}

/// `cwde`: EAX = AX sign-extended.
pub fn instr32_98_jit(ctx: &mut JitContext)
    requires
        ready(old(ctx).builder, 8),
    ensures
        emits(*old(ctx), *final(ctx), instr32_98_jit_code(), 0),
        restores_by(old(ctx).builder, final(ctx).builder, 0),
{
    ctx.builder.emit(Op::GetReg16(AX));
    ctx.builder.emit(Op::SignExtendI16);
    ctx.builder.emit(Op::SetReg32(EAX));
    proof {
        assert(ctx.builder.code@ =~= old(ctx).builder.code@ + instr32_98_jit_code());
        assert(ctx.builder.frame().live =~= old(ctx).builder.frame().live);
        assert(ctx.builder.frame().live64 =~= old(ctx).builder.frame().live64);
        assert(ctx.builder.frame().ctrl =~= old(ctx).builder.frame().ctrl);
    }
}

/// The code that [`instr16_99_jit`] appends.
pub open spec fn instr16_99_jit_code() -> Seq<Op> {
    seq![Op::GetReg16(AX), Op::ConstI32(16), Op::ShlI32, Op::ConstI32(31), Op::ShrSI32, Op::SetReg16(DX)]
}

/// `cwd`: DX = the sign of AX, repeated.
pub fn instr16_99_jit(ctx: &mut JitContext)
    requires
        ready(old(ctx).builder, 8),
    ensures
        emits(*old(ctx), *final(ctx), instr16_99_jit_code(), 0),
        restores_by(old(ctx).builder, final(ctx).builder, 0),
{
    ctx.builder.emit(Op::GetReg16(AX));
    ctx.builder.emit(Op::ConstI32(16));
    ctx.builder.emit(Op::ShlI32);
    ctx.builder.emit(Op::ConstI32(31));
    ctx.builder.emit(Op::ShrSI32);
    ctx.builder.emit(Op::SetReg16(DX));
    proof {
        assert(ctx.builder.code@ =~= old(ctx).builder.code@ + instr16_99_jit_code());
        assert(ctx.builder.frame().live =~= old(ctx).builder.frame().live);
        assert(ctx.builder.frame().live64 =~= old(ctx).builder.frame().live64);
        assert(ctx.builder.frame().ctrl =~= old(ctx).builder.frame().ctrl);
    }
}

/// The code that [`instr32_99_jit`] appends.
pub open spec fn instr32_99_jit_code() -> Seq<Op> {
    seq![Op::GetReg32(EAX), Op::ConstI32(31), Op::ShrSI32, Op::SetReg32(EDX)]
}

/// `cdq`: EDX = the sign of EAX, repeated.
pub fn instr32_99_jit(ctx: &mut JitContext)
    requires
        ready(old(ctx).builder, 8),
    ensures
        emits(*old(ctx), *final(ctx), instr32_99_jit_code(), 0),
        restores_by(old(ctx).builder, final(ctx).builder, 0),
{
    ctx.builder.emit(Op::GetReg32(EAX));
    ctx.builder.emit(Op::ConstI32(31));
    ctx.builder.emit(Op::ShrSI32);
    ctx.builder.emit(Op::SetReg32(EDX));
    proof {
        assert(ctx.builder.code@ =~= old(ctx).builder.code@ + instr32_99_jit_code());
        assert(ctx.builder.frame().live =~= old(ctx).builder.frame().live);
        assert(ctx.builder.frame().live64 =~= old(ctx).builder.frame().live64);
        assert(ctx.builder.frame().ctrl =~= old(ctx).builder.frame().ctrl);
    }
}

/// `pushf`: raises the general-protection exception when the check fails, else pushes the
/// flags.
pub fn instr16_9C_jit(ctx: &mut JitContext)
    requires
        ready(old(ctx).builder, 8),
    ensures
        emits(*old(ctx), *final(ctx), seq![Op::Fn0ConstRet("instr_9C_check"), Op::IfVoid, Op::TriggerGp(0), Op::Else, Op::Fn0ConstRet("get_eflags"), Op::SetNewLocal(old(ctx).builder.next_local), Op::Push16(WasmLocal::Temp(old(ctx).builder.next_local)), Op::BlockEnd, Op::FreeLocal(old(ctx).builder.next_local)], 1),
        restores_by(old(ctx).builder, final(ctx).builder, 0),
{
    ctx.builder.emit(Op::Fn0ConstRet("instr_9C_check"));
    ctx.builder.if_void();
    ctx.builder.diverge(Op::TriggerGp(0));
    ctx.builder.else_();
    ctx.builder.emit(Op::Fn0ConstRet("get_eflags"));
    let value = ctx.builder.set_new_local();
    ctx.builder.emit(Op::Push16(value));
    ctx.builder.block_end();
    ctx.builder.free_local(value);
    proof {
        assert(ctx.builder.code@ =~= old(ctx).builder.code@ + seq![Op::Fn0ConstRet("instr_9C_check"), Op::IfVoid, Op::TriggerGp(0), Op::Else, Op::Fn0ConstRet("get_eflags"), Op::SetNewLocal(old(ctx).builder.next_local), Op::Push16(WasmLocal::Temp(old(ctx).builder.next_local)), Op::BlockEnd, Op::FreeLocal(old(ctx).builder.next_local)]);
        assert(ctx.builder.frame().live =~= old(ctx).builder.frame().live);
        assert(ctx.builder.frame().live64 =~= old(ctx).builder.frame().live64);
        assert(ctx.builder.frame().ctrl =~= old(ctx).builder.frame().ctrl);
    }
}

/// `pushfd`: raises the general-protection exception when the check fails, else pushes the
/// flags without VM and RF.
pub fn instr32_9C_jit(ctx: &mut JitContext)
    requires
        ready(old(ctx).builder, 8),
    ensures
        emits(*old(ctx), *final(ctx), seq![Op::Fn0ConstRet("instr_9C_check"), Op::IfVoid, Op::TriggerGp(0), Op::Else, Op::Fn0ConstRet("get_eflags"), Op::ConstI32(0xFCFFFF), Op::AndI32, Op::SetNewLocal(old(ctx).builder.next_local), Op::Push32(WasmLocal::Temp(old(ctx).builder.next_local)), Op::BlockEnd, Op::FreeLocal(old(ctx).builder.next_local)], 1),
        restores_by(old(ctx).builder, final(ctx).builder, 0),
{
    ctx.builder.emit(Op::Fn0ConstRet("instr_9C_check"));
    ctx.builder.if_void();
    ctx.builder.diverge(Op::TriggerGp(0));
    ctx.builder.else_();
    ctx.builder.emit(Op::Fn0ConstRet("get_eflags"));
    ctx.builder.emit(Op::ConstI32(0xFCFFFF));
    ctx.builder.emit(Op::AndI32);
    let value = ctx.builder.set_new_local();
    ctx.builder.emit(Op::Push32(value));
    ctx.builder.block_end();
    ctx.builder.free_local(value);
    proof {
        assert(ctx.builder.code@ =~= old(ctx).builder.code@ + seq![Op::Fn0ConstRet("instr_9C_check"), Op::IfVoid, Op::TriggerGp(0), Op::Else, Op::Fn0ConstRet("get_eflags"), Op::ConstI32(0xFCFFFF), Op::AndI32, Op::SetNewLocal(old(ctx).builder.next_local), Op::Push32(WasmLocal::Temp(old(ctx).builder.next_local)), Op::BlockEnd, Op::FreeLocal(old(ctx).builder.next_local)]);
        assert(ctx.builder.frame().live =~= old(ctx).builder.frame().live);
        assert(ctx.builder.frame().live64 =~= old(ctx).builder.frame().live64);
        assert(ctx.builder.frame().ctrl =~= old(ctx).builder.frame().ctrl);
    }
}

/// The code that [`gen_popf`] appends.
pub open spec fn gen_popf_code(is_32: bool, start: u32, n: u32) -> Seq<Op> {
    seq![Op::Fn0ConstRet("instr_9C_check"), Op::IfVoid, Op::TriggerGp(0), Op::Else, Op::LoadAlignedI32(GlobalPointer::Flags), Op::SetNewLocal(n)] + (if is_32 { seq![Op::Pop32s] } else { seq![Op::GetLocal(WasmLocal::Temp(n)), Op::ConstI32(NOT_LOW_WORD), Op::AndI32, Op::Pop16, Op::OrI32] }) + seq![Op::CallFn1("update_eflags"), Op::GetLocal(WasmLocal::Temp(n)), Op::FreeLocal(n), Op::ConstI32(FLAG_INTERRUPT), Op::AndI32, Op::EqzI32, Op::LoadAlignedI32(GlobalPointer::Flags), Op::ConstI32(FLAG_INTERRUPT), Op::AndI32, Op::EqzI32, Op::EqzI32, Op::AndI32, Op::IfVoid, Op::SetEipToAfterCurrentInstruction, Op::DebugTrackJitExit(start), Op::MoveRegistersFromLocalsToMemory, Op::Fn0Const("handle_irqs"), Op::Return, Op::BlockEnd, Op::BlockEnd]
}

/// `popf`: raises the general-protection exception when the check fails, else pops the
/// flags; when that sets the interrupt flag, leaves the generated code so that pending
/// interrupts are handled.
#[verifier::rlimit(40)]
pub(crate) fn gen_popf(ctx: &mut JitContext, is_32: bool)
    requires
        ready(old(ctx).builder, 16),
    ensures
        emits(*old(ctx), *final(ctx), gen_popf_code(is_32, old(ctx).start_of_current_instruction, old(ctx).builder.next_local), 1),
        restores_by(old(ctx).builder, final(ctx).builder, 0),
{
    ctx.builder.emit(Op::Fn0ConstRet("instr_9C_check"));
    ctx.builder.if_void();
    ctx.builder.diverge(Op::TriggerGp(0));
    ctx.builder.else_();
    ctx.builder.emit(Op::LoadAlignedI32(GlobalPointer::Flags));
    let old_eflags = ctx.builder.set_new_local();
    proof { assert(ctx.builder.code@ =~= old(ctx).builder.code@ + seq![Op::Fn0ConstRet("instr_9C_check"), Op::IfVoid, Op::TriggerGp(0), Op::Else, Op::LoadAlignedI32(GlobalPointer::Flags), Op::SetNewLocal(old(ctx).builder.next_local)]); }
    if is_32 {
        ctx.builder.emit(Op::Pop32s);
        proof { assert(ctx.builder.code@ =~= old(ctx).builder.code@ + seq![Op::Fn0ConstRet("instr_9C_check"), Op::IfVoid, Op::TriggerGp(0), Op::Else, Op::LoadAlignedI32(GlobalPointer::Flags), Op::SetNewLocal(old(ctx).builder.next_local)] + seq![Op::Pop32s]); }
    } else {
        ctx.builder.emit(Op::GetLocal(old_eflags));
        ctx.builder.emit(Op::ConstI32(NOT_LOW_WORD));
        ctx.builder.emit(Op::AndI32);
        ctx.builder.emit(Op::Pop16);
        ctx.builder.emit(Op::OrI32);
        proof { assert(ctx.builder.code@ =~= old(ctx).builder.code@ + seq![Op::Fn0ConstRet("instr_9C_check"), Op::IfVoid, Op::TriggerGp(0), Op::Else, Op::LoadAlignedI32(GlobalPointer::Flags), Op::SetNewLocal(old(ctx).builder.next_local)] + seq![Op::GetLocal(WasmLocal::Temp(old(ctx).builder.next_local)), Op::ConstI32(NOT_LOW_WORD), Op::AndI32, Op::Pop16, Op::OrI32]); }
    }
    proof { assert(ctx.builder.code@ =~= old(ctx).builder.code@ + seq![Op::Fn0ConstRet("instr_9C_check"), Op::IfVoid, Op::TriggerGp(0), Op::Else, Op::LoadAlignedI32(GlobalPointer::Flags), Op::SetNewLocal(old(ctx).builder.next_local)] + (if is_32 { seq![Op::Pop32s] } else { seq![Op::GetLocal(WasmLocal::Temp(old(ctx).builder.next_local)), Op::ConstI32(NOT_LOW_WORD), Op::AndI32, Op::Pop16, Op::OrI32] })); }
    ctx.builder.emit(Op::CallFn1("update_eflags"));
    ctx.builder.emit(Op::GetLocal(old_eflags));
    ctx.builder.free_local(old_eflags);
    ctx.builder.emit(Op::ConstI32(FLAG_INTERRUPT));
    ctx.builder.emit(Op::AndI32);
    ctx.builder.emit(Op::EqzI32);
    ctx.builder.emit(Op::LoadAlignedI32(GlobalPointer::Flags));
    ctx.builder.emit(Op::ConstI32(FLAG_INTERRUPT));
    ctx.builder.emit(Op::AndI32);
    ctx.builder.emit(Op::EqzI32);
    ctx.builder.emit(Op::EqzI32);
    ctx.builder.emit(Op::AndI32);
    ctx.builder.if_void();
    ctx.builder.emit(Op::SetEipToAfterCurrentInstruction);
    ctx.builder.emit(Op::DebugTrackJitExit(ctx.start_of_current_instruction));
    ctx.builder.emit(Op::MoveRegistersFromLocalsToMemory);
    ctx.builder.emit(Op::Fn0Const("handle_irqs"));
    ctx.builder.diverge(Op::Return);
    ctx.builder.block_end();
    ctx.builder.block_end();
    proof {
        assert(ctx.builder.code@ =~= old(ctx).builder.code@ + gen_popf_code(is_32, old(ctx).start_of_current_instruction, old(ctx).builder.next_local));
        assert(ctx.builder.frame().live =~= old(ctx).builder.frame().live);
        assert(ctx.builder.frame().live64 =~= old(ctx).builder.frame().live64);
        assert(ctx.builder.frame().ctrl =~= old(ctx).builder.frame().ctrl);
    }
}

/// `popf` with 16-bit operands.
pub fn instr16_9D_jit(ctx: &mut JitContext)
    requires
        ready(old(ctx).builder, 8),
    ensures
        emits(*old(ctx), *final(ctx), gen_popf_code(false, old(ctx).start_of_current_instruction, old(ctx).builder.next_local), 1),
        restores_by(old(ctx).builder, final(ctx).builder, 0),
{
    gen_popf(ctx, false);
    proof {
        assert(ctx.builder.code@ =~= old(ctx).builder.code@ + gen_popf_code(false, old(ctx).start_of_current_instruction, old(ctx).builder.next_local));
        assert(ctx.builder.frame().live =~= old(ctx).builder.frame().live);
        assert(ctx.builder.frame().live64 =~= old(ctx).builder.frame().live64);
        assert(ctx.builder.frame().ctrl =~= old(ctx).builder.frame().ctrl);
    }
}

/// `popfd`.
pub fn instr32_9D_jit(ctx: &mut JitContext)
    requires
        ready(old(ctx).builder, 8),
    ensures
        emits(*old(ctx), *final(ctx), gen_popf_code(true, old(ctx).start_of_current_instruction, old(ctx).builder.next_local), 1),
        restores_by(old(ctx).builder, final(ctx).builder, 0),
{
    gen_popf(ctx, true);
    proof {
        assert(ctx.builder.code@ =~= old(ctx).builder.code@ + gen_popf_code(true, old(ctx).start_of_current_instruction, old(ctx).builder.next_local));
        assert(ctx.builder.frame().live =~= old(ctx).builder.frame().live);
        assert(ctx.builder.frame().live64 =~= old(ctx).builder.frame().live64);
        assert(ctx.builder.frame().ctrl =~= old(ctx).builder.frame().ctrl);
    }
}

/// The code that [`instr_9E_jit`] appends.
pub open spec fn instr_9E_jit_code() -> Seq<Op> {
    seq![Op::ConstGlobal(GlobalPointer::Flags), Op::LoadAlignedI32(GlobalPointer::Flags), Op::ConstI32(NOT_LOW_BYTE), Op::AndI32, Op::GetReg8(AH), Op::OrI32, Op::ConstI32(FLAGS_MASK), Op::AndI32, Op::ConstI32(FLAGS_DEFAULT), Op::OrI32, Op::StoreAlignedI32(0), Op::ConstGlobal(GlobalPointer::FlagsChanged), Op::LoadAlignedI32(GlobalPointer::FlagsChanged), Op::ConstI32(NOT_LOW_BYTE), Op::AndI32, Op::StoreAlignedI32(0)]
}

/// `sahf`: the low byte of the flags becomes AH; those flags are no longer computed lazily.
#[verifier::rlimit(40)]
pub fn instr_9E_jit(ctx: &mut JitContext)
    requires
        ready(old(ctx).builder, 8),
    ensures
        emits(*old(ctx), *final(ctx), instr_9E_jit_code(), 0),
        restores_by(old(ctx).builder, final(ctx).builder, 0),
{
    ctx.builder.emit(Op::ConstGlobal(GlobalPointer::Flags));
    ctx.builder.emit(Op::LoadAlignedI32(GlobalPointer::Flags));
    ctx.builder.emit(Op::ConstI32(NOT_LOW_BYTE));
    ctx.builder.emit(Op::AndI32);
    ctx.builder.emit(Op::GetReg8(AH));
    ctx.builder.emit(Op::OrI32);
    ctx.builder.emit(Op::ConstI32(FLAGS_MASK));
    ctx.builder.emit(Op::AndI32);
    ctx.builder.emit(Op::ConstI32(FLAGS_DEFAULT));
    ctx.builder.emit(Op::OrI32);
    ctx.builder.emit(Op::StoreAlignedI32(0));
    ctx.builder.emit(Op::ConstGlobal(GlobalPointer::FlagsChanged));
    ctx.builder.emit(Op::LoadAlignedI32(GlobalPointer::FlagsChanged));
    ctx.builder.emit(Op::ConstI32(NOT_LOW_BYTE));
    ctx.builder.emit(Op::AndI32);
    ctx.builder.emit(Op::StoreAlignedI32(0));
    proof {
        assert(ctx.builder.code@ =~= old(ctx).builder.code@ + instr_9E_jit_code());
        assert(ctx.builder.frame().live =~= old(ctx).builder.frame().live);
        assert(ctx.builder.frame().live64 =~= old(ctx).builder.frame().live64);
        assert(ctx.builder.frame().ctrl =~= old(ctx).builder.frame().ctrl);
    }
}

/// `lahf`: AH = the low byte of the flags.
pub fn instr_9F_jit(ctx: &mut JitContext)
    requires
        ready(old(ctx).builder, 8),
    ensures
        emits(*old(ctx), *final(ctx), seq![Op::Fn0ConstRet("get_eflags"), Op::SetReg8(AH)], 0),
        restores_by(old(ctx).builder, final(ctx).builder, 0),
{
    ctx.builder.emit(Op::Fn0ConstRet("get_eflags"));
    ctx.builder.emit(Op::SetReg8(AH));
    proof {
        assert(ctx.builder.code@ =~= old(ctx).builder.code@ + seq![Op::Fn0ConstRet("get_eflags"), Op::SetReg8(AH)]);
        assert(ctx.builder.frame().live =~= old(ctx).builder.frame().live);
        assert(ctx.builder.frame().live64 =~= old(ctx).builder.frame().live64);
        assert(ctx.builder.frame().ctrl =~= old(ctx).builder.frame().ctrl);
    }
}

/// Loads AL from a fixed offset in the data segment.
pub fn instr_A0_jit(ctx: &mut JitContext, immaddr: u32)
    requires
        ready(old(ctx).builder, 8),
    ensures
        emits(*old(ctx), *final(ctx), seq![Op::ConstI32(immaddr as i32), Op::AddSegOffset(DS), Op::SetNewLocal(old(ctx).builder.next_local), Op::SafeRead8(WasmLocal::Temp(old(ctx).builder.next_local)), Op::FreeLocal(old(ctx).builder.next_local), Op::SetReg8(AL)], 1),
        restores_by(old(ctx).builder, final(ctx).builder, 0),
{
    ctx.builder.emit(Op::ConstI32(immaddr as i32));
    ctx.builder.emit(Op::AddSegOffset(DS));
    let addr = ctx.builder.set_new_local();
    ctx.builder.emit(Op::SafeRead8(addr));
    ctx.builder.free_local(addr);
    ctx.builder.emit(Op::SetReg8(AL));
    proof {
        assert(ctx.builder.code@ =~= old(ctx).builder.code@ + seq![Op::ConstI32(immaddr as i32), Op::AddSegOffset(DS), Op::SetNewLocal(old(ctx).builder.next_local), Op::SafeRead8(WasmLocal::Temp(old(ctx).builder.next_local)), Op::FreeLocal(old(ctx).builder.next_local), Op::SetReg8(AL)]);
        assert(ctx.builder.frame().live =~= old(ctx).builder.frame().live);
        assert(ctx.builder.frame().live64 =~= old(ctx).builder.frame().live64);
        assert(ctx.builder.frame().ctrl =~= old(ctx).builder.frame().ctrl);
    }
}

/// Loads AX from a fixed offset in the data segment.
pub fn instr16_A1_jit(ctx: &mut JitContext, immaddr: u32)
    requires
        ready(old(ctx).builder, 8),
    ensures
        emits(*old(ctx), *final(ctx), seq![Op::ConstI32(immaddr as i32), Op::AddSegOffset(DS), Op::SetNewLocal(old(ctx).builder.next_local), Op::SafeRead16(WasmLocal::Temp(old(ctx).builder.next_local)), Op::FreeLocal(old(ctx).builder.next_local), Op::SetReg16(AX)], 1),
        restores_by(old(ctx).builder, final(ctx).builder, 0),
{
    ctx.builder.emit(Op::ConstI32(immaddr as i32));
    ctx.builder.emit(Op::AddSegOffset(DS));
    let addr = ctx.builder.set_new_local();
    ctx.builder.emit(Op::SafeRead16(addr));
    ctx.builder.free_local(addr);
    ctx.builder.emit(Op::SetReg16(AX));
    proof {
        assert(ctx.builder.code@ =~= old(ctx).builder.code@ + seq![Op::ConstI32(immaddr as i32), Op::AddSegOffset(DS), Op::SetNewLocal(old(ctx).builder.next_local), Op::SafeRead16(WasmLocal::Temp(old(ctx).builder.next_local)), Op::FreeLocal(old(ctx).builder.next_local), Op::SetReg16(AX)]);
        assert(ctx.builder.frame().live =~= old(ctx).builder.frame().live);
        assert(ctx.builder.frame().live64 =~= old(ctx).builder.frame().live64);
        assert(ctx.builder.frame().ctrl =~= old(ctx).builder.frame().ctrl);
    }
}

/// Loads EAX from a fixed offset in the data segment.
pub fn instr32_A1_jit(ctx: &mut JitContext, immaddr: u32)
    requires
        ready(old(ctx).builder, 8),
    ensures
        emits(*old(ctx), *final(ctx), seq![Op::ConstI32(immaddr as i32), Op::AddSegOffset(DS), Op::SetNewLocal(old(ctx).builder.next_local), Op::SafeRead32(WasmLocal::Temp(old(ctx).builder.next_local)), Op::FreeLocal(old(ctx).builder.next_local), Op::SetReg32(EAX)], 1),
        restores_by(old(ctx).builder, final(ctx).builder, 0),
{
    ctx.builder.emit(Op::ConstI32(immaddr as i32));
    ctx.builder.emit(Op::AddSegOffset(DS));
    let addr = ctx.builder.set_new_local();
    ctx.builder.emit(Op::SafeRead32(addr));
    ctx.builder.free_local(addr);
    ctx.builder.emit(Op::SetReg32(EAX));
    proof {
        assert(ctx.builder.code@ =~= old(ctx).builder.code@ + seq![Op::ConstI32(immaddr as i32), Op::AddSegOffset(DS), Op::SetNewLocal(old(ctx).builder.next_local), Op::SafeRead32(WasmLocal::Temp(old(ctx).builder.next_local)), Op::FreeLocal(old(ctx).builder.next_local), Op::SetReg32(EAX)]);
        assert(ctx.builder.frame().live =~= old(ctx).builder.frame().live);
        assert(ctx.builder.frame().live64 =~= old(ctx).builder.frame().live64);
        assert(ctx.builder.frame().ctrl =~= old(ctx).builder.frame().ctrl);
    }
}

/// Stores AL at a fixed offset in the data segment.
pub fn instr_A2_jit(ctx: &mut JitContext, immaddr: u32)
    requires
        ready(old(ctx).builder, 8),
    ensures
        emits(*old(ctx), *final(ctx), seq![Op::ConstI32(immaddr as i32), Op::AddSegOffset(DS), Op::SetNewLocal(old(ctx).builder.next_local), Op::SafeWrite8(WasmLocal::Temp(old(ctx).builder.next_local), WasmLocal::Register(EAX)), Op::FreeLocal(old(ctx).builder.next_local)], 1),
        restores_by(old(ctx).builder, final(ctx).builder, 0),
{
    ctx.builder.emit(Op::ConstI32(immaddr as i32));
    ctx.builder.emit(Op::AddSegOffset(DS));
    let addr = ctx.builder.set_new_local();
    ctx.builder.emit(Op::SafeWrite8(addr, WasmLocal::Register(EAX)));
    ctx.builder.free_local(addr);
    proof {
        assert(ctx.builder.code@ =~= old(ctx).builder.code@ + seq![Op::ConstI32(immaddr as i32), Op::AddSegOffset(DS), Op::SetNewLocal(old(ctx).builder.next_local), Op::SafeWrite8(WasmLocal::Temp(old(ctx).builder.next_local), WasmLocal::Register(EAX)), Op::FreeLocal(old(ctx).builder.next_local)]);
        assert(ctx.builder.frame().live =~= old(ctx).builder.frame().live);
        assert(ctx.builder.frame().live64 =~= old(ctx).builder.frame().live64);
        assert(ctx.builder.frame().ctrl =~= old(ctx).builder.frame().ctrl);
    }
}

/// Stores AX at a fixed offset in the data segment.
pub fn instr16_A3_jit(ctx: &mut JitContext, immaddr: u32)
    requires
        ready(old(ctx).builder, 8),
    ensures
        emits(*old(ctx), *final(ctx), seq![Op::ConstI32(immaddr as i32), Op::AddSegOffset(DS), Op::SetNewLocal(old(ctx).builder.next_local), Op::SafeWrite16(WasmLocal::Temp(old(ctx).builder.next_local), WasmLocal::Register(EAX)), Op::FreeLocal(old(ctx).builder.next_local)], 1),
        restores_by(old(ctx).builder, final(ctx).builder, 0),
{
    ctx.builder.emit(Op::ConstI32(immaddr as i32));
    ctx.builder.emit(Op::AddSegOffset(DS));
    let addr = ctx.builder.set_new_local();
    ctx.builder.emit(Op::SafeWrite16(addr, WasmLocal::Register(EAX)));
    ctx.builder.free_local(addr);
    proof {
        assert(ctx.builder.code@ =~= old(ctx).builder.code@ + seq![Op::ConstI32(immaddr as i32), Op::AddSegOffset(DS), Op::SetNewLocal(old(ctx).builder.next_local), Op::SafeWrite16(WasmLocal::Temp(old(ctx).builder.next_local), WasmLocal::Register(EAX)), Op::FreeLocal(old(ctx).builder.next_local)]);
        assert(ctx.builder.frame().live =~= old(ctx).builder.frame().live);
        assert(ctx.builder.frame().live64 =~= old(ctx).builder.frame().live64);
        assert(ctx.builder.frame().ctrl =~= old(ctx).builder.frame().ctrl);
    }
}

/// Stores EAX at a fixed offset in the data segment.
pub fn instr32_A3_jit(ctx: &mut JitContext, immaddr: u32)
    requires
        ready(old(ctx).builder, 8),
    ensures
        emits(*old(ctx), *final(ctx), seq![Op::ConstI32(immaddr as i32), Op::AddSegOffset(DS), Op::SetNewLocal(old(ctx).builder.next_local), Op::SafeWrite32(WasmLocal::Temp(old(ctx).builder.next_local), WasmLocal::Register(EAX)), Op::FreeLocal(old(ctx).builder.next_local)], 1),
        restores_by(old(ctx).builder, final(ctx).builder, 0),
{
    ctx.builder.emit(Op::ConstI32(immaddr as i32));
    ctx.builder.emit(Op::AddSegOffset(DS));
    let addr = ctx.builder.set_new_local();
    ctx.builder.emit(Op::SafeWrite32(addr, WasmLocal::Register(EAX)));
    ctx.builder.free_local(addr);
    proof {
        assert(ctx.builder.code@ =~= old(ctx).builder.code@ + seq![Op::ConstI32(immaddr as i32), Op::AddSegOffset(DS), Op::SetNewLocal(old(ctx).builder.next_local), Op::SafeWrite32(WasmLocal::Temp(old(ctx).builder.next_local), WasmLocal::Register(EAX)), Op::FreeLocal(old(ctx).builder.next_local)]);
        assert(ctx.builder.frame().live =~= old(ctx).builder.frame().live);
        assert(ctx.builder.frame().live64 =~= old(ctx).builder.frame().live64);
        assert(ctx.builder.frame().ctrl =~= old(ctx).builder.frame().ctrl);
    }
}

/// Tests AL against an immediate.
pub fn instr_A8_jit(ctx: &mut JitContext, imm8: u32)
    requires
        ready(old(ctx).builder, 8),
    ensures
        emits(*old(ctx), *final(ctx), gen_test_code(WasmLocal::Register(0), LocalOrImmedate::Immediate(imm8 as i32), OPSIZE_8), 0),
        restores_by(old(ctx).builder, final(ctx).builder, 0),
{
    gen_test8(&mut ctx.builder, &WasmLocal::Register(0), &LocalOrImmedate::Immediate(imm8 as i32));
    proof {
        assert(ctx.builder.code@ =~= old(ctx).builder.code@ + gen_test_code(WasmLocal::Register(0), LocalOrImmedate::Immediate(imm8 as i32), OPSIZE_8));
        assert(ctx.builder.frame().live =~= old(ctx).builder.frame().live);
        assert(ctx.builder.frame().live64 =~= old(ctx).builder.frame().live64);
        assert(ctx.builder.frame().ctrl =~= old(ctx).builder.frame().ctrl);
    }
}

/// Tests AX against an immediate.
pub fn instr16_A9_jit(ctx: &mut JitContext, imm16: u32)
    requires
        ready(old(ctx).builder, 8),
    ensures
        emits(*old(ctx), *final(ctx), gen_test_code(WasmLocal::Register(0), LocalOrImmedate::Immediate(imm16 as i32), OPSIZE_16), 0),
        restores_by(old(ctx).builder, final(ctx).builder, 0),
{
    gen_test16(&mut ctx.builder, &WasmLocal::Register(0), &LocalOrImmedate::Immediate(imm16 as i32));
    proof {
        assert(ctx.builder.code@ =~= old(ctx).builder.code@ + gen_test_code(WasmLocal::Register(0), LocalOrImmedate::Immediate(imm16 as i32), OPSIZE_16));
        assert(ctx.builder.frame().live =~= old(ctx).builder.frame().live);
        assert(ctx.builder.frame().live64 =~= old(ctx).builder.frame().live64);
        assert(ctx.builder.frame().ctrl =~= old(ctx).builder.frame().ctrl);
    }
}

/// The code that [`instr32_A9_jit`] appends.
pub open spec fn instr32_A9_jit_code(imm32: u32) -> Seq<Op> {
    gen_test_code(WasmLocal::Register(0), LocalOrImmedate::Immediate(imm32 as i32), OPSIZE_32)
}

/// Tests EAX against an immediate.
pub fn instr32_A9_jit(ctx: &mut JitContext, imm32: u32)
    requires
        ready(old(ctx).builder, 8),
    ensures
        emits(*old(ctx), *final(ctx), instr32_A9_jit_code(imm32), 0),
        restores_by(old(ctx).builder, final(ctx).builder, 0),
{
    gen_test32(&mut ctx.builder, &WasmLocal::Register(0), &LocalOrImmedate::Immediate(imm32 as i32));
    proof {
        assert(ctx.builder.code@ =~= old(ctx).builder.code@ + instr32_A9_jit_code(imm32));
        assert(ctx.builder.frame().live =~= old(ctx).builder.frame().live);
        assert(ctx.builder.frame().live64 =~= old(ctx).builder.frame().live64);
        assert(ctx.builder.frame().ctrl =~= old(ctx).builder.frame().ctrl);
    }
}

/// Stores an immediate into the 8-bit register 0.
pub fn instr_B0_jit(ctx: &mut JitContext, imm: u32)
    requires
        ready(old(ctx).builder, 8),
    ensures
        emits(*old(ctx), *final(ctx), gen_mov_reg8_imm_code(0, imm), 0),
        restores_by(old(ctx).builder, final(ctx).builder, 0),
{
    gen_mov_reg8_imm(ctx, 0, imm);
    proof {
        assert(ctx.builder.code@ =~= old(ctx).builder.code@ + gen_mov_reg8_imm_code(0, imm));
        assert(ctx.builder.frame().live =~= old(ctx).builder.frame().live);
        assert(ctx.builder.frame().live64 =~= old(ctx).builder.frame().live64);
        assert(ctx.builder.frame().ctrl =~= old(ctx).builder.frame().ctrl);
    }
}

/// Stores an immediate into the 8-bit register 1.
pub fn instr_B1_jit(ctx: &mut JitContext, imm: u32)
    requires
        ready(old(ctx).builder, 8),
    ensures
        emits(*old(ctx), *final(ctx), gen_mov_reg8_imm_code(1, imm), 0),
        restores_by(old(ctx).builder, final(ctx).builder, 0),
{
    gen_mov_reg8_imm(ctx, 1, imm);
    proof {
        assert(ctx.builder.code@ =~= old(ctx).builder.code@ + gen_mov_reg8_imm_code(1, imm));
        assert(ctx.builder.frame().live =~= old(ctx).builder.frame().live);
        assert(ctx.builder.frame().live64 =~= old(ctx).builder.frame().live64);
        assert(ctx.builder.frame().ctrl =~= old(ctx).builder.frame().ctrl);
    }
}

/// Stores an immediate into the 8-bit register 2.
pub fn instr_B2_jit(ctx: &mut JitContext, imm: u32)
    requires
        ready(old(ctx).builder, 8),
    ensures
        emits(*old(ctx), *final(ctx), gen_mov_reg8_imm_code(2, imm), 0),
        restores_by(old(ctx).builder, final(ctx).builder, 0),
{
    gen_mov_reg8_imm(ctx, 2, imm);
    proof {
        assert(ctx.builder.code@ =~= old(ctx).builder.code@ + gen_mov_reg8_imm_code(2, imm));
        assert(ctx.builder.frame().live =~= old(ctx).builder.frame().live);
        assert(ctx.builder.frame().live64 =~= old(ctx).builder.frame().live64);
        assert(ctx.builder.frame().ctrl =~= old(ctx).builder.frame().ctrl);
    }
}

/// Stores an immediate into the 8-bit register 3.
pub fn instr_B3_jit(ctx: &mut JitContext, imm: u32)
    requires
        ready(old(ctx).builder, 8),
    ensures
        emits(*old(ctx), *final(ctx), gen_mov_reg8_imm_code(3, imm), 0),
        restores_by(old(ctx).builder, final(ctx).builder, 0),
{
    gen_mov_reg8_imm(ctx, 3, imm);
    proof {
        assert(ctx.builder.code@ =~= old(ctx).builder.code@ + gen_mov_reg8_imm_code(3, imm));
        assert(ctx.builder.frame().live =~= old(ctx).builder.frame().live);
        assert(ctx.builder.frame().live64 =~= old(ctx).builder.frame().live64);
        assert(ctx.builder.frame().ctrl =~= old(ctx).builder.frame().ctrl);
    }
}

/// Stores an immediate into the 8-bit register 4.
pub fn instr_B4_jit(ctx: &mut JitContext, imm: u32)
    requires
        ready(old(ctx).builder, 8),
    ensures
        emits(*old(ctx), *final(ctx), gen_mov_reg8_imm_code(4, imm), 0),
        restores_by(old(ctx).builder, final(ctx).builder, 0),
{
    gen_mov_reg8_imm(ctx, 4, imm);
    proof {
        assert(ctx.builder.code@ =~= old(ctx).builder.code@ + gen_mov_reg8_imm_code(4, imm));
        assert(ctx.builder.frame().live =~= old(ctx).builder.frame().live);
        assert(ctx.builder.frame().live64 =~= old(ctx).builder.frame().live64);
        assert(ctx.builder.frame().ctrl =~= old(ctx).builder.frame().ctrl);
    }
}

/// Stores an immediate into the 8-bit register 5.
pub fn instr_B5_jit(ctx: &mut JitContext, imm: u32)
    requires
        ready(old(ctx).builder, 8),
    ensures
        emits(*old(ctx), *final(ctx), gen_mov_reg8_imm_code(5, imm), 0),
        restores_by(old(ctx).builder, final(ctx).builder, 0),
{
    gen_mov_reg8_imm(ctx, 5, imm);
    proof {
        assert(ctx.builder.code@ =~= old(ctx).builder.code@ + gen_mov_reg8_imm_code(5, imm));
        assert(ctx.builder.frame().live =~= old(ctx).builder.frame().live);
        assert(ctx.builder.frame().live64 =~= old(ctx).builder.frame().live64);
        assert(ctx.builder.frame().ctrl =~= old(ctx).builder.frame().ctrl);
    }
}

/// Stores an immediate into the 8-bit register 6.
pub fn instr_B6_jit(ctx: &mut JitContext, imm: u32)
    requires
        ready(old(ctx).builder, 8),
    ensures
        emits(*old(ctx), *final(ctx), gen_mov_reg8_imm_code(6, imm), 0),
        restores_by(old(ctx).builder, final(ctx).builder, 0),
{
    gen_mov_reg8_imm(ctx, 6, imm);
    proof {
        assert(ctx.builder.code@ =~= old(ctx).builder.code@ + gen_mov_reg8_imm_code(6, imm));
        assert(ctx.builder.frame().live =~= old(ctx).builder.frame().live);
        assert(ctx.builder.frame().live64 =~= old(ctx).builder.frame().live64);
        assert(ctx.builder.frame().ctrl =~= old(ctx).builder.frame().ctrl);
    }
}

/// Stores an immediate into the 8-bit register 7.
pub fn instr_B7_jit(ctx: &mut JitContext, imm: u32)
    requires
        ready(old(ctx).builder, 8),
    ensures
        emits(*old(ctx), *final(ctx), gen_mov_reg8_imm_code(7, imm), 0),
        restores_by(old(ctx).builder, final(ctx).builder, 0),
{
    gen_mov_reg8_imm(ctx, 7, imm);
    proof {
        assert(ctx.builder.code@ =~= old(ctx).builder.code@ + gen_mov_reg8_imm_code(7, imm));
        assert(ctx.builder.frame().live =~= old(ctx).builder.frame().live);
        assert(ctx.builder.frame().live64 =~= old(ctx).builder.frame().live64);
        assert(ctx.builder.frame().ctrl =~= old(ctx).builder.frame().ctrl);
    }
}

/// Stores an immediate into AX.
pub fn instr16_B8_jit(ctx: &mut JitContext, imm: u32)
    requires
        ready(old(ctx).builder, 8),
    ensures
        emits(*old(ctx), *final(ctx), gen_mov_reg16_imm_code(0, imm), 0),
        restores_by(old(ctx).builder, final(ctx).builder, 0),
{
    gen_mov_reg16_imm(ctx, 0, imm);
    proof {
        assert(ctx.builder.code@ =~= old(ctx).builder.code@ + gen_mov_reg16_imm_code(0, imm));
        assert(ctx.builder.frame().live =~= old(ctx).builder.frame().live);
        assert(ctx.builder.frame().live64 =~= old(ctx).builder.frame().live64);
        assert(ctx.builder.frame().ctrl =~= old(ctx).builder.frame().ctrl);
    }
}

/// Stores an immediate into CX.
pub fn instr16_B9_jit(ctx: &mut JitContext, imm: u32)
    requires
        ready(old(ctx).builder, 8),
    ensures
        emits(*old(ctx), *final(ctx), gen_mov_reg16_imm_code(1, imm), 0),
        restores_by(old(ctx).builder, final(ctx).builder, 0),
{
    gen_mov_reg16_imm(ctx, 1, imm);
    proof {
        assert(ctx.builder.code@ =~= old(ctx).builder.code@ + gen_mov_reg16_imm_code(1, imm));
        assert(ctx.builder.frame().live =~= old(ctx).builder.frame().live);
        assert(ctx.builder.frame().live64 =~= old(ctx).builder.frame().live64);
        assert(ctx.builder.frame().ctrl =~= old(ctx).builder.frame().ctrl);
    }
}

/// Stores an immediate into DX.
pub fn instr16_BA_jit(ctx: &mut JitContext, imm: u32)
    requires
        ready(old(ctx).builder, 8),
    ensures
        emits(*old(ctx), *final(ctx), gen_mov_reg16_imm_code(2, imm), 0),
        restores_by(old(ctx).builder, final(ctx).builder, 0),
{
    gen_mov_reg16_imm(ctx, 2, imm);
    proof {
        assert(ctx.builder.code@ =~= old(ctx).builder.code@ + gen_mov_reg16_imm_code(2, imm));
        assert(ctx.builder.frame().live =~= old(ctx).builder.frame().live);
        assert(ctx.builder.frame().live64 =~= old(ctx).builder.frame().live64);
        assert(ctx.builder.frame().ctrl =~= old(ctx).builder.frame().ctrl);
    }
}

/// Stores an immediate into BX.
pub fn instr16_BB_jit(ctx: &mut JitContext, imm: u32)
    requires
        ready(old(ctx).builder, 8),
    ensures
        emits(*old(ctx), *final(ctx), gen_mov_reg16_imm_code(3, imm), 0),
        restores_by(old(ctx).builder, final(ctx).builder, 0),
{
    gen_mov_reg16_imm(ctx, 3, imm);
    proof {
        assert(ctx.builder.code@ =~= old(ctx).builder.code@ + gen_mov_reg16_imm_code(3, imm));
        assert(ctx.builder.frame().live =~= old(ctx).builder.frame().live);
        assert(ctx.builder.frame().live64 =~= old(ctx).builder.frame().live64);
        assert(ctx.builder.frame().ctrl =~= old(ctx).builder.frame().ctrl);
    }
}

/// Stores an immediate into SP.
pub fn instr16_BC_jit(ctx: &mut JitContext, imm: u32)
    requires
        ready(old(ctx).builder, 8),
    ensures
        emits(*old(ctx), *final(ctx), gen_mov_reg16_imm_code(4, imm), 0),
        restores_by(old(ctx).builder, final(ctx).builder, 0),
{
    gen_mov_reg16_imm(ctx, 4, imm);
    proof {
        assert(ctx.builder.code@ =~= old(ctx).builder.code@ + gen_mov_reg16_imm_code(4, imm));
        assert(ctx.builder.frame().live =~= old(ctx).builder.frame().live);
        assert(ctx.builder.frame().live64 =~= old(ctx).builder.frame().live64);
        assert(ctx.builder.frame().ctrl =~= old(ctx).builder.frame().ctrl);
    }
}

/// Stores an immediate into BP.
pub fn instr16_BD_jit(ctx: &mut JitContext, imm: u32)
    requires
        ready(old(ctx).builder, 8),
    ensures
        emits(*old(ctx), *final(ctx), gen_mov_reg16_imm_code(5, imm), 0),
        restores_by(old(ctx).builder, final(ctx).builder, 0),
{
    gen_mov_reg16_imm(ctx, 5, imm);
    proof {
        assert(ctx.builder.code@ =~= old(ctx).builder.code@ + gen_mov_reg16_imm_code(5, imm));
        assert(ctx.builder.frame().live =~= old(ctx).builder.frame().live);
        assert(ctx.builder.frame().live64 =~= old(ctx).builder.frame().live64);
        assert(ctx.builder.frame().ctrl =~= old(ctx).builder.frame().ctrl);
    }
}

/// Stores an immediate into SI.
pub fn instr16_BE_jit(ctx: &mut JitContext, imm: u32)
    requires
        ready(old(ctx).builder, 8),
    ensures
        emits(*old(ctx), *final(ctx), gen_mov_reg16_imm_code(6, imm), 0),
        restores_by(old(ctx).builder, final(ctx).builder, 0),
{
    gen_mov_reg16_imm(ctx, 6, imm);
    proof {
        assert(ctx.builder.code@ =~= old(ctx).builder.code@ + gen_mov_reg16_imm_code(6, imm));
        assert(ctx.builder.frame().live =~= old(ctx).builder.frame().live);
        assert(ctx.builder.frame().live64 =~= old(ctx).builder.frame().live64);
        assert(ctx.builder.frame().ctrl =~= old(ctx).builder.frame().ctrl);
    }
}

/// Stores an immediate into DI.
pub fn instr16_BF_jit(ctx: &mut JitContext, imm: u32)
    requires
        ready(old(ctx).builder, 8),
    ensures
        emits(*old(ctx), *final(ctx), gen_mov_reg16_imm_code(7, imm), 0),
        restores_by(old(ctx).builder, final(ctx).builder, 0),
{
    gen_mov_reg16_imm(ctx, 7, imm);
    proof {
        assert(ctx.builder.code@ =~= old(ctx).builder.code@ + gen_mov_reg16_imm_code(7, imm));
        assert(ctx.builder.frame().live =~= old(ctx).builder.frame().live);
        assert(ctx.builder.frame().live64 =~= old(ctx).builder.frame().live64);
        assert(ctx.builder.frame().ctrl =~= old(ctx).builder.frame().ctrl);
    }
}

/// Stores an immediate into EAX.
pub fn instr32_B8_jit(ctx: &mut JitContext, imm: u32)
    requires
        ready(old(ctx).builder, 8),
    ensures
        emits(*old(ctx), *final(ctx), gen_mov_reg32_imm_code(0, imm), 0),
        restores_by(old(ctx).builder, final(ctx).builder, 0),
{
    gen_mov_reg32_imm(ctx, 0, imm);
    proof {
        assert(ctx.builder.code@ =~= old(ctx).builder.code@ + gen_mov_reg32_imm_code(0, imm));
        assert(ctx.builder.frame().live =~= old(ctx).builder.frame().live);
        assert(ctx.builder.frame().live64 =~= old(ctx).builder.frame().live64);
        assert(ctx.builder.frame().ctrl =~= old(ctx).builder.frame().ctrl);
    }
}

/// Stores an immediate into ECX.
pub fn instr32_B9_jit(ctx: &mut JitContext, imm: u32)
    requires
        ready(old(ctx).builder, 8),
    ensures
        emits(*old(ctx), *final(ctx), gen_mov_reg32_imm_code(1, imm), 0),
        restores_by(old(ctx).builder, final(ctx).builder, 0),
{
    gen_mov_reg32_imm(ctx, 1, imm);
    proof {
        assert(ctx.builder.code@ =~= old(ctx).builder.code@ + gen_mov_reg32_imm_code(1, imm));
        assert(ctx.builder.frame().live =~= old(ctx).builder.frame().live);
        assert(ctx.builder.frame().live64 =~= old(ctx).builder.frame().live64);
        assert(ctx.builder.frame().ctrl =~= old(ctx).builder.frame().ctrl);
    }
}

/// Stores an immediate into EDX.
pub fn instr32_BA_jit(ctx: &mut JitContext, imm: u32)
    requires
        ready(old(ctx).builder, 8),
    ensures
        emits(*old(ctx), *final(ctx), gen_mov_reg32_imm_code(2, imm), 0),
        restores_by(old(ctx).builder, final(ctx).builder, 0),
{
    gen_mov_reg32_imm(ctx, 2, imm);
    proof {
        assert(ctx.builder.code@ =~= old(ctx).builder.code@ + gen_mov_reg32_imm_code(2, imm));
        assert(ctx.builder.frame().live =~= old(ctx).builder.frame().live);
        assert(ctx.builder.frame().live64 =~= old(ctx).builder.frame().live64);
        assert(ctx.builder.frame().ctrl =~= old(ctx).builder.frame().ctrl);
    }
}

/// Stores an immediate into EBX.
pub fn instr32_BB_jit(ctx: &mut JitContext, imm: u32)
    requires
        ready(old(ctx).builder, 8),
    ensures
        emits(*old(ctx), *final(ctx), gen_mov_reg32_imm_code(3, imm), 0),
        restores_by(old(ctx).builder, final(ctx).builder, 0),
{
    gen_mov_reg32_imm(ctx, 3, imm);
    proof {
        assert(ctx.builder.code@ =~= old(ctx).builder.code@ + gen_mov_reg32_imm_code(3, imm));
        assert(ctx.builder.frame().live =~= old(ctx).builder.frame().live);
        assert(ctx.builder.frame().live64 =~= old(ctx).builder.frame().live64);
        assert(ctx.builder.frame().ctrl =~= old(ctx).builder.frame().ctrl);
    }
}

/// Stores an immediate into ESP.
pub fn instr32_BC_jit(ctx: &mut JitContext, imm: u32)
    requires
        ready(old(ctx).builder, 8),
    ensures
        emits(*old(ctx), *final(ctx), gen_mov_reg32_imm_code(4, imm), 0),
        restores_by(old(ctx).builder, final(ctx).builder, 0),
{
    gen_mov_reg32_imm(ctx, 4, imm);
    proof {
        assert(ctx.builder.code@ =~= old(ctx).builder.code@ + gen_mov_reg32_imm_code(4, imm));
        assert(ctx.builder.frame().live =~= old(ctx).builder.frame().live);
        assert(ctx.builder.frame().live64 =~= old(ctx).builder.frame().live64);
        assert(ctx.builder.frame().ctrl =~= old(ctx).builder.frame().ctrl);
    }
}

/// Stores an immediate into EBP.
pub fn instr32_BD_jit(ctx: &mut JitContext, imm: u32)
    requires
        ready(old(ctx).builder, 8),
    ensures
        emits(*old(ctx), *final(ctx), gen_mov_reg32_imm_code(5, imm), 0),
        restores_by(old(ctx).builder, final(ctx).builder, 0),
{
    gen_mov_reg32_imm(ctx, 5, imm);
    proof {
        assert(ctx.builder.code@ =~= old(ctx).builder.code@ + gen_mov_reg32_imm_code(5, imm));
        assert(ctx.builder.frame().live =~= old(ctx).builder.frame().live);
        assert(ctx.builder.frame().live64 =~= old(ctx).builder.frame().live64);
        assert(ctx.builder.frame().ctrl =~= old(ctx).builder.frame().ctrl);
    }
}

/// Stores an immediate into ESI.
pub fn instr32_BE_jit(ctx: &mut JitContext, imm: u32)
    requires
        ready(old(ctx).builder, 8),
    ensures
        emits(*old(ctx), *final(ctx), gen_mov_reg32_imm_code(6, imm), 0),
        restores_by(old(ctx).builder, final(ctx).builder, 0),
{
    gen_mov_reg32_imm(ctx, 6, imm);
    proof {
        assert(ctx.builder.code@ =~= old(ctx).builder.code@ + gen_mov_reg32_imm_code(6, imm));
        assert(ctx.builder.frame().live =~= old(ctx).builder.frame().live);
        assert(ctx.builder.frame().live64 =~= old(ctx).builder.frame().live64);
        assert(ctx.builder.frame().ctrl =~= old(ctx).builder.frame().ctrl);
    }
}

/// Stores an immediate into EDI.
pub fn instr32_BF_jit(ctx: &mut JitContext, imm: u32)
    requires
        ready(old(ctx).builder, 8),
    ensures
        emits(*old(ctx), *final(ctx), gen_mov_reg32_imm_code(7, imm), 0),
        restores_by(old(ctx).builder, final(ctx).builder, 0),
{
    gen_mov_reg32_imm(ctx, 7, imm);
    proof {
        assert(ctx.builder.code@ =~= old(ctx).builder.code@ + gen_mov_reg32_imm_code(7, imm));
        assert(ctx.builder.frame().live =~= old(ctx).builder.frame().live);
        assert(ctx.builder.frame().live64 =~= old(ctx).builder.frame().live64);
        assert(ctx.builder.frame().ctrl =~= old(ctx).builder.frame().ctrl);
    }
}

} // verus!
