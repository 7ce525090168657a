//! The start of an instruction and its prefixes.
//!
//! These generators change the decoder state (the prefixes and the start of the current
//! instruction) and then hand over to an opcode table: [`Op::Dispatch`] reads the next
//! byte of the instruction stream and continues with the generator it selects.

use vstd::prelude::*;
use crate::op::{Op, DispatchTable};
use crate::consts::{ES, CS, SS, DS, FS, GS, PREFIX_66, PREFIX_67, PREFIX_F2, PREFIX_F3, SEG_PREFIX_ZERO};
use crate::builder::{JitContext, CpuContext, ready, emits, builder_emits, restores_by};

verus! {

/// Starts a new instruction: no prefixes yet, and the instruction starts where the
/// stream stands; then dispatches on the first opcode byte.
pub fn jit_instruction(ctx: &mut JitContext)
    requires
        ready(old(ctx).builder, 8),
    ensures
        final(ctx).cpu == (CpuContext { prefixes: 0, ..old(ctx).cpu }),
        final(ctx).start_of_current_instruction == old(ctx).cpu.eip,
        builder_emits(old(ctx).builder, final(ctx).builder, seq![Op::Dispatch(DispatchTable::OneByte)], 0),
        restores_by(old(ctx).builder, final(ctx).builder, 0),
{
    ctx.cpu.prefixes = 0;
    ctx.start_of_current_instruction = ctx.cpu.eip;
    ctx.builder.emit(Op::Dispatch(DispatchTable::OneByte));
    proof {
        assert(ctx.builder.code@ =~= old(ctx).builder.code@ + seq![Op::Dispatch(DispatchTable::OneByte)]);
    }
}

/// After a prefix: dispatches on the next opcode byte with the prefixes gathered so far.
pub fn jit_handle_prefix(ctx: &mut JitContext)
    requires
        ready(old(ctx).builder, 8),
    ensures
        emits(*old(ctx), *final(ctx), seq![Op::Dispatch(DispatchTable::OneByte)], 0),
        restores_by(old(ctx).builder, final(ctx).builder, 0),
{
    ctx.builder.emit(Op::Dispatch(DispatchTable::OneByte));
    proof {
        assert(ctx.builder.code@ =~= old(ctx).builder.code@ + seq![Op::Dispatch(DispatchTable::OneByte)]);
    }
}

/// A segment-override prefix: the segment field of the prefixes holds `segment + 1`.
pub fn jit_handle_segment_prefix(segment: u32, ctx: &mut JitContext)
    requires
        segment <= 5,
        ready(old(ctx).builder, 8),
    ensures
        final(ctx).cpu == (CpuContext { prefixes: old(ctx).cpu.prefixes | (segment + 1) as u32, ..old(ctx).cpu }),
        final(ctx).start_of_current_instruction == old(ctx).start_of_current_instruction,
        builder_emits(old(ctx).builder, final(ctx).builder, seq![Op::Dispatch(DispatchTable::OneByte)], 0),
        restores_by(old(ctx).builder, final(ctx).builder, 0),
{
    ctx.cpu.prefixes = ctx.cpu.prefixes | (segment + 1);
    jit_handle_prefix(ctx)
}

/// The `0F` escape with 16-bit operands.
pub fn instr16_0F_jit(ctx: &mut JitContext)
    requires
        ready(old(ctx).builder, 8),
    ensures
        emits(*old(ctx), *final(ctx), seq![Op::Dispatch(DispatchTable::TwoByte16)], 0),
        restores_by(old(ctx).builder, final(ctx).builder, 0),
{
    ctx.builder.emit(Op::Dispatch(DispatchTable::TwoByte16));
    proof {
        assert(ctx.builder.code@ =~= old(ctx).builder.code@ + seq![Op::Dispatch(DispatchTable::TwoByte16)]);
    }
}

/// The `0F` escape with 32-bit operands.
pub fn instr32_0F_jit(ctx: &mut JitContext)
    requires
        ready(old(ctx).builder, 8),
    ensures
        emits(*old(ctx), *final(ctx), seq![Op::Dispatch(DispatchTable::TwoByte32)], 0),
        restores_by(old(ctx).builder, final(ctx).builder, 0),
{
    ctx.builder.emit(Op::Dispatch(DispatchTable::TwoByte32));
    proof {
        assert(ctx.builder.code@ =~= old(ctx).builder.code@ + seq![Op::Dispatch(DispatchTable::TwoByte32)]);
    }
}

/// The `ES` segment override.
pub fn instr_26_jit(ctx: &mut JitContext)
    requires
        ready(old(ctx).builder, 8),
    ensures
        final(ctx).cpu == (CpuContext { prefixes: old(ctx).cpu.prefixes | (ES + 1) as u32, ..old(ctx).cpu }),
        final(ctx).start_of_current_instruction == old(ctx).start_of_current_instruction,
        builder_emits(old(ctx).builder, final(ctx).builder, seq![Op::Dispatch(DispatchTable::OneByte)], 0),
        restores_by(old(ctx).builder, final(ctx).builder, 0),
{
    jit_handle_segment_prefix(ES, ctx)
}

/// The `CS` segment override.
pub fn instr_2E_jit(ctx: &mut JitContext)
    requires
        ready(old(ctx).builder, 8),
    ensures
        final(ctx).cpu == (CpuContext { prefixes: old(ctx).cpu.prefixes | (CS + 1) as u32, ..old(ctx).cpu }),
        final(ctx).start_of_current_instruction == old(ctx).start_of_current_instruction,
        builder_emits(old(ctx).builder, final(ctx).builder, seq![Op::Dispatch(DispatchTable::OneByte)], 0),
        restores_by(old(ctx).builder, final(ctx).builder, 0),
{
    jit_handle_segment_prefix(CS, ctx)
}

/// The `SS` segment override.
pub fn instr_36_jit(ctx: &mut JitContext)
    requires
        ready(old(ctx).builder, 8),
    ensures
        final(ctx).cpu == (CpuContext { prefixes: old(ctx).cpu.prefixes | (SS + 1) as u32, ..old(ctx).cpu }),
        final(ctx).start_of_current_instruction == old(ctx).start_of_current_instruction,
        builder_emits(old(ctx).builder, final(ctx).builder, seq![Op::Dispatch(DispatchTable::OneByte)], 0),
        restores_by(old(ctx).builder, final(ctx).builder, 0),
{
    jit_handle_segment_prefix(SS, ctx)
}

/// The `DS` segment override.
pub fn instr_3E_jit(ctx: &mut JitContext)
    requires
        ready(old(ctx).builder, 8),
    ensures
        final(ctx).cpu == (CpuContext { prefixes: old(ctx).cpu.prefixes | (DS + 1) as u32, ..old(ctx).cpu }),
        final(ctx).start_of_current_instruction == old(ctx).start_of_current_instruction,
        builder_emits(old(ctx).builder, final(ctx).builder, seq![Op::Dispatch(DispatchTable::OneByte)], 0),
        restores_by(old(ctx).builder, final(ctx).builder, 0),
{
    jit_handle_segment_prefix(DS, ctx)
}

/// The `FS` segment override.
pub fn instr_64_jit(ctx: &mut JitContext)
    requires
        ready(old(ctx).builder, 8),
    ensures
        final(ctx).cpu == (CpuContext { prefixes: old(ctx).cpu.prefixes | (FS + 1) as u32, ..old(ctx).cpu }),
        final(ctx).start_of_current_instruction == old(ctx).start_of_current_instruction,
        builder_emits(old(ctx).builder, final(ctx).builder, seq![Op::Dispatch(DispatchTable::OneByte)], 0),
        restores_by(old(ctx).builder, final(ctx).builder, 0),
{
    jit_handle_segment_prefix(FS, ctx)
}

/// The `GS` segment override.
pub fn instr_65_jit(ctx: &mut JitContext)
    requires
        ready(old(ctx).builder, 8),
    ensures
        final(ctx).cpu == (CpuContext { prefixes: old(ctx).cpu.prefixes | (GS + 1) as u32, ..old(ctx).cpu }),
        final(ctx).start_of_current_instruction == old(ctx).start_of_current_instruction,
        builder_emits(old(ctx).builder, final(ctx).builder, seq![Op::Dispatch(DispatchTable::OneByte)], 0),
        restores_by(old(ctx).builder, final(ctx).builder, 0),
{
    jit_handle_segment_prefix(GS, ctx)
}

/// The operand-size prefix.
pub fn instr_66_jit(ctx: &mut JitContext)
    requires
        ready(old(ctx).builder, 8),
    ensures
        final(ctx).cpu == (CpuContext { prefixes: old(ctx).cpu.prefixes | PREFIX_66, ..old(ctx).cpu }),
        final(ctx).start_of_current_instruction == old(ctx).start_of_current_instruction,
        builder_emits(old(ctx).builder, final(ctx).builder, seq![Op::Dispatch(DispatchTable::OneByte)], 0),
        restores_by(old(ctx).builder, final(ctx).builder, 0),
{
    ctx.cpu.prefixes = ctx.cpu.prefixes | PREFIX_66;
    jit_handle_prefix(ctx)
}

/// The address-size prefix.
pub fn instr_67_jit(ctx: &mut JitContext)
    requires
        ready(old(ctx).builder, 8),
    ensures
        final(ctx).cpu == (CpuContext { prefixes: old(ctx).cpu.prefixes | PREFIX_67, ..old(ctx).cpu }),
        final(ctx).start_of_current_instruction == old(ctx).start_of_current_instruction,
        builder_emits(old(ctx).builder, final(ctx).builder, seq![Op::Dispatch(DispatchTable::OneByte)], 0),
        restores_by(old(ctx).builder, final(ctx).builder, 0),
{
    ctx.cpu.prefixes = ctx.cpu.prefixes | PREFIX_67;
    jit_handle_prefix(ctx)
}

/// The `lock` prefix, which code generation ignores.
pub fn instr_F0_jit(ctx: &mut JitContext)
    requires
        ready(old(ctx).builder, 8),
    ensures
        emits(*old(ctx), *final(ctx), seq![Op::Dispatch(DispatchTable::OneByte)], 0),
        restores_by(old(ctx).builder, final(ctx).builder, 0),
{
    jit_handle_prefix(ctx)
}

/// The `repnz` prefix.
pub fn instr_F2_jit(ctx: &mut JitContext)
    requires
        ready(old(ctx).builder, 8),
    ensures
        final(ctx).cpu == (CpuContext { prefixes: old(ctx).cpu.prefixes | PREFIX_F2, ..old(ctx).cpu }),
        final(ctx).start_of_current_instruction == old(ctx).start_of_current_instruction,
        builder_emits(old(ctx).builder, final(ctx).builder, seq![Op::Dispatch(DispatchTable::OneByte)], 0),
        restores_by(old(ctx).builder, final(ctx).builder, 0),
{
    ctx.cpu.prefixes = ctx.cpu.prefixes | PREFIX_F2;
    jit_handle_prefix(ctx)
}

/// The `repz` prefix.
pub fn instr_F3_jit(ctx: &mut JitContext)
    requires
        ready(old(ctx).builder, 8),
    ensures
        final(ctx).cpu == (CpuContext { prefixes: old(ctx).cpu.prefixes | PREFIX_F3, ..old(ctx).cpu }),
        final(ctx).start_of_current_instruction == old(ctx).start_of_current_instruction,
        builder_emits(old(ctx).builder, final(ctx).builder, seq![Op::Dispatch(DispatchTable::OneByte)], 0),
        restores_by(old(ctx).builder, final(ctx).builder, 0),
{
    ctx.cpu.prefixes = ctx.cpu.prefixes | PREFIX_F3;
    jit_handle_prefix(ctx)
}

/// `lea` with 16-bit operands: the address computed from the ModR/M byte, without any
/// segment base, goes to register `reg`.
pub fn instr16_8D_mem_jit(ctx: &mut JitContext, modrm_byte: u8, reg: u32)
    requires
        ready(old(ctx).builder, 8),
        reg < 8,
    ensures
        final(ctx).cpu == (CpuContext { prefixes: old(ctx).cpu.prefixes | SEG_PREFIX_ZERO, ..old(ctx).cpu }),
        final(ctx).start_of_current_instruction == old(ctx).start_of_current_instruction,
        builder_emits(old(ctx).builder, final(ctx).builder, seq![Op::ModrmResolve(modrm_byte), Op::SetReg16(reg)], 0),
        restores_by(old(ctx).builder, final(ctx).builder, 0),
{
    ctx.cpu.prefixes = ctx.cpu.prefixes | SEG_PREFIX_ZERO;
    ctx.builder.emit(Op::ModrmResolve(modrm_byte));
    ctx.builder.emit(Op::SetReg16(reg));
    proof {
        assert(ctx.builder.code@ =~= old(ctx).builder.code@ + seq![Op::ModrmResolve(modrm_byte), Op::SetReg16(reg)]);
    }
}

/// `lea` with 32-bit operands: the address computed from the ModR/M byte, without any
/// segment base, goes to register `reg`.
pub fn instr32_8D_mem_jit(ctx: &mut JitContext, modrm_byte: u8, reg: u32)
    requires
        ready(old(ctx).builder, 8),
        reg < 8,
    ensures
        final(ctx).cpu == (CpuContext { prefixes: old(ctx).cpu.prefixes | SEG_PREFIX_ZERO, ..old(ctx).cpu }),
        final(ctx).start_of_current_instruction == old(ctx).start_of_current_instruction,
        builder_emits(old(ctx).builder, final(ctx).builder, seq![Op::ModrmResolve(modrm_byte), Op::SetReg32(reg)], 0),
        restores_by(old(ctx).builder, final(ctx).builder, 0),
{
    ctx.cpu.prefixes = ctx.cpu.prefixes | SEG_PREFIX_ZERO;
    ctx.builder.emit(Op::ModrmResolve(modrm_byte));
    ctx.builder.emit(Op::SetReg32(reg));
    proof {
        assert(ctx.builder.code@ =~= old(ctx).builder.code@ + seq![Op::ModrmResolve(modrm_byte), Op::SetReg32(reg)]);
    }
}

} // verus!
