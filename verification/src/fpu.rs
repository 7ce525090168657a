//! Opcodes `D8` to `DF`: the floating-point unit.

use vstd::prelude::*;
use crate::op::{Op, WasmLocal, GlobalPointer};
use crate::builder::{JitContext, ready, emits, restores_by, balanced_by};

verus! {

/// The code that [`instr_group_D8_mem_jit`] appends.
pub open spec fn instr_group_D8_mem_jit_code(modrm_byte: u8, op_name: &'static str) -> Seq<Op> {
    seq![Op::ConstI32(0), Op::FpuLoadM32(modrm_byte), Op::CallFn2I32F64(op_name)]
}

/// `op_name(0, value)` for a 32-bit float read through the ModR/M byte.
pub(crate) fn instr_group_D8_mem_jit(ctx: &mut JitContext, modrm_byte: u8, op_name: &'static str)
    requires
        ready(old(ctx).builder, 16),
    ensures
        emits(*old(ctx), *final(ctx), instr_group_D8_mem_jit_code(modrm_byte, op_name), 0),
        restores_by(old(ctx).builder, final(ctx).builder, 0),
{
    ctx.builder.emit(Op::ConstI32(0));
    ctx.builder.emit(Op::FpuLoadM32(modrm_byte));
    ctx.builder.emit(Op::CallFn2I32F64(op_name));
    proof {
        assert(ctx.builder.code@ =~= old(ctx).builder.code@ + instr_group_D8_mem_jit_code(modrm_byte, op_name));
        assert(ctx.builder.frame().live =~= old(ctx).builder.frame().live);
        assert(ctx.builder.frame().live64 =~= old(ctx).builder.frame().live64);
        assert(ctx.builder.frame().ctrl =~= old(ctx).builder.frame().ctrl);
    }
}

/// The code that [`instr_group_D8_reg_jit`] appends.
pub open spec fn instr_group_D8_reg_jit_code(r: u32, op_name: &'static str) -> Seq<Op> {
    seq![Op::ConstI32(0), Op::FpuGetSti(r), Op::CallFn2I32F64(op_name)]
}

/// `op_name(0, st(r))`.
pub(crate) fn instr_group_D8_reg_jit(ctx: &mut JitContext, r: u32, op_name: &'static str)
    requires
        ready(old(ctx).builder, 16),
    ensures
        emits(*old(ctx), *final(ctx), instr_group_D8_reg_jit_code(r, op_name), 0),
        restores_by(old(ctx).builder, final(ctx).builder, 0),
{
    ctx.builder.emit(Op::ConstI32(0));
    ctx.builder.emit(Op::FpuGetSti(r));
    ctx.builder.emit(Op::CallFn2I32F64(op_name));
    proof {
        assert(ctx.builder.code@ =~= old(ctx).builder.code@ + instr_group_D8_reg_jit_code(r, op_name));
        assert(ctx.builder.frame().live =~= old(ctx).builder.frame().live);
        assert(ctx.builder.frame().live64 =~= old(ctx).builder.frame().live64);
        assert(ctx.builder.frame().ctrl =~= old(ctx).builder.frame().ctrl);
    }
}

/// The code that [`instr_group_DC_mem_jit`] appends.
pub open spec fn instr_group_DC_mem_jit_code(modrm_byte: u8, op_name: &'static str) -> Seq<Op> {
    seq![Op::ConstI32(0), Op::FpuLoadM64(modrm_byte), Op::CallFn2I32F64(op_name)]
}

/// `op_name(0, value)` for a 64-bit float read through the ModR/M byte.
pub(crate) fn instr_group_DC_mem_jit(ctx: &mut JitContext, modrm_byte: u8, op_name: &'static str)
    requires
        ready(old(ctx).builder, 16),
    ensures
        emits(*old(ctx), *final(ctx), instr_group_DC_mem_jit_code(modrm_byte, op_name), 0),
        restores_by(old(ctx).builder, final(ctx).builder, 0),
{
    ctx.builder.emit(Op::ConstI32(0));
    ctx.builder.emit(Op::FpuLoadM64(modrm_byte));
    ctx.builder.emit(Op::CallFn2I32F64(op_name));
    proof {
        assert(ctx.builder.code@ =~= old(ctx).builder.code@ + instr_group_DC_mem_jit_code(modrm_byte, op_name));
        assert(ctx.builder.frame().live =~= old(ctx).builder.frame().live);
        assert(ctx.builder.frame().live64 =~= old(ctx).builder.frame().live64);
        assert(ctx.builder.frame().ctrl =~= old(ctx).builder.frame().ctrl);
    }
}

/// The code that [`instr_group_DC_reg_jit`] appends.
pub open spec fn instr_group_DC_reg_jit_code(r: u32, op_name: &'static str) -> Seq<Op> {
    seq![Op::ConstI32(r as i32), Op::FpuGetSti(r), Op::CallFn2I32F64(op_name)]
}

/// `op_name(r, st(r))`.
pub(crate) fn instr_group_DC_reg_jit(ctx: &mut JitContext, r: u32, op_name: &'static str)
    requires
        ready(old(ctx).builder, 16),
    ensures
        emits(*old(ctx), *final(ctx), instr_group_DC_reg_jit_code(r, op_name), 0),
        restores_by(old(ctx).builder, final(ctx).builder, 0),
{
    ctx.builder.emit(Op::ConstI32(r as i32));
    ctx.builder.emit(Op::FpuGetSti(r));
    ctx.builder.emit(Op::CallFn2I32F64(op_name));
    proof {
        assert(ctx.builder.code@ =~= old(ctx).builder.code@ + instr_group_DC_reg_jit_code(r, op_name));
        assert(ctx.builder.frame().live =~= old(ctx).builder.frame().live);
        assert(ctx.builder.frame().live64 =~= old(ctx).builder.frame().live64);
        assert(ctx.builder.frame().ctrl =~= old(ctx).builder.frame().ctrl);
    }
}

/// The code that [`instr_group_DE_mem_jit`] appends.
pub open spec fn instr_group_DE_mem_jit_code(modrm_byte: u8, op_name: &'static str) -> Seq<Op> {
    seq![Op::ConstI32(0), Op::ModrmResolveSafeRead16(modrm_byte), Op::SignExtendI16, Op::ConvertI32ToF64, Op::CallFn2I32F64(op_name)]
}

/// `op_name(0, value)` for a 16-bit integer read through the ModR/M byte.
pub(crate) fn instr_group_DE_mem_jit(ctx: &mut JitContext, modrm_byte: u8, op_name: &'static str)
    requires
        ready(old(ctx).builder, 16),
    ensures
        emits(*old(ctx), *final(ctx), instr_group_DE_mem_jit_code(modrm_byte, op_name), 0),
        restores_by(old(ctx).builder, final(ctx).builder, 0),
{
    ctx.builder.emit(Op::ConstI32(0));
    ctx.builder.emit(Op::ModrmResolveSafeRead16(modrm_byte));
    ctx.builder.emit(Op::SignExtendI16);
    ctx.builder.emit(Op::ConvertI32ToF64);
    ctx.builder.emit(Op::CallFn2I32F64(op_name));
    proof {
        assert(ctx.builder.code@ =~= old(ctx).builder.code@ + instr_group_DE_mem_jit_code(modrm_byte, op_name));
        assert(ctx.builder.frame().live =~= old(ctx).builder.frame().live);
        assert(ctx.builder.frame().live64 =~= old(ctx).builder.frame().live64);
        assert(ctx.builder.frame().ctrl =~= old(ctx).builder.frame().ctrl);
    }
}

/// The code that [`instr_group_DE_reg_jit`] appends.
pub open spec fn instr_group_DE_reg_jit_code(r: u32, op_name: &'static str) -> Seq<Op> {
    seq![Op::ConstI32(r as i32), Op::FpuGetSti(r), Op::CallFn2I32F64(op_name), Op::Fn0Const("fpu_pop")]
}

/// `op_name(r, st(r))`, then pops the FPU stack.
pub(crate) fn instr_group_DE_reg_jit(ctx: &mut JitContext, r: u32, op_name: &'static str)
    requires
        ready(old(ctx).builder, 16),
    ensures
        emits(*old(ctx), *final(ctx), instr_group_DE_reg_jit_code(r, op_name), 0),
        restores_by(old(ctx).builder, final(ctx).builder, 0),
{
    ctx.builder.emit(Op::ConstI32(r as i32));
    ctx.builder.emit(Op::FpuGetSti(r));
    ctx.builder.emit(Op::CallFn2I32F64(op_name));
    ctx.builder.emit(Op::Fn0Const("fpu_pop"));
    proof {
        assert(ctx.builder.code@ =~= old(ctx).builder.code@ + instr_group_DE_reg_jit_code(r, op_name));
        assert(ctx.builder.frame().live =~= old(ctx).builder.frame().live);
        assert(ctx.builder.frame().live64 =~= old(ctx).builder.frame().live64);
        assert(ctx.builder.frame().ctrl =~= old(ctx).builder.frame().ctrl);
    }
}

/// `fpu_fadd` with a memory operand.
pub fn instr_D8_0_mem_jit(ctx: &mut JitContext, modrm_byte: u8)
    requires
        ready(old(ctx).builder, 8),
    ensures
        emits(*old(ctx), *final(ctx), instr_group_D8_mem_jit_code(modrm_byte, "fpu_fadd"), 0),
        restores_by(old(ctx).builder, final(ctx).builder, 0),
{
    instr_group_D8_mem_jit(ctx, modrm_byte, "fpu_fadd");
    proof {
        assert(ctx.builder.code@ =~= old(ctx).builder.code@ + instr_group_D8_mem_jit_code(modrm_byte, "fpu_fadd"));
        assert(ctx.builder.frame().live =~= old(ctx).builder.frame().live);
        assert(ctx.builder.frame().live64 =~= old(ctx).builder.frame().live64);
        assert(ctx.builder.frame().ctrl =~= old(ctx).builder.frame().ctrl);
    }
}

/// `fpu_fadd` with the FPU register `r`.
pub fn instr_D8_0_reg_jit(ctx: &mut JitContext, r: u32)
    requires
        ready(old(ctx).builder, 8),
    ensures
        emits(*old(ctx), *final(ctx), instr_group_D8_reg_jit_code(r, "fpu_fadd"), 0),
        restores_by(old(ctx).builder, final(ctx).builder, 0),
{
    instr_group_D8_reg_jit(ctx, r, "fpu_fadd");
    proof {
        assert(ctx.builder.code@ =~= old(ctx).builder.code@ + instr_group_D8_reg_jit_code(r, "fpu_fadd"));
        assert(ctx.builder.frame().live =~= old(ctx).builder.frame().live);
        assert(ctx.builder.frame().live64 =~= old(ctx).builder.frame().live64);
        assert(ctx.builder.frame().ctrl =~= old(ctx).builder.frame().ctrl);
    }
}

/// `fpu_fmul` with a memory operand.
pub fn instr_D8_1_mem_jit(ctx: &mut JitContext, modrm_byte: u8)
    requires
        ready(old(ctx).builder, 8),
    ensures
        emits(*old(ctx), *final(ctx), instr_group_D8_mem_jit_code(modrm_byte, "fpu_fmul"), 0),
        restores_by(old(ctx).builder, final(ctx).builder, 0),
{
    instr_group_D8_mem_jit(ctx, modrm_byte, "fpu_fmul");
    proof {
        assert(ctx.builder.code@ =~= old(ctx).builder.code@ + instr_group_D8_mem_jit_code(modrm_byte, "fpu_fmul"));
        assert(ctx.builder.frame().live =~= old(ctx).builder.frame().live);
        assert(ctx.builder.frame().live64 =~= old(ctx).builder.frame().live64);
        assert(ctx.builder.frame().ctrl =~= old(ctx).builder.frame().ctrl);
    }
}

/// `fpu_fmul` with the FPU register `r`.
pub fn instr_D8_1_reg_jit(ctx: &mut JitContext, r: u32)
    requires
        ready(old(ctx).builder, 8),
    ensures
        emits(*old(ctx), *final(ctx), instr_group_D8_reg_jit_code(r, "fpu_fmul"), 0),
        restores_by(old(ctx).builder, final(ctx).builder, 0),
{
    instr_group_D8_reg_jit(ctx, r, "fpu_fmul");
    proof {
        assert(ctx.builder.code@ =~= old(ctx).builder.code@ + instr_group_D8_reg_jit_code(r, "fpu_fmul"));
        assert(ctx.builder.frame().live =~= old(ctx).builder.frame().live);
        assert(ctx.builder.frame().live64 =~= old(ctx).builder.frame().live64);
        assert(ctx.builder.frame().ctrl =~= old(ctx).builder.frame().ctrl);
    }
}

/// `fpu_fsub` with a memory operand.
pub fn instr_D8_4_mem_jit(ctx: &mut JitContext, modrm_byte: u8)
    requires
        ready(old(ctx).builder, 8),
    ensures
        emits(*old(ctx), *final(ctx), instr_group_D8_mem_jit_code(modrm_byte, "fpu_fsub"), 0),
        restores_by(old(ctx).builder, final(ctx).builder, 0),
{
    instr_group_D8_mem_jit(ctx, modrm_byte, "fpu_fsub");
    proof {
        assert(ctx.builder.code@ =~= old(ctx).builder.code@ + instr_group_D8_mem_jit_code(modrm_byte, "fpu_fsub"));
        assert(ctx.builder.frame().live =~= old(ctx).builder.frame().live);
        assert(ctx.builder.frame().live64 =~= old(ctx).builder.frame().live64);
        assert(ctx.builder.frame().ctrl =~= old(ctx).builder.frame().ctrl);
    }
}

/// `fpu_fsub` with the FPU register `r`.
pub fn instr_D8_4_reg_jit(ctx: &mut JitContext, r: u32)
    requires
        ready(old(ctx).builder, 8),
    ensures
        emits(*old(ctx), *final(ctx), instr_group_D8_reg_jit_code(r, "fpu_fsub"), 0),
        restores_by(old(ctx).builder, final(ctx).builder, 0),
{
    instr_group_D8_reg_jit(ctx, r, "fpu_fsub");
    proof {
        assert(ctx.builder.code@ =~= old(ctx).builder.code@ + instr_group_D8_reg_jit_code(r, "fpu_fsub"));
        assert(ctx.builder.frame().live =~= old(ctx).builder.frame().live);
        assert(ctx.builder.frame().live64 =~= old(ctx).builder.frame().live64);
        assert(ctx.builder.frame().ctrl =~= old(ctx).builder.frame().ctrl);
    }
}

/// `fpu_fsubr` with a memory operand.
pub fn instr_D8_5_mem_jit(ctx: &mut JitContext, modrm_byte: u8)
    requires
        ready(old(ctx).builder, 8),
    ensures
        emits(*old(ctx), *final(ctx), instr_group_D8_mem_jit_code(modrm_byte, "fpu_fsubr"), 0),
        restores_by(old(ctx).builder, final(ctx).builder, 0),
{
    instr_group_D8_mem_jit(ctx, modrm_byte, "fpu_fsubr");
    proof {
        assert(ctx.builder.code@ =~= old(ctx).builder.code@ + instr_group_D8_mem_jit_code(modrm_byte, "fpu_fsubr"));
        assert(ctx.builder.frame().live =~= old(ctx).builder.frame().live);
        assert(ctx.builder.frame().live64 =~= old(ctx).builder.frame().live64);
        assert(ctx.builder.frame().ctrl =~= old(ctx).builder.frame().ctrl);
    }
}

/// `fpu_fsubr` with the FPU register `r`.
pub fn instr_D8_5_reg_jit(ctx: &mut JitContext, r: u32)
    requires
        ready(old(ctx).builder, 8),
    ensures
        emits(*old(ctx), *final(ctx), instr_group_D8_reg_jit_code(r, "fpu_fsubr"), 0),
        restores_by(old(ctx).builder, final(ctx).builder, 0),
{
    instr_group_D8_reg_jit(ctx, r, "fpu_fsubr");
    proof {
        assert(ctx.builder.code@ =~= old(ctx).builder.code@ + instr_group_D8_reg_jit_code(r, "fpu_fsubr"));
        assert(ctx.builder.frame().live =~= old(ctx).builder.frame().live);
        assert(ctx.builder.frame().live64 =~= old(ctx).builder.frame().live64);
        assert(ctx.builder.frame().ctrl =~= old(ctx).builder.frame().ctrl);
    }
}

/// `fpu_fdiv` with a memory operand.
pub fn instr_D8_6_mem_jit(ctx: &mut JitContext, modrm_byte: u8)
    requires
        ready(old(ctx).builder, 8),
    ensures
        emits(*old(ctx), *final(ctx), instr_group_D8_mem_jit_code(modrm_byte, "fpu_fdiv"), 0),
        restores_by(old(ctx).builder, final(ctx).builder, 0),
{
    instr_group_D8_mem_jit(ctx, modrm_byte, "fpu_fdiv");
    proof {
        assert(ctx.builder.code@ =~= old(ctx).builder.code@ + instr_group_D8_mem_jit_code(modrm_byte, "fpu_fdiv"));
        assert(ctx.builder.frame().live =~= old(ctx).builder.frame().live);
        assert(ctx.builder.frame().live64 =~= old(ctx).builder.frame().live64);
        assert(ctx.builder.frame().ctrl =~= old(ctx).builder.frame().ctrl);
    }
}

/// `fpu_fdiv` with the FPU register `r`.
pub fn instr_D8_6_reg_jit(ctx: &mut JitContext, r: u32)
    requires
        ready(old(ctx).builder, 8),
    ensures
        emits(*old(ctx), *final(ctx), instr_group_D8_reg_jit_code(r, "fpu_fdiv"), 0),
        restores_by(old(ctx).builder, final(ctx).builder, 0),
{
    instr_group_D8_reg_jit(ctx, r, "fpu_fdiv");
    proof {
        assert(ctx.builder.code@ =~= old(ctx).builder.code@ + instr_group_D8_reg_jit_code(r, "fpu_fdiv"));
        assert(ctx.builder.frame().live =~= old(ctx).builder.frame().live);
        assert(ctx.builder.frame().live64 =~= old(ctx).builder.frame().live64);
        assert(ctx.builder.frame().ctrl =~= old(ctx).builder.frame().ctrl);
    }
}

/// `fpu_fdivr` with a memory operand.
pub fn instr_D8_7_mem_jit(ctx: &mut JitContext, modrm_byte: u8)
    requires
        ready(old(ctx).builder, 8),
    ensures
        emits(*old(ctx), *final(ctx), instr_group_D8_mem_jit_code(modrm_byte, "fpu_fdivr"), 0),
        restores_by(old(ctx).builder, final(ctx).builder, 0),
{
    instr_group_D8_mem_jit(ctx, modrm_byte, "fpu_fdivr");
    proof {
        assert(ctx.builder.code@ =~= old(ctx).builder.code@ + instr_group_D8_mem_jit_code(modrm_byte, "fpu_fdivr"));
        assert(ctx.builder.frame().live =~= old(ctx).builder.frame().live);
        assert(ctx.builder.frame().live64 =~= old(ctx).builder.frame().live64);
        assert(ctx.builder.frame().ctrl =~= old(ctx).builder.frame().ctrl);
    }
}

/// `fpu_fdivr` with the FPU register `r`.
pub fn instr_D8_7_reg_jit(ctx: &mut JitContext, r: u32)
    requires
        ready(old(ctx).builder, 8),
    ensures
        emits(*old(ctx), *final(ctx), instr_group_D8_reg_jit_code(r, "fpu_fdivr"), 0),
        restores_by(old(ctx).builder, final(ctx).builder, 0),
{
    instr_group_D8_reg_jit(ctx, r, "fpu_fdivr");
    proof {
        assert(ctx.builder.code@ =~= old(ctx).builder.code@ + instr_group_D8_reg_jit_code(r, "fpu_fdivr"));
        assert(ctx.builder.frame().live =~= old(ctx).builder.frame().live);
        assert(ctx.builder.frame().live64 =~= old(ctx).builder.frame().live64);
        assert(ctx.builder.frame().ctrl =~= old(ctx).builder.frame().ctrl);
    }
}

/// `fpu_fadd` with a memory operand.
pub fn instr_DC_0_mem_jit(ctx: &mut JitContext, modrm_byte: u8)
    requires
        ready(old(ctx).builder, 8),
    ensures
        emits(*old(ctx), *final(ctx), instr_group_DC_mem_jit_code(modrm_byte, "fpu_fadd"), 0),
        restores_by(old(ctx).builder, final(ctx).builder, 0),
{
    instr_group_DC_mem_jit(ctx, modrm_byte, "fpu_fadd");
    proof {
        assert(ctx.builder.code@ =~= old(ctx).builder.code@ + instr_group_DC_mem_jit_code(modrm_byte, "fpu_fadd"));
        assert(ctx.builder.frame().live =~= old(ctx).builder.frame().live);
        assert(ctx.builder.frame().live64 =~= old(ctx).builder.frame().live64);
        assert(ctx.builder.frame().ctrl =~= old(ctx).builder.frame().ctrl);
    }
}

/// `fpu_fadd` with the FPU register `r`.
pub fn instr_DC_0_reg_jit(ctx: &mut JitContext, r: u32)
    requires
        ready(old(ctx).builder, 8),
    ensures
        emits(*old(ctx), *final(ctx), instr_group_DC_reg_jit_code(r, "fpu_fadd"), 0),
        restores_by(old(ctx).builder, final(ctx).builder, 0),
{
    instr_group_DC_reg_jit(ctx, r, "fpu_fadd");
    proof {
        assert(ctx.builder.code@ =~= old(ctx).builder.code@ + instr_group_DC_reg_jit_code(r, "fpu_fadd"));
        assert(ctx.builder.frame().live =~= old(ctx).builder.frame().live);
        assert(ctx.builder.frame().live64 =~= old(ctx).builder.frame().live64);
        assert(ctx.builder.frame().ctrl =~= old(ctx).builder.frame().ctrl);
    }
}

/// `fpu_fmul` with a memory operand.
pub fn instr_DC_1_mem_jit(ctx: &mut JitContext, modrm_byte: u8)
    requires
        ready(old(ctx).builder, 8),
    ensures
        emits(*old(ctx), *final(ctx), instr_group_DC_mem_jit_code(modrm_byte, "fpu_fmul"), 0),
        restores_by(old(ctx).builder, final(ctx).builder, 0),
{
    instr_group_DC_mem_jit(ctx, modrm_byte, "fpu_fmul");
    proof {
        assert(ctx.builder.code@ =~= old(ctx).builder.code@ + instr_group_DC_mem_jit_code(modrm_byte, "fpu_fmul"));
        assert(ctx.builder.frame().live =~= old(ctx).builder.frame().live);
        assert(ctx.builder.frame().live64 =~= old(ctx).builder.frame().live64);
        assert(ctx.builder.frame().ctrl =~= old(ctx).builder.frame().ctrl);
    }
}

/// `fpu_fmul` with the FPU register `r`.
pub fn instr_DC_1_reg_jit(ctx: &mut JitContext, r: u32)
    requires
        ready(old(ctx).builder, 8),
    ensures
        emits(*old(ctx), *final(ctx), instr_group_DC_reg_jit_code(r, "fpu_fmul"), 0),
        restores_by(old(ctx).builder, final(ctx).builder, 0),
{
    instr_group_DC_reg_jit(ctx, r, "fpu_fmul");
    proof {
        assert(ctx.builder.code@ =~= old(ctx).builder.code@ + instr_group_DC_reg_jit_code(r, "fpu_fmul"));
        assert(ctx.builder.frame().live =~= old(ctx).builder.frame().live);
        assert(ctx.builder.frame().live64 =~= old(ctx).builder.frame().live64);
        assert(ctx.builder.frame().ctrl =~= old(ctx).builder.frame().ctrl);
    }
}

/// `fpu_fsub` with a memory operand.
pub fn instr_DC_4_mem_jit(ctx: &mut JitContext, modrm_byte: u8)
    requires
        ready(old(ctx).builder, 8),
    ensures
        emits(*old(ctx), *final(ctx), instr_group_DC_mem_jit_code(modrm_byte, "fpu_fsub"), 0),
        restores_by(old(ctx).builder, final(ctx).builder, 0),
{
    instr_group_DC_mem_jit(ctx, modrm_byte, "fpu_fsub");
    proof {
        assert(ctx.builder.code@ =~= old(ctx).builder.code@ + instr_group_DC_mem_jit_code(modrm_byte, "fpu_fsub"));
        assert(ctx.builder.frame().live =~= old(ctx).builder.frame().live);
        assert(ctx.builder.frame().live64 =~= old(ctx).builder.frame().live64);
        assert(ctx.builder.frame().ctrl =~= old(ctx).builder.frame().ctrl);
    }
}

/// `fpu_fsub` with the FPU register `r`.
pub fn instr_DC_4_reg_jit(ctx: &mut JitContext, r: u32)
    requires
        ready(old(ctx).builder, 8),
    ensures
        emits(*old(ctx), *final(ctx), instr_group_DC_reg_jit_code(r, "fpu_fsub"), 0),
        restores_by(old(ctx).builder, final(ctx).builder, 0),
{
    instr_group_DC_reg_jit(ctx, r, "fpu_fsub");
    proof {
        assert(ctx.builder.code@ =~= old(ctx).builder.code@ + instr_group_DC_reg_jit_code(r, "fpu_fsub"));
        assert(ctx.builder.frame().live =~= old(ctx).builder.frame().live);
        assert(ctx.builder.frame().live64 =~= old(ctx).builder.frame().live64);
        assert(ctx.builder.frame().ctrl =~= old(ctx).builder.frame().ctrl);
    }
}

/// `fpu_fsubr` with a memory operand.
pub fn instr_DC_5_mem_jit(ctx: &mut JitContext, modrm_byte: u8)
    requires
        ready(old(ctx).builder, 8),
    ensures
        emits(*old(ctx), *final(ctx), instr_group_DC_mem_jit_code(modrm_byte, "fpu_fsubr"), 0),
        restores_by(old(ctx).builder, final(ctx).builder, 0),
{
    instr_group_DC_mem_jit(ctx, modrm_byte, "fpu_fsubr");
    proof {
        assert(ctx.builder.code@ =~= old(ctx).builder.code@ + instr_group_DC_mem_jit_code(modrm_byte, "fpu_fsubr"));
        assert(ctx.builder.frame().live =~= old(ctx).builder.frame().live);
        assert(ctx.builder.frame().live64 =~= old(ctx).builder.frame().live64);
        assert(ctx.builder.frame().ctrl =~= old(ctx).builder.frame().ctrl);
    }
}

/// `fpu_fsubr` with the FPU register `r`.
pub fn instr_DC_5_reg_jit(ctx: &mut JitContext, r: u32)
    requires
        ready(old(ctx).builder, 8),
    ensures
        emits(*old(ctx), *final(ctx), instr_group_DC_reg_jit_code(r, "fpu_fsubr"), 0),
        restores_by(old(ctx).builder, final(ctx).builder, 0),
{
    instr_group_DC_reg_jit(ctx, r, "fpu_fsubr");
    proof {
        assert(ctx.builder.code@ =~= old(ctx).builder.code@ + instr_group_DC_reg_jit_code(r, "fpu_fsubr"));
        assert(ctx.builder.frame().live =~= old(ctx).builder.frame().live);
        assert(ctx.builder.frame().live64 =~= old(ctx).builder.frame().live64);
        assert(ctx.builder.frame().ctrl =~= old(ctx).builder.frame().ctrl);
    }
}

/// `fpu_fdiv` with a memory operand.
pub fn instr_DC_6_mem_jit(ctx: &mut JitContext, modrm_byte: u8)
    requires
        ready(old(ctx).builder, 8),
    ensures
        emits(*old(ctx), *final(ctx), instr_group_DC_mem_jit_code(modrm_byte, "fpu_fdiv"), 0),
        restores_by(old(ctx).builder, final(ctx).builder, 0),
{
    instr_group_DC_mem_jit(ctx, modrm_byte, "fpu_fdiv");
    proof {
        assert(ctx.builder.code@ =~= old(ctx).builder.code@ + instr_group_DC_mem_jit_code(modrm_byte, "fpu_fdiv"));
        assert(ctx.builder.frame().live =~= old(ctx).builder.frame().live);
        assert(ctx.builder.frame().live64 =~= old(ctx).builder.frame().live64);
        assert(ctx.builder.frame().ctrl =~= old(ctx).builder.frame().ctrl);
    }
}

/// `fpu_fdiv` with the FPU register `r`.
pub fn instr_DC_6_reg_jit(ctx: &mut JitContext, r: u32)
    requires
        ready(old(ctx).builder, 8),
    ensures
        emits(*old(ctx), *final(ctx), instr_group_DC_reg_jit_code(r, "fpu_fdiv"), 0),
        restores_by(old(ctx).builder, final(ctx).builder, 0),
{
    instr_group_DC_reg_jit(ctx, r, "fpu_fdiv");
    proof {
        assert(ctx.builder.code@ =~= old(ctx).builder.code@ + instr_group_DC_reg_jit_code(r, "fpu_fdiv"));
        assert(ctx.builder.frame().live =~= old(ctx).builder.frame().live);
        assert(ctx.builder.frame().live64 =~= old(ctx).builder.frame().live64);
        assert(ctx.builder.frame().ctrl =~= old(ctx).builder.frame().ctrl);
    }
}

/// `fpu_fdivr` with a memory operand.
pub fn instr_DC_7_mem_jit(ctx: &mut JitContext, modrm_byte: u8)
    requires
        ready(old(ctx).builder, 8),
    ensures
        emits(*old(ctx), *final(ctx), instr_group_DC_mem_jit_code(modrm_byte, "fpu_fdivr"), 0),
        restores_by(old(ctx).builder, final(ctx).builder, 0),
{
    instr_group_DC_mem_jit(ctx, modrm_byte, "fpu_fdivr");
    proof {
        assert(ctx.builder.code@ =~= old(ctx).builder.code@ + instr_group_DC_mem_jit_code(modrm_byte, "fpu_fdivr"));
        assert(ctx.builder.frame().live =~= old(ctx).builder.frame().live);
        assert(ctx.builder.frame().live64 =~= old(ctx).builder.frame().live64);
        assert(ctx.builder.frame().ctrl =~= old(ctx).builder.frame().ctrl);
    }
}

/// `fpu_fdivr` with the FPU register `r`.
pub fn instr_DC_7_reg_jit(ctx: &mut JitContext, r: u32)
    requires
        ready(old(ctx).builder, 8),
    ensures
        emits(*old(ctx), *final(ctx), instr_group_DC_reg_jit_code(r, "fpu_fdivr"), 0),
        restores_by(old(ctx).builder, final(ctx).builder, 0),
{
    instr_group_DC_reg_jit(ctx, r, "fpu_fdivr");
    proof {
        assert(ctx.builder.code@ =~= old(ctx).builder.code@ + instr_group_DC_reg_jit_code(r, "fpu_fdivr"));
        assert(ctx.builder.frame().live =~= old(ctx).builder.frame().live);
        assert(ctx.builder.frame().live64 =~= old(ctx).builder.frame().live64);
        assert(ctx.builder.frame().ctrl =~= old(ctx).builder.frame().ctrl);
    }
}

/// `fpu_fadd` with a memory operand.
pub fn instr_DE_0_mem_jit(ctx: &mut JitContext, modrm_byte: u8)
    requires
        ready(old(ctx).builder, 8),
    ensures
        emits(*old(ctx), *final(ctx), instr_group_DE_mem_jit_code(modrm_byte, "fpu_fadd"), 0),
        restores_by(old(ctx).builder, final(ctx).builder, 0),
{
    instr_group_DE_mem_jit(ctx, modrm_byte, "fpu_fadd");
    proof {
        assert(ctx.builder.code@ =~= old(ctx).builder.code@ + instr_group_DE_mem_jit_code(modrm_byte, "fpu_fadd"));
        assert(ctx.builder.frame().live =~= old(ctx).builder.frame().live);
        assert(ctx.builder.frame().live64 =~= old(ctx).builder.frame().live64);
        assert(ctx.builder.frame().ctrl =~= old(ctx).builder.frame().ctrl);
    }
}

/// `fpu_fadd` with the FPU register `r`.
pub fn instr_DE_0_reg_jit(ctx: &mut JitContext, r: u32)
    requires
        ready(old(ctx).builder, 8),
    ensures
        emits(*old(ctx), *final(ctx), instr_group_DE_reg_jit_code(r, "fpu_fadd"), 0),
        restores_by(old(ctx).builder, final(ctx).builder, 0),
{
    instr_group_DE_reg_jit(ctx, r, "fpu_fadd");
    proof {
        assert(ctx.builder.code@ =~= old(ctx).builder.code@ + instr_group_DE_reg_jit_code(r, "fpu_fadd"));
        assert(ctx.builder.frame().live =~= old(ctx).builder.frame().live);
        assert(ctx.builder.frame().live64 =~= old(ctx).builder.frame().live64);
        assert(ctx.builder.frame().ctrl =~= old(ctx).builder.frame().ctrl);
    }
}

/// `fpu_fmul` with a memory operand.
pub fn instr_DE_1_mem_jit(ctx: &mut JitContext, modrm_byte: u8)
    requires
        ready(old(ctx).builder, 8),
    ensures
        emits(*old(ctx), *final(ctx), instr_group_DE_mem_jit_code(modrm_byte, "fpu_fmul"), 0),
        restores_by(old(ctx).builder, final(ctx).builder, 0),
{
    instr_group_DE_mem_jit(ctx, modrm_byte, "fpu_fmul");
    proof {
        assert(ctx.builder.code@ =~= old(ctx).builder.code@ + instr_group_DE_mem_jit_code(modrm_byte, "fpu_fmul"));
        assert(ctx.builder.frame().live =~= old(ctx).builder.frame().live);
        assert(ctx.builder.frame().live64 =~= old(ctx).builder.frame().live64);
        assert(ctx.builder.frame().ctrl =~= old(ctx).builder.frame().ctrl);
    }
}

/// `fpu_fmul` with the FPU register `r`.
pub fn instr_DE_1_reg_jit(ctx: &mut JitContext, r: u32)
    requires
        ready(old(ctx).builder, 8),
    ensures
        emits(*old(ctx), *final(ctx), instr_group_DE_reg_jit_code(r, "fpu_fmul"), 0),
        restores_by(old(ctx).builder, final(ctx).builder, 0),
{
    instr_group_DE_reg_jit(ctx, r, "fpu_fmul");
    proof {
        assert(ctx.builder.code@ =~= old(ctx).builder.code@ + instr_group_DE_reg_jit_code(r, "fpu_fmul"));
        assert(ctx.builder.frame().live =~= old(ctx).builder.frame().live);
        assert(ctx.builder.frame().live64 =~= old(ctx).builder.frame().live64);
        assert(ctx.builder.frame().ctrl =~= old(ctx).builder.frame().ctrl);
    }
}

/// `fpu_fsub` with a memory operand.
pub fn instr_DE_4_mem_jit(ctx: &mut JitContext, modrm_byte: u8)
    requires
        ready(old(ctx).builder, 8),
    ensures
        emits(*old(ctx), *final(ctx), instr_group_DE_mem_jit_code(modrm_byte, "fpu_fsub"), 0),
        restores_by(old(ctx).builder, final(ctx).builder, 0),
{
    instr_group_DE_mem_jit(ctx, modrm_byte, "fpu_fsub");
    proof {
        assert(ctx.builder.code@ =~= old(ctx).builder.code@ + instr_group_DE_mem_jit_code(modrm_byte, "fpu_fsub"));
        assert(ctx.builder.frame().live =~= old(ctx).builder.frame().live);
        assert(ctx.builder.frame().live64 =~= old(ctx).builder.frame().live64);
        assert(ctx.builder.frame().ctrl =~= old(ctx).builder.frame().ctrl);
    }
}

/// `fpu_fsub` with the FPU register `r`.
pub fn instr_DE_4_reg_jit(ctx: &mut JitContext, r: u32)
    requires
        ready(old(ctx).builder, 8),
    ensures
        emits(*old(ctx), *final(ctx), instr_group_DE_reg_jit_code(r, "fpu_fsub"), 0),
        restores_by(old(ctx).builder, final(ctx).builder, 0),
{
    instr_group_DE_reg_jit(ctx, r, "fpu_fsub");
    proof {
        assert(ctx.builder.code@ =~= old(ctx).builder.code@ + instr_group_DE_reg_jit_code(r, "fpu_fsub"));
        assert(ctx.builder.frame().live =~= old(ctx).builder.frame().live);
        assert(ctx.builder.frame().live64 =~= old(ctx).builder.frame().live64);
        assert(ctx.builder.frame().ctrl =~= old(ctx).builder.frame().ctrl);
    }
}

/// `fpu_fsubr` with a memory operand.
pub fn instr_DE_5_mem_jit(ctx: &mut JitContext, modrm_byte: u8)
    requires
        ready(old(ctx).builder, 8),
    ensures
        emits(*old(ctx), *final(ctx), instr_group_DE_mem_jit_code(modrm_byte, "fpu_fsubr"), 0),
        restores_by(old(ctx).builder, final(ctx).builder, 0),
{
    instr_group_DE_mem_jit(ctx, modrm_byte, "fpu_fsubr");
    proof {
        assert(ctx.builder.code@ =~= old(ctx).builder.code@ + instr_group_DE_mem_jit_code(modrm_byte, "fpu_fsubr"));
        assert(ctx.builder.frame().live =~= old(ctx).builder.frame().live);
        assert(ctx.builder.frame().live64 =~= old(ctx).builder.frame().live64);
        assert(ctx.builder.frame().ctrl =~= old(ctx).builder.frame().ctrl);
    }
}

/// `fpu_fsubr` with the FPU register `r`.
pub fn instr_DE_5_reg_jit(ctx: &mut JitContext, r: u32)
    requires
        ready(old(ctx).builder, 8),
    ensures
        emits(*old(ctx), *final(ctx), instr_group_DE_reg_jit_code(r, "fpu_fsubr"), 0),
        restores_by(old(ctx).builder, final(ctx).builder, 0),
{
    instr_group_DE_reg_jit(ctx, r, "fpu_fsubr");
    proof {
        assert(ctx.builder.code@ =~= old(ctx).builder.code@ + instr_group_DE_reg_jit_code(r, "fpu_fsubr"));
        assert(ctx.builder.frame().live =~= old(ctx).builder.frame().live);
        assert(ctx.builder.frame().live64 =~= old(ctx).builder.frame().live64);
        assert(ctx.builder.frame().ctrl =~= old(ctx).builder.frame().ctrl);
    }
}

/// `fpu_fdiv` with a memory operand.
pub fn instr_DE_6_mem_jit(ctx: &mut JitContext, modrm_byte: u8)
    requires
        ready(old(ctx).builder, 8),
    ensures
        emits(*old(ctx), *final(ctx), instr_group_DE_mem_jit_code(modrm_byte, "fpu_fdiv"), 0),
        restores_by(old(ctx).builder, final(ctx).builder, 0),
{
    instr_group_DE_mem_jit(ctx, modrm_byte, "fpu_fdiv");
    proof {
        assert(ctx.builder.code@ =~= old(ctx).builder.code@ + instr_group_DE_mem_jit_code(modrm_byte, "fpu_fdiv"));
        assert(ctx.builder.frame().live =~= old(ctx).builder.frame().live);
        assert(ctx.builder.frame().live64 =~= old(ctx).builder.frame().live64);
        assert(ctx.builder.frame().ctrl =~= old(ctx).builder.frame().ctrl);
    }
}

/// `fpu_fdiv` with the FPU register `r`.
pub fn instr_DE_6_reg_jit(ctx: &mut JitContext, r: u32)
    requires
        ready(old(ctx).builder, 8),
    ensures
        emits(*old(ctx), *final(ctx), instr_group_DE_reg_jit_code(r, "fpu_fdiv"), 0),
        restores_by(old(ctx).builder, final(ctx).builder, 0),
{
    instr_group_DE_reg_jit(ctx, r, "fpu_fdiv");
    proof {
        assert(ctx.builder.code@ =~= old(ctx).builder.code@ + instr_group_DE_reg_jit_code(r, "fpu_fdiv"));
        assert(ctx.builder.frame().live =~= old(ctx).builder.frame().live);
        assert(ctx.builder.frame().live64 =~= old(ctx).builder.frame().live64);
        assert(ctx.builder.frame().ctrl =~= old(ctx).builder.frame().ctrl);
    }
}

/// `fpu_fdivr` with a memory operand.
pub fn instr_DE_7_mem_jit(ctx: &mut JitContext, modrm_byte: u8)
    requires
        ready(old(ctx).builder, 8),
    ensures
        emits(*old(ctx), *final(ctx), instr_group_DE_mem_jit_code(modrm_byte, "fpu_fdivr"), 0),
        restores_by(old(ctx).builder, final(ctx).builder, 0),
{
    instr_group_DE_mem_jit(ctx, modrm_byte, "fpu_fdivr");
    proof {
        assert(ctx.builder.code@ =~= old(ctx).builder.code@ + instr_group_DE_mem_jit_code(modrm_byte, "fpu_fdivr"));
        assert(ctx.builder.frame().live =~= old(ctx).builder.frame().live);
        assert(ctx.builder.frame().live64 =~= old(ctx).builder.frame().live64);
        assert(ctx.builder.frame().ctrl =~= old(ctx).builder.frame().ctrl);
    }
}

/// `fpu_fdivr` with the FPU register `r`.
pub fn instr_DE_7_reg_jit(ctx: &mut JitContext, r: u32)
    requires
        ready(old(ctx).builder, 8),
    ensures
        emits(*old(ctx), *final(ctx), instr_group_DE_reg_jit_code(r, "fpu_fdivr"), 0),
        restores_by(old(ctx).builder, final(ctx).builder, 0),
{
    instr_group_DE_reg_jit(ctx, r, "fpu_fdivr");
    proof {
        assert(ctx.builder.code@ =~= old(ctx).builder.code@ + instr_group_DE_reg_jit_code(r, "fpu_fdivr"));
        assert(ctx.builder.frame().live =~= old(ctx).builder.frame().live);
        assert(ctx.builder.frame().live64 =~= old(ctx).builder.frame().live64);
        assert(ctx.builder.frame().ctrl =~= old(ctx).builder.frame().ctrl);
    }
}

/// `fpu_fcom` with a memory operand.
pub fn instr_D8_2_mem_jit(ctx: &mut JitContext, modrm_byte: u8)
    requires
        ready(old(ctx).builder, 8),
    ensures
        emits(*old(ctx), *final(ctx), seq![Op::FpuLoadM32(modrm_byte), Op::CallFn1F64("fpu_fcom")], 0),
        restores_by(old(ctx).builder, final(ctx).builder, 0),
{
    ctx.builder.emit(Op::FpuLoadM32(modrm_byte));
    ctx.builder.emit(Op::CallFn1F64("fpu_fcom"));
    proof {
        assert(ctx.builder.code@ =~= old(ctx).builder.code@ + seq![Op::FpuLoadM32(modrm_byte), Op::CallFn1F64("fpu_fcom")]);
        assert(ctx.builder.frame().live =~= old(ctx).builder.frame().live);
        assert(ctx.builder.frame().live64 =~= old(ctx).builder.frame().live64);
        assert(ctx.builder.frame().ctrl =~= old(ctx).builder.frame().ctrl);
    }
}

/// `fpu_fcom` with the FPU register `r`.
pub fn instr_D8_2_reg_jit(ctx: &mut JitContext, r: u32)
    requires
        ready(old(ctx).builder, 8),
    ensures
        emits(*old(ctx), *final(ctx), seq![Op::FpuGetSti(r), Op::CallFn1F64("fpu_fcom")], 0),
        restores_by(old(ctx).builder, final(ctx).builder, 0),
{
    ctx.builder.emit(Op::FpuGetSti(r));
    ctx.builder.emit(Op::CallFn1F64("fpu_fcom"));
    proof {
        assert(ctx.builder.code@ =~= old(ctx).builder.code@ + seq![Op::FpuGetSti(r), Op::CallFn1F64("fpu_fcom")]);
        assert(ctx.builder.frame().live =~= old(ctx).builder.frame().live);
        assert(ctx.builder.frame().live64 =~= old(ctx).builder.frame().live64);
        assert(ctx.builder.frame().ctrl =~= old(ctx).builder.frame().ctrl);
    }
}

/// `fpu_fcomp` with a memory operand.
pub fn instr_D8_3_mem_jit(ctx: &mut JitContext, modrm_byte: u8)
    requires
        ready(old(ctx).builder, 8),
    ensures
        emits(*old(ctx), *final(ctx), seq![Op::FpuLoadM32(modrm_byte), Op::CallFn1F64("fpu_fcomp")], 0),
        restores_by(old(ctx).builder, final(ctx).builder, 0),
{
    ctx.builder.emit(Op::FpuLoadM32(modrm_byte));
    ctx.builder.emit(Op::CallFn1F64("fpu_fcomp"));
    proof {
        assert(ctx.builder.code@ =~= old(ctx).builder.code@ + seq![Op::FpuLoadM32(modrm_byte), Op::CallFn1F64("fpu_fcomp")]);
        assert(ctx.builder.frame().live =~= old(ctx).builder.frame().live);
        assert(ctx.builder.frame().live64 =~= old(ctx).builder.frame().live64);
        assert(ctx.builder.frame().ctrl =~= old(ctx).builder.frame().ctrl);
    }
}

/// `fpu_fcomp` with the FPU register `r`.
pub fn instr_D8_3_reg_jit(ctx: &mut JitContext, r: u32)
    requires
        ready(old(ctx).builder, 8),
    ensures
        emits(*old(ctx), *final(ctx), seq![Op::FpuGetSti(r), Op::CallFn1F64("fpu_fcomp")], 0),
        restores_by(old(ctx).builder, final(ctx).builder, 0),
{
    ctx.builder.emit(Op::FpuGetSti(r));
    ctx.builder.emit(Op::CallFn1F64("fpu_fcomp"));
    proof {
        assert(ctx.builder.code@ =~= old(ctx).builder.code@ + seq![Op::FpuGetSti(r), Op::CallFn1F64("fpu_fcomp")]);
        assert(ctx.builder.frame().live =~= old(ctx).builder.frame().live);
        assert(ctx.builder.frame().live64 =~= old(ctx).builder.frame().live64);
        assert(ctx.builder.frame().ctrl =~= old(ctx).builder.frame().ctrl);
    }
}

/// `fpu_fcom` with a memory operand.
pub fn instr_DC_2_mem_jit(ctx: &mut JitContext, modrm_byte: u8)
    requires
        ready(old(ctx).builder, 8),
    ensures
        emits(*old(ctx), *final(ctx), seq![Op::FpuLoadM64(modrm_byte), Op::CallFn1F64("fpu_fcom")], 0),
        restores_by(old(ctx).builder, final(ctx).builder, 0),
{
    ctx.builder.emit(Op::FpuLoadM64(modrm_byte));
    ctx.builder.emit(Op::CallFn1F64("fpu_fcom"));
    proof {
        assert(ctx.builder.code@ =~= old(ctx).builder.code@ + seq![Op::FpuLoadM64(modrm_byte), Op::CallFn1F64("fpu_fcom")]);
        assert(ctx.builder.frame().live =~= old(ctx).builder.frame().live);
        assert(ctx.builder.frame().live64 =~= old(ctx).builder.frame().live64);
        assert(ctx.builder.frame().ctrl =~= old(ctx).builder.frame().ctrl);
    }
}

/// `fpu_fcom` with the FPU register `r`.
pub fn instr_DC_2_reg_jit(ctx: &mut JitContext, r: u32)
    requires
        ready(old(ctx).builder, 8),
    ensures
        emits(*old(ctx), *final(ctx), seq![Op::FpuGetSti(r), Op::CallFn1F64("fpu_fcom")], 0),
        restores_by(old(ctx).builder, final(ctx).builder, 0),
{
    ctx.builder.emit(Op::FpuGetSti(r));
    ctx.builder.emit(Op::CallFn1F64("fpu_fcom"));
    proof {
        assert(ctx.builder.code@ =~= old(ctx).builder.code@ + seq![Op::FpuGetSti(r), Op::CallFn1F64("fpu_fcom")]);
        assert(ctx.builder.frame().live =~= old(ctx).builder.frame().live);
        assert(ctx.builder.frame().live64 =~= old(ctx).builder.frame().live64);
        assert(ctx.builder.frame().ctrl =~= old(ctx).builder.frame().ctrl);
    }
}

/// `fpu_fcomp` with a memory operand.
pub fn instr_DC_3_mem_jit(ctx: &mut JitContext, modrm_byte: u8)
    requires
        ready(old(ctx).builder, 8),
    ensures
        emits(*old(ctx), *final(ctx), seq![Op::FpuLoadM64(modrm_byte), Op::CallFn1F64("fpu_fcomp")], 0),
        restores_by(old(ctx).builder, final(ctx).builder, 0),
{
    ctx.builder.emit(Op::FpuLoadM64(modrm_byte));
    ctx.builder.emit(Op::CallFn1F64("fpu_fcomp"));
    proof {
        assert(ctx.builder.code@ =~= old(ctx).builder.code@ + seq![Op::FpuLoadM64(modrm_byte), Op::CallFn1F64("fpu_fcomp")]);
        assert(ctx.builder.frame().live =~= old(ctx).builder.frame().live);
        assert(ctx.builder.frame().live64 =~= old(ctx).builder.frame().live64);
        assert(ctx.builder.frame().ctrl =~= old(ctx).builder.frame().ctrl);
    }
}

/// `fpu_fcomp` with the FPU register `r`.
pub fn instr_DC_3_reg_jit(ctx: &mut JitContext, r: u32)
    requires
        ready(old(ctx).builder, 8),
    ensures
        emits(*old(ctx), *final(ctx), seq![Op::FpuGetSti(r), Op::CallFn1F64("fpu_fcomp")], 0),
        restores_by(old(ctx).builder, final(ctx).builder, 0),
{
    ctx.builder.emit(Op::FpuGetSti(r));
    ctx.builder.emit(Op::CallFn1F64("fpu_fcomp"));
    proof {
        assert(ctx.builder.code@ =~= old(ctx).builder.code@ + seq![Op::FpuGetSti(r), Op::CallFn1F64("fpu_fcomp")]);
        assert(ctx.builder.frame().live =~= old(ctx).builder.frame().live);
        assert(ctx.builder.frame().live64 =~= old(ctx).builder.frame().live64);
        assert(ctx.builder.frame().ctrl =~= old(ctx).builder.frame().ctrl);
    }
}

/// The code that [`instr16_D9_0_mem_jit`] appends.
pub open spec fn instr16_D9_0_mem_jit_code(modrm_byte: u8) -> Seq<Op> {
    seq![Op::FpuLoadM32(modrm_byte), Op::CallFn1F64("fpu_push")]
}

/// `fld` of a 32-bit float.
pub fn instr16_D9_0_mem_jit(ctx: &mut JitContext, modrm_byte: u8)
    requires
        ready(old(ctx).builder, 8),
    ensures
        emits(*old(ctx), *final(ctx), instr16_D9_0_mem_jit_code(modrm_byte), 0),
        restores_by(old(ctx).builder, final(ctx).builder, 0),
{
    ctx.builder.emit(Op::FpuLoadM32(modrm_byte));
    ctx.builder.emit(Op::CallFn1F64("fpu_push"));
    proof {
        assert(ctx.builder.code@ =~= old(ctx).builder.code@ + instr16_D9_0_mem_jit_code(modrm_byte));
        assert(ctx.builder.frame().live =~= old(ctx).builder.frame().live);
        assert(ctx.builder.frame().live64 =~= old(ctx).builder.frame().live64);
        assert(ctx.builder.frame().ctrl =~= old(ctx).builder.frame().ctrl);
    }
}

/// The code that [`instr16_D9_0_reg_jit`] appends.
pub open spec fn instr16_D9_0_reg_jit_code(r: u32) -> Seq<Op> {
    seq![Op::FpuGetSti(r), Op::CallFn1F64("fpu_push")]
}

/// `fld st(r)`.
pub fn instr16_D9_0_reg_jit(ctx: &mut JitContext, r: u32)
    requires
        ready(old(ctx).builder, 8),
    ensures
        emits(*old(ctx), *final(ctx), instr16_D9_0_reg_jit_code(r), 0),
        restores_by(old(ctx).builder, final(ctx).builder, 0),
{
    ctx.builder.emit(Op::FpuGetSti(r));
    ctx.builder.emit(Op::CallFn1F64("fpu_push"));
    proof {
        assert(ctx.builder.code@ =~= old(ctx).builder.code@ + instr16_D9_0_reg_jit_code(r));
        assert(ctx.builder.frame().live =~= old(ctx).builder.frame().live);
        assert(ctx.builder.frame().live64 =~= old(ctx).builder.frame().live64);
        assert(ctx.builder.frame().ctrl =~= old(ctx).builder.frame().ctrl);
    }
}

/// `fld st(r)`.
pub fn instr32_D9_0_reg_jit(ctx: &mut JitContext, r: u32)
    requires
        ready(old(ctx).builder, 8),
    ensures
        emits(*old(ctx), *final(ctx), instr16_D9_0_reg_jit_code(r), 0),
        restores_by(old(ctx).builder, final(ctx).builder, 0),
{
    instr16_D9_0_reg_jit(ctx, r);
    proof {
        assert(ctx.builder.code@ =~= old(ctx).builder.code@ + instr16_D9_0_reg_jit_code(r));
        assert(ctx.builder.frame().live =~= old(ctx).builder.frame().live);
        assert(ctx.builder.frame().live64 =~= old(ctx).builder.frame().live64);
        assert(ctx.builder.frame().ctrl =~= old(ctx).builder.frame().ctrl);
    }
}

/// `fld` of a 32-bit float.
pub fn instr32_D9_0_mem_jit(ctx: &mut JitContext, r: u8)
    requires
        ready(old(ctx).builder, 8),
    ensures
        emits(*old(ctx), *final(ctx), instr16_D9_0_mem_jit_code(r), 0),
        restores_by(old(ctx).builder, final(ctx).builder, 0),
{
    instr16_D9_0_mem_jit(ctx, r);
    proof {
        assert(ctx.builder.code@ =~= old(ctx).builder.code@ + instr16_D9_0_mem_jit_code(r));
        assert(ctx.builder.frame().live =~= old(ctx).builder.frame().live);
        assert(ctx.builder.frame().live64 =~= old(ctx).builder.frame().live64);
        assert(ctx.builder.frame().ctrl =~= old(ctx).builder.frame().ctrl);
    }
}

/// The code that [`instr16_D9_1_mem_jit`] appends.
pub open spec fn instr16_D9_1_mem_jit_code(modrm_byte: u8) -> Seq<Op> {
    seq![Op::ModrmResolve(modrm_byte), Op::TriggerUd]
}

/// Raises the invalid-opcode exception.
pub fn instr16_D9_1_mem_jit(ctx: &mut JitContext, modrm_byte: u8)
    requires
        ready(old(ctx).builder, 8),
    ensures
        emits(*old(ctx), *final(ctx), instr16_D9_1_mem_jit_code(modrm_byte), 0),
        balanced_by(old(ctx).builder, final(ctx).builder, 0),
{
    ctx.builder.emit(Op::ModrmResolve(modrm_byte));
    ctx.builder.diverge(Op::TriggerUd);
    proof {
        assert(ctx.builder.code@ =~= old(ctx).builder.code@ + instr16_D9_1_mem_jit_code(modrm_byte));
        assert(ctx.builder.frame().live =~= old(ctx).builder.frame().live);
        assert(ctx.builder.frame().live64 =~= old(ctx).builder.frame().live64);
        assert(ctx.builder.frame().ctrl =~= old(ctx).builder.frame().ctrl);
    }
}

/// The code that [`instr16_D9_1_reg_jit`] appends.
pub open spec fn instr16_D9_1_reg_jit_code(r: u32) -> Seq<Op> {
    seq![Op::ConstI32(r as i32), Op::CallFn1("fpu_fxch")]
}

/// `fxch st(r)`.
pub fn instr16_D9_1_reg_jit(ctx: &mut JitContext, r: u32)
    requires
        ready(old(ctx).builder, 8),
    ensures
        emits(*old(ctx), *final(ctx), instr16_D9_1_reg_jit_code(r), 0),
        restores_by(old(ctx).builder, final(ctx).builder, 0),
{
    ctx.builder.emit(Op::ConstI32(r as i32));
    ctx.builder.emit(Op::CallFn1("fpu_fxch"));
    proof {
        assert(ctx.builder.code@ =~= old(ctx).builder.code@ + instr16_D9_1_reg_jit_code(r));
        assert(ctx.builder.frame().live =~= old(ctx).builder.frame().live);
        assert(ctx.builder.frame().live64 =~= old(ctx).builder.frame().live64);
        assert(ctx.builder.frame().ctrl =~= old(ctx).builder.frame().ctrl);
    }
}

/// `fxch st(r)`.
pub fn instr32_D9_1_reg_jit(ctx: &mut JitContext, r: u32)
    requires
        ready(old(ctx).builder, 8),
    ensures
        emits(*old(ctx), *final(ctx), instr16_D9_1_reg_jit_code(r), 0),
        restores_by(old(ctx).builder, final(ctx).builder, 0),
{
    instr16_D9_1_reg_jit(ctx, r);
    proof {
        assert(ctx.builder.code@ =~= old(ctx).builder.code@ + instr16_D9_1_reg_jit_code(r));
        assert(ctx.builder.frame().live =~= old(ctx).builder.frame().live);
        assert(ctx.builder.frame().live64 =~= old(ctx).builder.frame().live64);
        assert(ctx.builder.frame().ctrl =~= old(ctx).builder.frame().ctrl);
    }
}

/// Raises the invalid-opcode exception.
pub fn instr32_D9_1_mem_jit(ctx: &mut JitContext, r: u8)
    requires
        ready(old(ctx).builder, 8),
    ensures
        emits(*old(ctx), *final(ctx), instr16_D9_1_mem_jit_code(r), 0),
        balanced_by(old(ctx).builder, final(ctx).builder, 0),
{
    instr16_D9_1_mem_jit(ctx, r);
    proof {
        assert(ctx.builder.code@ =~= old(ctx).builder.code@ + instr16_D9_1_mem_jit_code(r));
        assert(ctx.builder.frame().live =~= old(ctx).builder.frame().live);
        assert(ctx.builder.frame().live64 =~= old(ctx).builder.frame().live64);
        assert(ctx.builder.frame().ctrl =~= old(ctx).builder.frame().ctrl);
    }
}

/// The code that [`instr16_D9_2_mem_jit`] appends.
pub open spec fn instr16_D9_2_mem_jit_code(modrm_byte: u8, n: u32) -> Seq<Op> {
    seq![Op::ModrmResolve(modrm_byte), Op::SetNewLocal(n), Op::FpuGetSti(0), Op::DemoteF64ToF32, Op::ReinterpretF32AsI32, Op::SetNewLocal((n + 1) as u32), Op::SafeWrite32(WasmLocal::Temp(n), WasmLocal::Temp((n + 1) as u32)), Op::FreeLocal(n), Op::FreeLocal((n + 1) as u32)]
}

/// `fst` to a 32-bit float.
pub fn instr16_D9_2_mem_jit(ctx: &mut JitContext, modrm_byte: u8)
    requires
        ready(old(ctx).builder, 8),
    ensures
        emits(*old(ctx), *final(ctx), instr16_D9_2_mem_jit_code(modrm_byte, old(ctx).builder.next_local), 2),
        restores_by(old(ctx).builder, final(ctx).builder, 0),
{
    ctx.builder.emit(Op::ModrmResolve(modrm_byte));
    let addr = ctx.builder.set_new_local();
    ctx.builder.emit(Op::FpuGetSti(0));
    ctx.builder.emit(Op::DemoteF64ToF32);
    ctx.builder.emit(Op::ReinterpretF32AsI32);
    let value = ctx.builder.set_new_local();
    ctx.builder.emit(Op::SafeWrite32(addr, value));
    ctx.builder.free_local(addr);
    ctx.builder.free_local(value);
    proof {
        assert(ctx.builder.code@ =~= old(ctx).builder.code@ + instr16_D9_2_mem_jit_code(modrm_byte, old(ctx).builder.next_local));
        assert(ctx.builder.frame().live =~= old(ctx).builder.frame().live);
        assert(ctx.builder.frame().live64 =~= old(ctx).builder.frame().live64);
        assert(ctx.builder.frame().ctrl =~= old(ctx).builder.frame().ctrl);
    }
}

/// The code that [`instr16_D9_2_reg_jit`] appends.
pub open spec fn instr16_D9_2_reg_jit_code(r: u32) -> Seq<Op> {
    (if r != 0 { seq![Op::TriggerUd] } else { Seq::<Op>::empty() })
}

/// `fnop` when `r` is zero; otherwise raises the invalid-opcode exception.
pub fn instr16_D9_2_reg_jit(ctx: &mut JitContext, r: u32)
    requires
        ready(old(ctx).builder, 8),
    ensures
        emits(*old(ctx), *final(ctx), instr16_D9_2_reg_jit_code(r), 0),
        balanced_by(old(ctx).builder, final(ctx).builder, 0),
{
    if r != 0 {
        ctx.builder.diverge(Op::TriggerUd);
        proof { assert(ctx.builder.code@ =~= old(ctx).builder.code@ + seq![Op::TriggerUd]); }
    } else {
        proof { assert(ctx.builder.code@ =~= old(ctx).builder.code@ + Seq::<Op>::empty()); }
    }
    proof {
        assert(ctx.builder.code@ =~= old(ctx).builder.code@ + instr16_D9_2_reg_jit_code(r));
        assert(ctx.builder.frame().live =~= old(ctx).builder.frame().live);
        assert(ctx.builder.frame().live64 =~= old(ctx).builder.frame().live64);
        assert(ctx.builder.frame().ctrl =~= old(ctx).builder.frame().ctrl);
    }
}

/// `fnop` when `r` is zero; otherwise raises the invalid-opcode exception.
pub fn instr32_D9_2_reg_jit(ctx: &mut JitContext, r: u32)
    requires
        ready(old(ctx).builder, 8),
    ensures
        emits(*old(ctx), *final(ctx), instr16_D9_2_reg_jit_code(r), 0),
        balanced_by(old(ctx).builder, final(ctx).builder, 0),
{
    instr16_D9_2_reg_jit(ctx, r);
    proof {
        assert(ctx.builder.code@ =~= old(ctx).builder.code@ + instr16_D9_2_reg_jit_code(r));
        assert(ctx.builder.frame().live =~= old(ctx).builder.frame().live);
        assert(ctx.builder.frame().live64 =~= old(ctx).builder.frame().live64);
        assert(ctx.builder.frame().ctrl =~= old(ctx).builder.frame().ctrl);
    }
}

/// `fst` to a 32-bit float.
pub fn instr32_D9_2_mem_jit(ctx: &mut JitContext, r: u8)
    requires
        ready(old(ctx).builder, 8),
    ensures
        emits(*old(ctx), *final(ctx), instr16_D9_2_mem_jit_code(r, old(ctx).builder.next_local), 2),
        restores_by(old(ctx).builder, final(ctx).builder, 0),
{
    instr16_D9_2_mem_jit(ctx, r);
    proof {
        assert(ctx.builder.code@ =~= old(ctx).builder.code@ + instr16_D9_2_mem_jit_code(r, old(ctx).builder.next_local));
        assert(ctx.builder.frame().live =~= old(ctx).builder.frame().live);
        assert(ctx.builder.frame().live64 =~= old(ctx).builder.frame().live64);
        assert(ctx.builder.frame().ctrl =~= old(ctx).builder.frame().ctrl);
    }
}

/// The code that [`instr16_D9_3_mem_jit`] appends.
pub open spec fn instr16_D9_3_mem_jit_code(modrm_byte: u8, n: u32) -> Seq<Op> {
    seq![Op::ModrmResolve(modrm_byte), Op::SetNewLocal(n), Op::FpuGetSti(0), Op::DemoteF64ToF32, Op::ReinterpretF32AsI32, Op::SetNewLocal((n + 1) as u32), Op::SafeWrite32(WasmLocal::Temp(n), WasmLocal::Temp((n + 1) as u32)), Op::Fn0Const("fpu_pop"), Op::FreeLocal(n), Op::FreeLocal((n + 1) as u32)]
}

/// `fstp` to a 32-bit float.
pub fn instr16_D9_3_mem_jit(ctx: &mut JitContext, modrm_byte: u8)
    requires
        ready(old(ctx).builder, 8),
    ensures
        emits(*old(ctx), *final(ctx), instr16_D9_3_mem_jit_code(modrm_byte, old(ctx).builder.next_local), 2),
        restores_by(old(ctx).builder, final(ctx).builder, 0),
{
    ctx.builder.emit(Op::ModrmResolve(modrm_byte));
    let addr = ctx.builder.set_new_local();
    ctx.builder.emit(Op::FpuGetSti(0));
    ctx.builder.emit(Op::DemoteF64ToF32);
    ctx.builder.emit(Op::ReinterpretF32AsI32);
    let value = ctx.builder.set_new_local();
    ctx.builder.emit(Op::SafeWrite32(addr, value));
    ctx.builder.emit(Op::Fn0Const("fpu_pop"));
    ctx.builder.free_local(addr);
    ctx.builder.free_local(value);
    proof {
        assert(ctx.builder.code@ =~= old(ctx).builder.code@ + instr16_D9_3_mem_jit_code(modrm_byte, old(ctx).builder.next_local));
        assert(ctx.builder.frame().live =~= old(ctx).builder.frame().live);
        assert(ctx.builder.frame().live64 =~= old(ctx).builder.frame().live64);
        assert(ctx.builder.frame().ctrl =~= old(ctx).builder.frame().ctrl);
    }
}

/// The code that [`instr16_D9_3_reg_jit`] appends.
pub open spec fn instr16_D9_3_reg_jit_code(r: u32) -> Seq<Op> {
    seq![Op::Fn1Const("fpu_fstp", r)]
}

/// `fstp st(r)`.
pub fn instr16_D9_3_reg_jit(ctx: &mut JitContext, r: u32)
    requires
        ready(old(ctx).builder, 8),
    ensures
        emits(*old(ctx), *final(ctx), instr16_D9_3_reg_jit_code(r), 0),
        restores_by(old(ctx).builder, final(ctx).builder, 0),
{
    ctx.builder.emit(Op::Fn1Const("fpu_fstp", r));
    proof {
        assert(ctx.builder.code@ =~= old(ctx).builder.code@ + instr16_D9_3_reg_jit_code(r));
        assert(ctx.builder.frame().live =~= old(ctx).builder.frame().live);
        assert(ctx.builder.frame().live64 =~= old(ctx).builder.frame().live64);
        assert(ctx.builder.frame().ctrl =~= old(ctx).builder.frame().ctrl);
    }
}

/// `fstp st(r)`.
pub fn instr32_D9_3_reg_jit(ctx: &mut JitContext, r: u32)
    requires
        ready(old(ctx).builder, 8),
    ensures
        emits(*old(ctx), *final(ctx), instr16_D9_3_reg_jit_code(r), 0),
        restores_by(old(ctx).builder, final(ctx).builder, 0),
{
    instr16_D9_3_reg_jit(ctx, r);
    proof {
        assert(ctx.builder.code@ =~= old(ctx).builder.code@ + instr16_D9_3_reg_jit_code(r));
        assert(ctx.builder.frame().live =~= old(ctx).builder.frame().live);
        assert(ctx.builder.frame().live64 =~= old(ctx).builder.frame().live64);
        assert(ctx.builder.frame().ctrl =~= old(ctx).builder.frame().ctrl);
    }
}

/// `fstp` to a 32-bit float.
pub fn instr32_D9_3_mem_jit(ctx: &mut JitContext, r: u8)
    requires
        ready(old(ctx).builder, 8),
    ensures
        emits(*old(ctx), *final(ctx), instr16_D9_3_mem_jit_code(r, old(ctx).builder.next_local), 2),
        restores_by(old(ctx).builder, final(ctx).builder, 0),
{
    instr16_D9_3_mem_jit(ctx, r);
    proof {
        assert(ctx.builder.code@ =~= old(ctx).builder.code@ + instr16_D9_3_mem_jit_code(r, old(ctx).builder.next_local));
        assert(ctx.builder.frame().live =~= old(ctx).builder.frame().live);
        assert(ctx.builder.frame().live64 =~= old(ctx).builder.frame().live64);
        assert(ctx.builder.frame().ctrl =~= old(ctx).builder.frame().ctrl);
    }
}

/// The code that [`instr16_D9_4_mem_jit`] appends.
pub open spec fn instr16_D9_4_mem_jit_code(modrm_byte: u8, start: u32) -> Seq<Op> {
    seq![Op::ModrmResolve(modrm_byte), Op::SetPreviousEipOffsetFromEipWithLowBits(start as i32 & 0xFFF), Op::MoveRegistersFromLocalsToMemory, Op::CallFn1("fpu_fldenv32"), Op::MoveRegistersFromMemoryToLocals, Op::LoadU8(GlobalPointer::PageFault), Op::IfVoid, Op::DebugTrackJitExit(start), Op::MoveRegistersFromLocalsToMemory, Op::Return, Op::BlockEnd]
}

/// `fldenv`; a page fault leaves the generated code.
pub fn instr16_D9_4_mem_jit(ctx: &mut JitContext, modrm_byte: u8)
    requires
        ready(old(ctx).builder, 8),
    ensures
        emits(*old(ctx), *final(ctx), instr16_D9_4_mem_jit_code(modrm_byte, old(ctx).start_of_current_instruction), 0),
        restores_by(old(ctx).builder, final(ctx).builder, 0),
{
    ctx.builder.emit(Op::ModrmResolve(modrm_byte));
    ctx.builder.emit(Op::SetPreviousEipOffsetFromEipWithLowBits(ctx.start_of_current_instruction as i32 & 0xFFF));
    ctx.builder.emit(Op::MoveRegistersFromLocalsToMemory);
    ctx.builder.emit(Op::CallFn1("fpu_fldenv32"));
    ctx.builder.emit(Op::MoveRegistersFromMemoryToLocals);
    ctx.builder.emit(Op::LoadU8(GlobalPointer::PageFault));
    ctx.builder.if_void();
    ctx.builder.emit(Op::DebugTrackJitExit(ctx.start_of_current_instruction));
    ctx.builder.emit(Op::MoveRegistersFromLocalsToMemory);
    ctx.builder.diverge(Op::Return);
    ctx.builder.block_end();
    proof {
        assert(ctx.builder.code@ =~= old(ctx).builder.code@ + instr16_D9_4_mem_jit_code(modrm_byte, old(ctx).start_of_current_instruction));
        assert(ctx.builder.frame().live =~= old(ctx).builder.frame().live);
        assert(ctx.builder.frame().live64 =~= old(ctx).builder.frame().live64);
        assert(ctx.builder.frame().ctrl =~= old(ctx).builder.frame().ctrl);
    }
}

/// The code that [`instr16_D9_4_reg_jit`] appends.
pub open spec fn instr16_D9_4_reg_jit_code(r: u32) -> Seq<Op> {
    (if r == 0 || r == 1 || r == 4 || r == 5 { seq![Op::ConstI32(r as i32), Op::CallFn1("instr16_D9_4_reg")] } else { seq![Op::TriggerUd] })
}

/// `fchs`, `fabs`, `ftst` or `fxam`; any other `r` raises the invalid-opcode exception.
pub fn instr16_D9_4_reg_jit(ctx: &mut JitContext, r: u32)
    requires
        ready(old(ctx).builder, 8),
    ensures
        emits(*old(ctx), *final(ctx), instr16_D9_4_reg_jit_code(r), 0),
        balanced_by(old(ctx).builder, final(ctx).builder, 0),
{
    if r == 0 || r == 1 || r == 4 || r == 5 {
        ctx.builder.emit(Op::ConstI32(r as i32));
        ctx.builder.emit(Op::CallFn1("instr16_D9_4_reg"));
        proof { assert(ctx.builder.code@ =~= old(ctx).builder.code@ + seq![Op::ConstI32(r as i32), Op::CallFn1("instr16_D9_4_reg")]); }
    } else {
        ctx.builder.diverge(Op::TriggerUd);
        proof { assert(ctx.builder.code@ =~= old(ctx).builder.code@ + seq![Op::TriggerUd]); }
    }
    proof {
        assert(ctx.builder.code@ =~= old(ctx).builder.code@ + instr16_D9_4_reg_jit_code(r));
        assert(ctx.builder.frame().live =~= old(ctx).builder.frame().live);
        assert(ctx.builder.frame().live64 =~= old(ctx).builder.frame().live64);
        assert(ctx.builder.frame().ctrl =~= old(ctx).builder.frame().ctrl);
    }
}

/// `fchs`, `fabs`, `ftst` or `fxam`; any other `r` raises the invalid-opcode exception.
pub fn instr32_D9_4_reg_jit(ctx: &mut JitContext, r: u32)
    requires
        ready(old(ctx).builder, 8),
    ensures
        emits(*old(ctx), *final(ctx), instr16_D9_4_reg_jit_code(r), 0),
        balanced_by(old(ctx).builder, final(ctx).builder, 0),
{
    instr16_D9_4_reg_jit(ctx, r);
    proof {
        assert(ctx.builder.code@ =~= old(ctx).builder.code@ + instr16_D9_4_reg_jit_code(r));
        assert(ctx.builder.frame().live =~= old(ctx).builder.frame().live);
        assert(ctx.builder.frame().live64 =~= old(ctx).builder.frame().live64);
        assert(ctx.builder.frame().ctrl =~= old(ctx).builder.frame().ctrl);
    }
}

/// `fldenv`; a page fault leaves the generated code.
pub fn instr32_D9_4_mem_jit(ctx: &mut JitContext, r: u8)
    requires
        ready(old(ctx).builder, 8),
    ensures
        emits(*old(ctx), *final(ctx), instr16_D9_4_mem_jit_code(r, old(ctx).start_of_current_instruction), 0),
        restores_by(old(ctx).builder, final(ctx).builder, 0),
{
    instr16_D9_4_mem_jit(ctx, r);
    proof {
        assert(ctx.builder.code@ =~= old(ctx).builder.code@ + instr16_D9_4_mem_jit_code(r, old(ctx).start_of_current_instruction));
        assert(ctx.builder.frame().live =~= old(ctx).builder.frame().live);
        assert(ctx.builder.frame().live64 =~= old(ctx).builder.frame().live64);
        assert(ctx.builder.frame().ctrl =~= old(ctx).builder.frame().ctrl);
    }
}

/// The code that [`instr16_D9_5_mem_jit`] appends.
pub open spec fn instr16_D9_5_mem_jit_code(modrm_byte: u8) -> Seq<Op> {
    seq![Op::ConstGlobal(GlobalPointer::FpuControlWord), Op::ModrmResolveSafeRead16(modrm_byte), Op::StoreAlignedU16(0)]
}

/// `fldcw`: loads the FPU control word from memory.
pub fn instr16_D9_5_mem_jit(ctx: &mut JitContext, modrm_byte: u8)
    requires
        ready(old(ctx).builder, 8),
    ensures
        emits(*old(ctx), *final(ctx), instr16_D9_5_mem_jit_code(modrm_byte), 0),
        restores_by(old(ctx).builder, final(ctx).builder, 0),
{
    ctx.builder.emit(Op::ConstGlobal(GlobalPointer::FpuControlWord));
    ctx.builder.emit(Op::ModrmResolveSafeRead16(modrm_byte));
    ctx.builder.emit(Op::StoreAlignedU16(0));
    proof {
        assert(ctx.builder.code@ =~= old(ctx).builder.code@ + instr16_D9_5_mem_jit_code(modrm_byte));
        assert(ctx.builder.frame().live =~= old(ctx).builder.frame().live);
        assert(ctx.builder.frame().live64 =~= old(ctx).builder.frame().live64);
        assert(ctx.builder.frame().ctrl =~= old(ctx).builder.frame().ctrl);
    }
}

/// The code that [`instr16_D9_5_reg_jit`] appends.
pub open spec fn instr16_D9_5_reg_jit_code(r: u32) -> Seq<Op> {
    (if r == 7 { seq![Op::TriggerUd] } else { seq![Op::Fn1Const("instr16_D9_5_reg", r)] })
}

/// Loads the constant selected by `r`; `r == 7` raises the invalid-opcode exception.
pub fn instr16_D9_5_reg_jit(ctx: &mut JitContext, r: u32)
    requires
        ready(old(ctx).builder, 8),
    ensures
        emits(*old(ctx), *final(ctx), instr16_D9_5_reg_jit_code(r), 0),
        balanced_by(old(ctx).builder, final(ctx).builder, 0),
{
    if r == 7 {
        ctx.builder.diverge(Op::TriggerUd);
        proof { assert(ctx.builder.code@ =~= old(ctx).builder.code@ + seq![Op::TriggerUd]); }
    } else {
        ctx.builder.emit(Op::Fn1Const("instr16_D9_5_reg", r));
        proof { assert(ctx.builder.code@ =~= old(ctx).builder.code@ + seq![Op::Fn1Const("instr16_D9_5_reg", r)]); }
    }
    proof {
        assert(ctx.builder.code@ =~= old(ctx).builder.code@ + instr16_D9_5_reg_jit_code(r));
        assert(ctx.builder.frame().live =~= old(ctx).builder.frame().live);
        assert(ctx.builder.frame().live64 =~= old(ctx).builder.frame().live64);
        assert(ctx.builder.frame().ctrl =~= old(ctx).builder.frame().ctrl);
    }
}

/// Loads the constant selected by `r`; `r == 7` raises the invalid-opcode exception.
pub fn instr32_D9_5_reg_jit(ctx: &mut JitContext, r: u32)
    requires
        ready(old(ctx).builder, 8),
    ensures
        emits(*old(ctx), *final(ctx), instr16_D9_5_reg_jit_code(r), 0),
        balanced_by(old(ctx).builder, final(ctx).builder, 0),
{
    instr16_D9_5_reg_jit(ctx, r);
    proof {
        assert(ctx.builder.code@ =~= old(ctx).builder.code@ + instr16_D9_5_reg_jit_code(r));
        assert(ctx.builder.frame().live =~= old(ctx).builder.frame().live);
        assert(ctx.builder.frame().live64 =~= old(ctx).builder.frame().live64);
        assert(ctx.builder.frame().ctrl =~= old(ctx).builder.frame().ctrl);
    }
}

/// `fldcw`: loads the FPU control word from memory.
pub fn instr32_D9_5_mem_jit(ctx: &mut JitContext, r: u8)
    requires
        ready(old(ctx).builder, 8),
    ensures
        emits(*old(ctx), *final(ctx), instr16_D9_5_mem_jit_code(r), 0),
        restores_by(old(ctx).builder, final(ctx).builder, 0),
{
    instr16_D9_5_mem_jit(ctx, r);
    proof {
        assert(ctx.builder.code@ =~= old(ctx).builder.code@ + instr16_D9_5_mem_jit_code(r));
        assert(ctx.builder.frame().live =~= old(ctx).builder.frame().live);
        assert(ctx.builder.frame().live64 =~= old(ctx).builder.frame().live64);
        assert(ctx.builder.frame().ctrl =~= old(ctx).builder.frame().ctrl);
    }
}

/// The code that [`instr16_D9_6_mem_jit`] appends.
pub open spec fn instr16_D9_6_mem_jit_code(modrm_byte: u8, start: u32) -> Seq<Op> {
    seq![Op::ModrmResolve(modrm_byte), Op::SetPreviousEipOffsetFromEipWithLowBits(start as i32 & 0xFFF), Op::MoveRegistersFromLocalsToMemory, Op::CallFn1("fpu_fstenv32"), Op::MoveRegistersFromMemoryToLocals, Op::LoadU8(GlobalPointer::PageFault), Op::IfVoid, Op::DebugTrackJitExit(start), Op::MoveRegistersFromLocalsToMemory, Op::Return, Op::BlockEnd]
}

/// `fstenv`; a page fault leaves the generated code.
pub fn instr16_D9_6_mem_jit(ctx: &mut JitContext, modrm_byte: u8)
    requires
        ready(old(ctx).builder, 8),
    ensures
        emits(*old(ctx), *final(ctx), instr16_D9_6_mem_jit_code(modrm_byte, old(ctx).start_of_current_instruction), 0),
        restores_by(old(ctx).builder, final(ctx).builder, 0),
{
    ctx.builder.emit(Op::ModrmResolve(modrm_byte));
    ctx.builder.emit(Op::SetPreviousEipOffsetFromEipWithLowBits(ctx.start_of_current_instruction as i32 & 0xFFF));
    ctx.builder.emit(Op::MoveRegistersFromLocalsToMemory);
    ctx.builder.emit(Op::CallFn1("fpu_fstenv32"));
    ctx.builder.emit(Op::MoveRegistersFromMemoryToLocals);
    ctx.builder.emit(Op::LoadU8(GlobalPointer::PageFault));
    ctx.builder.if_void();
    ctx.builder.emit(Op::DebugTrackJitExit(ctx.start_of_current_instruction));
    ctx.builder.emit(Op::MoveRegistersFromLocalsToMemory);
    ctx.builder.diverge(Op::Return);
    ctx.builder.block_end();
    proof {
        assert(ctx.builder.code@ =~= old(ctx).builder.code@ + instr16_D9_6_mem_jit_code(modrm_byte, old(ctx).start_of_current_instruction));
        assert(ctx.builder.frame().live =~= old(ctx).builder.frame().live);
        assert(ctx.builder.frame().live64 =~= old(ctx).builder.frame().live64);
        assert(ctx.builder.frame().ctrl =~= old(ctx).builder.frame().ctrl);
    }
}

/// The code that [`instr16_D9_6_reg_jit`] appends.
pub open spec fn instr16_D9_6_reg_jit_code(r: u32) -> Seq<Op> {
    seq![Op::Fn1Const("instr16_D9_6_reg", r)]
}

/// The operation selected by `r` through the runtime helper.
pub fn instr16_D9_6_reg_jit(ctx: &mut JitContext, r: u32)
    requires
        ready(old(ctx).builder, 8),
    ensures
        emits(*old(ctx), *final(ctx), instr16_D9_6_reg_jit_code(r), 0),
        restores_by(old(ctx).builder, final(ctx).builder, 0),
{
    ctx.builder.emit(Op::Fn1Const("instr16_D9_6_reg", r));
    proof {
        assert(ctx.builder.code@ =~= old(ctx).builder.code@ + instr16_D9_6_reg_jit_code(r));
        assert(ctx.builder.frame().live =~= old(ctx).builder.frame().live);
        assert(ctx.builder.frame().live64 =~= old(ctx).builder.frame().live64);
        assert(ctx.builder.frame().ctrl =~= old(ctx).builder.frame().ctrl);
    }
}

/// The operation selected by `r` through the runtime helper.
pub fn instr32_D9_6_reg_jit(ctx: &mut JitContext, r: u32)
    requires
        ready(old(ctx).builder, 8),
    ensures
        emits(*old(ctx), *final(ctx), instr16_D9_6_reg_jit_code(r), 0),
        restores_by(old(ctx).builder, final(ctx).builder, 0),
{
    instr16_D9_6_reg_jit(ctx, r);
    proof {
        assert(ctx.builder.code@ =~= old(ctx).builder.code@ + instr16_D9_6_reg_jit_code(r));
        assert(ctx.builder.frame().live =~= old(ctx).builder.frame().live);
        assert(ctx.builder.frame().live64 =~= old(ctx).builder.frame().live64);
        assert(ctx.builder.frame().ctrl =~= old(ctx).builder.frame().ctrl);
    }
}

/// `fstenv`; a page fault leaves the generated code.
pub fn instr32_D9_6_mem_jit(ctx: &mut JitContext, r: u8)
    requires
        ready(old(ctx).builder, 8),
    ensures
        emits(*old(ctx), *final(ctx), instr16_D9_6_mem_jit_code(r, old(ctx).start_of_current_instruction), 0),
        restores_by(old(ctx).builder, final(ctx).builder, 0),
{
    instr16_D9_6_mem_jit(ctx, r);
    proof {
        assert(ctx.builder.code@ =~= old(ctx).builder.code@ + instr16_D9_6_mem_jit_code(r, old(ctx).start_of_current_instruction));
        assert(ctx.builder.frame().live =~= old(ctx).builder.frame().live);
        assert(ctx.builder.frame().live64 =~= old(ctx).builder.frame().live64);
        assert(ctx.builder.frame().ctrl =~= old(ctx).builder.frame().ctrl);
    }
}

/// The code that [`instr16_D9_7_mem_jit`] appends.
pub open spec fn instr16_D9_7_mem_jit_code(modrm_byte: u8, n: u32) -> Seq<Op> {
    seq![Op::ModrmResolve(modrm_byte), Op::SetNewLocal(n), Op::ConstGlobal(GlobalPointer::FpuControlWord), Op::LoadAlignedU16FromStack(0), Op::SetNewLocal((n + 1) as u32), Op::SafeWrite16(WasmLocal::Temp(n), WasmLocal::Temp((n + 1) as u32)), Op::FreeLocal(n), Op::FreeLocal((n + 1) as u32)]
}

/// `fstcw`: stores the FPU control word to memory.
pub fn instr16_D9_7_mem_jit(ctx: &mut JitContext, modrm_byte: u8)
    requires
        ready(old(ctx).builder, 8),
    ensures
        emits(*old(ctx), *final(ctx), instr16_D9_7_mem_jit_code(modrm_byte, old(ctx).builder.next_local), 2),
        restores_by(old(ctx).builder, final(ctx).builder, 0),
{
    ctx.builder.emit(Op::ModrmResolve(modrm_byte));
    let addr = ctx.builder.set_new_local();
    ctx.builder.emit(Op::ConstGlobal(GlobalPointer::FpuControlWord));
    ctx.builder.emit(Op::LoadAlignedU16FromStack(0));
    let value = ctx.builder.set_new_local();
    ctx.builder.emit(Op::SafeWrite16(addr, value));
    ctx.builder.free_local(addr);
    ctx.builder.free_local(value);
    proof {
        assert(ctx.builder.code@ =~= old(ctx).builder.code@ + instr16_D9_7_mem_jit_code(modrm_byte, old(ctx).builder.next_local));
        assert(ctx.builder.frame().live =~= old(ctx).builder.frame().live);
        assert(ctx.builder.frame().live64 =~= old(ctx).builder.frame().live64);
        assert(ctx.builder.frame().ctrl =~= old(ctx).builder.frame().ctrl);
    }
}

/// The code that [`instr16_D9_7_reg_jit`] appends.
pub open spec fn instr16_D9_7_reg_jit_code(r: u32) -> Seq<Op> {
    seq![Op::Fn1Const("instr16_D9_7_reg", r)]
}

/// The operation selected by `r` through the runtime helper.
pub fn instr16_D9_7_reg_jit(ctx: &mut JitContext, r: u32)
    requires
        ready(old(ctx).builder, 8),
    ensures
        emits(*old(ctx), *final(ctx), instr16_D9_7_reg_jit_code(r), 0),
        restores_by(old(ctx).builder, final(ctx).builder, 0),
{
    ctx.builder.emit(Op::Fn1Const("instr16_D9_7_reg", r));
    proof {
        assert(ctx.builder.code@ =~= old(ctx).builder.code@ + instr16_D9_7_reg_jit_code(r));
        assert(ctx.builder.frame().live =~= old(ctx).builder.frame().live);
        assert(ctx.builder.frame().live64 =~= old(ctx).builder.frame().live64);
        assert(ctx.builder.frame().ctrl =~= old(ctx).builder.frame().ctrl);
    }
}

/// The operation selected by `r` through the runtime helper.
pub fn instr32_D9_7_reg_jit(ctx: &mut JitContext, r: u32)
    requires
        ready(old(ctx).builder, 8),
    ensures
        emits(*old(ctx), *final(ctx), instr16_D9_7_reg_jit_code(r), 0),
        restores_by(old(ctx).builder, final(ctx).builder, 0),
{
    instr16_D9_7_reg_jit(ctx, r);
    proof {
        assert(ctx.builder.code@ =~= old(ctx).builder.code@ + instr16_D9_7_reg_jit_code(r));
        assert(ctx.builder.frame().live =~= old(ctx).builder.frame().live);
        assert(ctx.builder.frame().live64 =~= old(ctx).builder.frame().live64);
        assert(ctx.builder.frame().ctrl =~= old(ctx).builder.frame().ctrl);
    }
}

/// `fstcw`: stores the FPU control word to memory.
pub fn instr32_D9_7_mem_jit(ctx: &mut JitContext, r: u8)
    requires
        ready(old(ctx).builder, 8),
    ensures
        emits(*old(ctx), *final(ctx), instr16_D9_7_mem_jit_code(r, old(ctx).builder.next_local), 2),
        restores_by(old(ctx).builder, final(ctx).builder, 0),
{
    instr16_D9_7_mem_jit(ctx, r);
    proof {
        assert(ctx.builder.code@ =~= old(ctx).builder.code@ + instr16_D9_7_mem_jit_code(r, old(ctx).builder.next_local));
        assert(ctx.builder.frame().live =~= old(ctx).builder.frame().live);
        assert(ctx.builder.frame().live64 =~= old(ctx).builder.frame().live64);
        assert(ctx.builder.frame().ctrl =~= old(ctx).builder.frame().ctrl);
    }
}

/// `fisubr` of a 32-bit integer.
pub fn instr_DA_5_mem_jit(ctx: &mut JitContext, modrm_byte: u8)
    requires
        ready(old(ctx).builder, 8),
    ensures
        emits(*old(ctx), *final(ctx), seq![Op::ConstI32(0), Op::ModrmResolveSafeRead32(modrm_byte), Op::ConvertI32ToF64, Op::CallFn2I32F64("fpu_fsubr")], 0),
        restores_by(old(ctx).builder, final(ctx).builder, 0),
{
    ctx.builder.emit(Op::ConstI32(0));
    ctx.builder.emit(Op::ModrmResolveSafeRead32(modrm_byte));
    ctx.builder.emit(Op::ConvertI32ToF64);
    ctx.builder.emit(Op::CallFn2I32F64("fpu_fsubr"));
    proof {
        assert(ctx.builder.code@ =~= old(ctx).builder.code@ + seq![Op::ConstI32(0), Op::ModrmResolveSafeRead32(modrm_byte), Op::ConvertI32ToF64, Op::CallFn2I32F64("fpu_fsubr")]);
        assert(ctx.builder.frame().live =~= old(ctx).builder.frame().live);
        assert(ctx.builder.frame().live64 =~= old(ctx).builder.frame().live64);
        assert(ctx.builder.frame().ctrl =~= old(ctx).builder.frame().ctrl);
    }
}

/// `fucompp` when `r` is one; otherwise raises the invalid-opcode exception.
pub fn instr_DA_5_reg_jit(ctx: &mut JitContext, r: u32)
    requires
        ready(old(ctx).builder, 8),
    ensures
        emits(*old(ctx), *final(ctx), (if r == 1 { seq![Op::Fn0Const("fpu_fucompp")] } else { seq![Op::TriggerUd] }), 0),
        balanced_by(old(ctx).builder, final(ctx).builder, 0),
{
    if r == 1 {
        ctx.builder.emit(Op::Fn0Const("fpu_fucompp"));
        proof { assert(ctx.builder.code@ =~= old(ctx).builder.code@ + seq![Op::Fn0Const("fpu_fucompp")]); }
    } else {
        ctx.builder.diverge(Op::TriggerUd);
        proof { assert(ctx.builder.code@ =~= old(ctx).builder.code@ + seq![Op::TriggerUd]); }
    }
    proof {
        assert(ctx.builder.code@ =~= old(ctx).builder.code@ + (if r == 1 { seq![Op::Fn0Const("fpu_fucompp")] } else { seq![Op::TriggerUd] }));
        assert(ctx.builder.frame().live =~= old(ctx).builder.frame().live);
        assert(ctx.builder.frame().live64 =~= old(ctx).builder.frame().live64);
        assert(ctx.builder.frame().ctrl =~= old(ctx).builder.frame().ctrl);
    }
}

/// `fild` of a 32-bit integer.
pub fn instr_DB_0_mem_jit(ctx: &mut JitContext, modrm_byte: u8)
    requires
        ready(old(ctx).builder, 8),
    ensures
        emits(*old(ctx), *final(ctx), seq![Op::ModrmResolveSafeRead32(modrm_byte), Op::ConvertI32ToF64, Op::CallFn1F64("fpu_push")], 0),
        restores_by(old(ctx).builder, final(ctx).builder, 0),
{
    ctx.builder.emit(Op::ModrmResolveSafeRead32(modrm_byte));
    ctx.builder.emit(Op::ConvertI32ToF64);
    ctx.builder.emit(Op::CallFn1F64("fpu_push"));
    proof {
        assert(ctx.builder.code@ =~= old(ctx).builder.code@ + seq![Op::ModrmResolveSafeRead32(modrm_byte), Op::ConvertI32ToF64, Op::CallFn1F64("fpu_push")]);
        assert(ctx.builder.frame().live =~= old(ctx).builder.frame().live);
        assert(ctx.builder.frame().live64 =~= old(ctx).builder.frame().live64);
        assert(ctx.builder.frame().ctrl =~= old(ctx).builder.frame().ctrl);
    }
}

/// `fcmovnb st(r)` through the runtime helper.
pub fn instr_DB_0_reg_jit(ctx: &mut JitContext, r: u32)
    requires
        ready(old(ctx).builder, 8),
    ensures
        emits(*old(ctx), *final(ctx), seq![Op::Fn1Const("instr_DB_0_reg", r)], 0),
        restores_by(old(ctx).builder, final(ctx).builder, 0),
{
    ctx.builder.emit(Op::Fn1Const("instr_DB_0_reg", r));
    proof {
        assert(ctx.builder.code@ =~= old(ctx).builder.code@ + seq![Op::Fn1Const("instr_DB_0_reg", r)]);
        assert(ctx.builder.frame().live =~= old(ctx).builder.frame().live);
        assert(ctx.builder.frame().live64 =~= old(ctx).builder.frame().live64);
        assert(ctx.builder.frame().ctrl =~= old(ctx).builder.frame().ctrl);
    }
}

/// `fist` to a 32-bit integer.
pub fn instr_DB_2_mem_jit(ctx: &mut JitContext, modrm_byte: u8)
    requires
        ready(old(ctx).builder, 8),
    ensures
        emits(*old(ctx), *final(ctx), seq![Op::ModrmResolve(modrm_byte), Op::SetNewLocal(old(ctx).builder.next_local), Op::FpuGetSti(0), Op::CallFn1F64RetI32("fpu_convert_to_i32"), Op::SetNewLocal((old(ctx).builder.next_local + 1) as u32), Op::SafeWrite32(WasmLocal::Temp(old(ctx).builder.next_local), WasmLocal::Temp((old(ctx).builder.next_local + 1) as u32)), Op::FreeLocal(old(ctx).builder.next_local), Op::FreeLocal((old(ctx).builder.next_local + 1) as u32)], 2),
        restores_by(old(ctx).builder, final(ctx).builder, 0),
{
    ctx.builder.emit(Op::ModrmResolve(modrm_byte));
    let addr = ctx.builder.set_new_local();
    ctx.builder.emit(Op::FpuGetSti(0));
    ctx.builder.emit(Op::CallFn1F64RetI32("fpu_convert_to_i32"));
    let value = ctx.builder.set_new_local();
    ctx.builder.emit(Op::SafeWrite32(addr, value));
    ctx.builder.free_local(addr);
    ctx.builder.free_local(value);
    proof {
        assert(ctx.builder.code@ =~= old(ctx).builder.code@ + (seq![Op::ModrmResolve(modrm_byte), Op::SetNewLocal(old(ctx).builder.next_local), Op::FpuGetSti(0), Op::CallFn1F64RetI32("fpu_convert_to_i32"), Op::SetNewLocal((old(ctx).builder.next_local + 1) as u32), Op::SafeWrite32(WasmLocal::Temp(old(ctx).builder.next_local), WasmLocal::Temp((old(ctx).builder.next_local + 1) as u32)), Op::FreeLocal(old(ctx).builder.next_local), Op::FreeLocal((old(ctx).builder.next_local + 1) as u32)]));
        assert(ctx.builder.frame().live =~= old(ctx).builder.frame().live);
        assert(ctx.builder.frame().live64 =~= old(ctx).builder.frame().live64);
        assert(ctx.builder.frame().ctrl =~= old(ctx).builder.frame().ctrl);
    }
}

/// `fcmovnbe st(r)` through the runtime helper.
pub fn instr_DB_2_reg_jit(ctx: &mut JitContext, r: u32)
    requires
        ready(old(ctx).builder, 8),
    ensures
        emits(*old(ctx), *final(ctx), seq![Op::Fn1Const("instr_DB_2_reg", r)], 0),
        restores_by(old(ctx).builder, final(ctx).builder, 0),
{
    ctx.builder.emit(Op::Fn1Const("instr_DB_2_reg", r));
    proof {
        assert(ctx.builder.code@ =~= old(ctx).builder.code@ + seq![Op::Fn1Const("instr_DB_2_reg", r)]);
        assert(ctx.builder.frame().live =~= old(ctx).builder.frame().live);
        assert(ctx.builder.frame().live64 =~= old(ctx).builder.frame().live64);
        assert(ctx.builder.frame().ctrl =~= old(ctx).builder.frame().ctrl);
    }
}

/// `fistp` to a 32-bit integer.
pub fn instr_DB_3_mem_jit(ctx: &mut JitContext, modrm_byte: u8)
    requires
        ready(old(ctx).builder, 8),
    ensures
        emits(*old(ctx), *final(ctx), seq![Op::ModrmResolve(modrm_byte), Op::SetNewLocal(old(ctx).builder.next_local), Op::FpuGetSti(0), Op::CallFn1F64RetI32("fpu_convert_to_i32"), Op::SetNewLocal((old(ctx).builder.next_local + 1) as u32), Op::SafeWrite32(WasmLocal::Temp(old(ctx).builder.next_local), WasmLocal::Temp((old(ctx).builder.next_local + 1) as u32)), Op::FreeLocal(old(ctx).builder.next_local), Op::FreeLocal((old(ctx).builder.next_local + 1) as u32), Op::Fn0Const("fpu_pop")], 2),
        restores_by(old(ctx).builder, final(ctx).builder, 0),
{
    ctx.builder.emit(Op::ModrmResolve(modrm_byte));
    let addr = ctx.builder.set_new_local();
    ctx.builder.emit(Op::FpuGetSti(0));
    ctx.builder.emit(Op::CallFn1F64RetI32("fpu_convert_to_i32"));
    let value = ctx.builder.set_new_local();
    ctx.builder.emit(Op::SafeWrite32(addr, value));
    ctx.builder.free_local(addr);
    ctx.builder.free_local(value);
    ctx.builder.emit(Op::Fn0Const("fpu_pop"));
    proof {
        assert(ctx.builder.code@ =~= old(ctx).builder.code@ + (seq![Op::ModrmResolve(modrm_byte), Op::SetNewLocal(old(ctx).builder.next_local), Op::FpuGetSti(0), Op::CallFn1F64RetI32("fpu_convert_to_i32"), Op::SetNewLocal((old(ctx).builder.next_local + 1) as u32), Op::SafeWrite32(WasmLocal::Temp(old(ctx).builder.next_local), WasmLocal::Temp((old(ctx).builder.next_local + 1) as u32)), Op::FreeLocal(old(ctx).builder.next_local), Op::FreeLocal((old(ctx).builder.next_local + 1) as u32), Op::Fn0Const("fpu_pop")]));
        assert(ctx.builder.frame().live =~= old(ctx).builder.frame().live);
        assert(ctx.builder.frame().live64 =~= old(ctx).builder.frame().live64);
        assert(ctx.builder.frame().ctrl =~= old(ctx).builder.frame().ctrl);
    }
}

/// `fcmovnu st(r)` through the runtime helper.
pub fn instr_DB_3_reg_jit(ctx: &mut JitContext, r: u32)
    requires
        ready(old(ctx).builder, 8),
    ensures
        emits(*old(ctx), *final(ctx), seq![Op::Fn1Const("instr_DB_3_reg", r)], 0),
        restores_by(old(ctx).builder, final(ctx).builder, 0),
{
    ctx.builder.emit(Op::Fn1Const("instr_DB_3_reg", r));
    proof {
        assert(ctx.builder.code@ =~= old(ctx).builder.code@ + seq![Op::Fn1Const("instr_DB_3_reg", r)]);
        assert(ctx.builder.frame().live =~= old(ctx).builder.frame().live);
        assert(ctx.builder.frame().live64 =~= old(ctx).builder.frame().live64);
        assert(ctx.builder.frame().ctrl =~= old(ctx).builder.frame().ctrl);
    }
}

/// `fld` of an 80-bit float; a page fault leaves the generated code.
pub fn instr_DB_5_mem_jit(ctx: &mut JitContext, modrm_byte: u8)
    requires
        ready(old(ctx).builder, 8),
    ensures
        emits(*old(ctx), *final(ctx), seq![Op::ModrmResolve(modrm_byte), Op::SetPreviousEipOffsetFromEipWithLowBits(old(ctx).start_of_current_instruction as i32 & 0xFFF), Op::MoveRegistersFromLocalsToMemory, Op::CallFn1("fpu_fldm80"), Op::MoveRegistersFromMemoryToLocals, Op::LoadU8(GlobalPointer::PageFault), Op::IfVoid, Op::DebugTrackJitExit(old(ctx).start_of_current_instruction), Op::MoveRegistersFromLocalsToMemory, Op::Return, Op::BlockEnd], 0),
        restores_by(old(ctx).builder, final(ctx).builder, 0),
{
    ctx.builder.emit(Op::ModrmResolve(modrm_byte));
    ctx.builder.emit(Op::SetPreviousEipOffsetFromEipWithLowBits(ctx.start_of_current_instruction as i32 & 0xFFF));
    ctx.builder.emit(Op::MoveRegistersFromLocalsToMemory);
    ctx.builder.emit(Op::CallFn1("fpu_fldm80"));
    ctx.builder.emit(Op::MoveRegistersFromMemoryToLocals);
    ctx.builder.emit(Op::LoadU8(GlobalPointer::PageFault));
    ctx.builder.if_void();
    ctx.builder.emit(Op::DebugTrackJitExit(ctx.start_of_current_instruction));
    ctx.builder.emit(Op::MoveRegistersFromLocalsToMemory);
    ctx.builder.diverge(Op::Return);
    ctx.builder.block_end();
    proof {
        assert(ctx.builder.code@ =~= old(ctx).builder.code@ + seq![Op::ModrmResolve(modrm_byte), Op::SetPreviousEipOffsetFromEipWithLowBits(old(ctx).start_of_current_instruction as i32 & 0xFFF), Op::MoveRegistersFromLocalsToMemory, Op::CallFn1("fpu_fldm80"), Op::MoveRegistersFromMemoryToLocals, Op::LoadU8(GlobalPointer::PageFault), Op::IfVoid, Op::DebugTrackJitExit(old(ctx).start_of_current_instruction), Op::MoveRegistersFromLocalsToMemory, Op::Return, Op::BlockEnd]);
        assert(ctx.builder.frame().live =~= old(ctx).builder.frame().live);
        assert(ctx.builder.frame().live64 =~= old(ctx).builder.frame().live64);
        assert(ctx.builder.frame().ctrl =~= old(ctx).builder.frame().ctrl);
    }
}

/// `fucomi st(r)`.
pub fn instr_DB_5_reg_jit(ctx: &mut JitContext, r: u32)
    requires
        ready(old(ctx).builder, 8),
    ensures
        emits(*old(ctx), *final(ctx), seq![Op::ConstI32(r as i32), Op::CallFn1("fpu_fucomi")], 0),
        restores_by(old(ctx).builder, final(ctx).builder, 0),
{
    ctx.builder.emit(Op::ConstI32(r as i32));
    ctx.builder.emit(Op::CallFn1("fpu_fucomi"));
    proof {
        assert(ctx.builder.code@ =~= old(ctx).builder.code@ + seq![Op::ConstI32(r as i32), Op::CallFn1("fpu_fucomi")]);
        assert(ctx.builder.frame().live =~= old(ctx).builder.frame().live);
        assert(ctx.builder.frame().live64 =~= old(ctx).builder.frame().live64);
        assert(ctx.builder.frame().ctrl =~= old(ctx).builder.frame().ctrl);
    }
}

/// The code that [`instr16_DD_0_mem_jit`] appends.
pub open spec fn instr16_DD_0_mem_jit_code(modrm_byte: u8) -> Seq<Op> {
    seq![Op::FpuLoadM64(modrm_byte), Op::CallFn1F64("fpu_push")]
}

/// `fld` of a 64-bit float.
pub fn instr16_DD_0_mem_jit(ctx: &mut JitContext, modrm_byte: u8)
    requires
        ready(old(ctx).builder, 8),
    ensures
        emits(*old(ctx), *final(ctx), instr16_DD_0_mem_jit_code(modrm_byte), 0),
        restores_by(old(ctx).builder, final(ctx).builder, 0),
{
    ctx.builder.emit(Op::FpuLoadM64(modrm_byte));
    ctx.builder.emit(Op::CallFn1F64("fpu_push"));
    proof {
        assert(ctx.builder.code@ =~= old(ctx).builder.code@ + instr16_DD_0_mem_jit_code(modrm_byte));
        assert(ctx.builder.frame().live =~= old(ctx).builder.frame().live);
        assert(ctx.builder.frame().live64 =~= old(ctx).builder.frame().live64);
        assert(ctx.builder.frame().ctrl =~= old(ctx).builder.frame().ctrl);
    }
}

/// The code that [`instr16_DD_0_reg_jit`] appends.
pub open spec fn instr16_DD_0_reg_jit_code(r: u32) -> Seq<Op> {
    seq![Op::Fn1Const("fpu_ffree", r)]
}

/// `ffree st(r)`.
pub fn instr16_DD_0_reg_jit(ctx: &mut JitContext, r: u32)
    requires
        ready(old(ctx).builder, 8),
    ensures
        emits(*old(ctx), *final(ctx), instr16_DD_0_reg_jit_code(r), 0),
        restores_by(old(ctx).builder, final(ctx).builder, 0),
{
    ctx.builder.emit(Op::Fn1Const("fpu_ffree", r));
    proof {
        assert(ctx.builder.code@ =~= old(ctx).builder.code@ + instr16_DD_0_reg_jit_code(r));
        assert(ctx.builder.frame().live =~= old(ctx).builder.frame().live);
        assert(ctx.builder.frame().live64 =~= old(ctx).builder.frame().live64);
        assert(ctx.builder.frame().ctrl =~= old(ctx).builder.frame().ctrl);
    }
}

/// `ffree st(r)`.
pub fn instr32_DD_0_reg_jit(ctx: &mut JitContext, r: u32)
    requires
        ready(old(ctx).builder, 8),
    ensures
        emits(*old(ctx), *final(ctx), instr16_DD_0_reg_jit_code(r), 0),
        restores_by(old(ctx).builder, final(ctx).builder, 0),
{
    instr16_DD_0_reg_jit(ctx, r);
    proof {
        assert(ctx.builder.code@ =~= old(ctx).builder.code@ + instr16_DD_0_reg_jit_code(r));
        assert(ctx.builder.frame().live =~= old(ctx).builder.frame().live);
        assert(ctx.builder.frame().live64 =~= old(ctx).builder.frame().live64);
        assert(ctx.builder.frame().ctrl =~= old(ctx).builder.frame().ctrl);
    }
}

/// `fld` of a 64-bit float.
pub fn instr32_DD_0_mem_jit(ctx: &mut JitContext, r: u8)
    requires
        ready(old(ctx).builder, 8),
    ensures
        emits(*old(ctx), *final(ctx), instr16_DD_0_mem_jit_code(r), 0),
        restores_by(old(ctx).builder, final(ctx).builder, 0),
{
    instr16_DD_0_mem_jit(ctx, r);
    proof {
        assert(ctx.builder.code@ =~= old(ctx).builder.code@ + instr16_DD_0_mem_jit_code(r));
        assert(ctx.builder.frame().live =~= old(ctx).builder.frame().live);
        assert(ctx.builder.frame().live64 =~= old(ctx).builder.frame().live64);
        assert(ctx.builder.frame().ctrl =~= old(ctx).builder.frame().ctrl);
    }
}

/// The code that [`instr16_DD_2_mem_jit`] appends.
pub open spec fn instr16_DD_2_mem_jit_code(modrm_byte: u8, n: u32) -> Seq<Op> {
    seq![Op::ModrmResolve(modrm_byte), Op::SetNewLocal(n), Op::FpuGetSti(0), Op::ReinterpretF64AsI64, Op::SetNewLocalI64((n + 1) as u32), Op::SafeWrite64(WasmLocal::Temp(n), (n + 1) as u32), Op::FreeLocal(n), Op::FreeLocalI64((n + 1) as u32)]
}

/// `fst` to a 64-bit float.
pub fn instr16_DD_2_mem_jit(ctx: &mut JitContext, modrm_byte: u8)
    requires
        ready(old(ctx).builder, 8),
    ensures
        emits(*old(ctx), *final(ctx), instr16_DD_2_mem_jit_code(modrm_byte, old(ctx).builder.next_local), 2),
        restores_by(old(ctx).builder, final(ctx).builder, 0),
{
    ctx.builder.emit(Op::ModrmResolve(modrm_byte));
    let addr = ctx.builder.set_new_local();
    ctx.builder.emit(Op::FpuGetSti(0));
    ctx.builder.emit(Op::ReinterpretF64AsI64);
    let value = ctx.builder.set_new_local_i64();
    ctx.builder.emit(Op::SafeWrite64(addr, value.index));
    ctx.builder.free_local(addr);
    ctx.builder.free_local_i64(value);
    proof {
        assert(ctx.builder.code@ =~= old(ctx).builder.code@ + instr16_DD_2_mem_jit_code(modrm_byte, old(ctx).builder.next_local));
        assert(ctx.builder.frame().live =~= old(ctx).builder.frame().live);
        assert(ctx.builder.frame().live64 =~= old(ctx).builder.frame().live64);
        assert(ctx.builder.frame().ctrl =~= old(ctx).builder.frame().ctrl);
    }
}

/// The code that [`instr16_DD_2_reg_jit`] appends.
pub open spec fn instr16_DD_2_reg_jit_code(r: u32) -> Seq<Op> {
    seq![Op::Fn1Const("fpu_fst", r)]
}

/// `fst st(r)`.
pub fn instr16_DD_2_reg_jit(ctx: &mut JitContext, r: u32)
    requires
        ready(old(ctx).builder, 8),
    ensures
        emits(*old(ctx), *final(ctx), instr16_DD_2_reg_jit_code(r), 0),
        restores_by(old(ctx).builder, final(ctx).builder, 0),
{
    ctx.builder.emit(Op::Fn1Const("fpu_fst", r));
    proof {
        assert(ctx.builder.code@ =~= old(ctx).builder.code@ + instr16_DD_2_reg_jit_code(r));
        assert(ctx.builder.frame().live =~= old(ctx).builder.frame().live);
        assert(ctx.builder.frame().live64 =~= old(ctx).builder.frame().live64);
        assert(ctx.builder.frame().ctrl =~= old(ctx).builder.frame().ctrl);
    }
}

/// `fst st(r)`.
pub fn instr32_DD_2_reg_jit(ctx: &mut JitContext, r: u32)
    requires
        ready(old(ctx).builder, 8),
    ensures
        emits(*old(ctx), *final(ctx), instr16_DD_2_reg_jit_code(r), 0),
        restores_by(old(ctx).builder, final(ctx).builder, 0),
{
    instr16_DD_2_reg_jit(ctx, r);
    proof {
        assert(ctx.builder.code@ =~= old(ctx).builder.code@ + instr16_DD_2_reg_jit_code(r));
        assert(ctx.builder.frame().live =~= old(ctx).builder.frame().live);
        assert(ctx.builder.frame().live64 =~= old(ctx).builder.frame().live64);
        assert(ctx.builder.frame().ctrl =~= old(ctx).builder.frame().ctrl);
    }
}

/// `fst` to a 64-bit float.
pub fn instr32_DD_2_mem_jit(ctx: &mut JitContext, r: u8)
    requires
        ready(old(ctx).builder, 8),
    ensures
        emits(*old(ctx), *final(ctx), instr16_DD_2_mem_jit_code(r, old(ctx).builder.next_local), 2),
        restores_by(old(ctx).builder, final(ctx).builder, 0),
{
    instr16_DD_2_mem_jit(ctx, r);
    proof {
        assert(ctx.builder.code@ =~= old(ctx).builder.code@ + instr16_DD_2_mem_jit_code(r, old(ctx).builder.next_local));
        assert(ctx.builder.frame().live =~= old(ctx).builder.frame().live);
        assert(ctx.builder.frame().live64 =~= old(ctx).builder.frame().live64);
        assert(ctx.builder.frame().ctrl =~= old(ctx).builder.frame().ctrl);
    }
}

/// The code that [`instr16_DD_3_mem_jit`] appends.
pub open spec fn instr16_DD_3_mem_jit_code(modrm_byte: u8, n: u32) -> Seq<Op> {
    seq![Op::ModrmResolve(modrm_byte), Op::SetNewLocal(n), Op::FpuGetSti(0), Op::ReinterpretF64AsI64, Op::SetNewLocalI64((n + 1) as u32), Op::SafeWrite64(WasmLocal::Temp(n), (n + 1) as u32), Op::Fn0Const("fpu_pop"), Op::FreeLocal(n), Op::FreeLocalI64((n + 1) as u32)]
}

/// `fstp` to a 64-bit float.
pub fn instr16_DD_3_mem_jit(ctx: &mut JitContext, modrm_byte: u8)
    requires
        ready(old(ctx).builder, 8),
    ensures
        emits(*old(ctx), *final(ctx), instr16_DD_3_mem_jit_code(modrm_byte, old(ctx).builder.next_local), 2),
        restores_by(old(ctx).builder, final(ctx).builder, 0),
{
    ctx.builder.emit(Op::ModrmResolve(modrm_byte));
    let addr = ctx.builder.set_new_local();
    ctx.builder.emit(Op::FpuGetSti(0));
    ctx.builder.emit(Op::ReinterpretF64AsI64);
    let value = ctx.builder.set_new_local_i64();
    ctx.builder.emit(Op::SafeWrite64(addr, value.index));
    ctx.builder.emit(Op::Fn0Const("fpu_pop"));
    ctx.builder.free_local(addr);
    ctx.builder.free_local_i64(value);
    proof {
        assert(ctx.builder.code@ =~= old(ctx).builder.code@ + instr16_DD_3_mem_jit_code(modrm_byte, old(ctx).builder.next_local));
        assert(ctx.builder.frame().live =~= old(ctx).builder.frame().live);
        assert(ctx.builder.frame().live64 =~= old(ctx).builder.frame().live64);
        assert(ctx.builder.frame().ctrl =~= old(ctx).builder.frame().ctrl);
    }
}

/// The code that [`instr16_DD_3_reg_jit`] appends.
pub open spec fn instr16_DD_3_reg_jit_code(r: u32) -> Seq<Op> {
    seq![Op::Fn1Const("fpu_fstp", r)]
}

/// `fstp st(r)`.
pub fn instr16_DD_3_reg_jit(ctx: &mut JitContext, r: u32)
    requires
        ready(old(ctx).builder, 8),
    ensures
        emits(*old(ctx), *final(ctx), instr16_DD_3_reg_jit_code(r), 0),
        restores_by(old(ctx).builder, final(ctx).builder, 0),
{
    ctx.builder.emit(Op::Fn1Const("fpu_fstp", r));
    proof {
        assert(ctx.builder.code@ =~= old(ctx).builder.code@ + instr16_DD_3_reg_jit_code(r));
        assert(ctx.builder.frame().live =~= old(ctx).builder.frame().live);
        assert(ctx.builder.frame().live64 =~= old(ctx).builder.frame().live64);
        assert(ctx.builder.frame().ctrl =~= old(ctx).builder.frame().ctrl);
    }
}

/// `fstp st(r)`.
pub fn instr32_DD_3_reg_jit(ctx: &mut JitContext, r: u32)
    requires
        ready(old(ctx).builder, 8),
    ensures
        emits(*old(ctx), *final(ctx), instr16_DD_3_reg_jit_code(r), 0),
        restores_by(old(ctx).builder, final(ctx).builder, 0),
{
    instr16_DD_3_reg_jit(ctx, r);
    proof {
        assert(ctx.builder.code@ =~= old(ctx).builder.code@ + instr16_DD_3_reg_jit_code(r));
        assert(ctx.builder.frame().live =~= old(ctx).builder.frame().live);
        assert(ctx.builder.frame().live64 =~= old(ctx).builder.frame().live64);
        assert(ctx.builder.frame().ctrl =~= old(ctx).builder.frame().ctrl);
    }
}

/// `fstp` to a 64-bit float.
pub fn instr32_DD_3_mem_jit(ctx: &mut JitContext, r: u8)
    requires
        ready(old(ctx).builder, 8),
    ensures
        emits(*old(ctx), *final(ctx), instr16_DD_3_mem_jit_code(r, old(ctx).builder.next_local), 2),
        restores_by(old(ctx).builder, final(ctx).builder, 0),
{
    instr16_DD_3_mem_jit(ctx, r);
    proof {
        assert(ctx.builder.code@ =~= old(ctx).builder.code@ + instr16_DD_3_mem_jit_code(r, old(ctx).builder.next_local));
        assert(ctx.builder.frame().live =~= old(ctx).builder.frame().live);
        assert(ctx.builder.frame().live64 =~= old(ctx).builder.frame().live64);
        assert(ctx.builder.frame().ctrl =~= old(ctx).builder.frame().ctrl);
    }
}

/// The code that [`instr16_DD_5_mem_jit`] appends.
pub open spec fn instr16_DD_5_mem_jit_code(modrm_byte: u8) -> Seq<Op> {
    seq![Op::ModrmResolve(modrm_byte), Op::TriggerUd]
}

/// Raises the invalid-opcode exception.
pub fn instr16_DD_5_mem_jit(ctx: &mut JitContext, modrm_byte: u8)
    requires
        ready(old(ctx).builder, 8),
    ensures
        emits(*old(ctx), *final(ctx), instr16_DD_5_mem_jit_code(modrm_byte), 0),
        balanced_by(old(ctx).builder, final(ctx).builder, 0),
{
    ctx.builder.emit(Op::ModrmResolve(modrm_byte));
    ctx.builder.diverge(Op::TriggerUd);
    proof {
        assert(ctx.builder.code@ =~= old(ctx).builder.code@ + instr16_DD_5_mem_jit_code(modrm_byte));
        assert(ctx.builder.frame().live =~= old(ctx).builder.frame().live);
        assert(ctx.builder.frame().live64 =~= old(ctx).builder.frame().live64);
        assert(ctx.builder.frame().ctrl =~= old(ctx).builder.frame().ctrl);
    }
}

/// The code that [`instr16_DD_5_reg_jit`] appends.
pub open spec fn instr16_DD_5_reg_jit_code(r: u32) -> Seq<Op> {
    seq![Op::ConstI32(r as i32), Op::CallFn1("fpu_fucomp")]
}

/// `fucomp st(r)`.
pub fn instr16_DD_5_reg_jit(ctx: &mut JitContext, r: u32)
    requires
        ready(old(ctx).builder, 8),
    ensures
        emits(*old(ctx), *final(ctx), instr16_DD_5_reg_jit_code(r), 0),
        restores_by(old(ctx).builder, final(ctx).builder, 0),
{
    ctx.builder.emit(Op::ConstI32(r as i32));
    ctx.builder.emit(Op::CallFn1("fpu_fucomp"));
    proof {
        assert(ctx.builder.code@ =~= old(ctx).builder.code@ + instr16_DD_5_reg_jit_code(r));
        assert(ctx.builder.frame().live =~= old(ctx).builder.frame().live);
        assert(ctx.builder.frame().live64 =~= old(ctx).builder.frame().live64);
        assert(ctx.builder.frame().ctrl =~= old(ctx).builder.frame().ctrl);
    }
}

/// `fucomp st(r)`.
pub fn instr32_DD_5_reg_jit(ctx: &mut JitContext, r: u32)
    requires
        ready(old(ctx).builder, 8),
    ensures
        emits(*old(ctx), *final(ctx), instr16_DD_5_reg_jit_code(r), 0),
        restores_by(old(ctx).builder, final(ctx).builder, 0),
{
    instr16_DD_5_reg_jit(ctx, r);
    proof {
        assert(ctx.builder.code@ =~= old(ctx).builder.code@ + instr16_DD_5_reg_jit_code(r));
        assert(ctx.builder.frame().live =~= old(ctx).builder.frame().live);
        assert(ctx.builder.frame().live64 =~= old(ctx).builder.frame().live64);
        assert(ctx.builder.frame().ctrl =~= old(ctx).builder.frame().ctrl);
    }
}

/// Raises the invalid-opcode exception.
pub fn instr32_DD_5_mem_jit(ctx: &mut JitContext, r: u8)
    requires
        ready(old(ctx).builder, 8),
    ensures
        emits(*old(ctx), *final(ctx), instr16_DD_5_mem_jit_code(r), 0),
        balanced_by(old(ctx).builder, final(ctx).builder, 0),
{
    instr16_DD_5_mem_jit(ctx, r);
    proof {
        assert(ctx.builder.code@ =~= old(ctx).builder.code@ + instr16_DD_5_mem_jit_code(r));
        assert(ctx.builder.frame().live =~= old(ctx).builder.frame().live);
        assert(ctx.builder.frame().live64 =~= old(ctx).builder.frame().live64);
        assert(ctx.builder.frame().ctrl =~= old(ctx).builder.frame().ctrl);
    }
}

/// `ficom` of a 16-bit integer.
pub fn instr_DE_2_mem_jit(ctx: &mut JitContext, modrm_byte: u8)
    requires
        ready(old(ctx).builder, 8),
    ensures
        emits(*old(ctx), *final(ctx), seq![Op::ModrmResolveSafeRead16(modrm_byte), Op::SignExtendI16, Op::ConvertI32ToF64, Op::CallFn1F64("fpu_fcom")], 0),
        restores_by(old(ctx).builder, final(ctx).builder, 0),
{
    ctx.builder.emit(Op::ModrmResolveSafeRead16(modrm_byte));
    ctx.builder.emit(Op::SignExtendI16);
    ctx.builder.emit(Op::ConvertI32ToF64);
    ctx.builder.emit(Op::CallFn1F64("fpu_fcom"));
    proof {
        assert(ctx.builder.code@ =~= old(ctx).builder.code@ + seq![Op::ModrmResolveSafeRead16(modrm_byte), Op::SignExtendI16, Op::ConvertI32ToF64, Op::CallFn1F64("fpu_fcom")]);
        assert(ctx.builder.frame().live =~= old(ctx).builder.frame().live);
        assert(ctx.builder.frame().live64 =~= old(ctx).builder.frame().live64);
        assert(ctx.builder.frame().ctrl =~= old(ctx).builder.frame().ctrl);
    }
}

/// `fcom st(r)`, then pops the FPU stack.
pub fn instr_DE_2_reg_jit(ctx: &mut JitContext, r: u32)
    requires
        ready(old(ctx).builder, 8),
    ensures
        emits(*old(ctx), *final(ctx), seq![Op::FpuGetSti(r), Op::CallFn1F64("fpu_fcom"), Op::Fn0Const("fpu_pop")], 0),
        restores_by(old(ctx).builder, final(ctx).builder, 0),
{
    ctx.builder.emit(Op::FpuGetSti(r));
    ctx.builder.emit(Op::CallFn1F64("fpu_fcom"));
    ctx.builder.emit(Op::Fn0Const("fpu_pop"));
    proof {
        assert(ctx.builder.code@ =~= old(ctx).builder.code@ + seq![Op::FpuGetSti(r), Op::CallFn1F64("fpu_fcom"), Op::Fn0Const("fpu_pop")]);
        assert(ctx.builder.frame().live =~= old(ctx).builder.frame().live);
        assert(ctx.builder.frame().live64 =~= old(ctx).builder.frame().live64);
        assert(ctx.builder.frame().ctrl =~= old(ctx).builder.frame().ctrl);
    }
}

/// `ficomp` of a 16-bit integer.
pub fn instr_DE_3_mem_jit(ctx: &mut JitContext, modrm_byte: u8)
    requires
        ready(old(ctx).builder, 8),
    ensures
        emits(*old(ctx), *final(ctx), seq![Op::ModrmResolveSafeRead16(modrm_byte), Op::SignExtendI16, Op::ConvertI32ToF64, Op::CallFn1F64("fpu_fcomp")], 0),
        restores_by(old(ctx).builder, final(ctx).builder, 0),
{
    ctx.builder.emit(Op::ModrmResolveSafeRead16(modrm_byte));
    ctx.builder.emit(Op::SignExtendI16);
    ctx.builder.emit(Op::ConvertI32ToF64);
    ctx.builder.emit(Op::CallFn1F64("fpu_fcomp"));
    proof {
        assert(ctx.builder.code@ =~= old(ctx).builder.code@ + seq![Op::ModrmResolveSafeRead16(modrm_byte), Op::SignExtendI16, Op::ConvertI32ToF64, Op::CallFn1F64("fpu_fcomp")]);
        assert(ctx.builder.frame().live =~= old(ctx).builder.frame().live);
        assert(ctx.builder.frame().live64 =~= old(ctx).builder.frame().live64);
        assert(ctx.builder.frame().ctrl =~= old(ctx).builder.frame().ctrl);
    }
}

/// `fcompp` when `r` is one; otherwise raises the invalid-opcode exception.
pub fn instr_DE_3_reg_jit(ctx: &mut JitContext, r: u32)
    requires
        ready(old(ctx).builder, 8),
    ensures
        emits(*old(ctx), *final(ctx), (if r == 1 { seq![Op::FpuGetSti(r), Op::CallFn1F64("fpu_fcomp"), Op::Fn0Const("fpu_pop")] } else { seq![Op::TriggerUd] }), 0),
        balanced_by(old(ctx).builder, final(ctx).builder, 0),
{
    if r == 1 {
        ctx.builder.emit(Op::FpuGetSti(r));
        ctx.builder.emit(Op::CallFn1F64("fpu_fcomp"));
        ctx.builder.emit(Op::Fn0Const("fpu_pop"));
        proof { assert(ctx.builder.code@ =~= old(ctx).builder.code@ + seq![Op::FpuGetSti(r), Op::CallFn1F64("fpu_fcomp"), Op::Fn0Const("fpu_pop")]); }
    } else {
        ctx.builder.diverge(Op::TriggerUd);
        proof { assert(ctx.builder.code@ =~= old(ctx).builder.code@ + seq![Op::TriggerUd]); }
    }
    proof {
        assert(ctx.builder.code@ =~= old(ctx).builder.code@ + (if r == 1 { seq![Op::FpuGetSti(r), Op::CallFn1F64("fpu_fcomp"), Op::Fn0Const("fpu_pop")] } else { seq![Op::TriggerUd] }));
        assert(ctx.builder.frame().live =~= old(ctx).builder.frame().live);
        assert(ctx.builder.frame().live64 =~= old(ctx).builder.frame().live64);
        assert(ctx.builder.frame().ctrl =~= old(ctx).builder.frame().ctrl);
    }
}

/// `fist` to a 16-bit integer.
pub fn instr_DF_2_mem_jit(ctx: &mut JitContext, modrm_byte: u8)
    requires
        ready(old(ctx).builder, 8),
    ensures
        emits(*old(ctx), *final(ctx), seq![Op::ModrmResolve(modrm_byte), Op::SetNewLocal(old(ctx).builder.next_local), Op::FpuGetSti(0), Op::CallFn1F64RetI32("fpu_convert_to_i16"), Op::SetNewLocal((old(ctx).builder.next_local + 1) as u32), Op::SafeWrite16(WasmLocal::Temp(old(ctx).builder.next_local), WasmLocal::Temp((old(ctx).builder.next_local + 1) as u32)), Op::FreeLocal(old(ctx).builder.next_local), Op::FreeLocal((old(ctx).builder.next_local + 1) as u32)], 2),
        restores_by(old(ctx).builder, final(ctx).builder, 0),
{
    ctx.builder.emit(Op::ModrmResolve(modrm_byte));
    let addr = ctx.builder.set_new_local();
    ctx.builder.emit(Op::FpuGetSti(0));
    ctx.builder.emit(Op::CallFn1F64RetI32("fpu_convert_to_i16"));
    let value = ctx.builder.set_new_local();
    ctx.builder.emit(Op::SafeWrite16(addr, value));
    ctx.builder.free_local(addr);
    ctx.builder.free_local(value);
    proof {
        assert(ctx.builder.code@ =~= old(ctx).builder.code@ + (seq![Op::ModrmResolve(modrm_byte), Op::SetNewLocal(old(ctx).builder.next_local), Op::FpuGetSti(0), Op::CallFn1F64RetI32("fpu_convert_to_i16"), Op::SetNewLocal((old(ctx).builder.next_local + 1) as u32), Op::SafeWrite16(WasmLocal::Temp(old(ctx).builder.next_local), WasmLocal::Temp((old(ctx).builder.next_local + 1) as u32)), Op::FreeLocal(old(ctx).builder.next_local), Op::FreeLocal((old(ctx).builder.next_local + 1) as u32)]));
        assert(ctx.builder.frame().live =~= old(ctx).builder.frame().live);
        assert(ctx.builder.frame().live64 =~= old(ctx).builder.frame().live64);
        assert(ctx.builder.frame().ctrl =~= old(ctx).builder.frame().ctrl);
    }
}

/// `fstp st(r)`.
pub fn instr_DF_2_reg_jit(ctx: &mut JitContext, r: u32)
    requires
        ready(old(ctx).builder, 8),
    ensures
        emits(*old(ctx), *final(ctx), seq![Op::Fn1Const("fpu_fstp", r)], 0),
        restores_by(old(ctx).builder, final(ctx).builder, 0),
{
    ctx.builder.emit(Op::Fn1Const("fpu_fstp", r));
    proof {
        assert(ctx.builder.code@ =~= old(ctx).builder.code@ + seq![Op::Fn1Const("fpu_fstp", r)]);
        assert(ctx.builder.frame().live =~= old(ctx).builder.frame().live);
        assert(ctx.builder.frame().live64 =~= old(ctx).builder.frame().live64);
        assert(ctx.builder.frame().ctrl =~= old(ctx).builder.frame().ctrl);
    }
}

/// `fistp` to a 16-bit integer.
pub fn instr_DF_3_mem_jit(ctx: &mut JitContext, modrm_byte: u8)
    requires
        ready(old(ctx).builder, 8),
    ensures
        emits(*old(ctx), *final(ctx), seq![Op::ModrmResolve(modrm_byte), Op::SetNewLocal(old(ctx).builder.next_local), Op::FpuGetSti(0), Op::CallFn1F64RetI32("fpu_convert_to_i16"), Op::SetNewLocal((old(ctx).builder.next_local + 1) as u32), Op::SafeWrite16(WasmLocal::Temp(old(ctx).builder.next_local), WasmLocal::Temp((old(ctx).builder.next_local + 1) as u32)), Op::FreeLocal(old(ctx).builder.next_local), Op::FreeLocal((old(ctx).builder.next_local + 1) as u32), Op::Fn0Const("fpu_pop")], 2),
        restores_by(old(ctx).builder, final(ctx).builder, 0),
{
    ctx.builder.emit(Op::ModrmResolve(modrm_byte));
    let addr = ctx.builder.set_new_local();
    ctx.builder.emit(Op::FpuGetSti(0));
    ctx.builder.emit(Op::CallFn1F64RetI32("fpu_convert_to_i16"));
    let value = ctx.builder.set_new_local();
    ctx.builder.emit(Op::SafeWrite16(addr, value));
    ctx.builder.free_local(addr);
    ctx.builder.free_local(value);
    ctx.builder.emit(Op::Fn0Const("fpu_pop"));
    proof {
        assert(ctx.builder.code@ =~= old(ctx).builder.code@ + (seq![Op::ModrmResolve(modrm_byte), Op::SetNewLocal(old(ctx).builder.next_local), Op::FpuGetSti(0), Op::CallFn1F64RetI32("fpu_convert_to_i16"), Op::SetNewLocal((old(ctx).builder.next_local + 1) as u32), Op::SafeWrite16(WasmLocal::Temp(old(ctx).builder.next_local), WasmLocal::Temp((old(ctx).builder.next_local + 1) as u32)), Op::FreeLocal(old(ctx).builder.next_local), Op::FreeLocal((old(ctx).builder.next_local + 1) as u32), Op::Fn0Const("fpu_pop")]));
        assert(ctx.builder.frame().live =~= old(ctx).builder.frame().live);
        assert(ctx.builder.frame().live64 =~= old(ctx).builder.frame().live64);
        assert(ctx.builder.frame().ctrl =~= old(ctx).builder.frame().ctrl);
    }
}

/// `fstp st(r)`.
pub fn instr_DF_3_reg_jit(ctx: &mut JitContext, r: u32)
    requires
        ready(old(ctx).builder, 8),
    ensures
        emits(*old(ctx), *final(ctx), seq![Op::Fn1Const("fpu_fstp", r)], 0),
        restores_by(old(ctx).builder, final(ctx).builder, 0),
{
    ctx.builder.emit(Op::Fn1Const("fpu_fstp", r));
    proof {
        assert(ctx.builder.code@ =~= old(ctx).builder.code@ + seq![Op::Fn1Const("fpu_fstp", r)]);
        assert(ctx.builder.frame().live =~= old(ctx).builder.frame().live);
        assert(ctx.builder.frame().live64 =~= old(ctx).builder.frame().live64);
        assert(ctx.builder.frame().ctrl =~= old(ctx).builder.frame().ctrl);
    }
}

/// `fbld` is not supported: raises the invalid-opcode exception.
pub fn instr_DF_4_mem_jit(ctx: &mut JitContext, modrm_byte: u8)
    requires
        ready(old(ctx).builder, 8),
    ensures
        emits(*old(ctx), *final(ctx), seq![Op::ModrmResolve(modrm_byte), Op::TriggerUd], 0),
        balanced_by(old(ctx).builder, final(ctx).builder, 0),
{
    ctx.builder.emit(Op::ModrmResolve(modrm_byte));
    ctx.builder.diverge(Op::TriggerUd);
    proof {
        assert(ctx.builder.code@ =~= old(ctx).builder.code@ + seq![Op::ModrmResolve(modrm_byte), Op::TriggerUd]);
        assert(ctx.builder.frame().live =~= old(ctx).builder.frame().live);
        assert(ctx.builder.frame().live64 =~= old(ctx).builder.frame().live64);
        assert(ctx.builder.frame().ctrl =~= old(ctx).builder.frame().ctrl);
    }
}

/// `fnstsw ax` when `r` is zero; otherwise raises the invalid-opcode exception.
pub fn instr_DF_4_reg_jit(ctx: &mut JitContext, r: u32)
    requires
        ready(old(ctx).builder, 8),
    ensures
        emits(*old(ctx), *final(ctx), (if r == 0 { seq![Op::MoveRegistersFromLocalsToMemory, Op::Fn0Const("fpu_fnstsw_reg"), Op::MoveRegistersFromMemoryToLocals] } else { seq![Op::TriggerUd] }), 0),
        balanced_by(old(ctx).builder, final(ctx).builder, 0),
{
    if r == 0 {
        ctx.builder.emit(Op::MoveRegistersFromLocalsToMemory);
        ctx.builder.emit(Op::Fn0Const("fpu_fnstsw_reg"));
        ctx.builder.emit(Op::MoveRegistersFromMemoryToLocals);
        proof { assert(ctx.builder.code@ =~= old(ctx).builder.code@ + seq![Op::MoveRegistersFromLocalsToMemory, Op::Fn0Const("fpu_fnstsw_reg"), Op::MoveRegistersFromMemoryToLocals]); }
    } else {
        ctx.builder.diverge(Op::TriggerUd);
        proof { assert(ctx.builder.code@ =~= old(ctx).builder.code@ + seq![Op::TriggerUd]); }
    }
    proof {
        assert(ctx.builder.code@ =~= old(ctx).builder.code@ + (if r == 0 { seq![Op::MoveRegistersFromLocalsToMemory, Op::Fn0Const("fpu_fnstsw_reg"), Op::MoveRegistersFromMemoryToLocals] } else { seq![Op::TriggerUd] }));
        assert(ctx.builder.frame().live =~= old(ctx).builder.frame().live);
        assert(ctx.builder.frame().live64 =~= old(ctx).builder.frame().live64);
        assert(ctx.builder.frame().ctrl =~= old(ctx).builder.frame().ctrl);
    }
}

/// `fild` of a 64-bit integer.
pub fn instr_DF_5_mem_jit(ctx: &mut JitContext, modrm_byte: u8)
    requires
        ready(old(ctx).builder, 8),
    ensures
        emits(*old(ctx), *final(ctx), seq![Op::ModrmResolveSafeRead64(modrm_byte), Op::ConvertI64ToF64, Op::CallFn1F64("fpu_push")], 0),
        restores_by(old(ctx).builder, final(ctx).builder, 0),
{
    ctx.builder.emit(Op::ModrmResolveSafeRead64(modrm_byte));
    ctx.builder.emit(Op::ConvertI64ToF64);
    ctx.builder.emit(Op::CallFn1F64("fpu_push"));
    proof {
        assert(ctx.builder.code@ =~= old(ctx).builder.code@ + seq![Op::ModrmResolveSafeRead64(modrm_byte), Op::ConvertI64ToF64, Op::CallFn1F64("fpu_push")]);
        assert(ctx.builder.frame().live =~= old(ctx).builder.frame().live);
        assert(ctx.builder.frame().live64 =~= old(ctx).builder.frame().live64);
        assert(ctx.builder.frame().ctrl =~= old(ctx).builder.frame().ctrl);
    }
}

/// `fucomip st(r)`.
pub fn instr_DF_5_reg_jit(ctx: &mut JitContext, r: u32)
    requires
        ready(old(ctx).builder, 8),
    ensures
        emits(*old(ctx), *final(ctx), seq![Op::Fn1Const("fpu_fucomip", r)], 0),
        restores_by(old(ctx).builder, final(ctx).builder, 0),
{
    ctx.builder.emit(Op::Fn1Const("fpu_fucomip", r));
    proof {
        assert(ctx.builder.code@ =~= old(ctx).builder.code@ + seq![Op::Fn1Const("fpu_fucomip", r)]);
        assert(ctx.builder.frame().live =~= old(ctx).builder.frame().live);
        assert(ctx.builder.frame().live64 =~= old(ctx).builder.frame().live64);
        assert(ctx.builder.frame().ctrl =~= old(ctx).builder.frame().ctrl);
    }
}

/// Raises the invalid-opcode exception.
pub fn instr_DF_7_reg_jit(ctx: &mut JitContext, _r: u32)
    requires
        ready(old(ctx).builder, 8),
    ensures
        emits(*old(ctx), *final(ctx), seq![Op::TriggerUd], 0),
        balanced_by(old(ctx).builder, final(ctx).builder, 0),
{
    ctx.builder.diverge(Op::TriggerUd);
    proof {
        assert(ctx.builder.code@ =~= old(ctx).builder.code@ + seq![Op::TriggerUd]);
        assert(ctx.builder.frame().live =~= old(ctx).builder.frame().live);
        assert(ctx.builder.frame().live64 =~= old(ctx).builder.frame().live64);
        assert(ctx.builder.frame().ctrl =~= old(ctx).builder.frame().ctrl);
    }
}

/// `fistp` to a 64-bit integer.
pub fn instr_DF_7_mem_jit(ctx: &mut JitContext, modrm_byte: u8)
    requires
        ready(old(ctx).builder, 8),
    ensures
        emits(*old(ctx), *final(ctx), seq![Op::ModrmResolve(modrm_byte), Op::SetNewLocal(old(ctx).builder.next_local), Op::FpuGetSti(0), Op::CallFn1F64RetI64("fpu_convert_to_i64"), Op::SetNewLocalI64((old(ctx).builder.next_local + 1) as u32), Op::SafeWrite64(WasmLocal::Temp(old(ctx).builder.next_local), (old(ctx).builder.next_local + 1) as u32), Op::FreeLocal(old(ctx).builder.next_local), Op::FreeLocalI64((old(ctx).builder.next_local + 1) as u32), Op::Fn0Const("fpu_pop")], 2),
        restores_by(old(ctx).builder, final(ctx).builder, 0),
{
    ctx.builder.emit(Op::ModrmResolve(modrm_byte));
    let addr = ctx.builder.set_new_local();
    ctx.builder.emit(Op::FpuGetSti(0));
    ctx.builder.emit(Op::CallFn1F64RetI64("fpu_convert_to_i64"));
    let value = ctx.builder.set_new_local_i64();
    ctx.builder.emit(Op::SafeWrite64(addr, value.index));
    ctx.builder.free_local(addr);
    ctx.builder.free_local_i64(value);
    ctx.builder.emit(Op::Fn0Const("fpu_pop"));
    proof {
        assert(ctx.builder.code@ =~= old(ctx).builder.code@ + (seq![Op::ModrmResolve(modrm_byte), Op::SetNewLocal(old(ctx).builder.next_local), Op::FpuGetSti(0), Op::CallFn1F64RetI64("fpu_convert_to_i64"), Op::SetNewLocalI64((old(ctx).builder.next_local + 1) as u32), Op::SafeWrite64(WasmLocal::Temp(old(ctx).builder.next_local), (old(ctx).builder.next_local + 1) as u32), Op::FreeLocal(old(ctx).builder.next_local), Op::FreeLocalI64((old(ctx).builder.next_local + 1) as u32), Op::Fn0Const("fpu_pop")]));
        assert(ctx.builder.frame().live =~= old(ctx).builder.frame().live);
        assert(ctx.builder.frame().live64 =~= old(ctx).builder.frame().live64);
        assert(ctx.builder.frame().ctrl =~= old(ctx).builder.frame().ctrl);
    }
}

} // verus!
