//! Opcodes `C0` to `FF` outside the floating-point unit: shifts and rotations, returns,
//! moves of immediates, calls and jumps, the unary group and the flag instructions.

use vstd::prelude::*;
use crate::op::{Op, WasmLocal, GlobalPointer, ImmKind};
use crate::consts::{FLAG_DIRECTION, NOT_DIRECTION, EBX, BX, AL, DS};
use crate::builder::{JitContext, ready, emits, restores_by};
use crate::alu::{Unary, gen_mul32, gen_mul32_code};
use crate::templates::{read8_imm_mem, read8_imm_mem_code, read8_imm_reg, read8_imm_reg_code, read16_imm_mem, read16_imm_mem_code, read16_imm_reg, read16_imm_reg_code, read32_imm_mem, read32_imm_mem_code, read32_imm_reg, read32_imm_reg_code, rmw8_one_mem, rmw8_one_mem_code, rmw8_one_reg, rmw8_one_reg_code, rmw8_cl_mem, rmw8_cl_mem_code, rmw8_cl_reg, rmw8_cl_reg_code, rmw8_shift_mem, rmw8_shift_mem_code, rmw8_shift_reg, rmw8_shift_reg_code, rmw16_one_mem, rmw16_one_mem_code, rmw16_one_reg, rmw16_one_reg_code, rmw16_cl_mem, rmw16_cl_mem_code, rmw16_cl_reg, rmw16_cl_reg_code, rmw16_shift_mem, rmw16_shift_mem_code, rmw16_shift_reg, rmw16_shift_reg_code, rmw16_unary_mem, rmw16_unary_mem_code, rmw16_unary_reg, rmw16_unary_reg_code, rmw32_one_mem, rmw32_one_mem_code, rmw32_one_reg, rmw32_one_reg_code, rmw32_cl_mem, rmw32_cl_mem_code, rmw32_cl_reg, rmw32_cl_reg_code, rmw32_shift_mem, rmw32_shift_mem_code, rmw32_shift_reg, rmw32_shift_reg_code, rmw32_unary_mem, rmw32_unary_mem_code, rmw32_unary_reg, rmw32_unary_reg_code, push16_reg_jit, push16_reg_jit_code, push32_reg_jit, push32_reg_jit_code, push16_mem_jit, push16_mem_jit_code, push32_mem_jit, push32_mem_jit_code};

verus! {

/// `rol` of a 8-bit value in memory by an immediate.
pub fn instr_C0_0_mem_jit(ctx: &mut JitContext, modrm_byte: u8)
    requires
        ready(old(ctx).builder, 8),
    ensures
        emits(*old(ctx), *final(ctx), rmw8_shift_mem_code("rol8", modrm_byte, old(ctx).builder.next_local), 1),
        restores_by(old(ctx).builder, final(ctx).builder, 0),
{
    rmw8_shift_mem(ctx, "rol8", modrm_byte);
    proof {
        assert(ctx.builder.code@ =~= old(ctx).builder.code@ + rmw8_shift_mem_code("rol8", modrm_byte, old(ctx).builder.next_local));
        assert(ctx.builder.frame().live =~= old(ctx).builder.frame().live);
        assert(ctx.builder.frame().live64 =~= old(ctx).builder.frame().live64);
        assert(ctx.builder.frame().ctrl =~= old(ctx).builder.frame().ctrl);
    }
}

/// `rol` of the 8-bit register `r1` by an immediate.
pub fn instr_C0_0_reg_jit(ctx: &mut JitContext, r1: u32, imm: u32)
    requires
        ready(old(ctx).builder, 8),
        r1 < 8,
    ensures
        emits(*old(ctx), *final(ctx), rmw8_shift_reg_code("rol8", r1, imm), 0),
        restores_by(old(ctx).builder, final(ctx).builder, 0),
{
    rmw8_shift_reg(ctx, "rol8", r1, imm);
    proof {
        assert(ctx.builder.code@ =~= old(ctx).builder.code@ + rmw8_shift_reg_code("rol8", r1, imm));
        assert(ctx.builder.frame().live =~= old(ctx).builder.frame().live);
        assert(ctx.builder.frame().live64 =~= old(ctx).builder.frame().live64);
        assert(ctx.builder.frame().ctrl =~= old(ctx).builder.frame().ctrl);
    }
}

/// `ror` of a 8-bit value in memory by an immediate.
pub fn instr_C0_1_mem_jit(ctx: &mut JitContext, modrm_byte: u8)
    requires
        ready(old(ctx).builder, 8),
    ensures
        emits(*old(ctx), *final(ctx), rmw8_shift_mem_code("ror8", modrm_byte, old(ctx).builder.next_local), 1),
        restores_by(old(ctx).builder, final(ctx).builder, 0),
{
    rmw8_shift_mem(ctx, "ror8", modrm_byte);
    proof {
        assert(ctx.builder.code@ =~= old(ctx).builder.code@ + rmw8_shift_mem_code("ror8", modrm_byte, old(ctx).builder.next_local));
        assert(ctx.builder.frame().live =~= old(ctx).builder.frame().live);
        assert(ctx.builder.frame().live64 =~= old(ctx).builder.frame().live64);
        assert(ctx.builder.frame().ctrl =~= old(ctx).builder.frame().ctrl);
    }
}

/// `ror` of the 8-bit register `r1` by an immediate.
pub fn instr_C0_1_reg_jit(ctx: &mut JitContext, r1: u32, imm: u32)
    requires
        ready(old(ctx).builder, 8),
        r1 < 8,
    ensures
        emits(*old(ctx), *final(ctx), rmw8_shift_reg_code("ror8", r1, imm), 0),
        restores_by(old(ctx).builder, final(ctx).builder, 0),
{
    rmw8_shift_reg(ctx, "ror8", r1, imm);
    proof {
        assert(ctx.builder.code@ =~= old(ctx).builder.code@ + rmw8_shift_reg_code("ror8", r1, imm));
        assert(ctx.builder.frame().live =~= old(ctx).builder.frame().live);
        assert(ctx.builder.frame().live64 =~= old(ctx).builder.frame().live64);
        assert(ctx.builder.frame().ctrl =~= old(ctx).builder.frame().ctrl);
    }
}

/// `rcl` of a 8-bit value in memory by an immediate.
pub fn instr_C0_2_mem_jit(ctx: &mut JitContext, modrm_byte: u8)
    requires
        ready(old(ctx).builder, 8),
    ensures
        emits(*old(ctx), *final(ctx), rmw8_shift_mem_code("rcl8", modrm_byte, old(ctx).builder.next_local), 1),
        restores_by(old(ctx).builder, final(ctx).builder, 0),
{
    rmw8_shift_mem(ctx, "rcl8", modrm_byte);
    proof {
        assert(ctx.builder.code@ =~= old(ctx).builder.code@ + rmw8_shift_mem_code("rcl8", modrm_byte, old(ctx).builder.next_local));
        assert(ctx.builder.frame().live =~= old(ctx).builder.frame().live);
        assert(ctx.builder.frame().live64 =~= old(ctx).builder.frame().live64);
        assert(ctx.builder.frame().ctrl =~= old(ctx).builder.frame().ctrl);
    }
}

/// `rcl` of the 8-bit register `r1` by an immediate.
pub fn instr_C0_2_reg_jit(ctx: &mut JitContext, r1: u32, imm: u32)
    requires
        ready(old(ctx).builder, 8),
        r1 < 8,
    ensures
        emits(*old(ctx), *final(ctx), rmw8_shift_reg_code("rcl8", r1, imm), 0),
        restores_by(old(ctx).builder, final(ctx).builder, 0),
{
    rmw8_shift_reg(ctx, "rcl8", r1, imm);
    proof {
        assert(ctx.builder.code@ =~= old(ctx).builder.code@ + rmw8_shift_reg_code("rcl8", r1, imm));
        assert(ctx.builder.frame().live =~= old(ctx).builder.frame().live);
        assert(ctx.builder.frame().live64 =~= old(ctx).builder.frame().live64);
        assert(ctx.builder.frame().ctrl =~= old(ctx).builder.frame().ctrl);
    }
}

/// `rcr` of a 8-bit value in memory by an immediate.
pub fn instr_C0_3_mem_jit(ctx: &mut JitContext, modrm_byte: u8)
    requires
        ready(old(ctx).builder, 8),
    ensures
        emits(*old(ctx), *final(ctx), rmw8_shift_mem_code("rcr8", modrm_byte, old(ctx).builder.next_local), 1),
        restores_by(old(ctx).builder, final(ctx).builder, 0),
{
    rmw8_shift_mem(ctx, "rcr8", modrm_byte);
    proof {
        assert(ctx.builder.code@ =~= old(ctx).builder.code@ + rmw8_shift_mem_code("rcr8", modrm_byte, old(ctx).builder.next_local));
        assert(ctx.builder.frame().live =~= old(ctx).builder.frame().live);
        assert(ctx.builder.frame().live64 =~= old(ctx).builder.frame().live64);
        assert(ctx.builder.frame().ctrl =~= old(ctx).builder.frame().ctrl);
    }
}

/// `rcr` of the 8-bit register `r1` by an immediate.
pub fn instr_C0_3_reg_jit(ctx: &mut JitContext, r1: u32, imm: u32)
    requires
        ready(old(ctx).builder, 8),
        r1 < 8,
    ensures
        emits(*old(ctx), *final(ctx), rmw8_shift_reg_code("rcr8", r1, imm), 0),
        restores_by(old(ctx).builder, final(ctx).builder, 0),
{
    rmw8_shift_reg(ctx, "rcr8", r1, imm);
    proof {
        assert(ctx.builder.code@ =~= old(ctx).builder.code@ + rmw8_shift_reg_code("rcr8", r1, imm));
        assert(ctx.builder.frame().live =~= old(ctx).builder.frame().live);
        assert(ctx.builder.frame().live64 =~= old(ctx).builder.frame().live64);
        assert(ctx.builder.frame().ctrl =~= old(ctx).builder.frame().ctrl);
    }
}

/// `shl` of a 8-bit value in memory by an immediate.
pub fn instr_C0_4_mem_jit(ctx: &mut JitContext, modrm_byte: u8)
    requires
        ready(old(ctx).builder, 8),
    ensures
        emits(*old(ctx), *final(ctx), rmw8_shift_mem_code("shl8", modrm_byte, old(ctx).builder.next_local), 1),
        restores_by(old(ctx).builder, final(ctx).builder, 0),
{
    rmw8_shift_mem(ctx, "shl8", modrm_byte);
    proof {
        assert(ctx.builder.code@ =~= old(ctx).builder.code@ + rmw8_shift_mem_code("shl8", modrm_byte, old(ctx).builder.next_local));
        assert(ctx.builder.frame().live =~= old(ctx).builder.frame().live);
        assert(ctx.builder.frame().live64 =~= old(ctx).builder.frame().live64);
        assert(ctx.builder.frame().ctrl =~= old(ctx).builder.frame().ctrl);
    }
}

/// `shl` of the 8-bit register `r1` by an immediate.
pub fn instr_C0_4_reg_jit(ctx: &mut JitContext, r1: u32, imm: u32)
    requires
        ready(old(ctx).builder, 8),
        r1 < 8,
    ensures
        emits(*old(ctx), *final(ctx), rmw8_shift_reg_code("shl8", r1, imm), 0),
        restores_by(old(ctx).builder, final(ctx).builder, 0),
{
    rmw8_shift_reg(ctx, "shl8", r1, imm);
    proof {
        assert(ctx.builder.code@ =~= old(ctx).builder.code@ + rmw8_shift_reg_code("shl8", r1, imm));
        assert(ctx.builder.frame().live =~= old(ctx).builder.frame().live);
        assert(ctx.builder.frame().live64 =~= old(ctx).builder.frame().live64);
        assert(ctx.builder.frame().ctrl =~= old(ctx).builder.frame().ctrl);
    }
}

/// `shr` of a 8-bit value in memory by an immediate.
pub fn instr_C0_5_mem_jit(ctx: &mut JitContext, modrm_byte: u8)
    requires
        ready(old(ctx).builder, 8),
    ensures
        emits(*old(ctx), *final(ctx), rmw8_shift_mem_code("shr8", modrm_byte, old(ctx).builder.next_local), 1),
        restores_by(old(ctx).builder, final(ctx).builder, 0),
{
    rmw8_shift_mem(ctx, "shr8", modrm_byte);
    proof {
        assert(ctx.builder.code@ =~= old(ctx).builder.code@ + rmw8_shift_mem_code("shr8", modrm_byte, old(ctx).builder.next_local));
        assert(ctx.builder.frame().live =~= old(ctx).builder.frame().live);
        assert(ctx.builder.frame().live64 =~= old(ctx).builder.frame().live64);
        assert(ctx.builder.frame().ctrl =~= old(ctx).builder.frame().ctrl);
    }
}

/// `shr` of the 8-bit register `r1` by an immediate.
pub fn instr_C0_5_reg_jit(ctx: &mut JitContext, r1: u32, imm: u32)
    requires
        ready(old(ctx).builder, 8),
        r1 < 8,
    ensures
        emits(*old(ctx), *final(ctx), rmw8_shift_reg_code("shr8", r1, imm), 0),
        restores_by(old(ctx).builder, final(ctx).builder, 0),
{
    rmw8_shift_reg(ctx, "shr8", r1, imm);
    proof {
        assert(ctx.builder.code@ =~= old(ctx).builder.code@ + rmw8_shift_reg_code("shr8", r1, imm));
        assert(ctx.builder.frame().live =~= old(ctx).builder.frame().live);
        assert(ctx.builder.frame().live64 =~= old(ctx).builder.frame().live64);
        assert(ctx.builder.frame().ctrl =~= old(ctx).builder.frame().ctrl);
    }
}

/// `shl` of a 8-bit value in memory by an immediate.
pub fn instr_C0_6_mem_jit(ctx: &mut JitContext, modrm_byte: u8)
    requires
        ready(old(ctx).builder, 8),
    ensures
        emits(*old(ctx), *final(ctx), rmw8_shift_mem_code("shl8", modrm_byte, old(ctx).builder.next_local), 1),
        restores_by(old(ctx).builder, final(ctx).builder, 0),
{
    rmw8_shift_mem(ctx, "shl8", modrm_byte);
    proof {
        assert(ctx.builder.code@ =~= old(ctx).builder.code@ + rmw8_shift_mem_code("shl8", modrm_byte, old(ctx).builder.next_local));
        assert(ctx.builder.frame().live =~= old(ctx).builder.frame().live);
        assert(ctx.builder.frame().live64 =~= old(ctx).builder.frame().live64);
        assert(ctx.builder.frame().ctrl =~= old(ctx).builder.frame().ctrl);
    }
}

/// `shl` of the 8-bit register `r1` by an immediate.
pub fn instr_C0_6_reg_jit(ctx: &mut JitContext, r1: u32, imm: u32)
    requires
        ready(old(ctx).builder, 8),
        r1 < 8,
    ensures
        emits(*old(ctx), *final(ctx), rmw8_shift_reg_code("shl8", r1, imm), 0),
        restores_by(old(ctx).builder, final(ctx).builder, 0),
{
    rmw8_shift_reg(ctx, "shl8", r1, imm);
    proof {
        assert(ctx.builder.code@ =~= old(ctx).builder.code@ + rmw8_shift_reg_code("shl8", r1, imm));
        assert(ctx.builder.frame().live =~= old(ctx).builder.frame().live);
        assert(ctx.builder.frame().live64 =~= old(ctx).builder.frame().live64);
        assert(ctx.builder.frame().ctrl =~= old(ctx).builder.frame().ctrl);
    }
}

/// `sar` of a 8-bit value in memory by an immediate.
pub fn instr_C0_7_mem_jit(ctx: &mut JitContext, modrm_byte: u8)
    requires
        ready(old(ctx).builder, 8),
    ensures
        emits(*old(ctx), *final(ctx), rmw8_shift_mem_code("sar8", modrm_byte, old(ctx).builder.next_local), 1),
        restores_by(old(ctx).builder, final(ctx).builder, 0),
{
    rmw8_shift_mem(ctx, "sar8", modrm_byte);
    proof {
        assert(ctx.builder.code@ =~= old(ctx).builder.code@ + rmw8_shift_mem_code("sar8", modrm_byte, old(ctx).builder.next_local));
        assert(ctx.builder.frame().live =~= old(ctx).builder.frame().live);
        assert(ctx.builder.frame().live64 =~= old(ctx).builder.frame().live64);
        assert(ctx.builder.frame().ctrl =~= old(ctx).builder.frame().ctrl);
    }
}

/// `sar` of the 8-bit register `r1` by an immediate.
pub fn instr_C0_7_reg_jit(ctx: &mut JitContext, r1: u32, imm: u32)
    requires
        ready(old(ctx).builder, 8),
        r1 < 8,
    ensures
        emits(*old(ctx), *final(ctx), rmw8_shift_reg_code("sar8", r1, imm), 0),
        restores_by(old(ctx).builder, final(ctx).builder, 0),
{
    rmw8_shift_reg(ctx, "sar8", r1, imm);
    proof {
        assert(ctx.builder.code@ =~= old(ctx).builder.code@ + rmw8_shift_reg_code("sar8", r1, imm));
        assert(ctx.builder.frame().live =~= old(ctx).builder.frame().live);
        assert(ctx.builder.frame().live64 =~= old(ctx).builder.frame().live64);
        assert(ctx.builder.frame().ctrl =~= old(ctx).builder.frame().ctrl);
    }
}

/// `rol` of a 16-bit value in memory by an immediate.
pub fn instr16_C1_0_mem_jit(ctx: &mut JitContext, modrm_byte: u8)
    requires
        ready(old(ctx).builder, 8),
    ensures
        emits(*old(ctx), *final(ctx), rmw16_shift_mem_code("rol16", modrm_byte, old(ctx).builder.next_local), 1),
        restores_by(old(ctx).builder, final(ctx).builder, 0),
{
    rmw16_shift_mem(ctx, "rol16", modrm_byte);
    proof {
        assert(ctx.builder.code@ =~= old(ctx).builder.code@ + rmw16_shift_mem_code("rol16", modrm_byte, old(ctx).builder.next_local));
        assert(ctx.builder.frame().live =~= old(ctx).builder.frame().live);
        assert(ctx.builder.frame().live64 =~= old(ctx).builder.frame().live64);
        assert(ctx.builder.frame().ctrl =~= old(ctx).builder.frame().ctrl);
    }
}

/// `rol` of the 16-bit register `r1` by an immediate.
pub fn instr16_C1_0_reg_jit(ctx: &mut JitContext, r1: u32, imm: u32)
    requires
        ready(old(ctx).builder, 8),
        r1 < 8,
    ensures
        emits(*old(ctx), *final(ctx), rmw16_shift_reg_code("rol16", r1, imm), 0),
        restores_by(old(ctx).builder, final(ctx).builder, 0),
{
    rmw16_shift_reg(ctx, "rol16", r1, imm);
    proof {
        assert(ctx.builder.code@ =~= old(ctx).builder.code@ + rmw16_shift_reg_code("rol16", r1, imm));
        assert(ctx.builder.frame().live =~= old(ctx).builder.frame().live);
        assert(ctx.builder.frame().live64 =~= old(ctx).builder.frame().live64);
        assert(ctx.builder.frame().ctrl =~= old(ctx).builder.frame().ctrl);
    }
}

/// `ror` of a 16-bit value in memory by an immediate.
pub fn instr16_C1_1_mem_jit(ctx: &mut JitContext, modrm_byte: u8)
    requires
        ready(old(ctx).builder, 8),
    ensures
        emits(*old(ctx), *final(ctx), rmw16_shift_mem_code("ror16", modrm_byte, old(ctx).builder.next_local), 1),
        restores_by(old(ctx).builder, final(ctx).builder, 0),
{
    rmw16_shift_mem(ctx, "ror16", modrm_byte);
    proof {
        assert(ctx.builder.code@ =~= old(ctx).builder.code@ + rmw16_shift_mem_code("ror16", modrm_byte, old(ctx).builder.next_local));
        assert(ctx.builder.frame().live =~= old(ctx).builder.frame().live);
        assert(ctx.builder.frame().live64 =~= old(ctx).builder.frame().live64);
        assert(ctx.builder.frame().ctrl =~= old(ctx).builder.frame().ctrl);
    }
}

/// `ror` of the 16-bit register `r1` by an immediate.
pub fn instr16_C1_1_reg_jit(ctx: &mut JitContext, r1: u32, imm: u32)
    requires
        ready(old(ctx).builder, 8),
        r1 < 8,
    ensures
        emits(*old(ctx), *final(ctx), rmw16_shift_reg_code("ror16", r1, imm), 0),
        restores_by(old(ctx).builder, final(ctx).builder, 0),
{
    rmw16_shift_reg(ctx, "ror16", r1, imm);
    proof {
        assert(ctx.builder.code@ =~= old(ctx).builder.code@ + rmw16_shift_reg_code("ror16", r1, imm));
        assert(ctx.builder.frame().live =~= old(ctx).builder.frame().live);
        assert(ctx.builder.frame().live64 =~= old(ctx).builder.frame().live64);
        assert(ctx.builder.frame().ctrl =~= old(ctx).builder.frame().ctrl);
    }
}

/// `rcl` of a 16-bit value in memory by an immediate.
pub fn instr16_C1_2_mem_jit(ctx: &mut JitContext, modrm_byte: u8)
    requires
        ready(old(ctx).builder, 8),
    ensures
        emits(*old(ctx), *final(ctx), rmw16_shift_mem_code("rcl16", modrm_byte, old(ctx).builder.next_local), 1),
        restores_by(old(ctx).builder, final(ctx).builder, 0),
{
    rmw16_shift_mem(ctx, "rcl16", modrm_byte);
    proof {
        assert(ctx.builder.code@ =~= old(ctx).builder.code@ + rmw16_shift_mem_code("rcl16", modrm_byte, old(ctx).builder.next_local));
        assert(ctx.builder.frame().live =~= old(ctx).builder.frame().live);
        assert(ctx.builder.frame().live64 =~= old(ctx).builder.frame().live64);
        assert(ctx.builder.frame().ctrl =~= old(ctx).builder.frame().ctrl);
    }
}

/// `rcl` of the 16-bit register `r1` by an immediate.
pub fn instr16_C1_2_reg_jit(ctx: &mut JitContext, r1: u32, imm: u32)
    requires
        ready(old(ctx).builder, 8),
        r1 < 8,
    ensures
        emits(*old(ctx), *final(ctx), rmw16_shift_reg_code("rcl16", r1, imm), 0),
        restores_by(old(ctx).builder, final(ctx).builder, 0),
{
    rmw16_shift_reg(ctx, "rcl16", r1, imm);
    proof {
        assert(ctx.builder.code@ =~= old(ctx).builder.code@ + rmw16_shift_reg_code("rcl16", r1, imm));
        assert(ctx.builder.frame().live =~= old(ctx).builder.frame().live);
        assert(ctx.builder.frame().live64 =~= old(ctx).builder.frame().live64);
        assert(ctx.builder.frame().ctrl =~= old(ctx).builder.frame().ctrl);
    }
}

/// `rcr` of a 16-bit value in memory by an immediate.
pub fn instr16_C1_3_mem_jit(ctx: &mut JitContext, modrm_byte: u8)
    requires
        ready(old(ctx).builder, 8),
    ensures
        emits(*old(ctx), *final(ctx), rmw16_shift_mem_code("rcr16", modrm_byte, old(ctx).builder.next_local), 1),
        restores_by(old(ctx).builder, final(ctx).builder, 0),
{
    rmw16_shift_mem(ctx, "rcr16", modrm_byte);
    proof {
        assert(ctx.builder.code@ =~= old(ctx).builder.code@ + rmw16_shift_mem_code("rcr16", modrm_byte, old(ctx).builder.next_local));
        assert(ctx.builder.frame().live =~= old(ctx).builder.frame().live);
        assert(ctx.builder.frame().live64 =~= old(ctx).builder.frame().live64);
        assert(ctx.builder.frame().ctrl =~= old(ctx).builder.frame().ctrl);
    }
}

/// `rcr` of the 16-bit register `r1` by an immediate.
pub fn instr16_C1_3_reg_jit(ctx: &mut JitContext, r1: u32, imm: u32)
    requires
        ready(old(ctx).builder, 8),
        r1 < 8,
    ensures
        emits(*old(ctx), *final(ctx), rmw16_shift_reg_code("rcr16", r1, imm), 0),
        restores_by(old(ctx).builder, final(ctx).builder, 0),
{
    rmw16_shift_reg(ctx, "rcr16", r1, imm);
    proof {
        assert(ctx.builder.code@ =~= old(ctx).builder.code@ + rmw16_shift_reg_code("rcr16", r1, imm));
        assert(ctx.builder.frame().live =~= old(ctx).builder.frame().live);
        assert(ctx.builder.frame().live64 =~= old(ctx).builder.frame().live64);
        assert(ctx.builder.frame().ctrl =~= old(ctx).builder.frame().ctrl);
    }
}

/// `shl` of a 16-bit value in memory by an immediate.
pub fn instr16_C1_4_mem_jit(ctx: &mut JitContext, modrm_byte: u8)
    requires
        ready(old(ctx).builder, 8),
    ensures
        emits(*old(ctx), *final(ctx), rmw16_shift_mem_code("shl16", modrm_byte, old(ctx).builder.next_local), 1),
        restores_by(old(ctx).builder, final(ctx).builder, 0),
{
    rmw16_shift_mem(ctx, "shl16", modrm_byte);
    proof {
        assert(ctx.builder.code@ =~= old(ctx).builder.code@ + rmw16_shift_mem_code("shl16", modrm_byte, old(ctx).builder.next_local));
        assert(ctx.builder.frame().live =~= old(ctx).builder.frame().live);
        assert(ctx.builder.frame().live64 =~= old(ctx).builder.frame().live64);
        assert(ctx.builder.frame().ctrl =~= old(ctx).builder.frame().ctrl);
    }
}

/// `shl` of the 16-bit register `r1` by an immediate.
pub fn instr16_C1_4_reg_jit(ctx: &mut JitContext, r1: u32, imm: u32)
    requires
        ready(old(ctx).builder, 8),
        r1 < 8,
    ensures
        emits(*old(ctx), *final(ctx), rmw16_shift_reg_code("shl16", r1, imm), 0),
        restores_by(old(ctx).builder, final(ctx).builder, 0),
{
    rmw16_shift_reg(ctx, "shl16", r1, imm);
    proof {
        assert(ctx.builder.code@ =~= old(ctx).builder.code@ + rmw16_shift_reg_code("shl16", r1, imm));
        assert(ctx.builder.frame().live =~= old(ctx).builder.frame().live);
        assert(ctx.builder.frame().live64 =~= old(ctx).builder.frame().live64);
        assert(ctx.builder.frame().ctrl =~= old(ctx).builder.frame().ctrl);
    }
}

/// `shr` of a 16-bit value in memory by an immediate.
pub fn instr16_C1_5_mem_jit(ctx: &mut JitContext, modrm_byte: u8)
    requires
        ready(old(ctx).builder, 8),
    ensures
        emits(*old(ctx), *final(ctx), rmw16_shift_mem_code("shr16", modrm_byte, old(ctx).builder.next_local), 1),
        restores_by(old(ctx).builder, final(ctx).builder, 0),
{
    rmw16_shift_mem(ctx, "shr16", modrm_byte);
    proof {
        assert(ctx.builder.code@ =~= old(ctx).builder.code@ + rmw16_shift_mem_code("shr16", modrm_byte, old(ctx).builder.next_local));
        assert(ctx.builder.frame().live =~= old(ctx).builder.frame().live);
        assert(ctx.builder.frame().live64 =~= old(ctx).builder.frame().live64);
        assert(ctx.builder.frame().ctrl =~= old(ctx).builder.frame().ctrl);
    }
}

/// `shr` of the 16-bit register `r1` by an immediate.
pub fn instr16_C1_5_reg_jit(ctx: &mut JitContext, r1: u32, imm: u32)
    requires
        ready(old(ctx).builder, 8),
        r1 < 8,
    ensures
        emits(*old(ctx), *final(ctx), rmw16_shift_reg_code("shr16", r1, imm), 0),
        restores_by(old(ctx).builder, final(ctx).builder, 0),
{
    rmw16_shift_reg(ctx, "shr16", r1, imm);
    proof {
        assert(ctx.builder.code@ =~= old(ctx).builder.code@ + rmw16_shift_reg_code("shr16", r1, imm));
        assert(ctx.builder.frame().live =~= old(ctx).builder.frame().live);
        assert(ctx.builder.frame().live64 =~= old(ctx).builder.frame().live64);
        assert(ctx.builder.frame().ctrl =~= old(ctx).builder.frame().ctrl);
    }
}

/// `shl` of a 16-bit value in memory by an immediate.
pub fn instr16_C1_6_mem_jit(ctx: &mut JitContext, modrm_byte: u8)
    requires
        ready(old(ctx).builder, 8),
    ensures
        emits(*old(ctx), *final(ctx), rmw16_shift_mem_code("shl16", modrm_byte, old(ctx).builder.next_local), 1),
        restores_by(old(ctx).builder, final(ctx).builder, 0),
{
    rmw16_shift_mem(ctx, "shl16", modrm_byte);
    proof {
        assert(ctx.builder.code@ =~= old(ctx).builder.code@ + rmw16_shift_mem_code("shl16", modrm_byte, old(ctx).builder.next_local));
        assert(ctx.builder.frame().live =~= old(ctx).builder.frame().live);
        assert(ctx.builder.frame().live64 =~= old(ctx).builder.frame().live64);
        assert(ctx.builder.frame().ctrl =~= old(ctx).builder.frame().ctrl);
    }
}

/// `shl` of the 16-bit register `r1` by an immediate.
pub fn instr16_C1_6_reg_jit(ctx: &mut JitContext, r1: u32, imm: u32)
    requires
        ready(old(ctx).builder, 8),
        r1 < 8,
    ensures
        emits(*old(ctx), *final(ctx), rmw16_shift_reg_code("shl16", r1, imm), 0),
        restores_by(old(ctx).builder, final(ctx).builder, 0),
{
    rmw16_shift_reg(ctx, "shl16", r1, imm);
    proof {
        assert(ctx.builder.code@ =~= old(ctx).builder.code@ + rmw16_shift_reg_code("shl16", r1, imm));
        assert(ctx.builder.frame().live =~= old(ctx).builder.frame().live);
        assert(ctx.builder.frame().live64 =~= old(ctx).builder.frame().live64);
        assert(ctx.builder.frame().ctrl =~= old(ctx).builder.frame().ctrl);
    }
}

/// `sar` of a 16-bit value in memory by an immediate.
pub fn instr16_C1_7_mem_jit(ctx: &mut JitContext, modrm_byte: u8)
    requires
        ready(old(ctx).builder, 8),
    ensures
        emits(*old(ctx), *final(ctx), rmw16_shift_mem_code("sar16", modrm_byte, old(ctx).builder.next_local), 1),
        restores_by(old(ctx).builder, final(ctx).builder, 0),
{
    rmw16_shift_mem(ctx, "sar16", modrm_byte);
    proof {
        assert(ctx.builder.code@ =~= old(ctx).builder.code@ + rmw16_shift_mem_code("sar16", modrm_byte, old(ctx).builder.next_local));
        assert(ctx.builder.frame().live =~= old(ctx).builder.frame().live);
        assert(ctx.builder.frame().live64 =~= old(ctx).builder.frame().live64);
        assert(ctx.builder.frame().ctrl =~= old(ctx).builder.frame().ctrl);
    }
}

/// `sar` of the 16-bit register `r1` by an immediate.
pub fn instr16_C1_7_reg_jit(ctx: &mut JitContext, r1: u32, imm: u32)
    requires
        ready(old(ctx).builder, 8),
        r1 < 8,
    ensures
        emits(*old(ctx), *final(ctx), rmw16_shift_reg_code("sar16", r1, imm), 0),
        restores_by(old(ctx).builder, final(ctx).builder, 0),
{
    rmw16_shift_reg(ctx, "sar16", r1, imm);
    proof {
        assert(ctx.builder.code@ =~= old(ctx).builder.code@ + rmw16_shift_reg_code("sar16", r1, imm));
        assert(ctx.builder.frame().live =~= old(ctx).builder.frame().live);
        assert(ctx.builder.frame().live64 =~= old(ctx).builder.frame().live64);
        assert(ctx.builder.frame().ctrl =~= old(ctx).builder.frame().ctrl);
    }
}

/// `rol` of a 32-bit value in memory by an immediate.
pub fn instr32_C1_0_mem_jit(ctx: &mut JitContext, modrm_byte: u8)
    requires
        ready(old(ctx).builder, 8),
    ensures
        emits(*old(ctx), *final(ctx), rmw32_shift_mem_code("rol32", modrm_byte, old(ctx).builder.next_local), 1),
        restores_by(old(ctx).builder, final(ctx).builder, 0),
{
    rmw32_shift_mem(ctx, "rol32", modrm_byte);
    proof {
        assert(ctx.builder.code@ =~= old(ctx).builder.code@ + rmw32_shift_mem_code("rol32", modrm_byte, old(ctx).builder.next_local));
        assert(ctx.builder.frame().live =~= old(ctx).builder.frame().live);
        assert(ctx.builder.frame().live64 =~= old(ctx).builder.frame().live64);
        assert(ctx.builder.frame().ctrl =~= old(ctx).builder.frame().ctrl);
    }
}

/// `rol` of the 32-bit register `r1` by an immediate.
pub fn instr32_C1_0_reg_jit(ctx: &mut JitContext, r1: u32, imm: u32)
    requires
        ready(old(ctx).builder, 8),
        r1 < 8,
    ensures
        emits(*old(ctx), *final(ctx), rmw32_shift_reg_code("rol32", r1, imm), 0),
        restores_by(old(ctx).builder, final(ctx).builder, 0),
{
    rmw32_shift_reg(ctx, "rol32", r1, imm);
    proof {
        assert(ctx.builder.code@ =~= old(ctx).builder.code@ + rmw32_shift_reg_code("rol32", r1, imm));
        assert(ctx.builder.frame().live =~= old(ctx).builder.frame().live);
        assert(ctx.builder.frame().live64 =~= old(ctx).builder.frame().live64);
        assert(ctx.builder.frame().ctrl =~= old(ctx).builder.frame().ctrl);
    }
}

/// `ror` of a 32-bit value in memory by an immediate.
pub fn instr32_C1_1_mem_jit(ctx: &mut JitContext, modrm_byte: u8)
    requires
        ready(old(ctx).builder, 8),
    ensures
        emits(*old(ctx), *final(ctx), rmw32_shift_mem_code("ror32", modrm_byte, old(ctx).builder.next_local), 1),
        restores_by(old(ctx).builder, final(ctx).builder, 0),
{
    rmw32_shift_mem(ctx, "ror32", modrm_byte);
    proof {
        assert(ctx.builder.code@ =~= old(ctx).builder.code@ + rmw32_shift_mem_code("ror32", modrm_byte, old(ctx).builder.next_local));
        assert(ctx.builder.frame().live =~= old(ctx).builder.frame().live);
        assert(ctx.builder.frame().live64 =~= old(ctx).builder.frame().live64);
        assert(ctx.builder.frame().ctrl =~= old(ctx).builder.frame().ctrl);
    }
}

/// `ror` of the 32-bit register `r1` by an immediate.
pub fn instr32_C1_1_reg_jit(ctx: &mut JitContext, r1: u32, imm: u32)
    requires
        ready(old(ctx).builder, 8),
        r1 < 8,
    ensures
        emits(*old(ctx), *final(ctx), rmw32_shift_reg_code("ror32", r1, imm), 0),
        restores_by(old(ctx).builder, final(ctx).builder, 0),
{
    rmw32_shift_reg(ctx, "ror32", r1, imm);
    proof {
        assert(ctx.builder.code@ =~= old(ctx).builder.code@ + rmw32_shift_reg_code("ror32", r1, imm));
        assert(ctx.builder.frame().live =~= old(ctx).builder.frame().live);
        assert(ctx.builder.frame().live64 =~= old(ctx).builder.frame().live64);
        assert(ctx.builder.frame().ctrl =~= old(ctx).builder.frame().ctrl);
    }
}

/// `rcl` of a 32-bit value in memory by an immediate.
pub fn instr32_C1_2_mem_jit(ctx: &mut JitContext, modrm_byte: u8)
    requires
        ready(old(ctx).builder, 8),
    ensures
        emits(*old(ctx), *final(ctx), rmw32_shift_mem_code("rcl32", modrm_byte, old(ctx).builder.next_local), 1),
        restores_by(old(ctx).builder, final(ctx).builder, 0),
{
    rmw32_shift_mem(ctx, "rcl32", modrm_byte);
    proof {
        assert(ctx.builder.code@ =~= old(ctx).builder.code@ + rmw32_shift_mem_code("rcl32", modrm_byte, old(ctx).builder.next_local));
        assert(ctx.builder.frame().live =~= old(ctx).builder.frame().live);
        assert(ctx.builder.frame().live64 =~= old(ctx).builder.frame().live64);
        assert(ctx.builder.frame().ctrl =~= old(ctx).builder.frame().ctrl);
    }
}

/// `rcl` of the 32-bit register `r1` by an immediate.
pub fn instr32_C1_2_reg_jit(ctx: &mut JitContext, r1: u32, imm: u32)
    requires
        ready(old(ctx).builder, 8),
        r1 < 8,
    ensures
        emits(*old(ctx), *final(ctx), rmw32_shift_reg_code("rcl32", r1, imm), 0),
        restores_by(old(ctx).builder, final(ctx).builder, 0),
{
    rmw32_shift_reg(ctx, "rcl32", r1, imm);
    proof {
        assert(ctx.builder.code@ =~= old(ctx).builder.code@ + rmw32_shift_reg_code("rcl32", r1, imm));
        assert(ctx.builder.frame().live =~= old(ctx).builder.frame().live);
        assert(ctx.builder.frame().live64 =~= old(ctx).builder.frame().live64);
        assert(ctx.builder.frame().ctrl =~= old(ctx).builder.frame().ctrl);
    }
}

/// `rcr` of a 32-bit value in memory by an immediate.
pub fn instr32_C1_3_mem_jit(ctx: &mut JitContext, modrm_byte: u8)
    requires
        ready(old(ctx).builder, 8),
    ensures
        emits(*old(ctx), *final(ctx), rmw32_shift_mem_code("rcr32", modrm_byte, old(ctx).builder.next_local), 1),
        restores_by(old(ctx).builder, final(ctx).builder, 0),
{
    rmw32_shift_mem(ctx, "rcr32", modrm_byte);
    proof {
        assert(ctx.builder.code@ =~= old(ctx).builder.code@ + rmw32_shift_mem_code("rcr32", modrm_byte, old(ctx).builder.next_local));
        assert(ctx.builder.frame().live =~= old(ctx).builder.frame().live);
        assert(ctx.builder.frame().live64 =~= old(ctx).builder.frame().live64);
        assert(ctx.builder.frame().ctrl =~= old(ctx).builder.frame().ctrl);
    }
}

/// `rcr` of the 32-bit register `r1` by an immediate.
pub fn instr32_C1_3_reg_jit(ctx: &mut JitContext, r1: u32, imm: u32)
    requires
        ready(old(ctx).builder, 8),
        r1 < 8,
    ensures
        emits(*old(ctx), *final(ctx), rmw32_shift_reg_code("rcr32", r1, imm), 0),
        restores_by(old(ctx).builder, final(ctx).builder, 0),
{
    rmw32_shift_reg(ctx, "rcr32", r1, imm);
    proof {
        assert(ctx.builder.code@ =~= old(ctx).builder.code@ + rmw32_shift_reg_code("rcr32", r1, imm));
        assert(ctx.builder.frame().live =~= old(ctx).builder.frame().live);
        assert(ctx.builder.frame().live64 =~= old(ctx).builder.frame().live64);
        assert(ctx.builder.frame().ctrl =~= old(ctx).builder.frame().ctrl);
    }
}

/// `shl` of a 32-bit value in memory by an immediate.
pub fn instr32_C1_4_mem_jit(ctx: &mut JitContext, modrm_byte: u8)
    requires
        ready(old(ctx).builder, 8),
    ensures
        emits(*old(ctx), *final(ctx), rmw32_shift_mem_code("shl32", modrm_byte, old(ctx).builder.next_local), 1),
        restores_by(old(ctx).builder, final(ctx).builder, 0),
{
    rmw32_shift_mem(ctx, "shl32", modrm_byte);
    proof {
        assert(ctx.builder.code@ =~= old(ctx).builder.code@ + rmw32_shift_mem_code("shl32", modrm_byte, old(ctx).builder.next_local));
        assert(ctx.builder.frame().live =~= old(ctx).builder.frame().live);
        assert(ctx.builder.frame().live64 =~= old(ctx).builder.frame().live64);
        assert(ctx.builder.frame().ctrl =~= old(ctx).builder.frame().ctrl);
    }
}

/// `shl` of the 32-bit register `r1` by an immediate.
pub fn instr32_C1_4_reg_jit(ctx: &mut JitContext, r1: u32, imm: u32)
    requires
        ready(old(ctx).builder, 8),
        r1 < 8,
    ensures
        emits(*old(ctx), *final(ctx), rmw32_shift_reg_code("shl32", r1, imm), 0),
        restores_by(old(ctx).builder, final(ctx).builder, 0),
{
    rmw32_shift_reg(ctx, "shl32", r1, imm);
    proof {
        assert(ctx.builder.code@ =~= old(ctx).builder.code@ + rmw32_shift_reg_code("shl32", r1, imm));
        assert(ctx.builder.frame().live =~= old(ctx).builder.frame().live);
        assert(ctx.builder.frame().live64 =~= old(ctx).builder.frame().live64);
        assert(ctx.builder.frame().ctrl =~= old(ctx).builder.frame().ctrl);
    }
}

/// `shr` of a 32-bit value in memory by an immediate.
pub fn instr32_C1_5_mem_jit(ctx: &mut JitContext, modrm_byte: u8)
    requires
        ready(old(ctx).builder, 8),
    ensures
        emits(*old(ctx), *final(ctx), rmw32_shift_mem_code("shr32", modrm_byte, old(ctx).builder.next_local), 1),
        restores_by(old(ctx).builder, final(ctx).builder, 0),
{
    rmw32_shift_mem(ctx, "shr32", modrm_byte);
    proof {
        assert(ctx.builder.code@ =~= old(ctx).builder.code@ + rmw32_shift_mem_code("shr32", modrm_byte, old(ctx).builder.next_local));
        assert(ctx.builder.frame().live =~= old(ctx).builder.frame().live);
        assert(ctx.builder.frame().live64 =~= old(ctx).builder.frame().live64);
        assert(ctx.builder.frame().ctrl =~= old(ctx).builder.frame().ctrl);
    }
}

/// `shr` of the 32-bit register `r1` by an immediate.
pub fn instr32_C1_5_reg_jit(ctx: &mut JitContext, r1: u32, imm: u32)
    requires
        ready(old(ctx).builder, 8),
        r1 < 8,
    ensures
        emits(*old(ctx), *final(ctx), rmw32_shift_reg_code("shr32", r1, imm), 0),
        restores_by(old(ctx).builder, final(ctx).builder, 0),
{
    rmw32_shift_reg(ctx, "shr32", r1, imm);
    proof {
        assert(ctx.builder.code@ =~= old(ctx).builder.code@ + rmw32_shift_reg_code("shr32", r1, imm));
        assert(ctx.builder.frame().live =~= old(ctx).builder.frame().live);
        assert(ctx.builder.frame().live64 =~= old(ctx).builder.frame().live64);
        assert(ctx.builder.frame().ctrl =~= old(ctx).builder.frame().ctrl);
    }
}

/// `shl` of a 32-bit value in memory by an immediate.
pub fn instr32_C1_6_mem_jit(ctx: &mut JitContext, modrm_byte: u8)
    requires
        ready(old(ctx).builder, 8),
    ensures
        emits(*old(ctx), *final(ctx), rmw32_shift_mem_code("shl32", modrm_byte, old(ctx).builder.next_local), 1),
        restores_by(old(ctx).builder, final(ctx).builder, 0),
{
    rmw32_shift_mem(ctx, "shl32", modrm_byte);
    proof {
        assert(ctx.builder.code@ =~= old(ctx).builder.code@ + rmw32_shift_mem_code("shl32", modrm_byte, old(ctx).builder.next_local));
        assert(ctx.builder.frame().live =~= old(ctx).builder.frame().live);
        assert(ctx.builder.frame().live64 =~= old(ctx).builder.frame().live64);
        assert(ctx.builder.frame().ctrl =~= old(ctx).builder.frame().ctrl);
    }
}

/// `shl` of the 32-bit register `r1` by an immediate.
pub fn instr32_C1_6_reg_jit(ctx: &mut JitContext, r1: u32, imm: u32)
    requires
        ready(old(ctx).builder, 8),
        r1 < 8,
    ensures
        emits(*old(ctx), *final(ctx), rmw32_shift_reg_code("shl32", r1, imm), 0),
        restores_by(old(ctx).builder, final(ctx).builder, 0),
{
    rmw32_shift_reg(ctx, "shl32", r1, imm);
    proof {
        assert(ctx.builder.code@ =~= old(ctx).builder.code@ + rmw32_shift_reg_code("shl32", r1, imm));
        assert(ctx.builder.frame().live =~= old(ctx).builder.frame().live);
        assert(ctx.builder.frame().live64 =~= old(ctx).builder.frame().live64);
        assert(ctx.builder.frame().ctrl =~= old(ctx).builder.frame().ctrl);
    }
}

/// `sar` of a 32-bit value in memory by an immediate.
pub fn instr32_C1_7_mem_jit(ctx: &mut JitContext, modrm_byte: u8)
    requires
        ready(old(ctx).builder, 8),
    ensures
        emits(*old(ctx), *final(ctx), rmw32_shift_mem_code("sar32", modrm_byte, old(ctx).builder.next_local), 1),
        restores_by(old(ctx).builder, final(ctx).builder, 0),
{
    rmw32_shift_mem(ctx, "sar32", modrm_byte);
    proof {
        assert(ctx.builder.code@ =~= old(ctx).builder.code@ + rmw32_shift_mem_code("sar32", modrm_byte, old(ctx).builder.next_local));
        assert(ctx.builder.frame().live =~= old(ctx).builder.frame().live);
        assert(ctx.builder.frame().live64 =~= old(ctx).builder.frame().live64);
        assert(ctx.builder.frame().ctrl =~= old(ctx).builder.frame().ctrl);
    }
}

/// `sar` of the 32-bit register `r1` by an immediate.
pub fn instr32_C1_7_reg_jit(ctx: &mut JitContext, r1: u32, imm: u32)
    requires
        ready(old(ctx).builder, 8),
        r1 < 8,
    ensures
        emits(*old(ctx), *final(ctx), rmw32_shift_reg_code("sar32", r1, imm), 0),
        restores_by(old(ctx).builder, final(ctx).builder, 0),
{
    rmw32_shift_reg(ctx, "sar32", r1, imm);
    proof {
        assert(ctx.builder.code@ =~= old(ctx).builder.code@ + rmw32_shift_reg_code("sar32", r1, imm));
        assert(ctx.builder.frame().live =~= old(ctx).builder.frame().live);
        assert(ctx.builder.frame().live64 =~= old(ctx).builder.frame().live64);
        assert(ctx.builder.frame().ctrl =~= old(ctx).builder.frame().ctrl);
    }
}

/// `rol` of a 8-bit value in memory by one.
pub fn instr_D0_0_mem_jit(ctx: &mut JitContext, modrm_byte: u8)
    requires
        ready(old(ctx).builder, 8),
    ensures
        emits(*old(ctx), *final(ctx), rmw8_one_mem_code("rol8", modrm_byte, old(ctx).builder.next_local), 1),
        restores_by(old(ctx).builder, final(ctx).builder, 0),
{
    rmw8_one_mem(ctx, "rol8", modrm_byte);
    proof {
        assert(ctx.builder.code@ =~= old(ctx).builder.code@ + rmw8_one_mem_code("rol8", modrm_byte, old(ctx).builder.next_local));
        assert(ctx.builder.frame().live =~= old(ctx).builder.frame().live);
        assert(ctx.builder.frame().live64 =~= old(ctx).builder.frame().live64);
        assert(ctx.builder.frame().ctrl =~= old(ctx).builder.frame().ctrl);
    }
}

/// `rol` of the 8-bit register `r1` by one.
pub fn instr_D0_0_reg_jit(ctx: &mut JitContext, r1: u32)
    requires
        ready(old(ctx).builder, 8),
        r1 < 8,
    ensures
        emits(*old(ctx), *final(ctx), rmw8_one_reg_code("rol8", r1), 0),
        restores_by(old(ctx).builder, final(ctx).builder, 0),
{
    rmw8_one_reg(ctx, "rol8", r1);
    proof {
        assert(ctx.builder.code@ =~= old(ctx).builder.code@ + rmw8_one_reg_code("rol8", r1));
        assert(ctx.builder.frame().live =~= old(ctx).builder.frame().live);
        assert(ctx.builder.frame().live64 =~= old(ctx).builder.frame().live64);
        assert(ctx.builder.frame().ctrl =~= old(ctx).builder.frame().ctrl);
    }
}

/// `ror` of a 8-bit value in memory by one.
pub fn instr_D0_1_mem_jit(ctx: &mut JitContext, modrm_byte: u8)
    requires
        ready(old(ctx).builder, 8),
    ensures
        emits(*old(ctx), *final(ctx), rmw8_one_mem_code("ror8", modrm_byte, old(ctx).builder.next_local), 1),
        restores_by(old(ctx).builder, final(ctx).builder, 0),
{
    rmw8_one_mem(ctx, "ror8", modrm_byte);
    proof {
        assert(ctx.builder.code@ =~= old(ctx).builder.code@ + rmw8_one_mem_code("ror8", modrm_byte, old(ctx).builder.next_local));
        assert(ctx.builder.frame().live =~= old(ctx).builder.frame().live);
        assert(ctx.builder.frame().live64 =~= old(ctx).builder.frame().live64);
        assert(ctx.builder.frame().ctrl =~= old(ctx).builder.frame().ctrl);
    }
}

/// `ror` of the 8-bit register `r1` by one.
pub fn instr_D0_1_reg_jit(ctx: &mut JitContext, r1: u32)
    requires
        ready(old(ctx).builder, 8),
        r1 < 8,
    ensures
        emits(*old(ctx), *final(ctx), rmw8_one_reg_code("ror8", r1), 0),
        restores_by(old(ctx).builder, final(ctx).builder, 0),
{
    rmw8_one_reg(ctx, "ror8", r1);
    proof {
        assert(ctx.builder.code@ =~= old(ctx).builder.code@ + rmw8_one_reg_code("ror8", r1));
        assert(ctx.builder.frame().live =~= old(ctx).builder.frame().live);
        assert(ctx.builder.frame().live64 =~= old(ctx).builder.frame().live64);
        assert(ctx.builder.frame().ctrl =~= old(ctx).builder.frame().ctrl);
    }
}

/// `rcl` of a 8-bit value in memory by one.
pub fn instr_D0_2_mem_jit(ctx: &mut JitContext, modrm_byte: u8)
    requires
        ready(old(ctx).builder, 8),
    ensures
        emits(*old(ctx), *final(ctx), rmw8_one_mem_code("rcl8", modrm_byte, old(ctx).builder.next_local), 1),
        restores_by(old(ctx).builder, final(ctx).builder, 0),
{
    rmw8_one_mem(ctx, "rcl8", modrm_byte);
    proof {
        assert(ctx.builder.code@ =~= old(ctx).builder.code@ + rmw8_one_mem_code("rcl8", modrm_byte, old(ctx).builder.next_local));
        assert(ctx.builder.frame().live =~= old(ctx).builder.frame().live);
        assert(ctx.builder.frame().live64 =~= old(ctx).builder.frame().live64);
        assert(ctx.builder.frame().ctrl =~= old(ctx).builder.frame().ctrl);
    }
}

/// `rcl` of the 8-bit register `r1` by one.
pub fn instr_D0_2_reg_jit(ctx: &mut JitContext, r1: u32)
    requires
        ready(old(ctx).builder, 8),
        r1 < 8,
    ensures
        emits(*old(ctx), *final(ctx), rmw8_one_reg_code("rcl8", r1), 0),
        restores_by(old(ctx).builder, final(ctx).builder, 0),
{
    rmw8_one_reg(ctx, "rcl8", r1);
    proof {
        assert(ctx.builder.code@ =~= old(ctx).builder.code@ + rmw8_one_reg_code("rcl8", r1));
        assert(ctx.builder.frame().live =~= old(ctx).builder.frame().live);
        assert(ctx.builder.frame().live64 =~= old(ctx).builder.frame().live64);
        assert(ctx.builder.frame().ctrl =~= old(ctx).builder.frame().ctrl);
    }
}

/// `rcr` of a 8-bit value in memory by one.
pub fn instr_D0_3_mem_jit(ctx: &mut JitContext, modrm_byte: u8)
    requires
        ready(old(ctx).builder, 8),
    ensures
        emits(*old(ctx), *final(ctx), rmw8_one_mem_code("rcr8", modrm_byte, old(ctx).builder.next_local), 1),
        restores_by(old(ctx).builder, final(ctx).builder, 0),
{
    rmw8_one_mem(ctx, "rcr8", modrm_byte);
    proof {
        assert(ctx.builder.code@ =~= old(ctx).builder.code@ + rmw8_one_mem_code("rcr8", modrm_byte, old(ctx).builder.next_local));
        assert(ctx.builder.frame().live =~= old(ctx).builder.frame().live);
        assert(ctx.builder.frame().live64 =~= old(ctx).builder.frame().live64);
        assert(ctx.builder.frame().ctrl =~= old(ctx).builder.frame().ctrl);
    }
}

/// `rcr` of the 8-bit register `r1` by one.
pub fn instr_D0_3_reg_jit(ctx: &mut JitContext, r1: u32)
    requires
        ready(old(ctx).builder, 8),
        r1 < 8,
    ensures
        emits(*old(ctx), *final(ctx), rmw8_one_reg_code("rcr8", r1), 0),
        restores_by(old(ctx).builder, final(ctx).builder, 0),
{
    rmw8_one_reg(ctx, "rcr8", r1);
    proof {
        assert(ctx.builder.code@ =~= old(ctx).builder.code@ + rmw8_one_reg_code("rcr8", r1));
        assert(ctx.builder.frame().live =~= old(ctx).builder.frame().live);
        assert(ctx.builder.frame().live64 =~= old(ctx).builder.frame().live64);
        assert(ctx.builder.frame().ctrl =~= old(ctx).builder.frame().ctrl);
    }
}

/// `shl` of a 8-bit value in memory by one.
pub fn instr_D0_4_mem_jit(ctx: &mut JitContext, modrm_byte: u8)
    requires
        ready(old(ctx).builder, 8),
    ensures
        emits(*old(ctx), *final(ctx), rmw8_one_mem_code("shl8", modrm_byte, old(ctx).builder.next_local), 1),
        restores_by(old(ctx).builder, final(ctx).builder, 0),
{
    rmw8_one_mem(ctx, "shl8", modrm_byte);
    proof {
        assert(ctx.builder.code@ =~= old(ctx).builder.code@ + rmw8_one_mem_code("shl8", modrm_byte, old(ctx).builder.next_local));
        assert(ctx.builder.frame().live =~= old(ctx).builder.frame().live);
        assert(ctx.builder.frame().live64 =~= old(ctx).builder.frame().live64);
        assert(ctx.builder.frame().ctrl =~= old(ctx).builder.frame().ctrl);
    }
}

/// `shl` of the 8-bit register `r1` by one.
pub fn instr_D0_4_reg_jit(ctx: &mut JitContext, r1: u32)
    requires
        ready(old(ctx).builder, 8),
        r1 < 8,
    ensures
        emits(*old(ctx), *final(ctx), rmw8_one_reg_code("shl8", r1), 0),
        restores_by(old(ctx).builder, final(ctx).builder, 0),
{
    rmw8_one_reg(ctx, "shl8", r1);
    proof {
        assert(ctx.builder.code@ =~= old(ctx).builder.code@ + rmw8_one_reg_code("shl8", r1));
        assert(ctx.builder.frame().live =~= old(ctx).builder.frame().live);
        assert(ctx.builder.frame().live64 =~= old(ctx).builder.frame().live64);
        assert(ctx.builder.frame().ctrl =~= old(ctx).builder.frame().ctrl);
    }
}

/// `shr` of a 8-bit value in memory by one.
pub fn instr_D0_5_mem_jit(ctx: &mut JitContext, modrm_byte: u8)
    requires
        ready(old(ctx).builder, 8),
    ensures
        emits(*old(ctx), *final(ctx), rmw8_one_mem_code("shr8", modrm_byte, old(ctx).builder.next_local), 1),
        restores_by(old(ctx).builder, final(ctx).builder, 0),
{
    rmw8_one_mem(ctx, "shr8", modrm_byte);
    proof {
        assert(ctx.builder.code@ =~= old(ctx).builder.code@ + rmw8_one_mem_code("shr8", modrm_byte, old(ctx).builder.next_local));
        assert(ctx.builder.frame().live =~= old(ctx).builder.frame().live);
        assert(ctx.builder.frame().live64 =~= old(ctx).builder.frame().live64);
        assert(ctx.builder.frame().ctrl =~= old(ctx).builder.frame().ctrl);
    }
}

/// `shr` of the 8-bit register `r1` by one.
pub fn instr_D0_5_reg_jit(ctx: &mut JitContext, r1: u32)
    requires
        ready(old(ctx).builder, 8),
        r1 < 8,
    ensures
        emits(*old(ctx), *final(ctx), rmw8_one_reg_code("shr8", r1), 0),
        restores_by(old(ctx).builder, final(ctx).builder, 0),
{
    rmw8_one_reg(ctx, "shr8", r1);
    proof {
        assert(ctx.builder.code@ =~= old(ctx).builder.code@ + rmw8_one_reg_code("shr8", r1));
        assert(ctx.builder.frame().live =~= old(ctx).builder.frame().live);
        assert(ctx.builder.frame().live64 =~= old(ctx).builder.frame().live64);
        assert(ctx.builder.frame().ctrl =~= old(ctx).builder.frame().ctrl);
    }
}

/// `shl` of a 8-bit value in memory by one.
pub fn instr_D0_6_mem_jit(ctx: &mut JitContext, modrm_byte: u8)
    requires
        ready(old(ctx).builder, 8),
    ensures
        emits(*old(ctx), *final(ctx), rmw8_one_mem_code("shl8", modrm_byte, old(ctx).builder.next_local), 1),
        restores_by(old(ctx).builder, final(ctx).builder, 0),
{
    rmw8_one_mem(ctx, "shl8", modrm_byte);
    proof {
        assert(ctx.builder.code@ =~= old(ctx).builder.code@ + rmw8_one_mem_code("shl8", modrm_byte, old(ctx).builder.next_local));
        assert(ctx.builder.frame().live =~= old(ctx).builder.frame().live);
        assert(ctx.builder.frame().live64 =~= old(ctx).builder.frame().live64);
        assert(ctx.builder.frame().ctrl =~= old(ctx).builder.frame().ctrl);
    }
}

/// `shl` of the 8-bit register `r1` by one.
pub fn instr_D0_6_reg_jit(ctx: &mut JitContext, r1: u32)
    requires
        ready(old(ctx).builder, 8),
        r1 < 8,
    ensures
        emits(*old(ctx), *final(ctx), rmw8_one_reg_code("shl8", r1), 0),
        restores_by(old(ctx).builder, final(ctx).builder, 0),
{
    rmw8_one_reg(ctx, "shl8", r1);
    proof {
        assert(ctx.builder.code@ =~= old(ctx).builder.code@ + rmw8_one_reg_code("shl8", r1));
        assert(ctx.builder.frame().live =~= old(ctx).builder.frame().live);
        assert(ctx.builder.frame().live64 =~= old(ctx).builder.frame().live64);
        assert(ctx.builder.frame().ctrl =~= old(ctx).builder.frame().ctrl);
    }
}

/// `sar` of a 8-bit value in memory by one.
pub fn instr_D0_7_mem_jit(ctx: &mut JitContext, modrm_byte: u8)
    requires
        ready(old(ctx).builder, 8),
    ensures
        emits(*old(ctx), *final(ctx), rmw8_one_mem_code("sar8", modrm_byte, old(ctx).builder.next_local), 1),
        restores_by(old(ctx).builder, final(ctx).builder, 0),
{
    rmw8_one_mem(ctx, "sar8", modrm_byte);
    proof {
        assert(ctx.builder.code@ =~= old(ctx).builder.code@ + rmw8_one_mem_code("sar8", modrm_byte, old(ctx).builder.next_local));
        assert(ctx.builder.frame().live =~= old(ctx).builder.frame().live);
        assert(ctx.builder.frame().live64 =~= old(ctx).builder.frame().live64);
        assert(ctx.builder.frame().ctrl =~= old(ctx).builder.frame().ctrl);
    }
}

/// `sar` of the 8-bit register `r1` by one.
pub fn instr_D0_7_reg_jit(ctx: &mut JitContext, r1: u32)
    requires
        ready(old(ctx).builder, 8),
        r1 < 8,
    ensures
        emits(*old(ctx), *final(ctx), rmw8_one_reg_code("sar8", r1), 0),
        restores_by(old(ctx).builder, final(ctx).builder, 0),
{
    rmw8_one_reg(ctx, "sar8", r1);
    proof {
        assert(ctx.builder.code@ =~= old(ctx).builder.code@ + rmw8_one_reg_code("sar8", r1));
        assert(ctx.builder.frame().live =~= old(ctx).builder.frame().live);
        assert(ctx.builder.frame().live64 =~= old(ctx).builder.frame().live64);
        assert(ctx.builder.frame().ctrl =~= old(ctx).builder.frame().ctrl);
    }
}

/// `rol` of a 16-bit value in memory by one.
pub fn instr16_D1_0_mem_jit(ctx: &mut JitContext, modrm_byte: u8)
    requires
        ready(old(ctx).builder, 8),
    ensures
        emits(*old(ctx), *final(ctx), rmw16_one_mem_code("rol16", modrm_byte, old(ctx).builder.next_local), 1),
        restores_by(old(ctx).builder, final(ctx).builder, 0),
{
    rmw16_one_mem(ctx, "rol16", modrm_byte);
    proof {
        assert(ctx.builder.code@ =~= old(ctx).builder.code@ + rmw16_one_mem_code("rol16", modrm_byte, old(ctx).builder.next_local));
        assert(ctx.builder.frame().live =~= old(ctx).builder.frame().live);
        assert(ctx.builder.frame().live64 =~= old(ctx).builder.frame().live64);
        assert(ctx.builder.frame().ctrl =~= old(ctx).builder.frame().ctrl);
    }
}

/// `rol` of the 16-bit register `r1` by one.
pub fn instr16_D1_0_reg_jit(ctx: &mut JitContext, r1: u32)
    requires
        ready(old(ctx).builder, 8),
        r1 < 8,
    ensures
        emits(*old(ctx), *final(ctx), rmw16_one_reg_code("rol16", r1), 0),
        restores_by(old(ctx).builder, final(ctx).builder, 0),
{
    rmw16_one_reg(ctx, "rol16", r1);
    proof {
        assert(ctx.builder.code@ =~= old(ctx).builder.code@ + rmw16_one_reg_code("rol16", r1));
        assert(ctx.builder.frame().live =~= old(ctx).builder.frame().live);
        assert(ctx.builder.frame().live64 =~= old(ctx).builder.frame().live64);
        assert(ctx.builder.frame().ctrl =~= old(ctx).builder.frame().ctrl);
    }
}

/// `ror` of a 16-bit value in memory by one.
pub fn instr16_D1_1_mem_jit(ctx: &mut JitContext, modrm_byte: u8)
    requires
        ready(old(ctx).builder, 8),
    ensures
        emits(*old(ctx), *final(ctx), rmw16_one_mem_code("ror16", modrm_byte, old(ctx).builder.next_local), 1),
        restores_by(old(ctx).builder, final(ctx).builder, 0),
{
    rmw16_one_mem(ctx, "ror16", modrm_byte);
    proof {
        assert(ctx.builder.code@ =~= old(ctx).builder.code@ + rmw16_one_mem_code("ror16", modrm_byte, old(ctx).builder.next_local));
        assert(ctx.builder.frame().live =~= old(ctx).builder.frame().live);
        assert(ctx.builder.frame().live64 =~= old(ctx).builder.frame().live64);
        assert(ctx.builder.frame().ctrl =~= old(ctx).builder.frame().ctrl);
    }
}

/// `ror` of the 16-bit register `r1` by one.
pub fn instr16_D1_1_reg_jit(ctx: &mut JitContext, r1: u32)
    requires
        ready(old(ctx).builder, 8),
        r1 < 8,
    ensures
        emits(*old(ctx), *final(ctx), rmw16_one_reg_code("ror16", r1), 0),
        restores_by(old(ctx).builder, final(ctx).builder, 0),
{
    rmw16_one_reg(ctx, "ror16", r1);
    proof {
        assert(ctx.builder.code@ =~= old(ctx).builder.code@ + rmw16_one_reg_code("ror16", r1));
        assert(ctx.builder.frame().live =~= old(ctx).builder.frame().live);
        assert(ctx.builder.frame().live64 =~= old(ctx).builder.frame().live64);
        assert(ctx.builder.frame().ctrl =~= old(ctx).builder.frame().ctrl);
    }
}

/// `rcl` of a 16-bit value in memory by one.
pub fn instr16_D1_2_mem_jit(ctx: &mut JitContext, modrm_byte: u8)
    requires
        ready(old(ctx).builder, 8),
    ensures
        emits(*old(ctx), *final(ctx), rmw16_one_mem_code("rcl16", modrm_byte, old(ctx).builder.next_local), 1),
        restores_by(old(ctx).builder, final(ctx).builder, 0),
{
    rmw16_one_mem(ctx, "rcl16", modrm_byte);
    proof {
        assert(ctx.builder.code@ =~= old(ctx).builder.code@ + rmw16_one_mem_code("rcl16", modrm_byte, old(ctx).builder.next_local));
        assert(ctx.builder.frame().live =~= old(ctx).builder.frame().live);
        assert(ctx.builder.frame().live64 =~= old(ctx).builder.frame().live64);
        assert(ctx.builder.frame().ctrl =~= old(ctx).builder.frame().ctrl);
    }
}

/// `rcl` of the 16-bit register `r1` by one.
pub fn instr16_D1_2_reg_jit(ctx: &mut JitContext, r1: u32)
    requires
        ready(old(ctx).builder, 8),
        r1 < 8,
    ensures
        emits(*old(ctx), *final(ctx), rmw16_one_reg_code("rcl16", r1), 0),
        restores_by(old(ctx).builder, final(ctx).builder, 0),
{
    rmw16_one_reg(ctx, "rcl16", r1);
    proof {
        assert(ctx.builder.code@ =~= old(ctx).builder.code@ + rmw16_one_reg_code("rcl16", r1));
        assert(ctx.builder.frame().live =~= old(ctx).builder.frame().live);
        assert(ctx.builder.frame().live64 =~= old(ctx).builder.frame().live64);
        assert(ctx.builder.frame().ctrl =~= old(ctx).builder.frame().ctrl);
    }
}

/// `rcr` of a 16-bit value in memory by one.
pub fn instr16_D1_3_mem_jit(ctx: &mut JitContext, modrm_byte: u8)
    requires
        ready(old(ctx).builder, 8),
    ensures
        emits(*old(ctx), *final(ctx), rmw16_one_mem_code("rcr16", modrm_byte, old(ctx).builder.next_local), 1),
        restores_by(old(ctx).builder, final(ctx).builder, 0),
{
    rmw16_one_mem(ctx, "rcr16", modrm_byte);
    proof {
        assert(ctx.builder.code@ =~= old(ctx).builder.code@ + rmw16_one_mem_code("rcr16", modrm_byte, old(ctx).builder.next_local));
        assert(ctx.builder.frame().live =~= old(ctx).builder.frame().live);
        assert(ctx.builder.frame().live64 =~= old(ctx).builder.frame().live64);
        assert(ctx.builder.frame().ctrl =~= old(ctx).builder.frame().ctrl);
    }
}

/// `rcr` of the 16-bit register `r1` by one.
pub fn instr16_D1_3_reg_jit(ctx: &mut JitContext, r1: u32)
    requires
        ready(old(ctx).builder, 8),
        r1 < 8,
    ensures
        emits(*old(ctx), *final(ctx), rmw16_one_reg_code("rcr16", r1), 0),
        restores_by(old(ctx).builder, final(ctx).builder, 0),
{
    rmw16_one_reg(ctx, "rcr16", r1);
    proof {
        assert(ctx.builder.code@ =~= old(ctx).builder.code@ + rmw16_one_reg_code("rcr16", r1));
        assert(ctx.builder.frame().live =~= old(ctx).builder.frame().live);
        assert(ctx.builder.frame().live64 =~= old(ctx).builder.frame().live64);
        assert(ctx.builder.frame().ctrl =~= old(ctx).builder.frame().ctrl);
    }
}

/// `shl` of a 16-bit value in memory by one.
pub fn instr16_D1_4_mem_jit(ctx: &mut JitContext, modrm_byte: u8)
    requires
        ready(old(ctx).builder, 8),
    ensures
        emits(*old(ctx), *final(ctx), rmw16_one_mem_code("shl16", modrm_byte, old(ctx).builder.next_local), 1),
        restores_by(old(ctx).builder, final(ctx).builder, 0),
{
    rmw16_one_mem(ctx, "shl16", modrm_byte);
    proof {
        assert(ctx.builder.code@ =~= old(ctx).builder.code@ + rmw16_one_mem_code("shl16", modrm_byte, old(ctx).builder.next_local));
        assert(ctx.builder.frame().live =~= old(ctx).builder.frame().live);
        assert(ctx.builder.frame().live64 =~= old(ctx).builder.frame().live64);
        assert(ctx.builder.frame().ctrl =~= old(ctx).builder.frame().ctrl);
    }
}

/// `shl` of the 16-bit register `r1` by one.
pub fn instr16_D1_4_reg_jit(ctx: &mut JitContext, r1: u32)
    requires
        ready(old(ctx).builder, 8),
        r1 < 8,
    ensures
        emits(*old(ctx), *final(ctx), rmw16_one_reg_code("shl16", r1), 0),
        restores_by(old(ctx).builder, final(ctx).builder, 0),
{
    rmw16_one_reg(ctx, "shl16", r1);
    proof {
        assert(ctx.builder.code@ =~= old(ctx).builder.code@ + rmw16_one_reg_code("shl16", r1));
        assert(ctx.builder.frame().live =~= old(ctx).builder.frame().live);
        assert(ctx.builder.frame().live64 =~= old(ctx).builder.frame().live64);
        assert(ctx.builder.frame().ctrl =~= old(ctx).builder.frame().ctrl);
    }
}

/// `shr` of a 16-bit value in memory by one.
pub fn instr16_D1_5_mem_jit(ctx: &mut JitContext, modrm_byte: u8)
    requires
        ready(old(ctx).builder, 8),
    ensures
        emits(*old(ctx), *final(ctx), rmw16_one_mem_code("shr16", modrm_byte, old(ctx).builder.next_local), 1),
        restores_by(old(ctx).builder, final(ctx).builder, 0),
{
    rmw16_one_mem(ctx, "shr16", modrm_byte);
    proof {
        assert(ctx.builder.code@ =~= old(ctx).builder.code@ + rmw16_one_mem_code("shr16", modrm_byte, old(ctx).builder.next_local));
        assert(ctx.builder.frame().live =~= old(ctx).builder.frame().live);
        assert(ctx.builder.frame().live64 =~= old(ctx).builder.frame().live64);
        assert(ctx.builder.frame().ctrl =~= old(ctx).builder.frame().ctrl);
    }
}

/// `shr` of the 16-bit register `r1` by one.
pub fn instr16_D1_5_reg_jit(ctx: &mut JitContext, r1: u32)
    requires
        ready(old(ctx).builder, 8),
        r1 < 8,
    ensures
        emits(*old(ctx), *final(ctx), rmw16_one_reg_code("shr16", r1), 0),
        restores_by(old(ctx).builder, final(ctx).builder, 0),
{
    rmw16_one_reg(ctx, "shr16", r1);
    proof {
        assert(ctx.builder.code@ =~= old(ctx).builder.code@ + rmw16_one_reg_code("shr16", r1));
        assert(ctx.builder.frame().live =~= old(ctx).builder.frame().live);
        assert(ctx.builder.frame().live64 =~= old(ctx).builder.frame().live64);
        assert(ctx.builder.frame().ctrl =~= old(ctx).builder.frame().ctrl);
    }
}

/// `shl` of a 16-bit value in memory by one.
pub fn instr16_D1_6_mem_jit(ctx: &mut JitContext, modrm_byte: u8)
    requires
        ready(old(ctx).builder, 8),
    ensures
        emits(*old(ctx), *final(ctx), rmw16_one_mem_code("shl16", modrm_byte, old(ctx).builder.next_local), 1),
        restores_by(old(ctx).builder, final(ctx).builder, 0),
{
    rmw16_one_mem(ctx, "shl16", modrm_byte);
    proof {
        assert(ctx.builder.code@ =~= old(ctx).builder.code@ + rmw16_one_mem_code("shl16", modrm_byte, old(ctx).builder.next_local));
        assert(ctx.builder.frame().live =~= old(ctx).builder.frame().live);
        assert(ctx.builder.frame().live64 =~= old(ctx).builder.frame().live64);
        assert(ctx.builder.frame().ctrl =~= old(ctx).builder.frame().ctrl);
    }
}

/// `shl` of the 16-bit register `r1` by one.
pub fn instr16_D1_6_reg_jit(ctx: &mut JitContext, r1: u32)
    requires
        ready(old(ctx).builder, 8),
        r1 < 8,
    ensures
        emits(*old(ctx), *final(ctx), rmw16_one_reg_code("shl16", r1), 0),
        restores_by(old(ctx).builder, final(ctx).builder, 0),
{
    rmw16_one_reg(ctx, "shl16", r1);
    proof {
        assert(ctx.builder.code@ =~= old(ctx).builder.code@ + rmw16_one_reg_code("shl16", r1));
        assert(ctx.builder.frame().live =~= old(ctx).builder.frame().live);
        assert(ctx.builder.frame().live64 =~= old(ctx).builder.frame().live64);
        assert(ctx.builder.frame().ctrl =~= old(ctx).builder.frame().ctrl);
    }
}

/// `sar` of a 16-bit value in memory by one.
pub fn instr16_D1_7_mem_jit(ctx: &mut JitContext, modrm_byte: u8)
    requires
        ready(old(ctx).builder, 8),
    ensures
        emits(*old(ctx), *final(ctx), rmw16_one_mem_code("sar16", modrm_byte, old(ctx).builder.next_local), 1),
        restores_by(old(ctx).builder, final(ctx).builder, 0),
{
    rmw16_one_mem(ctx, "sar16", modrm_byte);
    proof {
        assert(ctx.builder.code@ =~= old(ctx).builder.code@ + rmw16_one_mem_code("sar16", modrm_byte, old(ctx).builder.next_local));
        assert(ctx.builder.frame().live =~= old(ctx).builder.frame().live);
        assert(ctx.builder.frame().live64 =~= old(ctx).builder.frame().live64);
        assert(ctx.builder.frame().ctrl =~= old(ctx).builder.frame().ctrl);
    }
}

/// `sar` of the 16-bit register `r1` by one.
pub fn instr16_D1_7_reg_jit(ctx: &mut JitContext, r1: u32)
    requires
        ready(old(ctx).builder, 8),
        r1 < 8,
    ensures
        emits(*old(ctx), *final(ctx), rmw16_one_reg_code("sar16", r1), 0),
        restores_by(old(ctx).builder, final(ctx).builder, 0),
{
    rmw16_one_reg(ctx, "sar16", r1);
    proof {
        assert(ctx.builder.code@ =~= old(ctx).builder.code@ + rmw16_one_reg_code("sar16", r1));
        assert(ctx.builder.frame().live =~= old(ctx).builder.frame().live);
        assert(ctx.builder.frame().live64 =~= old(ctx).builder.frame().live64);
        assert(ctx.builder.frame().ctrl =~= old(ctx).builder.frame().ctrl);
    }
}

/// `rol` of a 32-bit value in memory by one.
pub fn instr32_D1_0_mem_jit(ctx: &mut JitContext, modrm_byte: u8)
    requires
        ready(old(ctx).builder, 8),
    ensures
        emits(*old(ctx), *final(ctx), rmw32_one_mem_code("rol32", modrm_byte, old(ctx).builder.next_local), 1),
        restores_by(old(ctx).builder, final(ctx).builder, 0),
{
    rmw32_one_mem(ctx, "rol32", modrm_byte);
    proof {
        assert(ctx.builder.code@ =~= old(ctx).builder.code@ + rmw32_one_mem_code("rol32", modrm_byte, old(ctx).builder.next_local));
        assert(ctx.builder.frame().live =~= old(ctx).builder.frame().live);
        assert(ctx.builder.frame().live64 =~= old(ctx).builder.frame().live64);
        assert(ctx.builder.frame().ctrl =~= old(ctx).builder.frame().ctrl);
    }
}

/// `rol` of the 32-bit register `r1` by one.
pub fn instr32_D1_0_reg_jit(ctx: &mut JitContext, r1: u32)
    requires
        ready(old(ctx).builder, 8),
        r1 < 8,
    ensures
        emits(*old(ctx), *final(ctx), rmw32_one_reg_code("rol32", r1), 0),
        restores_by(old(ctx).builder, final(ctx).builder, 0),
{
    rmw32_one_reg(ctx, "rol32", r1);
    proof {
        assert(ctx.builder.code@ =~= old(ctx).builder.code@ + rmw32_one_reg_code("rol32", r1));
        assert(ctx.builder.frame().live =~= old(ctx).builder.frame().live);
        assert(ctx.builder.frame().live64 =~= old(ctx).builder.frame().live64);
        assert(ctx.builder.frame().ctrl =~= old(ctx).builder.frame().ctrl);
    }
}

/// `ror` of a 32-bit value in memory by one.
pub fn instr32_D1_1_mem_jit(ctx: &mut JitContext, modrm_byte: u8)
    requires
        ready(old(ctx).builder, 8),
    ensures
        emits(*old(ctx), *final(ctx), rmw32_one_mem_code("ror32", modrm_byte, old(ctx).builder.next_local), 1),
        restores_by(old(ctx).builder, final(ctx).builder, 0),
{
    rmw32_one_mem(ctx, "ror32", modrm_byte);
    proof {
        assert(ctx.builder.code@ =~= old(ctx).builder.code@ + rmw32_one_mem_code("ror32", modrm_byte, old(ctx).builder.next_local));
        assert(ctx.builder.frame().live =~= old(ctx).builder.frame().live);
        assert(ctx.builder.frame().live64 =~= old(ctx).builder.frame().live64);
        assert(ctx.builder.frame().ctrl =~= old(ctx).builder.frame().ctrl);
    }
}

/// `ror` of the 32-bit register `r1` by one.
pub fn instr32_D1_1_reg_jit(ctx: &mut JitContext, r1: u32)
    requires
        ready(old(ctx).builder, 8),
        r1 < 8,
    ensures
        emits(*old(ctx), *final(ctx), rmw32_one_reg_code("ror32", r1), 0),
        restores_by(old(ctx).builder, final(ctx).builder, 0),
{
    rmw32_one_reg(ctx, "ror32", r1);
    proof {
        assert(ctx.builder.code@ =~= old(ctx).builder.code@ + rmw32_one_reg_code("ror32", r1));
        assert(ctx.builder.frame().live =~= old(ctx).builder.frame().live);
        assert(ctx.builder.frame().live64 =~= old(ctx).builder.frame().live64);
        assert(ctx.builder.frame().ctrl =~= old(ctx).builder.frame().ctrl);
    }
}

/// `rcl` of a 32-bit value in memory by one.
pub fn instr32_D1_2_mem_jit(ctx: &mut JitContext, modrm_byte: u8)
    requires
        ready(old(ctx).builder, 8),
    ensures
        emits(*old(ctx), *final(ctx), rmw32_one_mem_code("rcl32", modrm_byte, old(ctx).builder.next_local), 1),
        restores_by(old(ctx).builder, final(ctx).builder, 0),
{
    rmw32_one_mem(ctx, "rcl32", modrm_byte);
    proof {
        assert(ctx.builder.code@ =~= old(ctx).builder.code@ + rmw32_one_mem_code("rcl32", modrm_byte, old(ctx).builder.next_local));
        assert(ctx.builder.frame().live =~= old(ctx).builder.frame().live);
        assert(ctx.builder.frame().live64 =~= old(ctx).builder.frame().live64);
        assert(ctx.builder.frame().ctrl =~= old(ctx).builder.frame().ctrl);
    }
}

/// `rcl` of the 32-bit register `r1` by one.
pub fn instr32_D1_2_reg_jit(ctx: &mut JitContext, r1: u32)
    requires
        ready(old(ctx).builder, 8),
        r1 < 8,
    ensures
        emits(*old(ctx), *final(ctx), rmw32_one_reg_code("rcl32", r1), 0),
        restores_by(old(ctx).builder, final(ctx).builder, 0),
{
    rmw32_one_reg(ctx, "rcl32", r1);
    proof {
        assert(ctx.builder.code@ =~= old(ctx).builder.code@ + rmw32_one_reg_code("rcl32", r1));
        assert(ctx.builder.frame().live =~= old(ctx).builder.frame().live);
        assert(ctx.builder.frame().live64 =~= old(ctx).builder.frame().live64);
        assert(ctx.builder.frame().ctrl =~= old(ctx).builder.frame().ctrl);
    }
}

/// `rcr` of a 32-bit value in memory by one.
pub fn instr32_D1_3_mem_jit(ctx: &mut JitContext, modrm_byte: u8)
    requires
        ready(old(ctx).builder, 8),
    ensures
        emits(*old(ctx), *final(ctx), rmw32_one_mem_code("rcr32", modrm_byte, old(ctx).builder.next_local), 1),
        restores_by(old(ctx).builder, final(ctx).builder, 0),
{
    rmw32_one_mem(ctx, "rcr32", modrm_byte);
    proof {
        assert(ctx.builder.code@ =~= old(ctx).builder.code@ + rmw32_one_mem_code("rcr32", modrm_byte, old(ctx).builder.next_local));
        assert(ctx.builder.frame().live =~= old(ctx).builder.frame().live);
        assert(ctx.builder.frame().live64 =~= old(ctx).builder.frame().live64);
        assert(ctx.builder.frame().ctrl =~= old(ctx).builder.frame().ctrl);
    }
}

/// `rcr` of the 32-bit register `r1` by one.
pub fn instr32_D1_3_reg_jit(ctx: &mut JitContext, r1: u32)
    requires
        ready(old(ctx).builder, 8),
        r1 < 8,
    ensures
        emits(*old(ctx), *final(ctx), rmw32_one_reg_code("rcr32", r1), 0),
        restores_by(old(ctx).builder, final(ctx).builder, 0),
{
    rmw32_one_reg(ctx, "rcr32", r1);
    proof {
        assert(ctx.builder.code@ =~= old(ctx).builder.code@ + rmw32_one_reg_code("rcr32", r1));
        assert(ctx.builder.frame().live =~= old(ctx).builder.frame().live);
        assert(ctx.builder.frame().live64 =~= old(ctx).builder.frame().live64);
        assert(ctx.builder.frame().ctrl =~= old(ctx).builder.frame().ctrl);
    }
}

/// `shl` of a 32-bit value in memory by one.
pub fn instr32_D1_4_mem_jit(ctx: &mut JitContext, modrm_byte: u8)
    requires
        ready(old(ctx).builder, 8),
    ensures
        emits(*old(ctx), *final(ctx), rmw32_one_mem_code("shl32", modrm_byte, old(ctx).builder.next_local), 1),
        restores_by(old(ctx).builder, final(ctx).builder, 0),
{
    rmw32_one_mem(ctx, "shl32", modrm_byte);
    proof {
        assert(ctx.builder.code@ =~= old(ctx).builder.code@ + rmw32_one_mem_code("shl32", modrm_byte, old(ctx).builder.next_local));
        assert(ctx.builder.frame().live =~= old(ctx).builder.frame().live);
        assert(ctx.builder.frame().live64 =~= old(ctx).builder.frame().live64);
        assert(ctx.builder.frame().ctrl =~= old(ctx).builder.frame().ctrl);
    }
}

/// `shl` of the 32-bit register `r1` by one.
pub fn instr32_D1_4_reg_jit(ctx: &mut JitContext, r1: u32)
    requires
        ready(old(ctx).builder, 8),
        r1 < 8,
    ensures
        emits(*old(ctx), *final(ctx), rmw32_one_reg_code("shl32", r1), 0),
        restores_by(old(ctx).builder, final(ctx).builder, 0),
{
    rmw32_one_reg(ctx, "shl32", r1);
    proof {
        assert(ctx.builder.code@ =~= old(ctx).builder.code@ + rmw32_one_reg_code("shl32", r1));
        assert(ctx.builder.frame().live =~= old(ctx).builder.frame().live);
        assert(ctx.builder.frame().live64 =~= old(ctx).builder.frame().live64);
        assert(ctx.builder.frame().ctrl =~= old(ctx).builder.frame().ctrl);
    }
}

/// `shr` of a 32-bit value in memory by one.
pub fn instr32_D1_5_mem_jit(ctx: &mut JitContext, modrm_byte: u8)
    requires
        ready(old(ctx).builder, 8),
    ensures
        emits(*old(ctx), *final(ctx), rmw32_one_mem_code("shr32", modrm_byte, old(ctx).builder.next_local), 1),
        restores_by(old(ctx).builder, final(ctx).builder, 0),
{
    rmw32_one_mem(ctx, "shr32", modrm_byte);
    proof {
        assert(ctx.builder.code@ =~= old(ctx).builder.code@ + rmw32_one_mem_code("shr32", modrm_byte, old(ctx).builder.next_local));
        assert(ctx.builder.frame().live =~= old(ctx).builder.frame().live);
        assert(ctx.builder.frame().live64 =~= old(ctx).builder.frame().live64);
        assert(ctx.builder.frame().ctrl =~= old(ctx).builder.frame().ctrl);
    }
}

/// `shr` of the 32-bit register `r1` by one.
pub fn instr32_D1_5_reg_jit(ctx: &mut JitContext, r1: u32)
    requires
        ready(old(ctx).builder, 8),
        r1 < 8,
    ensures
        emits(*old(ctx), *final(ctx), rmw32_one_reg_code("shr32", r1), 0),
        restores_by(old(ctx).builder, final(ctx).builder, 0),
{
    rmw32_one_reg(ctx, "shr32", r1);
    proof {
        assert(ctx.builder.code@ =~= old(ctx).builder.code@ + rmw32_one_reg_code("shr32", r1));
        assert(ctx.builder.frame().live =~= old(ctx).builder.frame().live);
        assert(ctx.builder.frame().live64 =~= old(ctx).builder.frame().live64);
        assert(ctx.builder.frame().ctrl =~= old(ctx).builder.frame().ctrl);
    }
}

/// `shl` of a 32-bit value in memory by one.
pub fn instr32_D1_6_mem_jit(ctx: &mut JitContext, modrm_byte: u8)
    requires
        ready(old(ctx).builder, 8),
    ensures
        emits(*old(ctx), *final(ctx), rmw32_one_mem_code("shl32", modrm_byte, old(ctx).builder.next_local), 1),
        restores_by(old(ctx).builder, final(ctx).builder, 0),
{
    rmw32_one_mem(ctx, "shl32", modrm_byte);
    proof {
        assert(ctx.builder.code@ =~= old(ctx).builder.code@ + rmw32_one_mem_code("shl32", modrm_byte, old(ctx).builder.next_local));
        assert(ctx.builder.frame().live =~= old(ctx).builder.frame().live);
        assert(ctx.builder.frame().live64 =~= old(ctx).builder.frame().live64);
        assert(ctx.builder.frame().ctrl =~= old(ctx).builder.frame().ctrl);
    }
}

/// `shl` of the 32-bit register `r1` by one.
pub fn instr32_D1_6_reg_jit(ctx: &mut JitContext, r1: u32)
    requires
        ready(old(ctx).builder, 8),
        r1 < 8,
    ensures
        emits(*old(ctx), *final(ctx), rmw32_one_reg_code("shl32", r1), 0),
        restores_by(old(ctx).builder, final(ctx).builder, 0),
{
    rmw32_one_reg(ctx, "shl32", r1);
    proof {
        assert(ctx.builder.code@ =~= old(ctx).builder.code@ + rmw32_one_reg_code("shl32", r1));
        assert(ctx.builder.frame().live =~= old(ctx).builder.frame().live);
        assert(ctx.builder.frame().live64 =~= old(ctx).builder.frame().live64);
        assert(ctx.builder.frame().ctrl =~= old(ctx).builder.frame().ctrl);
    }
}

/// `sar` of a 32-bit value in memory by one.
pub fn instr32_D1_7_mem_jit(ctx: &mut JitContext, modrm_byte: u8)
    requires
        ready(old(ctx).builder, 8),
    ensures
        emits(*old(ctx), *final(ctx), rmw32_one_mem_code("sar32", modrm_byte, old(ctx).builder.next_local), 1),
        restores_by(old(ctx).builder, final(ctx).builder, 0),
{
    rmw32_one_mem(ctx, "sar32", modrm_byte);
    proof {
        assert(ctx.builder.code@ =~= old(ctx).builder.code@ + rmw32_one_mem_code("sar32", modrm_byte, old(ctx).builder.next_local));
        assert(ctx.builder.frame().live =~= old(ctx).builder.frame().live);
        assert(ctx.builder.frame().live64 =~= old(ctx).builder.frame().live64);
        assert(ctx.builder.frame().ctrl =~= old(ctx).builder.frame().ctrl);
    }
}

/// `sar` of the 32-bit register `r1` by one.
pub fn instr32_D1_7_reg_jit(ctx: &mut JitContext, r1: u32)
    requires
        ready(old(ctx).builder, 8),
        r1 < 8,
    ensures
        emits(*old(ctx), *final(ctx), rmw32_one_reg_code("sar32", r1), 0),
        restores_by(old(ctx).builder, final(ctx).builder, 0),
{
    rmw32_one_reg(ctx, "sar32", r1);
    proof {
        assert(ctx.builder.code@ =~= old(ctx).builder.code@ + rmw32_one_reg_code("sar32", r1));
        assert(ctx.builder.frame().live =~= old(ctx).builder.frame().live);
        assert(ctx.builder.frame().live64 =~= old(ctx).builder.frame().live64);
        assert(ctx.builder.frame().ctrl =~= old(ctx).builder.frame().ctrl);
    }
}

/// `rol` of a 8-bit value in memory by CL.
pub fn instr_D2_0_mem_jit(ctx: &mut JitContext, modrm_byte: u8)
    requires
        ready(old(ctx).builder, 8),
    ensures
        emits(*old(ctx), *final(ctx), rmw8_cl_mem_code("rol8", modrm_byte, old(ctx).builder.next_local), 1),
        restores_by(old(ctx).builder, final(ctx).builder, 0),
{
    rmw8_cl_mem(ctx, "rol8", modrm_byte);
    proof {
        assert(ctx.builder.code@ =~= old(ctx).builder.code@ + rmw8_cl_mem_code("rol8", modrm_byte, old(ctx).builder.next_local));
        assert(ctx.builder.frame().live =~= old(ctx).builder.frame().live);
        assert(ctx.builder.frame().live64 =~= old(ctx).builder.frame().live64);
        assert(ctx.builder.frame().ctrl =~= old(ctx).builder.frame().ctrl);
    }
}

/// `rol` of the 8-bit register `r1` by CL.
pub fn instr_D2_0_reg_jit(ctx: &mut JitContext, r1: u32)
    requires
        ready(old(ctx).builder, 8),
        r1 < 8,
    ensures
        emits(*old(ctx), *final(ctx), rmw8_cl_reg_code("rol8", r1), 0),
        restores_by(old(ctx).builder, final(ctx).builder, 0),
{
    rmw8_cl_reg(ctx, "rol8", r1);
    proof {
        assert(ctx.builder.code@ =~= old(ctx).builder.code@ + rmw8_cl_reg_code("rol8", r1));
        assert(ctx.builder.frame().live =~= old(ctx).builder.frame().live);
        assert(ctx.builder.frame().live64 =~= old(ctx).builder.frame().live64);
        assert(ctx.builder.frame().ctrl =~= old(ctx).builder.frame().ctrl);
    }
}

/// `ror` of a 8-bit value in memory by CL.
pub fn instr_D2_1_mem_jit(ctx: &mut JitContext, modrm_byte: u8)
    requires
        ready(old(ctx).builder, 8),
    ensures
        emits(*old(ctx), *final(ctx), rmw8_cl_mem_code("ror8", modrm_byte, old(ctx).builder.next_local), 1),
        restores_by(old(ctx).builder, final(ctx).builder, 0),
{
    rmw8_cl_mem(ctx, "ror8", modrm_byte);
    proof {
        assert(ctx.builder.code@ =~= old(ctx).builder.code@ + rmw8_cl_mem_code("ror8", modrm_byte, old(ctx).builder.next_local));
        assert(ctx.builder.frame().live =~= old(ctx).builder.frame().live);
        assert(ctx.builder.frame().live64 =~= old(ctx).builder.frame().live64);
        assert(ctx.builder.frame().ctrl =~= old(ctx).builder.frame().ctrl);
    }
}

/// `ror` of the 8-bit register `r1` by CL.
pub fn instr_D2_1_reg_jit(ctx: &mut JitContext, r1: u32)
    requires
        ready(old(ctx).builder, 8),
        r1 < 8,
    ensures
        emits(*old(ctx), *final(ctx), rmw8_cl_reg_code("ror8", r1), 0),
        restores_by(old(ctx).builder, final(ctx).builder, 0),
{
    rmw8_cl_reg(ctx, "ror8", r1);
    proof {
        assert(ctx.builder.code@ =~= old(ctx).builder.code@ + rmw8_cl_reg_code("ror8", r1));
        assert(ctx.builder.frame().live =~= old(ctx).builder.frame().live);
        assert(ctx.builder.frame().live64 =~= old(ctx).builder.frame().live64);
        assert(ctx.builder.frame().ctrl =~= old(ctx).builder.frame().ctrl);
    }
}

/// `rcl` of a 8-bit value in memory by CL.
pub fn instr_D2_2_mem_jit(ctx: &mut JitContext, modrm_byte: u8)
    requires
        ready(old(ctx).builder, 8),
    ensures
        emits(*old(ctx), *final(ctx), rmw8_cl_mem_code("rcl8", modrm_byte, old(ctx).builder.next_local), 1),
        restores_by(old(ctx).builder, final(ctx).builder, 0),
{
    rmw8_cl_mem(ctx, "rcl8", modrm_byte);
    proof {
        assert(ctx.builder.code@ =~= old(ctx).builder.code@ + rmw8_cl_mem_code("rcl8", modrm_byte, old(ctx).builder.next_local));
        assert(ctx.builder.frame().live =~= old(ctx).builder.frame().live);
        assert(ctx.builder.frame().live64 =~= old(ctx).builder.frame().live64);
        assert(ctx.builder.frame().ctrl =~= old(ctx).builder.frame().ctrl);
    }
}

/// `rcl` of the 8-bit register `r1` by CL.
pub fn instr_D2_2_reg_jit(ctx: &mut JitContext, r1: u32)
    requires
        ready(old(ctx).builder, 8),
        r1 < 8,
    ensures
        emits(*old(ctx), *final(ctx), rmw8_cl_reg_code("rcl8", r1), 0),
        restores_by(old(ctx).builder, final(ctx).builder, 0),
{
    rmw8_cl_reg(ctx, "rcl8", r1);
    proof {
        assert(ctx.builder.code@ =~= old(ctx).builder.code@ + rmw8_cl_reg_code("rcl8", r1));
        assert(ctx.builder.frame().live =~= old(ctx).builder.frame().live);
        assert(ctx.builder.frame().live64 =~= old(ctx).builder.frame().live64);
        assert(ctx.builder.frame().ctrl =~= old(ctx).builder.frame().ctrl);
    }
}

/// `rcr` of a 8-bit value in memory by CL.
pub fn instr_D2_3_mem_jit(ctx: &mut JitContext, modrm_byte: u8)
    requires
        ready(old(ctx).builder, 8),
    ensures
        emits(*old(ctx), *final(ctx), rmw8_cl_mem_code("rcr8", modrm_byte, old(ctx).builder.next_local), 1),
        restores_by(old(ctx).builder, final(ctx).builder, 0),
{
    rmw8_cl_mem(ctx, "rcr8", modrm_byte);
    proof {
        assert(ctx.builder.code@ =~= old(ctx).builder.code@ + rmw8_cl_mem_code("rcr8", modrm_byte, old(ctx).builder.next_local));
        assert(ctx.builder.frame().live =~= old(ctx).builder.frame().live);
        assert(ctx.builder.frame().live64 =~= old(ctx).builder.frame().live64);
        assert(ctx.builder.frame().ctrl =~= old(ctx).builder.frame().ctrl);
    }
}

/// `rcr` of the 8-bit register `r1` by CL.
pub fn instr_D2_3_reg_jit(ctx: &mut JitContext, r1: u32)
    requires
        ready(old(ctx).builder, 8),
        r1 < 8,
    ensures
        emits(*old(ctx), *final(ctx), rmw8_cl_reg_code("rcr8", r1), 0),
        restores_by(old(ctx).builder, final(ctx).builder, 0),
{
    rmw8_cl_reg(ctx, "rcr8", r1);
    proof {
        assert(ctx.builder.code@ =~= old(ctx).builder.code@ + rmw8_cl_reg_code("rcr8", r1));
        assert(ctx.builder.frame().live =~= old(ctx).builder.frame().live);
        assert(ctx.builder.frame().live64 =~= old(ctx).builder.frame().live64);
        assert(ctx.builder.frame().ctrl =~= old(ctx).builder.frame().ctrl);
    }
}

/// `shl` of a 8-bit value in memory by CL.
pub fn instr_D2_4_mem_jit(ctx: &mut JitContext, modrm_byte: u8)
    requires
        ready(old(ctx).builder, 8),
    ensures
        emits(*old(ctx), *final(ctx), rmw8_cl_mem_code("shl8", modrm_byte, old(ctx).builder.next_local), 1),
        restores_by(old(ctx).builder, final(ctx).builder, 0),
{
    rmw8_cl_mem(ctx, "shl8", modrm_byte);
    proof {
        assert(ctx.builder.code@ =~= old(ctx).builder.code@ + rmw8_cl_mem_code("shl8", modrm_byte, old(ctx).builder.next_local));
        assert(ctx.builder.frame().live =~= old(ctx).builder.frame().live);
        assert(ctx.builder.frame().live64 =~= old(ctx).builder.frame().live64);
        assert(ctx.builder.frame().ctrl =~= old(ctx).builder.frame().ctrl);
    }
}

/// `shl` of the 8-bit register `r1` by CL.
pub fn instr_D2_4_reg_jit(ctx: &mut JitContext, r1: u32)
    requires
        ready(old(ctx).builder, 8),
        r1 < 8,
    ensures
        emits(*old(ctx), *final(ctx), rmw8_cl_reg_code("shl8", r1), 0),
        restores_by(old(ctx).builder, final(ctx).builder, 0),
{
    rmw8_cl_reg(ctx, "shl8", r1);
    proof {
        assert(ctx.builder.code@ =~= old(ctx).builder.code@ + rmw8_cl_reg_code("shl8", r1));
        assert(ctx.builder.frame().live =~= old(ctx).builder.frame().live);
        assert(ctx.builder.frame().live64 =~= old(ctx).builder.frame().live64);
        assert(ctx.builder.frame().ctrl =~= old(ctx).builder.frame().ctrl);
    }
}

/// `shr` of a 8-bit value in memory by CL.
pub fn instr_D2_5_mem_jit(ctx: &mut JitContext, modrm_byte: u8)
    requires
        ready(old(ctx).builder, 8),
    ensures
        emits(*old(ctx), *final(ctx), rmw8_cl_mem_code("shr8", modrm_byte, old(ctx).builder.next_local), 1),
        restores_by(old(ctx).builder, final(ctx).builder, 0),
{
    rmw8_cl_mem(ctx, "shr8", modrm_byte);
    proof {
        assert(ctx.builder.code@ =~= old(ctx).builder.code@ + rmw8_cl_mem_code("shr8", modrm_byte, old(ctx).builder.next_local));
        assert(ctx.builder.frame().live =~= old(ctx).builder.frame().live);
        assert(ctx.builder.frame().live64 =~= old(ctx).builder.frame().live64);
        assert(ctx.builder.frame().ctrl =~= old(ctx).builder.frame().ctrl);
    }
}

/// `shr` of the 8-bit register `r1` by CL.
pub fn instr_D2_5_reg_jit(ctx: &mut JitContext, r1: u32)
    requires
        ready(old(ctx).builder, 8),
        r1 < 8,
    ensures
        emits(*old(ctx), *final(ctx), rmw8_cl_reg_code("shr8", r1), 0),
        restores_by(old(ctx).builder, final(ctx).builder, 0),
{
    rmw8_cl_reg(ctx, "shr8", r1);
    proof {
        assert(ctx.builder.code@ =~= old(ctx).builder.code@ + rmw8_cl_reg_code("shr8", r1));
        assert(ctx.builder.frame().live =~= old(ctx).builder.frame().live);
        assert(ctx.builder.frame().live64 =~= old(ctx).builder.frame().live64);
        assert(ctx.builder.frame().ctrl =~= old(ctx).builder.frame().ctrl);
    }
}

/// `shl` of a 8-bit value in memory by CL.
pub fn instr_D2_6_mem_jit(ctx: &mut JitContext, modrm_byte: u8)
    requires
        ready(old(ctx).builder, 8),
    ensures
        emits(*old(ctx), *final(ctx), rmw8_cl_mem_code("shl8", modrm_byte, old(ctx).builder.next_local), 1),
        restores_by(old(ctx).builder, final(ctx).builder, 0),
{
    rmw8_cl_mem(ctx, "shl8", modrm_byte);
    proof {
        assert(ctx.builder.code@ =~= old(ctx).builder.code@ + rmw8_cl_mem_code("shl8", modrm_byte, old(ctx).builder.next_local));
        assert(ctx.builder.frame().live =~= old(ctx).builder.frame().live);
        assert(ctx.builder.frame().live64 =~= old(ctx).builder.frame().live64);
        assert(ctx.builder.frame().ctrl =~= old(ctx).builder.frame().ctrl);
    }
}

/// `shl` of the 8-bit register `r1` by CL.
pub fn instr_D2_6_reg_jit(ctx: &mut JitContext, r1: u32)
    requires
        ready(old(ctx).builder, 8),
        r1 < 8,
    ensures
        emits(*old(ctx), *final(ctx), rmw8_cl_reg_code("shl8", r1), 0),
        restores_by(old(ctx).builder, final(ctx).builder, 0),
{
    rmw8_cl_reg(ctx, "shl8", r1);
    proof {
        assert(ctx.builder.code@ =~= old(ctx).builder.code@ + rmw8_cl_reg_code("shl8", r1));
        assert(ctx.builder.frame().live =~= old(ctx).builder.frame().live);
        assert(ctx.builder.frame().live64 =~= old(ctx).builder.frame().live64);
        assert(ctx.builder.frame().ctrl =~= old(ctx).builder.frame().ctrl);
    }
}

/// `sar` of a 8-bit value in memory by CL.
pub fn instr_D2_7_mem_jit(ctx: &mut JitContext, modrm_byte: u8)
    requires
        ready(old(ctx).builder, 8),
    ensures
        emits(*old(ctx), *final(ctx), rmw8_cl_mem_code("sar8", modrm_byte, old(ctx).builder.next_local), 1),
        restores_by(old(ctx).builder, final(ctx).builder, 0),
{
    rmw8_cl_mem(ctx, "sar8", modrm_byte);
    proof {
        assert(ctx.builder.code@ =~= old(ctx).builder.code@ + rmw8_cl_mem_code("sar8", modrm_byte, old(ctx).builder.next_local));
        assert(ctx.builder.frame().live =~= old(ctx).builder.frame().live);
        assert(ctx.builder.frame().live64 =~= old(ctx).builder.frame().live64);
        assert(ctx.builder.frame().ctrl =~= old(ctx).builder.frame().ctrl);
    }
}

/// `sar` of the 8-bit register `r1` by CL.
pub fn instr_D2_7_reg_jit(ctx: &mut JitContext, r1: u32)
    requires
        ready(old(ctx).builder, 8),
        r1 < 8,
    ensures
        emits(*old(ctx), *final(ctx), rmw8_cl_reg_code("sar8", r1), 0),
        restores_by(old(ctx).builder, final(ctx).builder, 0),
{
    rmw8_cl_reg(ctx, "sar8", r1);
    proof {
        assert(ctx.builder.code@ =~= old(ctx).builder.code@ + rmw8_cl_reg_code("sar8", r1));
        assert(ctx.builder.frame().live =~= old(ctx).builder.frame().live);
        assert(ctx.builder.frame().live64 =~= old(ctx).builder.frame().live64);
        assert(ctx.builder.frame().ctrl =~= old(ctx).builder.frame().ctrl);
    }
}

/// `rol` of a 16-bit value in memory by CL.
pub fn instr16_D3_0_mem_jit(ctx: &mut JitContext, modrm_byte: u8)
    requires
        ready(old(ctx).builder, 8),
    ensures
        emits(*old(ctx), *final(ctx), rmw16_cl_mem_code("rol16", modrm_byte, old(ctx).builder.next_local), 1),
        restores_by(old(ctx).builder, final(ctx).builder, 0),
{
    rmw16_cl_mem(ctx, "rol16", modrm_byte);
    proof {
        assert(ctx.builder.code@ =~= old(ctx).builder.code@ + rmw16_cl_mem_code("rol16", modrm_byte, old(ctx).builder.next_local));
        assert(ctx.builder.frame().live =~= old(ctx).builder.frame().live);
        assert(ctx.builder.frame().live64 =~= old(ctx).builder.frame().live64);
        assert(ctx.builder.frame().ctrl =~= old(ctx).builder.frame().ctrl);
    }
}

/// `rol` of the 16-bit register `r1` by CL.
pub fn instr16_D3_0_reg_jit(ctx: &mut JitContext, r1: u32)
    requires
        ready(old(ctx).builder, 8),
        r1 < 8,
    ensures
        emits(*old(ctx), *final(ctx), rmw16_cl_reg_code("rol16", r1), 0),
        restores_by(old(ctx).builder, final(ctx).builder, 0),
{
    rmw16_cl_reg(ctx, "rol16", r1);
    proof {
        assert(ctx.builder.code@ =~= old(ctx).builder.code@ + rmw16_cl_reg_code("rol16", r1));
        assert(ctx.builder.frame().live =~= old(ctx).builder.frame().live);
        assert(ctx.builder.frame().live64 =~= old(ctx).builder.frame().live64);
        assert(ctx.builder.frame().ctrl =~= old(ctx).builder.frame().ctrl);
    }
}

/// `ror` of a 16-bit value in memory by CL.
pub fn instr16_D3_1_mem_jit(ctx: &mut JitContext, modrm_byte: u8)
    requires
        ready(old(ctx).builder, 8),
    ensures
        emits(*old(ctx), *final(ctx), rmw16_cl_mem_code("ror16", modrm_byte, old(ctx).builder.next_local), 1),
        restores_by(old(ctx).builder, final(ctx).builder, 0),
{
    rmw16_cl_mem(ctx, "ror16", modrm_byte);
    proof {
        assert(ctx.builder.code@ =~= old(ctx).builder.code@ + rmw16_cl_mem_code("ror16", modrm_byte, old(ctx).builder.next_local));
        assert(ctx.builder.frame().live =~= old(ctx).builder.frame().live);
        assert(ctx.builder.frame().live64 =~= old(ctx).builder.frame().live64);
        assert(ctx.builder.frame().ctrl =~= old(ctx).builder.frame().ctrl);
    }
}

/// `ror` of the 16-bit register `r1` by CL.
pub fn instr16_D3_1_reg_jit(ctx: &mut JitContext, r1: u32)
    requires
        ready(old(ctx).builder, 8),
        r1 < 8,
    ensures
        emits(*old(ctx), *final(ctx), rmw16_cl_reg_code("ror16", r1), 0),
        restores_by(old(ctx).builder, final(ctx).builder, 0),
{
    rmw16_cl_reg(ctx, "ror16", r1);
    proof {
        assert(ctx.builder.code@ =~= old(ctx).builder.code@ + rmw16_cl_reg_code("ror16", r1));
        assert(ctx.builder.frame().live =~= old(ctx).builder.frame().live);
        assert(ctx.builder.frame().live64 =~= old(ctx).builder.frame().live64);
        assert(ctx.builder.frame().ctrl =~= old(ctx).builder.frame().ctrl);
    }
}

/// `rcl` of a 16-bit value in memory by CL.
pub fn instr16_D3_2_mem_jit(ctx: &mut JitContext, modrm_byte: u8)
    requires
        ready(old(ctx).builder, 8),
    ensures
        emits(*old(ctx), *final(ctx), rmw16_cl_mem_code("rcl16", modrm_byte, old(ctx).builder.next_local), 1),
        restores_by(old(ctx).builder, final(ctx).builder, 0),
{
    rmw16_cl_mem(ctx, "rcl16", modrm_byte);
    proof {
        assert(ctx.builder.code@ =~= old(ctx).builder.code@ + rmw16_cl_mem_code("rcl16", modrm_byte, old(ctx).builder.next_local));
        assert(ctx.builder.frame().live =~= old(ctx).builder.frame().live);
        assert(ctx.builder.frame().live64 =~= old(ctx).builder.frame().live64);
        assert(ctx.builder.frame().ctrl =~= old(ctx).builder.frame().ctrl);
    }
}

/// `rcl` of the 16-bit register `r1` by CL.
pub fn instr16_D3_2_reg_jit(ctx: &mut JitContext, r1: u32)
    requires
        ready(old(ctx).builder, 8),
        r1 < 8,
    ensures
        emits(*old(ctx), *final(ctx), rmw16_cl_reg_code("rcl16", r1), 0),
        restores_by(old(ctx).builder, final(ctx).builder, 0),
{
    rmw16_cl_reg(ctx, "rcl16", r1);
    proof {
        assert(ctx.builder.code@ =~= old(ctx).builder.code@ + rmw16_cl_reg_code("rcl16", r1));
        assert(ctx.builder.frame().live =~= old(ctx).builder.frame().live);
        assert(ctx.builder.frame().live64 =~= old(ctx).builder.frame().live64);
        assert(ctx.builder.frame().ctrl =~= old(ctx).builder.frame().ctrl);
    }
}

/// `rcr` of a 16-bit value in memory by CL.
pub fn instr16_D3_3_mem_jit(ctx: &mut JitContext, modrm_byte: u8)
    requires
        ready(old(ctx).builder, 8),
    ensures
        emits(*old(ctx), *final(ctx), rmw16_cl_mem_code("rcr16", modrm_byte, old(ctx).builder.next_local), 1),
        restores_by(old(ctx).builder, final(ctx).builder, 0),
{
    rmw16_cl_mem(ctx, "rcr16", modrm_byte);
    proof {
        assert(ctx.builder.code@ =~= old(ctx).builder.code@ + rmw16_cl_mem_code("rcr16", modrm_byte, old(ctx).builder.next_local));
        assert(ctx.builder.frame().live =~= old(ctx).builder.frame().live);
        assert(ctx.builder.frame().live64 =~= old(ctx).builder.frame().live64);
        assert(ctx.builder.frame().ctrl =~= old(ctx).builder.frame().ctrl);
    }
}

/// `rcr` of the 16-bit register `r1` by CL.
pub fn instr16_D3_3_reg_jit(ctx: &mut JitContext, r1: u32)
    requires
        ready(old(ctx).builder, 8),
        r1 < 8,
    ensures
        emits(*old(ctx), *final(ctx), rmw16_cl_reg_code("rcr16", r1), 0),
        restores_by(old(ctx).builder, final(ctx).builder, 0),
{
    rmw16_cl_reg(ctx, "rcr16", r1);
    proof {
        assert(ctx.builder.code@ =~= old(ctx).builder.code@ + rmw16_cl_reg_code("rcr16", r1));
        assert(ctx.builder.frame().live =~= old(ctx).builder.frame().live);
        assert(ctx.builder.frame().live64 =~= old(ctx).builder.frame().live64);
        assert(ctx.builder.frame().ctrl =~= old(ctx).builder.frame().ctrl);
    }
}

/// `shl` of a 16-bit value in memory by CL.
pub fn instr16_D3_4_mem_jit(ctx: &mut JitContext, modrm_byte: u8)
    requires
        ready(old(ctx).builder, 8),
    ensures
        emits(*old(ctx), *final(ctx), rmw16_cl_mem_code("shl16", modrm_byte, old(ctx).builder.next_local), 1),
        restores_by(old(ctx).builder, final(ctx).builder, 0),
{
    rmw16_cl_mem(ctx, "shl16", modrm_byte);
    proof {
        assert(ctx.builder.code@ =~= old(ctx).builder.code@ + rmw16_cl_mem_code("shl16", modrm_byte, old(ctx).builder.next_local));
        assert(ctx.builder.frame().live =~= old(ctx).builder.frame().live);
        assert(ctx.builder.frame().live64 =~= old(ctx).builder.frame().live64);
        assert(ctx.builder.frame().ctrl =~= old(ctx).builder.frame().ctrl);
    }
}

/// `shl` of the 16-bit register `r1` by CL.
pub fn instr16_D3_4_reg_jit(ctx: &mut JitContext, r1: u32)
    requires
        ready(old(ctx).builder, 8),
        r1 < 8,
    ensures
        emits(*old(ctx), *final(ctx), rmw16_cl_reg_code("shl16", r1), 0),
        restores_by(old(ctx).builder, final(ctx).builder, 0),
{
    rmw16_cl_reg(ctx, "shl16", r1);
    proof {
        assert(ctx.builder.code@ =~= old(ctx).builder.code@ + rmw16_cl_reg_code("shl16", r1));
        assert(ctx.builder.frame().live =~= old(ctx).builder.frame().live);
        assert(ctx.builder.frame().live64 =~= old(ctx).builder.frame().live64);
        assert(ctx.builder.frame().ctrl =~= old(ctx).builder.frame().ctrl);
    }
}

/// `shr` of a 16-bit value in memory by CL.
pub fn instr16_D3_5_mem_jit(ctx: &mut JitContext, modrm_byte: u8)
    requires
        ready(old(ctx).builder, 8),
    ensures
        emits(*old(ctx), *final(ctx), rmw16_cl_mem_code("shr16", modrm_byte, old(ctx).builder.next_local), 1),
        restores_by(old(ctx).builder, final(ctx).builder, 0),
{
    rmw16_cl_mem(ctx, "shr16", modrm_byte);
    proof {
        assert(ctx.builder.code@ =~= old(ctx).builder.code@ + rmw16_cl_mem_code("shr16", modrm_byte, old(ctx).builder.next_local));
        assert(ctx.builder.frame().live =~= old(ctx).builder.frame().live);
        assert(ctx.builder.frame().live64 =~= old(ctx).builder.frame().live64);
        assert(ctx.builder.frame().ctrl =~= old(ctx).builder.frame().ctrl);
    }
}

/// `shr` of the 16-bit register `r1` by CL.
pub fn instr16_D3_5_reg_jit(ctx: &mut JitContext, r1: u32)
    requires
        ready(old(ctx).builder, 8),
        r1 < 8,
    ensures
        emits(*old(ctx), *final(ctx), rmw16_cl_reg_code("shr16", r1), 0),
        restores_by(old(ctx).builder, final(ctx).builder, 0),
{
    rmw16_cl_reg(ctx, "shr16", r1);
    proof {
        assert(ctx.builder.code@ =~= old(ctx).builder.code@ + rmw16_cl_reg_code("shr16", r1));
        assert(ctx.builder.frame().live =~= old(ctx).builder.frame().live);
        assert(ctx.builder.frame().live64 =~= old(ctx).builder.frame().live64);
        assert(ctx.builder.frame().ctrl =~= old(ctx).builder.frame().ctrl);
    }
}

/// `shl` of a 16-bit value in memory by CL.
pub fn instr16_D3_6_mem_jit(ctx: &mut JitContext, modrm_byte: u8)
    requires
        ready(old(ctx).builder, 8),
    ensures
        emits(*old(ctx), *final(ctx), rmw16_cl_mem_code("shl16", modrm_byte, old(ctx).builder.next_local), 1),
        restores_by(old(ctx).builder, final(ctx).builder, 0),
{
    rmw16_cl_mem(ctx, "shl16", modrm_byte);
    proof {
        assert(ctx.builder.code@ =~= old(ctx).builder.code@ + rmw16_cl_mem_code("shl16", modrm_byte, old(ctx).builder.next_local));
        assert(ctx.builder.frame().live =~= old(ctx).builder.frame().live);
        assert(ctx.builder.frame().live64 =~= old(ctx).builder.frame().live64);
        assert(ctx.builder.frame().ctrl =~= old(ctx).builder.frame().ctrl);
    }
}

/// `shl` of the 16-bit register `r1` by CL.
pub fn instr16_D3_6_reg_jit(ctx: &mut JitContext, r1: u32)
    requires
        ready(old(ctx).builder, 8),
        r1 < 8,
    ensures
        emits(*old(ctx), *final(ctx), rmw16_cl_reg_code("shl16", r1), 0),
        restores_by(old(ctx).builder, final(ctx).builder, 0),
{
    rmw16_cl_reg(ctx, "shl16", r1);
    proof {
        assert(ctx.builder.code@ =~= old(ctx).builder.code@ + rmw16_cl_reg_code("shl16", r1));
        assert(ctx.builder.frame().live =~= old(ctx).builder.frame().live);
        assert(ctx.builder.frame().live64 =~= old(ctx).builder.frame().live64);
        assert(ctx.builder.frame().ctrl =~= old(ctx).builder.frame().ctrl);
    }
}

/// `sar` of a 16-bit value in memory by CL.
pub fn instr16_D3_7_mem_jit(ctx: &mut JitContext, modrm_byte: u8)
    requires
        ready(old(ctx).builder, 8),
    ensures
        emits(*old(ctx), *final(ctx), rmw16_cl_mem_code("sar16", modrm_byte, old(ctx).builder.next_local), 1),
        restores_by(old(ctx).builder, final(ctx).builder, 0),
{
    rmw16_cl_mem(ctx, "sar16", modrm_byte);
    proof {
        assert(ctx.builder.code@ =~= old(ctx).builder.code@ + rmw16_cl_mem_code("sar16", modrm_byte, old(ctx).builder.next_local));
        assert(ctx.builder.frame().live =~= old(ctx).builder.frame().live);
        assert(ctx.builder.frame().live64 =~= old(ctx).builder.frame().live64);
        assert(ctx.builder.frame().ctrl =~= old(ctx).builder.frame().ctrl);
    }
}

/// `sar` of the 16-bit register `r1` by CL.
pub fn instr16_D3_7_reg_jit(ctx: &mut JitContext, r1: u32)
    requires
        ready(old(ctx).builder, 8),
        r1 < 8,
    ensures
        emits(*old(ctx), *final(ctx), rmw16_cl_reg_code("sar16", r1), 0),
        restores_by(old(ctx).builder, final(ctx).builder, 0),
{
    rmw16_cl_reg(ctx, "sar16", r1);
    proof {
        assert(ctx.builder.code@ =~= old(ctx).builder.code@ + rmw16_cl_reg_code("sar16", r1));
        assert(ctx.builder.frame().live =~= old(ctx).builder.frame().live);
        assert(ctx.builder.frame().live64 =~= old(ctx).builder.frame().live64);
        assert(ctx.builder.frame().ctrl =~= old(ctx).builder.frame().ctrl);
    }
}

/// `rol` of a 32-bit value in memory by CL.
pub fn instr32_D3_0_mem_jit(ctx: &mut JitContext, modrm_byte: u8)
    requires
        ready(old(ctx).builder, 8),
    ensures
        emits(*old(ctx), *final(ctx), rmw32_cl_mem_code("rol32", modrm_byte, old(ctx).builder.next_local), 1),
        restores_by(old(ctx).builder, final(ctx).builder, 0),
{
    rmw32_cl_mem(ctx, "rol32", modrm_byte);
    proof {
        assert(ctx.builder.code@ =~= old(ctx).builder.code@ + rmw32_cl_mem_code("rol32", modrm_byte, old(ctx).builder.next_local));
        assert(ctx.builder.frame().live =~= old(ctx).builder.frame().live);
        assert(ctx.builder.frame().live64 =~= old(ctx).builder.frame().live64);
        assert(ctx.builder.frame().ctrl =~= old(ctx).builder.frame().ctrl);
    }
}

/// `rol` of the 32-bit register `r1` by CL.
pub fn instr32_D3_0_reg_jit(ctx: &mut JitContext, r1: u32)
    requires
        ready(old(ctx).builder, 8),
        r1 < 8,
    ensures
        emits(*old(ctx), *final(ctx), rmw32_cl_reg_code("rol32", r1), 0),
        restores_by(old(ctx).builder, final(ctx).builder, 0),
{
    rmw32_cl_reg(ctx, "rol32", r1);
    proof {
        assert(ctx.builder.code@ =~= old(ctx).builder.code@ + rmw32_cl_reg_code("rol32", r1));
        assert(ctx.builder.frame().live =~= old(ctx).builder.frame().live);
        assert(ctx.builder.frame().live64 =~= old(ctx).builder.frame().live64);
        assert(ctx.builder.frame().ctrl =~= old(ctx).builder.frame().ctrl);
    }
}

/// `ror` of a 32-bit value in memory by CL.
pub fn instr32_D3_1_mem_jit(ctx: &mut JitContext, modrm_byte: u8)
    requires
        ready(old(ctx).builder, 8),
    ensures
        emits(*old(ctx), *final(ctx), rmw32_cl_mem_code("ror32", modrm_byte, old(ctx).builder.next_local), 1),
        restores_by(old(ctx).builder, final(ctx).builder, 0),
{
    rmw32_cl_mem(ctx, "ror32", modrm_byte);
    proof {
        assert(ctx.builder.code@ =~= old(ctx).builder.code@ + rmw32_cl_mem_code("ror32", modrm_byte, old(ctx).builder.next_local));
        assert(ctx.builder.frame().live =~= old(ctx).builder.frame().live);
        assert(ctx.builder.frame().live64 =~= old(ctx).builder.frame().live64);
        assert(ctx.builder.frame().ctrl =~= old(ctx).builder.frame().ctrl);
    }
}

/// `ror` of the 32-bit register `r1` by CL.
pub fn instr32_D3_1_reg_jit(ctx: &mut JitContext, r1: u32)
    requires
        ready(old(ctx).builder, 8),
        r1 < 8,
    ensures
        emits(*old(ctx), *final(ctx), rmw32_cl_reg_code("ror32", r1), 0),
        restores_by(old(ctx).builder, final(ctx).builder, 0),
{
    rmw32_cl_reg(ctx, "ror32", r1);
    proof {
        assert(ctx.builder.code@ =~= old(ctx).builder.code@ + rmw32_cl_reg_code("ror32", r1));
        assert(ctx.builder.frame().live =~= old(ctx).builder.frame().live);
        assert(ctx.builder.frame().live64 =~= old(ctx).builder.frame().live64);
        assert(ctx.builder.frame().ctrl =~= old(ctx).builder.frame().ctrl);
    }
}

/// `rcl` of a 32-bit value in memory by CL.
pub fn instr32_D3_2_mem_jit(ctx: &mut JitContext, modrm_byte: u8)
    requires
        ready(old(ctx).builder, 8),
    ensures
        emits(*old(ctx), *final(ctx), rmw32_cl_mem_code("rcl32", modrm_byte, old(ctx).builder.next_local), 1),
        restores_by(old(ctx).builder, final(ctx).builder, 0),
{
    rmw32_cl_mem(ctx, "rcl32", modrm_byte);
    proof {
        assert(ctx.builder.code@ =~= old(ctx).builder.code@ + rmw32_cl_mem_code("rcl32", modrm_byte, old(ctx).builder.next_local));
        assert(ctx.builder.frame().live =~= old(ctx).builder.frame().live);
        assert(ctx.builder.frame().live64 =~= old(ctx).builder.frame().live64);
        assert(ctx.builder.frame().ctrl =~= old(ctx).builder.frame().ctrl);
    }
}

/// `rcl` of the 32-bit register `r1` by CL.
pub fn instr32_D3_2_reg_jit(ctx: &mut JitContext, r1: u32)
    requires
        ready(old(ctx).builder, 8),
        r1 < 8,
    ensures
        emits(*old(ctx), *final(ctx), rmw32_cl_reg_code("rcl32", r1), 0),
        restores_by(old(ctx).builder, final(ctx).builder, 0),
{
    rmw32_cl_reg(ctx, "rcl32", r1);
    proof {
        assert(ctx.builder.code@ =~= old(ctx).builder.code@ + rmw32_cl_reg_code("rcl32", r1));
        assert(ctx.builder.frame().live =~= old(ctx).builder.frame().live);
        assert(ctx.builder.frame().live64 =~= old(ctx).builder.frame().live64);
        assert(ctx.builder.frame().ctrl =~= old(ctx).builder.frame().ctrl);
    }
}

/// `rcr` of a 32-bit value in memory by CL.
pub fn instr32_D3_3_mem_jit(ctx: &mut JitContext, modrm_byte: u8)
    requires
        ready(old(ctx).builder, 8),
    ensures
        emits(*old(ctx), *final(ctx), rmw32_cl_mem_code("rcr32", modrm_byte, old(ctx).builder.next_local), 1),
        restores_by(old(ctx).builder, final(ctx).builder, 0),
{
    rmw32_cl_mem(ctx, "rcr32", modrm_byte);
    proof {
        assert(ctx.builder.code@ =~= old(ctx).builder.code@ + rmw32_cl_mem_code("rcr32", modrm_byte, old(ctx).builder.next_local));
        assert(ctx.builder.frame().live =~= old(ctx).builder.frame().live);
        assert(ctx.builder.frame().live64 =~= old(ctx).builder.frame().live64);
        assert(ctx.builder.frame().ctrl =~= old(ctx).builder.frame().ctrl);
    }
}

/// `rcr` of the 32-bit register `r1` by CL.
pub fn instr32_D3_3_reg_jit(ctx: &mut JitContext, r1: u32)
    requires
        ready(old(ctx).builder, 8),
        r1 < 8,
    ensures
        emits(*old(ctx), *final(ctx), rmw32_cl_reg_code("rcr32", r1), 0),
        restores_by(old(ctx).builder, final(ctx).builder, 0),
{
    rmw32_cl_reg(ctx, "rcr32", r1);
    proof {
        assert(ctx.builder.code@ =~= old(ctx).builder.code@ + rmw32_cl_reg_code("rcr32", r1));
        assert(ctx.builder.frame().live =~= old(ctx).builder.frame().live);
        assert(ctx.builder.frame().live64 =~= old(ctx).builder.frame().live64);
        assert(ctx.builder.frame().ctrl =~= old(ctx).builder.frame().ctrl);
    }
}

/// `shl` of a 32-bit value in memory by CL.
pub fn instr32_D3_4_mem_jit(ctx: &mut JitContext, modrm_byte: u8)
    requires
        ready(old(ctx).builder, 8),
    ensures
        emits(*old(ctx), *final(ctx), rmw32_cl_mem_code("shl32", modrm_byte, old(ctx).builder.next_local), 1),
        restores_by(old(ctx).builder, final(ctx).builder, 0),
{
    rmw32_cl_mem(ctx, "shl32", modrm_byte);
    proof {
        assert(ctx.builder.code@ =~= old(ctx).builder.code@ + rmw32_cl_mem_code("shl32", modrm_byte, old(ctx).builder.next_local));
        assert(ctx.builder.frame().live =~= old(ctx).builder.frame().live);
        assert(ctx.builder.frame().live64 =~= old(ctx).builder.frame().live64);
        assert(ctx.builder.frame().ctrl =~= old(ctx).builder.frame().ctrl);
    }
}

/// `shl` of the 32-bit register `r1` by CL.
pub fn instr32_D3_4_reg_jit(ctx: &mut JitContext, r1: u32)
    requires
        ready(old(ctx).builder, 8),
        r1 < 8,
    ensures
        emits(*old(ctx), *final(ctx), rmw32_cl_reg_code("shl32", r1), 0),
        restores_by(old(ctx).builder, final(ctx).builder, 0),
{
    rmw32_cl_reg(ctx, "shl32", r1);
    proof {
        assert(ctx.builder.code@ =~= old(ctx).builder.code@ + rmw32_cl_reg_code("shl32", r1));
        assert(ctx.builder.frame().live =~= old(ctx).builder.frame().live);
        assert(ctx.builder.frame().live64 =~= old(ctx).builder.frame().live64);
        assert(ctx.builder.frame().ctrl =~= old(ctx).builder.frame().ctrl);
    }
}

/// `shr` of a 32-bit value in memory by CL.
pub fn instr32_D3_5_mem_jit(ctx: &mut JitContext, modrm_byte: u8)
    requires
        ready(old(ctx).builder, 8),
    ensures
        emits(*old(ctx), *final(ctx), rmw32_cl_mem_code("shr32", modrm_byte, old(ctx).builder.next_local), 1),
        restores_by(old(ctx).builder, final(ctx).builder, 0),
{
    rmw32_cl_mem(ctx, "shr32", modrm_byte);
    proof {
        assert(ctx.builder.code@ =~= old(ctx).builder.code@ + rmw32_cl_mem_code("shr32", modrm_byte, old(ctx).builder.next_local));
        assert(ctx.builder.frame().live =~= old(ctx).builder.frame().live);
        assert(ctx.builder.frame().live64 =~= old(ctx).builder.frame().live64);
        assert(ctx.builder.frame().ctrl =~= old(ctx).builder.frame().ctrl);
    }
}

/// `shr` of the 32-bit register `r1` by CL.
pub fn instr32_D3_5_reg_jit(ctx: &mut JitContext, r1: u32)
    requires
        ready(old(ctx).builder, 8),
        r1 < 8,
    ensures
        emits(*old(ctx), *final(ctx), rmw32_cl_reg_code("shr32", r1), 0),
        restores_by(old(ctx).builder, final(ctx).builder, 0),
{
    rmw32_cl_reg(ctx, "shr32", r1);
    proof {
        assert(ctx.builder.code@ =~= old(ctx).builder.code@ + rmw32_cl_reg_code("shr32", r1));
        assert(ctx.builder.frame().live =~= old(ctx).builder.frame().live);
        assert(ctx.builder.frame().live64 =~= old(ctx).builder.frame().live64);
        assert(ctx.builder.frame().ctrl =~= old(ctx).builder.frame().ctrl);
    }
}

/// `shl` of a 32-bit value in memory by CL.
pub fn instr32_D3_6_mem_jit(ctx: &mut JitContext, modrm_byte: u8)
    requires
        ready(old(ctx).builder, 8),
    ensures
        emits(*old(ctx), *final(ctx), rmw32_cl_mem_code("shl32", modrm_byte, old(ctx).builder.next_local), 1),
        restores_by(old(ctx).builder, final(ctx).builder, 0),
{
    rmw32_cl_mem(ctx, "shl32", modrm_byte);
    proof {
        assert(ctx.builder.code@ =~= old(ctx).builder.code@ + rmw32_cl_mem_code("shl32", modrm_byte, old(ctx).builder.next_local));
        assert(ctx.builder.frame().live =~= old(ctx).builder.frame().live);
        assert(ctx.builder.frame().live64 =~= old(ctx).builder.frame().live64);
        assert(ctx.builder.frame().ctrl =~= old(ctx).builder.frame().ctrl);
    }
}

/// `shl` of the 32-bit register `r1` by CL.
pub fn instr32_D3_6_reg_jit(ctx: &mut JitContext, r1: u32)
    requires
        ready(old(ctx).builder, 8),
        r1 < 8,
    ensures
        emits(*old(ctx), *final(ctx), rmw32_cl_reg_code("shl32", r1), 0),
        restores_by(old(ctx).builder, final(ctx).builder, 0),
{
    rmw32_cl_reg(ctx, "shl32", r1);
    proof {
        assert(ctx.builder.code@ =~= old(ctx).builder.code@ + rmw32_cl_reg_code("shl32", r1));
        assert(ctx.builder.frame().live =~= old(ctx).builder.frame().live);
        assert(ctx.builder.frame().live64 =~= old(ctx).builder.frame().live64);
        assert(ctx.builder.frame().ctrl =~= old(ctx).builder.frame().ctrl);
    }
}

/// `sar` of a 32-bit value in memory by CL.
pub fn instr32_D3_7_mem_jit(ctx: &mut JitContext, modrm_byte: u8)
    requires
        ready(old(ctx).builder, 8),
    ensures
        emits(*old(ctx), *final(ctx), rmw32_cl_mem_code("sar32", modrm_byte, old(ctx).builder.next_local), 1),
        restores_by(old(ctx).builder, final(ctx).builder, 0),
{
    rmw32_cl_mem(ctx, "sar32", modrm_byte);
    proof {
        assert(ctx.builder.code@ =~= old(ctx).builder.code@ + rmw32_cl_mem_code("sar32", modrm_byte, old(ctx).builder.next_local));
        assert(ctx.builder.frame().live =~= old(ctx).builder.frame().live);
        assert(ctx.builder.frame().live64 =~= old(ctx).builder.frame().live64);
        assert(ctx.builder.frame().ctrl =~= old(ctx).builder.frame().ctrl);
    }
}

/// `sar` of the 32-bit register `r1` by CL.
pub fn instr32_D3_7_reg_jit(ctx: &mut JitContext, r1: u32)
    requires
        ready(old(ctx).builder, 8),
        r1 < 8,
    ensures
        emits(*old(ctx), *final(ctx), rmw32_cl_reg_code("sar32", r1), 0),
        restores_by(old(ctx).builder, final(ctx).builder, 0),
{
    rmw32_cl_reg(ctx, "sar32", r1);
    proof {
        assert(ctx.builder.code@ =~= old(ctx).builder.code@ + rmw32_cl_reg_code("sar32", r1));
        assert(ctx.builder.frame().live =~= old(ctx).builder.frame().live);
        assert(ctx.builder.frame().live64 =~= old(ctx).builder.frame().live64);
        assert(ctx.builder.frame().ctrl =~= old(ctx).builder.frame().ctrl);
    }
}

/// `ret imm16`: pops the return address, releases `imm16` bytes of stack and jumps.
pub fn instr16_C2_jit(ctx: &mut JitContext, imm16: u32)
    requires
        ready(old(ctx).builder, 8),
    ensures
        emits(*old(ctx), *final(ctx), seq![Op::Pop16, Op::AddCsOffset, Op::SetNewLocal(old(ctx).builder.next_local), Op::AdjustStackReg(imm16), Op::AbsoluteIndirectJump(old(ctx).builder.next_local)], 1),
        restores_by(old(ctx).builder, final(ctx).builder, 0),
{
    ctx.builder.emit(Op::Pop16);
    ctx.builder.emit(Op::AddCsOffset);
    let new_eip = ctx.builder.set_new_local();
    ctx.builder.emit(Op::AdjustStackReg(imm16));
    ctx.builder.absolute_indirect_jump(new_eip);
    proof {
        assert(ctx.builder.code@ =~= old(ctx).builder.code@ + seq![Op::Pop16, Op::AddCsOffset, Op::SetNewLocal(old(ctx).builder.next_local), Op::AdjustStackReg(imm16), Op::AbsoluteIndirectJump(old(ctx).builder.next_local)]);
        assert(ctx.builder.frame().live =~= old(ctx).builder.frame().live);
        assert(ctx.builder.frame().live64 =~= old(ctx).builder.frame().live64);
        assert(ctx.builder.frame().ctrl =~= old(ctx).builder.frame().ctrl);
    }
}

/// `ret`: pops the return address and jumps.
pub fn instr16_C3_jit(ctx: &mut JitContext)
    requires
        ready(old(ctx).builder, 8),
    ensures
        emits(*old(ctx), *final(ctx), seq![Op::Pop16, Op::AddCsOffset, Op::SetNewLocal(old(ctx).builder.next_local), Op::AbsoluteIndirectJump(old(ctx).builder.next_local)], 1),
        restores_by(old(ctx).builder, final(ctx).builder, 0),
{
    ctx.builder.emit(Op::Pop16);
    ctx.builder.emit(Op::AddCsOffset);
    let new_eip = ctx.builder.set_new_local();
    ctx.builder.absolute_indirect_jump(new_eip);
    proof {
        assert(ctx.builder.code@ =~= old(ctx).builder.code@ + seq![Op::Pop16, Op::AddCsOffset, Op::SetNewLocal(old(ctx).builder.next_local), Op::AbsoluteIndirectJump(old(ctx).builder.next_local)]);
        assert(ctx.builder.frame().live =~= old(ctx).builder.frame().live);
        assert(ctx.builder.frame().live64 =~= old(ctx).builder.frame().live64);
        assert(ctx.builder.frame().ctrl =~= old(ctx).builder.frame().ctrl);
    }
}

/// `ret imm16`: pops the return address, releases `imm16` bytes of stack and jumps.
pub fn instr32_C2_jit(ctx: &mut JitContext, imm16: u32)
    requires
        ready(old(ctx).builder, 8),
    ensures
        emits(*old(ctx), *final(ctx), seq![Op::Pop32s, Op::AddCsOffset, Op::SetNewLocal(old(ctx).builder.next_local), Op::AdjustStackReg(imm16), Op::AbsoluteIndirectJump(old(ctx).builder.next_local)], 1),
        restores_by(old(ctx).builder, final(ctx).builder, 0),
{
    ctx.builder.emit(Op::Pop32s);
    ctx.builder.emit(Op::AddCsOffset);
    let new_eip = ctx.builder.set_new_local();
    ctx.builder.emit(Op::AdjustStackReg(imm16));
    ctx.builder.absolute_indirect_jump(new_eip);
    proof {
        assert(ctx.builder.code@ =~= old(ctx).builder.code@ + seq![Op::Pop32s, Op::AddCsOffset, Op::SetNewLocal(old(ctx).builder.next_local), Op::AdjustStackReg(imm16), Op::AbsoluteIndirectJump(old(ctx).builder.next_local)]);
        assert(ctx.builder.frame().live =~= old(ctx).builder.frame().live);
        assert(ctx.builder.frame().live64 =~= old(ctx).builder.frame().live64);
        assert(ctx.builder.frame().ctrl =~= old(ctx).builder.frame().ctrl);
    }
}

/// `ret`: pops the return address and jumps.
pub fn instr32_C3_jit(ctx: &mut JitContext)
    requires
        ready(old(ctx).builder, 8),
    ensures
        emits(*old(ctx), *final(ctx), seq![Op::Pop32s, Op::AddCsOffset, Op::SetNewLocal(old(ctx).builder.next_local), Op::AbsoluteIndirectJump(old(ctx).builder.next_local)], 1),
        restores_by(old(ctx).builder, final(ctx).builder, 0),
{
    ctx.builder.emit(Op::Pop32s);
    ctx.builder.emit(Op::AddCsOffset);
    let new_eip = ctx.builder.set_new_local();
    ctx.builder.absolute_indirect_jump(new_eip);
    proof {
        assert(ctx.builder.code@ =~= old(ctx).builder.code@ + seq![Op::Pop32s, Op::AddCsOffset, Op::SetNewLocal(old(ctx).builder.next_local), Op::AbsoluteIndirectJump(old(ctx).builder.next_local)]);
        assert(ctx.builder.frame().live =~= old(ctx).builder.frame().live);
        assert(ctx.builder.frame().live64 =~= old(ctx).builder.frame().live64);
        assert(ctx.builder.frame().ctrl =~= old(ctx).builder.frame().ctrl);
    }
}

/// Stores an immediate into the 8-bit register `r`.
pub fn instr_C6_0_reg_jit(ctx: &mut JitContext, r: u32, imm: u32)
    requires
        ready(old(ctx).builder, 8),
        r < 8,
    ensures
        emits(*old(ctx), *final(ctx), seq![Op::ConstI32(imm as i32), Op::SetReg8(r)], 0),
        restores_by(old(ctx).builder, final(ctx).builder, 0),
{
    ctx.builder.emit(Op::ConstI32(imm as i32));
    ctx.builder.emit(Op::SetReg8(r));
    proof {
        assert(ctx.builder.code@ =~= old(ctx).builder.code@ + seq![Op::ConstI32(imm as i32), Op::SetReg8(r)]);
        assert(ctx.builder.frame().live =~= old(ctx).builder.frame().live);
        assert(ctx.builder.frame().live64 =~= old(ctx).builder.frame().live64);
        assert(ctx.builder.frame().ctrl =~= old(ctx).builder.frame().ctrl);
    }
}

/// Stores the immediate that follows the addressing bytes into memory at 8 bits.
pub fn instr_C6_0_mem_jit(ctx: &mut JitContext, modrm_byte: u8)
    requires
        ready(old(ctx).builder, 8),
    ensures
        emits(*old(ctx), *final(ctx), seq![Op::ModrmResolve(modrm_byte), Op::SetNewLocal(old(ctx).builder.next_local), Op::ReadImm(ImmKind::Imm8), Op::ConstPendingImm(-1i32, 0u32), Op::SetNewLocal((old(ctx).builder.next_local + 1) as u32), Op::SafeWrite8(WasmLocal::Temp(old(ctx).builder.next_local), WasmLocal::Temp((old(ctx).builder.next_local + 1) as u32)), Op::FreeLocal(old(ctx).builder.next_local), Op::FreeLocal((old(ctx).builder.next_local + 1) as u32)], 2),
        restores_by(old(ctx).builder, final(ctx).builder, 0),
{
    ctx.builder.emit(Op::ModrmResolve(modrm_byte));
    let addr = ctx.builder.set_new_local();
    ctx.builder.emit(Op::ReadImm(ImmKind::Imm8));
    ctx.builder.emit(Op::ConstPendingImm(-1i32, 0u32));
    let value = ctx.builder.set_new_local();
    ctx.builder.emit(Op::SafeWrite8(addr, value));
    ctx.builder.free_local(addr);
    ctx.builder.free_local(value);
    proof {
        assert(ctx.builder.code@ =~= old(ctx).builder.code@ + (seq![Op::ModrmResolve(modrm_byte), Op::SetNewLocal(old(ctx).builder.next_local), Op::ReadImm(ImmKind::Imm8), Op::ConstPendingImm(-1i32, 0u32), Op::SetNewLocal((old(ctx).builder.next_local + 1) as u32), Op::SafeWrite8(WasmLocal::Temp(old(ctx).builder.next_local), WasmLocal::Temp((old(ctx).builder.next_local + 1) as u32)), Op::FreeLocal(old(ctx).builder.next_local), Op::FreeLocal((old(ctx).builder.next_local + 1) as u32)]));
        assert(ctx.builder.frame().live =~= old(ctx).builder.frame().live);
        assert(ctx.builder.frame().live64 =~= old(ctx).builder.frame().live64);
        assert(ctx.builder.frame().ctrl =~= old(ctx).builder.frame().ctrl);
    }
}

/// Stores an immediate into the 16-bit register `r`.
pub fn instr16_C7_0_reg_jit(ctx: &mut JitContext, r: u32, imm: u32)
    requires
        ready(old(ctx).builder, 8),
        r < 8,
    ensures
        emits(*old(ctx), *final(ctx), seq![Op::ConstI32(imm as i32), Op::SetReg16(r)], 0),
        restores_by(old(ctx).builder, final(ctx).builder, 0),
{
    ctx.builder.emit(Op::ConstI32(imm as i32));
    ctx.builder.emit(Op::SetReg16(r));
    proof {
        assert(ctx.builder.code@ =~= old(ctx).builder.code@ + seq![Op::ConstI32(imm as i32), Op::SetReg16(r)]);
        assert(ctx.builder.frame().live =~= old(ctx).builder.frame().live);
        assert(ctx.builder.frame().live64 =~= old(ctx).builder.frame().live64);
        assert(ctx.builder.frame().ctrl =~= old(ctx).builder.frame().ctrl);
    }
}

/// Stores the immediate that follows the addressing bytes into memory at 16 bits.
pub fn instr16_C7_0_mem_jit(ctx: &mut JitContext, modrm_byte: u8)
    requires
        ready(old(ctx).builder, 8),
    ensures
        emits(*old(ctx), *final(ctx), seq![Op::ModrmResolve(modrm_byte), Op::SetNewLocal(old(ctx).builder.next_local), Op::ReadImm(ImmKind::Imm16), Op::ConstPendingImm(-1i32, 0u32), Op::SetNewLocal((old(ctx).builder.next_local + 1) as u32), Op::SafeWrite16(WasmLocal::Temp(old(ctx).builder.next_local), WasmLocal::Temp((old(ctx).builder.next_local + 1) as u32)), Op::FreeLocal(old(ctx).builder.next_local), Op::FreeLocal((old(ctx).builder.next_local + 1) as u32)], 2),
        restores_by(old(ctx).builder, final(ctx).builder, 0),
{
    ctx.builder.emit(Op::ModrmResolve(modrm_byte));
    let addr = ctx.builder.set_new_local();
    ctx.builder.emit(Op::ReadImm(ImmKind::Imm16));
    ctx.builder.emit(Op::ConstPendingImm(-1i32, 0u32));
    let value = ctx.builder.set_new_local();
    ctx.builder.emit(Op::SafeWrite16(addr, value));
    ctx.builder.free_local(addr);
    ctx.builder.free_local(value);
    proof {
        assert(ctx.builder.code@ =~= old(ctx).builder.code@ + (seq![Op::ModrmResolve(modrm_byte), Op::SetNewLocal(old(ctx).builder.next_local), Op::ReadImm(ImmKind::Imm16), Op::ConstPendingImm(-1i32, 0u32), Op::SetNewLocal((old(ctx).builder.next_local + 1) as u32), Op::SafeWrite16(WasmLocal::Temp(old(ctx).builder.next_local), WasmLocal::Temp((old(ctx).builder.next_local + 1) as u32)), Op::FreeLocal(old(ctx).builder.next_local), Op::FreeLocal((old(ctx).builder.next_local + 1) as u32)]));
        assert(ctx.builder.frame().live =~= old(ctx).builder.frame().live);
        assert(ctx.builder.frame().live64 =~= old(ctx).builder.frame().live64);
        assert(ctx.builder.frame().ctrl =~= old(ctx).builder.frame().ctrl);
    }
}

/// Stores an immediate into the 32-bit register `r`.
pub fn instr32_C7_0_reg_jit(ctx: &mut JitContext, r: u32, imm: u32)
    requires
        ready(old(ctx).builder, 8),
        r < 8,
    ensures
        emits(*old(ctx), *final(ctx), seq![Op::ConstI32(imm as i32), Op::SetReg32(r)], 0),
        restores_by(old(ctx).builder, final(ctx).builder, 0),
{
    ctx.builder.emit(Op::ConstI32(imm as i32));
    ctx.builder.emit(Op::SetReg32(r));
    proof {
        assert(ctx.builder.code@ =~= old(ctx).builder.code@ + seq![Op::ConstI32(imm as i32), Op::SetReg32(r)]);
        assert(ctx.builder.frame().live =~= old(ctx).builder.frame().live);
        assert(ctx.builder.frame().live64 =~= old(ctx).builder.frame().live64);
        assert(ctx.builder.frame().ctrl =~= old(ctx).builder.frame().ctrl);
    }
}

/// The code that [`instr32_C7_0_mem_jit`] appends.
pub open spec fn instr32_C7_0_mem_jit_code(modrm_byte: u8, n: u32) -> Seq<Op> {
    seq![Op::ModrmResolve(modrm_byte), Op::SetNewLocal(n), Op::ReadImm(ImmKind::Imm32), Op::ConstPendingImm(-1i32, 0u32), Op::SetNewLocal((n + 1) as u32), Op::SafeWrite32(WasmLocal::Temp(n), WasmLocal::Temp((n + 1) as u32)), Op::FreeLocal(n), Op::FreeLocal((n + 1) as u32)]
}

/// Stores the immediate that follows the addressing bytes into memory at 32 bits.
pub fn instr32_C7_0_mem_jit(ctx: &mut JitContext, modrm_byte: u8)
    requires
        ready(old(ctx).builder, 8),
    ensures
        emits(*old(ctx), *final(ctx), instr32_C7_0_mem_jit_code(modrm_byte, old(ctx).builder.next_local), 2),
        restores_by(old(ctx).builder, final(ctx).builder, 0),
{
    ctx.builder.emit(Op::ModrmResolve(modrm_byte));
    let addr = ctx.builder.set_new_local();
    ctx.builder.emit(Op::ReadImm(ImmKind::Imm32));
    ctx.builder.emit(Op::ConstPendingImm(-1i32, 0u32));
    let value = ctx.builder.set_new_local();
    ctx.builder.emit(Op::SafeWrite32(addr, value));
    ctx.builder.free_local(addr);
    ctx.builder.free_local(value);
    proof {
        assert(ctx.builder.code@ =~= old(ctx).builder.code@ + instr32_C7_0_mem_jit_code(modrm_byte, old(ctx).builder.next_local));
        assert(ctx.builder.frame().live =~= old(ctx).builder.frame().live);
        assert(ctx.builder.frame().live64 =~= old(ctx).builder.frame().live64);
        assert(ctx.builder.frame().ctrl =~= old(ctx).builder.frame().ctrl);
    }
}

/// `leave` with 16-bit operands.
pub fn instr16_C9_jit(ctx: &mut JitContext)
    requires
        ready(old(ctx).builder, 8),
    ensures
        emits(*old(ctx), *final(ctx), seq![Op::Leave(false)], 0),
        restores_by(old(ctx).builder, final(ctx).builder, 0),
{
    ctx.builder.emit(Op::Leave(false));
    proof {
        assert(ctx.builder.code@ =~= old(ctx).builder.code@ + seq![Op::Leave(false)]);
        assert(ctx.builder.frame().live =~= old(ctx).builder.frame().live);
        assert(ctx.builder.frame().live64 =~= old(ctx).builder.frame().live64);
        assert(ctx.builder.frame().ctrl =~= old(ctx).builder.frame().ctrl);
    }
}

/// `leave` with 32-bit operands.
pub fn instr32_C9_jit(ctx: &mut JitContext)
    requires
        ready(old(ctx).builder, 8),
    ensures
        emits(*old(ctx), *final(ctx), seq![Op::Leave(true)], 0),
        restores_by(old(ctx).builder, final(ctx).builder, 0),
{
    ctx.builder.emit(Op::Leave(true));
    proof {
        assert(ctx.builder.code@ =~= old(ctx).builder.code@ + seq![Op::Leave(true)]);
        assert(ctx.builder.frame().live =~= old(ctx).builder.frame().live);
        assert(ctx.builder.frame().live64 =~= old(ctx).builder.frame().live64);
        assert(ctx.builder.frame().ctrl =~= old(ctx).builder.frame().ctrl);
    }
}

/// The code that [`instr_D7_jit`] appends.
pub open spec fn instr_D7_jit_code(asize: bool, n: u32) -> Seq<Op> {
    (if asize { seq![Op::GetReg32(EBX)] } else { seq![Op::GetReg16(BX)] }) + seq![Op::GetReg8(AL), Op::AddI32] + (if !asize { seq![Op::ConstI32(0xFFFF), Op::AndI32] } else { Seq::<Op>::empty() }) + seq![Op::AddSegOffset(DS), Op::SetNewLocal(n), Op::SafeRead8(WasmLocal::Temp(n)), Op::FreeLocal(n), Op::SetReg8(AL)]
}

/// `xlat`: AL = the byte at BX + AL (EBX + AL with 32-bit addresses) in the data segment.
#[verifier::rlimit(40)]
pub fn instr_D7_jit(ctx: &mut JitContext)
    requires
        ready(old(ctx).builder, 8),
    ensures
        emits(*old(ctx), *final(ctx), instr_D7_jit_code(old(ctx).cpu.address_size_32, old(ctx).builder.next_local), 1),
        restores_by(old(ctx).builder, final(ctx).builder, 0),
{
    if ctx.cpu.asize_32() {
        ctx.builder.emit(Op::GetReg32(EBX));
        proof { assert(ctx.builder.code@ =~= old(ctx).builder.code@ + seq![Op::GetReg32(EBX)]); }
    } else {
        ctx.builder.emit(Op::GetReg16(BX));
        proof { assert(ctx.builder.code@ =~= old(ctx).builder.code@ + seq![Op::GetReg16(BX)]); }
    }
    proof { assert(ctx.builder.code@ =~= old(ctx).builder.code@ + (if old(ctx).cpu.address_size_32 { seq![Op::GetReg32(EBX)] } else { seq![Op::GetReg16(BX)] })); }
    ctx.builder.emit(Op::GetReg8(AL));
    ctx.builder.emit(Op::AddI32);
    proof { assert(ctx.builder.code@ =~= old(ctx).builder.code@ + (if old(ctx).cpu.address_size_32 { seq![Op::GetReg32(EBX)] } else { seq![Op::GetReg16(BX)] }) + seq![Op::GetReg8(AL), Op::AddI32]); }
    if !ctx.cpu.asize_32() {
        ctx.builder.emit(Op::ConstI32(0xFFFF));
        ctx.builder.emit(Op::AndI32);
        proof { assert(ctx.builder.code@ =~= old(ctx).builder.code@ + (if old(ctx).cpu.address_size_32 { seq![Op::GetReg32(EBX)] } else { seq![Op::GetReg16(BX)] }) + seq![Op::GetReg8(AL), Op::AddI32] + seq![Op::ConstI32(0xFFFF), Op::AndI32]); }
    } else {
        proof { assert(ctx.builder.code@ =~= old(ctx).builder.code@ + (if old(ctx).cpu.address_size_32 { seq![Op::GetReg32(EBX)] } else { seq![Op::GetReg16(BX)] }) + seq![Op::GetReg8(AL), Op::AddI32]); }
    }
    proof { assert(ctx.builder.code@ =~= old(ctx).builder.code@ + (if old(ctx).cpu.address_size_32 { seq![Op::GetReg32(EBX)] } else { seq![Op::GetReg16(BX)] }) + seq![Op::GetReg8(AL), Op::AddI32] + (if !old(ctx).cpu.address_size_32 { seq![Op::ConstI32(0xFFFF), Op::AndI32] } else { Seq::<Op>::empty() })); }
    ctx.builder.emit(Op::AddSegOffset(DS));
    let addr = ctx.builder.set_new_local();
    ctx.builder.emit(Op::SafeRead8(addr));
    ctx.builder.free_local(addr);
    ctx.builder.emit(Op::SetReg8(AL));
    proof {
        assert(ctx.builder.code@ =~= old(ctx).builder.code@ + instr_D7_jit_code(old(ctx).cpu.address_size_32, old(ctx).builder.next_local));
        assert(ctx.builder.frame().live =~= old(ctx).builder.frame().live);
        assert(ctx.builder.frame().live64 =~= old(ctx).builder.frame().live64);
        assert(ctx.builder.frame().ctrl =~= old(ctx).builder.frame().ctrl);
    }
}

/// `call` relative: pushes the return address and jumps.
pub fn instr16_E8_jit(ctx: &mut JitContext, imm: u32)
    requires
        ready(old(ctx).builder, 8),
    ensures
        emits(*old(ctx), *final(ctx), seq![Op::GetRealEip, Op::SetNewLocal(old(ctx).builder.next_local), Op::Push16(WasmLocal::Temp(old(ctx).builder.next_local)), Op::FreeLocal(old(ctx).builder.next_local), Op::JmpRel16(imm as u16)], 1),
        restores_by(old(ctx).builder, final(ctx).builder, 0),
{
    ctx.builder.emit(Op::GetRealEip);
    let value = ctx.builder.set_new_local();
    ctx.builder.emit(Op::Push16(value));
    ctx.builder.free_local(value);
    ctx.builder.emit(Op::JmpRel16(imm as u16));
    proof {
        assert(ctx.builder.code@ =~= old(ctx).builder.code@ + seq![Op::GetRealEip, Op::SetNewLocal(old(ctx).builder.next_local), Op::Push16(WasmLocal::Temp(old(ctx).builder.next_local)), Op::FreeLocal(old(ctx).builder.next_local), Op::JmpRel16(imm as u16)]);
        assert(ctx.builder.frame().live =~= old(ctx).builder.frame().live);
        assert(ctx.builder.frame().live64 =~= old(ctx).builder.frame().live64);
        assert(ctx.builder.frame().ctrl =~= old(ctx).builder.frame().ctrl);
    }
}

/// `jmp` relative.
pub fn instr16_E9_jit(ctx: &mut JitContext, imm: u32)
    requires
        ready(old(ctx).builder, 8),
    ensures
        emits(*old(ctx), *final(ctx), seq![Op::JmpRel16(imm as u16)], 0),
        restores_by(old(ctx).builder, final(ctx).builder, 0),
{
    ctx.builder.emit(Op::JmpRel16(imm as u16));
    proof {
        assert(ctx.builder.code@ =~= old(ctx).builder.code@ + seq![Op::JmpRel16(imm as u16)]);
        assert(ctx.builder.frame().live =~= old(ctx).builder.frame().live);
        assert(ctx.builder.frame().live64 =~= old(ctx).builder.frame().live64);
        assert(ctx.builder.frame().ctrl =~= old(ctx).builder.frame().ctrl);
    }
}

/// `call` relative: pushes the return address and jumps.
pub fn instr32_E8_jit(ctx: &mut JitContext, imm: u32)
    requires
        ready(old(ctx).builder, 8),
    ensures
        emits(*old(ctx), *final(ctx), seq![Op::GetRealEip, Op::SetNewLocal(old(ctx).builder.next_local), Op::Push32(WasmLocal::Temp(old(ctx).builder.next_local)), Op::FreeLocal(old(ctx).builder.next_local), Op::RelativeJump(imm as i32)], 1),
        restores_by(old(ctx).builder, final(ctx).builder, 0),
{
    ctx.builder.emit(Op::GetRealEip);
    let value = ctx.builder.set_new_local();
    ctx.builder.emit(Op::Push32(value));
    ctx.builder.free_local(value);
    ctx.builder.emit(Op::RelativeJump(imm as i32));
    proof {
        assert(ctx.builder.code@ =~= old(ctx).builder.code@ + seq![Op::GetRealEip, Op::SetNewLocal(old(ctx).builder.next_local), Op::Push32(WasmLocal::Temp(old(ctx).builder.next_local)), Op::FreeLocal(old(ctx).builder.next_local), Op::RelativeJump(imm as i32)]);
        assert(ctx.builder.frame().live =~= old(ctx).builder.frame().live);
        assert(ctx.builder.frame().live64 =~= old(ctx).builder.frame().live64);
        assert(ctx.builder.frame().ctrl =~= old(ctx).builder.frame().ctrl);
    }
}

/// `jmp` relative.
pub fn instr32_E9_jit(ctx: &mut JitContext, imm: u32)
    requires
        ready(old(ctx).builder, 8),
    ensures
        emits(*old(ctx), *final(ctx), seq![Op::RelativeJump(imm as i32)], 0),
        restores_by(old(ctx).builder, final(ctx).builder, 0),
{
    ctx.builder.emit(Op::RelativeJump(imm as i32));
    proof {
        assert(ctx.builder.code@ =~= old(ctx).builder.code@ + seq![Op::RelativeJump(imm as i32)]);
        assert(ctx.builder.frame().live =~= old(ctx).builder.frame().live);
        assert(ctx.builder.frame().live64 =~= old(ctx).builder.frame().live64);
        assert(ctx.builder.frame().ctrl =~= old(ctx).builder.frame().ctrl);
    }
}

/// `jmp` relative by a byte.
pub fn instr16_EB_jit(ctx: &mut JitContext, imm8: u32)
    requires
        ready(old(ctx).builder, 8),
    ensures
        emits(*old(ctx), *final(ctx), seq![Op::JmpRel16(imm8 as u16)], 0),
        restores_by(old(ctx).builder, final(ctx).builder, 0),
{
    ctx.builder.emit(Op::JmpRel16(imm8 as u16));
    proof {
        assert(ctx.builder.code@ =~= old(ctx).builder.code@ + seq![Op::JmpRel16(imm8 as u16)]);
        assert(ctx.builder.frame().live =~= old(ctx).builder.frame().live);
        assert(ctx.builder.frame().live64 =~= old(ctx).builder.frame().live64);
        assert(ctx.builder.frame().ctrl =~= old(ctx).builder.frame().ctrl);
    }
}

/// `jmp` relative by a byte.
pub fn instr32_EB_jit(ctx: &mut JitContext, imm8: u32)
    requires
        ready(old(ctx).builder, 8),
    ensures
        emits(*old(ctx), *final(ctx), seq![Op::RelativeJump(imm8 as i32)], 0),
        restores_by(old(ctx).builder, final(ctx).builder, 0),
{
    ctx.builder.emit(Op::RelativeJump(imm8 as i32));
    proof {
        assert(ctx.builder.code@ =~= old(ctx).builder.code@ + seq![Op::RelativeJump(imm8 as i32)]);
        assert(ctx.builder.frame().live =~= old(ctx).builder.frame().live);
        assert(ctx.builder.frame().live64 =~= old(ctx).builder.frame().live64);
        assert(ctx.builder.frame().ctrl =~= old(ctx).builder.frame().ctrl);
    }
}

/// Tests a byte in memory against the immediate that follows.
pub fn instr_F6_0_mem_jit(ctx: &mut JitContext, modrm_byte: u8)
    requires
        ready(old(ctx).builder, 8),
    ensures
        emits(*old(ctx), *final(ctx), read8_imm_mem_code(true, ImmKind::Imm8, modrm_byte, old(ctx).builder.next_local), 1),
        restores_by(old(ctx).builder, final(ctx).builder, 0),
{
    read8_imm_mem(ctx, true, ImmKind::Imm8, modrm_byte);
    proof {
        assert(ctx.builder.code@ =~= old(ctx).builder.code@ + read8_imm_mem_code(true, ImmKind::Imm8, modrm_byte, old(ctx).builder.next_local));
        assert(ctx.builder.frame().live =~= old(ctx).builder.frame().live);
        assert(ctx.builder.frame().live64 =~= old(ctx).builder.frame().live64);
        assert(ctx.builder.frame().ctrl =~= old(ctx).builder.frame().ctrl);
    }
}

/// Tests the 8-bit register `r` against an immediate.
pub fn instr_F6_0_reg_jit(ctx: &mut JitContext, r: u32, imm: u32)
    requires
        ready(old(ctx).builder, 8),
        r < 8,
    ensures
        emits(*old(ctx), *final(ctx), read8_imm_reg_code(true, r, imm, old(ctx).builder.next_local), 1),
        restores_by(old(ctx).builder, final(ctx).builder, 0),
{
    read8_imm_reg(ctx, true, r, imm);
    proof {
        assert(ctx.builder.code@ =~= old(ctx).builder.code@ + read8_imm_reg_code(true, r, imm, old(ctx).builder.next_local));
        assert(ctx.builder.frame().live =~= old(ctx).builder.frame().live);
        assert(ctx.builder.frame().live64 =~= old(ctx).builder.frame().live64);
        assert(ctx.builder.frame().ctrl =~= old(ctx).builder.frame().ctrl);
    }
}

/// Tests a word in memory against the immediate that follows.
pub fn instr16_F7_0_mem_jit(ctx: &mut JitContext, modrm_byte: u8)
    requires
        ready(old(ctx).builder, 8),
    ensures
        emits(*old(ctx), *final(ctx), read16_imm_mem_code(true, ImmKind::Imm16, modrm_byte, old(ctx).builder.next_local), 1),
        restores_by(old(ctx).builder, final(ctx).builder, 0),
{
    read16_imm_mem(ctx, true, ImmKind::Imm16, modrm_byte);
    proof {
        assert(ctx.builder.code@ =~= old(ctx).builder.code@ + read16_imm_mem_code(true, ImmKind::Imm16, modrm_byte, old(ctx).builder.next_local));
        assert(ctx.builder.frame().live =~= old(ctx).builder.frame().live);
        assert(ctx.builder.frame().live64 =~= old(ctx).builder.frame().live64);
        assert(ctx.builder.frame().ctrl =~= old(ctx).builder.frame().ctrl);
    }
}

/// Tests the 16-bit register `r` against an immediate.
pub fn instr16_F7_0_reg_jit(ctx: &mut JitContext, r: u32, imm: u32)
    requires
        ready(old(ctx).builder, 8),
        r < 8,
    ensures
        emits(*old(ctx), *final(ctx), read16_imm_reg_code(true, r, imm), 0),
        restores_by(old(ctx).builder, final(ctx).builder, 0),
{
    read16_imm_reg(ctx, true, r, imm);
    proof {
        assert(ctx.builder.code@ =~= old(ctx).builder.code@ + read16_imm_reg_code(true, r, imm));
        assert(ctx.builder.frame().live =~= old(ctx).builder.frame().live);
        assert(ctx.builder.frame().live64 =~= old(ctx).builder.frame().live64);
        assert(ctx.builder.frame().ctrl =~= old(ctx).builder.frame().ctrl);
    }
}

/// Tests a doubleword in memory against the immediate that follows.
pub fn instr32_F7_0_mem_jit(ctx: &mut JitContext, modrm_byte: u8)
    requires
        ready(old(ctx).builder, 8),
    ensures
        emits(*old(ctx), *final(ctx), read32_imm_mem_code(true, ImmKind::Imm32, modrm_byte, old(ctx).builder.next_local), 1),
        restores_by(old(ctx).builder, final(ctx).builder, 0),
{
    read32_imm_mem(ctx, true, ImmKind::Imm32, modrm_byte);
    proof {
        assert(ctx.builder.code@ =~= old(ctx).builder.code@ + read32_imm_mem_code(true, ImmKind::Imm32, modrm_byte, old(ctx).builder.next_local));
        assert(ctx.builder.frame().live =~= old(ctx).builder.frame().live);
        assert(ctx.builder.frame().live64 =~= old(ctx).builder.frame().live64);
        assert(ctx.builder.frame().ctrl =~= old(ctx).builder.frame().ctrl);
    }
}

/// Tests register `r` against an immediate.
pub fn instr32_F7_0_reg_jit(ctx: &mut JitContext, r: u32, imm: u32)
    requires
        ready(old(ctx).builder, 8),
        r < 8,
    ensures
        emits(*old(ctx), *final(ctx), read32_imm_reg_code(true, r, imm), 0),
        restores_by(old(ctx).builder, final(ctx).builder, 0),
{
    read32_imm_reg(ctx, true, r, imm);
    proof {
        assert(ctx.builder.code@ =~= old(ctx).builder.code@ + read32_imm_reg_code(true, r, imm));
        assert(ctx.builder.frame().live =~= old(ctx).builder.frame().live);
        assert(ctx.builder.frame().live64 =~= old(ctx).builder.frame().live64);
        assert(ctx.builder.frame().ctrl =~= old(ctx).builder.frame().ctrl);
    }
}

/// Tests a byte in memory against the immediate that follows.
pub fn instr_F6_1_mem_jit(ctx: &mut JitContext, modrm_byte: u8)
    requires
        ready(old(ctx).builder, 8),
    ensures
        emits(*old(ctx), *final(ctx), read8_imm_mem_code(true, ImmKind::Imm8, modrm_byte, old(ctx).builder.next_local), 1),
        restores_by(old(ctx).builder, final(ctx).builder, 0),
{
    read8_imm_mem(ctx, true, ImmKind::Imm8, modrm_byte);
    proof {
        assert(ctx.builder.code@ =~= old(ctx).builder.code@ + read8_imm_mem_code(true, ImmKind::Imm8, modrm_byte, old(ctx).builder.next_local));
        assert(ctx.builder.frame().live =~= old(ctx).builder.frame().live);
        assert(ctx.builder.frame().live64 =~= old(ctx).builder.frame().live64);
        assert(ctx.builder.frame().ctrl =~= old(ctx).builder.frame().ctrl);
    }
}

/// Tests the 8-bit register `r` against an immediate.
pub fn instr_F6_1_reg_jit(ctx: &mut JitContext, r: u32, imm: u32)
    requires
        ready(old(ctx).builder, 8),
        r < 8,
    ensures
        emits(*old(ctx), *final(ctx), read8_imm_reg_code(true, r, imm, old(ctx).builder.next_local), 1),
        restores_by(old(ctx).builder, final(ctx).builder, 0),
{
    read8_imm_reg(ctx, true, r, imm);
    proof {
        assert(ctx.builder.code@ =~= old(ctx).builder.code@ + read8_imm_reg_code(true, r, imm, old(ctx).builder.next_local));
        assert(ctx.builder.frame().live =~= old(ctx).builder.frame().live);
        assert(ctx.builder.frame().live64 =~= old(ctx).builder.frame().live64);
        assert(ctx.builder.frame().ctrl =~= old(ctx).builder.frame().ctrl);
    }
}

/// Tests a word in memory against the immediate that follows.
pub fn instr16_F7_1_mem_jit(ctx: &mut JitContext, modrm_byte: u8)
    requires
        ready(old(ctx).builder, 8),
    ensures
        emits(*old(ctx), *final(ctx), read16_imm_mem_code(true, ImmKind::Imm16, modrm_byte, old(ctx).builder.next_local), 1),
        restores_by(old(ctx).builder, final(ctx).builder, 0),
{
    read16_imm_mem(ctx, true, ImmKind::Imm16, modrm_byte);
    proof {
        assert(ctx.builder.code@ =~= old(ctx).builder.code@ + read16_imm_mem_code(true, ImmKind::Imm16, modrm_byte, old(ctx).builder.next_local));
        assert(ctx.builder.frame().live =~= old(ctx).builder.frame().live);
        assert(ctx.builder.frame().live64 =~= old(ctx).builder.frame().live64);
        assert(ctx.builder.frame().ctrl =~= old(ctx).builder.frame().ctrl);
    }
}

/// Tests the 16-bit register `r` against an immediate.
pub fn instr16_F7_1_reg_jit(ctx: &mut JitContext, r: u32, imm: u32)
    requires
        ready(old(ctx).builder, 8),
        r < 8,
    ensures
        emits(*old(ctx), *final(ctx), read16_imm_reg_code(true, r, imm), 0),
        restores_by(old(ctx).builder, final(ctx).builder, 0),
{
    read16_imm_reg(ctx, true, r, imm);
    proof {
        assert(ctx.builder.code@ =~= old(ctx).builder.code@ + read16_imm_reg_code(true, r, imm));
        assert(ctx.builder.frame().live =~= old(ctx).builder.frame().live);
        assert(ctx.builder.frame().live64 =~= old(ctx).builder.frame().live64);
        assert(ctx.builder.frame().ctrl =~= old(ctx).builder.frame().ctrl);
    }
}

/// Tests a doubleword in memory against the immediate that follows.
pub fn instr32_F7_1_mem_jit(ctx: &mut JitContext, modrm_byte: u8)
    requires
        ready(old(ctx).builder, 8),
    ensures
        emits(*old(ctx), *final(ctx), read32_imm_mem_code(true, ImmKind::Imm32, modrm_byte, old(ctx).builder.next_local), 1),
        restores_by(old(ctx).builder, final(ctx).builder, 0),
{
    read32_imm_mem(ctx, true, ImmKind::Imm32, modrm_byte);
    proof {
        assert(ctx.builder.code@ =~= old(ctx).builder.code@ + read32_imm_mem_code(true, ImmKind::Imm32, modrm_byte, old(ctx).builder.next_local));
        assert(ctx.builder.frame().live =~= old(ctx).builder.frame().live);
        assert(ctx.builder.frame().live64 =~= old(ctx).builder.frame().live64);
        assert(ctx.builder.frame().ctrl =~= old(ctx).builder.frame().ctrl);
    }
}

/// Tests register `r` against an immediate.
pub fn instr32_F7_1_reg_jit(ctx: &mut JitContext, r: u32, imm: u32)
    requires
        ready(old(ctx).builder, 8),
        r < 8,
    ensures
        emits(*old(ctx), *final(ctx), read32_imm_reg_code(true, r, imm), 0),
        restores_by(old(ctx).builder, final(ctx).builder, 0),
{
    read32_imm_reg(ctx, true, r, imm);
    proof {
        assert(ctx.builder.code@ =~= old(ctx).builder.code@ + read32_imm_reg_code(true, r, imm));
        assert(ctx.builder.frame().live =~= old(ctx).builder.frame().live);
        assert(ctx.builder.frame().live64 =~= old(ctx).builder.frame().live64);
        assert(ctx.builder.frame().ctrl =~= old(ctx).builder.frame().ctrl);
    }
}

/// `not` of a 16-bit value in memory.
pub fn instr16_F7_2_mem_jit(ctx: &mut JitContext, modrm_byte: u8)
    requires
        ready(old(ctx).builder, 8),
    ensures
        emits(*old(ctx), *final(ctx), rmw16_unary_mem_code(Unary::Not16, modrm_byte, old(ctx).builder.next_local), 2),
        restores_by(old(ctx).builder, final(ctx).builder, 0),
{
    rmw16_unary_mem(ctx, Unary::Not16, modrm_byte);
    proof {
        assert(ctx.builder.code@ =~= old(ctx).builder.code@ + rmw16_unary_mem_code(Unary::Not16, modrm_byte, old(ctx).builder.next_local));
        assert(ctx.builder.frame().live =~= old(ctx).builder.frame().live);
        assert(ctx.builder.frame().live64 =~= old(ctx).builder.frame().live64);
        assert(ctx.builder.frame().ctrl =~= old(ctx).builder.frame().ctrl);
    }
}

/// `not` of register `r1` at 16 bits.
pub fn instr16_F7_2_reg_jit(ctx: &mut JitContext, r1: u32)
    requires
        ready(old(ctx).builder, 8),
        r1 < 8,
    ensures
        emits(*old(ctx), *final(ctx), rmw16_unary_reg_code(Unary::Not16, r1), 0),
        restores_by(old(ctx).builder, final(ctx).builder, 0),
{
    rmw16_unary_reg(ctx, Unary::Not16, r1);
    proof {
        assert(ctx.builder.code@ =~= old(ctx).builder.code@ + rmw16_unary_reg_code(Unary::Not16, r1));
        assert(ctx.builder.frame().live =~= old(ctx).builder.frame().live);
        assert(ctx.builder.frame().live64 =~= old(ctx).builder.frame().live64);
        assert(ctx.builder.frame().ctrl =~= old(ctx).builder.frame().ctrl);
    }
}

/// `not` of a 32-bit value in memory.
pub fn instr32_F7_2_mem_jit(ctx: &mut JitContext, modrm_byte: u8)
    requires
        ready(old(ctx).builder, 8),
    ensures
        emits(*old(ctx), *final(ctx), rmw32_unary_mem_code(Unary::Not32, modrm_byte, old(ctx).builder.next_local), 2),
        restores_by(old(ctx).builder, final(ctx).builder, 0),
{
    rmw32_unary_mem(ctx, Unary::Not32, modrm_byte);
    proof {
        assert(ctx.builder.code@ =~= old(ctx).builder.code@ + rmw32_unary_mem_code(Unary::Not32, modrm_byte, old(ctx).builder.next_local));
        assert(ctx.builder.frame().live =~= old(ctx).builder.frame().live);
        assert(ctx.builder.frame().live64 =~= old(ctx).builder.frame().live64);
        assert(ctx.builder.frame().ctrl =~= old(ctx).builder.frame().ctrl);
    }
}

/// `not` of register `r1` at 32 bits.
pub fn instr32_F7_2_reg_jit(ctx: &mut JitContext, r1: u32)
    requires
        ready(old(ctx).builder, 8),
        r1 < 8,
    ensures
        emits(*old(ctx), *final(ctx), rmw32_unary_reg_code(Unary::Not32, r1), 0),
        restores_by(old(ctx).builder, final(ctx).builder, 0),
{
    rmw32_unary_reg(ctx, Unary::Not32, r1);
    proof {
        assert(ctx.builder.code@ =~= old(ctx).builder.code@ + rmw32_unary_reg_code(Unary::Not32, r1));
        assert(ctx.builder.frame().live =~= old(ctx).builder.frame().live);
        assert(ctx.builder.frame().live64 =~= old(ctx).builder.frame().live64);
        assert(ctx.builder.frame().ctrl =~= old(ctx).builder.frame().ctrl);
    }
}

/// `neg` of a 16-bit value in memory.
pub fn instr16_F7_3_mem_jit(ctx: &mut JitContext, modrm_byte: u8)
    requires
        ready(old(ctx).builder, 8),
    ensures
        emits(*old(ctx), *final(ctx), rmw16_unary_mem_code(Unary::Neg16, modrm_byte, old(ctx).builder.next_local), 2),
        restores_by(old(ctx).builder, final(ctx).builder, 0),
{
    rmw16_unary_mem(ctx, Unary::Neg16, modrm_byte);
    proof {
        assert(ctx.builder.code@ =~= old(ctx).builder.code@ + rmw16_unary_mem_code(Unary::Neg16, modrm_byte, old(ctx).builder.next_local));
        assert(ctx.builder.frame().live =~= old(ctx).builder.frame().live);
        assert(ctx.builder.frame().live64 =~= old(ctx).builder.frame().live64);
        assert(ctx.builder.frame().ctrl =~= old(ctx).builder.frame().ctrl);
    }
}

/// `neg` of register `r1` at 16 bits.
pub fn instr16_F7_3_reg_jit(ctx: &mut JitContext, r1: u32)
    requires
        ready(old(ctx).builder, 8),
        r1 < 8,
    ensures
        emits(*old(ctx), *final(ctx), rmw16_unary_reg_code(Unary::Neg16, r1), 0),
        restores_by(old(ctx).builder, final(ctx).builder, 0),
{
    rmw16_unary_reg(ctx, Unary::Neg16, r1);
    proof {
        assert(ctx.builder.code@ =~= old(ctx).builder.code@ + rmw16_unary_reg_code(Unary::Neg16, r1));
        assert(ctx.builder.frame().live =~= old(ctx).builder.frame().live);
        assert(ctx.builder.frame().live64 =~= old(ctx).builder.frame().live64);
        assert(ctx.builder.frame().ctrl =~= old(ctx).builder.frame().ctrl);
    }
}

/// `neg` of a 32-bit value in memory.
pub fn instr32_F7_3_mem_jit(ctx: &mut JitContext, modrm_byte: u8)
    requires
        ready(old(ctx).builder, 8),
    ensures
        emits(*old(ctx), *final(ctx), rmw32_unary_mem_code(Unary::Neg32, modrm_byte, old(ctx).builder.next_local), 2),
        restores_by(old(ctx).builder, final(ctx).builder, 0),
{
    rmw32_unary_mem(ctx, Unary::Neg32, modrm_byte);
    proof {
        assert(ctx.builder.code@ =~= old(ctx).builder.code@ + rmw32_unary_mem_code(Unary::Neg32, modrm_byte, old(ctx).builder.next_local));
        assert(ctx.builder.frame().live =~= old(ctx).builder.frame().live);
        assert(ctx.builder.frame().live64 =~= old(ctx).builder.frame().live64);
        assert(ctx.builder.frame().ctrl =~= old(ctx).builder.frame().ctrl);
    }
}

/// `neg` of register `r1` at 32 bits.
pub fn instr32_F7_3_reg_jit(ctx: &mut JitContext, r1: u32)
    requires
        ready(old(ctx).builder, 8),
        r1 < 8,
    ensures
        emits(*old(ctx), *final(ctx), rmw32_unary_reg_code(Unary::Neg32, r1), 0),
        restores_by(old(ctx).builder, final(ctx).builder, 0),
{
    rmw32_unary_reg(ctx, Unary::Neg32, r1);
    proof {
        assert(ctx.builder.code@ =~= old(ctx).builder.code@ + rmw32_unary_reg_code(Unary::Neg32, r1));
        assert(ctx.builder.frame().live =~= old(ctx).builder.frame().live);
        assert(ctx.builder.frame().live64 =~= old(ctx).builder.frame().live64);
        assert(ctx.builder.frame().ctrl =~= old(ctx).builder.frame().ctrl);
    }
}

/// `mul`: DX:AX = AX times a word in memory.
pub fn instr16_F7_4_mem_jit(ctx: &mut JitContext, modrm_byte: u8)
    requires
        ready(old(ctx).builder, 8),
    ensures
        emits(*old(ctx), *final(ctx), seq![Op::ModrmResolveSafeRead16(modrm_byte), Op::MoveRegistersFromLocalsToMemory, Op::CallFn1("mul16"), Op::MoveRegistersFromMemoryToLocals], 0),
        restores_by(old(ctx).builder, final(ctx).builder, 0),
{
    ctx.builder.emit(Op::ModrmResolveSafeRead16(modrm_byte));
    ctx.builder.emit(Op::MoveRegistersFromLocalsToMemory);
    ctx.builder.emit(Op::CallFn1("mul16"));
    ctx.builder.emit(Op::MoveRegistersFromMemoryToLocals);
    proof {
        assert(ctx.builder.code@ =~= old(ctx).builder.code@ + seq![Op::ModrmResolveSafeRead16(modrm_byte), Op::MoveRegistersFromLocalsToMemory, Op::CallFn1("mul16"), Op::MoveRegistersFromMemoryToLocals]);
        assert(ctx.builder.frame().live =~= old(ctx).builder.frame().live);
        assert(ctx.builder.frame().live64 =~= old(ctx).builder.frame().live64);
        assert(ctx.builder.frame().ctrl =~= old(ctx).builder.frame().ctrl);
    }
}

/// `mul`: DX:AX = AX times the 16-bit register `r`.
pub fn instr16_F7_4_reg_jit(ctx: &mut JitContext, r: u32)
    requires
        ready(old(ctx).builder, 8),
        r < 8,
    ensures
        emits(*old(ctx), *final(ctx), seq![Op::GetReg16(r), Op::MoveRegistersFromLocalsToMemory, Op::CallFn1("mul16"), Op::MoveRegistersFromMemoryToLocals], 0),
        restores_by(old(ctx).builder, final(ctx).builder, 0),
{
    ctx.builder.emit(Op::GetReg16(r));
    ctx.builder.emit(Op::MoveRegistersFromLocalsToMemory);
    ctx.builder.emit(Op::CallFn1("mul16"));
    ctx.builder.emit(Op::MoveRegistersFromMemoryToLocals);
    proof {
        assert(ctx.builder.code@ =~= old(ctx).builder.code@ + seq![Op::GetReg16(r), Op::MoveRegistersFromLocalsToMemory, Op::CallFn1("mul16"), Op::MoveRegistersFromMemoryToLocals]);
        assert(ctx.builder.frame().live =~= old(ctx).builder.frame().live);
        assert(ctx.builder.frame().live64 =~= old(ctx).builder.frame().live64);
        assert(ctx.builder.frame().ctrl =~= old(ctx).builder.frame().ctrl);
    }
}

/// `mul`: EDX:EAX = EAX times a doubleword in memory.
pub fn instr32_F7_4_mem_jit(ctx: &mut JitContext, modrm_byte: u8)
    requires
        ready(old(ctx).builder, 8),
    ensures
        emits(*old(ctx), *final(ctx), seq![Op::ModrmResolveSafeRead32(modrm_byte)] + gen_mul32_code(old(ctx).builder.next_local), 1),
        restores_by(old(ctx).builder, final(ctx).builder, 0),
{
    ctx.builder.emit(Op::ModrmResolveSafeRead32(modrm_byte));
    proof { assert(ctx.builder.code@ =~= old(ctx).builder.code@ + seq![Op::ModrmResolveSafeRead32(modrm_byte)]); }
    gen_mul32(ctx);
    proof {
        assert(ctx.builder.code@ =~= old(ctx).builder.code@ + (seq![Op::ModrmResolveSafeRead32(modrm_byte)] + gen_mul32_code(old(ctx).builder.next_local)));
        assert(ctx.builder.frame().live =~= old(ctx).builder.frame().live);
        assert(ctx.builder.frame().live64 =~= old(ctx).builder.frame().live64);
        assert(ctx.builder.frame().ctrl =~= old(ctx).builder.frame().ctrl);
    }
}

/// `mul`: EDX:EAX = EAX times register `r`.
pub fn instr32_F7_4_reg_jit(ctx: &mut JitContext, r: u32)
    requires
        ready(old(ctx).builder, 8),
        r < 8,
    ensures
        emits(*old(ctx), *final(ctx), seq![Op::GetReg32(r)] + gen_mul32_code(old(ctx).builder.next_local), 1),
        restores_by(old(ctx).builder, final(ctx).builder, 0),
{
    ctx.builder.emit(Op::GetReg32(r));
    proof { assert(ctx.builder.code@ =~= old(ctx).builder.code@ + seq![Op::GetReg32(r)]); }
    gen_mul32(ctx);
    proof {
        assert(ctx.builder.code@ =~= old(ctx).builder.code@ + (seq![Op::GetReg32(r)] + gen_mul32_code(old(ctx).builder.next_local)));
        assert(ctx.builder.frame().live =~= old(ctx).builder.frame().live);
        assert(ctx.builder.frame().live64 =~= old(ctx).builder.frame().live64);
        assert(ctx.builder.frame().ctrl =~= old(ctx).builder.frame().ctrl);
    }
}

/// `imul`: DX:AX = AX times (signed) a word in memory.
pub fn instr16_F7_5_mem_jit(ctx: &mut JitContext, modrm_byte: u8)
    requires
        ready(old(ctx).builder, 8),
    ensures
        emits(*old(ctx), *final(ctx), seq![Op::ModrmResolveSafeRead16(modrm_byte), Op::SignExtendI16, Op::MoveRegistersFromLocalsToMemory, Op::CallFn1("imul16"), Op::MoveRegistersFromMemoryToLocals], 0),
        restores_by(old(ctx).builder, final(ctx).builder, 0),
{
    ctx.builder.emit(Op::ModrmResolveSafeRead16(modrm_byte));
    ctx.builder.emit(Op::SignExtendI16);
    ctx.builder.emit(Op::MoveRegistersFromLocalsToMemory);
    ctx.builder.emit(Op::CallFn1("imul16"));
    ctx.builder.emit(Op::MoveRegistersFromMemoryToLocals);
    proof {
        assert(ctx.builder.code@ =~= old(ctx).builder.code@ + seq![Op::ModrmResolveSafeRead16(modrm_byte), Op::SignExtendI16, Op::MoveRegistersFromLocalsToMemory, Op::CallFn1("imul16"), Op::MoveRegistersFromMemoryToLocals]);
        assert(ctx.builder.frame().live =~= old(ctx).builder.frame().live);
        assert(ctx.builder.frame().live64 =~= old(ctx).builder.frame().live64);
        assert(ctx.builder.frame().ctrl =~= old(ctx).builder.frame().ctrl);
    }
}

/// `imul`: DX:AX = AX times (signed) the 16-bit register `r`.
pub fn instr16_F7_5_reg_jit(ctx: &mut JitContext, r: u32)
    requires
        ready(old(ctx).builder, 8),
        r < 8,
    ensures
        emits(*old(ctx), *final(ctx), seq![Op::GetReg16(r), Op::SignExtendI16, Op::MoveRegistersFromLocalsToMemory, Op::CallFn1("imul16"), Op::MoveRegistersFromMemoryToLocals], 0),
        restores_by(old(ctx).builder, final(ctx).builder, 0),
{
    ctx.builder.emit(Op::GetReg16(r));
    ctx.builder.emit(Op::SignExtendI16);
    ctx.builder.emit(Op::MoveRegistersFromLocalsToMemory);
    ctx.builder.emit(Op::CallFn1("imul16"));
    ctx.builder.emit(Op::MoveRegistersFromMemoryToLocals);
    proof {
        assert(ctx.builder.code@ =~= old(ctx).builder.code@ + seq![Op::GetReg16(r), Op::SignExtendI16, Op::MoveRegistersFromLocalsToMemory, Op::CallFn1("imul16"), Op::MoveRegistersFromMemoryToLocals]);
        assert(ctx.builder.frame().live =~= old(ctx).builder.frame().live);
        assert(ctx.builder.frame().live64 =~= old(ctx).builder.frame().live64);
        assert(ctx.builder.frame().ctrl =~= old(ctx).builder.frame().ctrl);
    }
}

/// `imul`: EDX:EAX = EAX times (signed) a doubleword in memory.
pub fn instr32_F7_5_mem_jit(ctx: &mut JitContext, modrm_byte: u8)
    requires
        ready(old(ctx).builder, 8),
    ensures
        emits(*old(ctx), *final(ctx), seq![Op::ModrmResolveSafeRead32(modrm_byte), Op::MoveRegistersFromLocalsToMemory, Op::CallFn1("imul32"), Op::MoveRegistersFromMemoryToLocals], 0),
        restores_by(old(ctx).builder, final(ctx).builder, 0),
{
    ctx.builder.emit(Op::ModrmResolveSafeRead32(modrm_byte));
    ctx.builder.emit(Op::MoveRegistersFromLocalsToMemory);
    ctx.builder.emit(Op::CallFn1("imul32"));
    ctx.builder.emit(Op::MoveRegistersFromMemoryToLocals);
    proof {
        assert(ctx.builder.code@ =~= old(ctx).builder.code@ + seq![Op::ModrmResolveSafeRead32(modrm_byte), Op::MoveRegistersFromLocalsToMemory, Op::CallFn1("imul32"), Op::MoveRegistersFromMemoryToLocals]);
        assert(ctx.builder.frame().live =~= old(ctx).builder.frame().live);
        assert(ctx.builder.frame().live64 =~= old(ctx).builder.frame().live64);
        assert(ctx.builder.frame().ctrl =~= old(ctx).builder.frame().ctrl);
    }
}

/// `imul`: EDX:EAX = EAX times (signed) register `r`.
pub fn instr32_F7_5_reg_jit(ctx: &mut JitContext, r: u32)
    requires
        ready(old(ctx).builder, 8),
        r < 8,
    ensures
        emits(*old(ctx), *final(ctx), seq![Op::GetReg32(r), Op::MoveRegistersFromLocalsToMemory, Op::CallFn1("imul32"), Op::MoveRegistersFromMemoryToLocals], 0),
        restores_by(old(ctx).builder, final(ctx).builder, 0),
{
    ctx.builder.emit(Op::GetReg32(r));
    ctx.builder.emit(Op::MoveRegistersFromLocalsToMemory);
    ctx.builder.emit(Op::CallFn1("imul32"));
    ctx.builder.emit(Op::MoveRegistersFromMemoryToLocals);
    proof {
        assert(ctx.builder.code@ =~= old(ctx).builder.code@ + seq![Op::GetReg32(r), Op::MoveRegistersFromLocalsToMemory, Op::CallFn1("imul32"), Op::MoveRegistersFromMemoryToLocals]);
        assert(ctx.builder.frame().live =~= old(ctx).builder.frame().live);
        assert(ctx.builder.frame().live64 =~= old(ctx).builder.frame().live64);
        assert(ctx.builder.frame().ctrl =~= old(ctx).builder.frame().ctrl);
    }
}

/// `div` of DX:AX by a word in memory; a fault raises the divide-error exception.
pub fn instr16_F7_6_mem_jit(ctx: &mut JitContext, modrm_byte: u8)
    requires
        ready(old(ctx).builder, 8),
    ensures
        emits(*old(ctx), *final(ctx), seq![Op::ModrmResolveSafeRead16(modrm_byte), Op::MoveRegistersFromLocalsToMemory, Op::CallFn1Ret("div16_without_fault"), Op::MoveRegistersFromMemoryToLocals, Op::EqzI32, Op::IfVoid, Op::TriggerDe, Op::BlockEnd], 0),
        restores_by(old(ctx).builder, final(ctx).builder, 0),
{
    ctx.builder.emit(Op::ModrmResolveSafeRead16(modrm_byte));
    ctx.builder.emit(Op::MoveRegistersFromLocalsToMemory);
    ctx.builder.emit(Op::CallFn1Ret("div16_without_fault"));
    ctx.builder.emit(Op::MoveRegistersFromMemoryToLocals);
    ctx.builder.emit(Op::EqzI32);
    ctx.builder.if_void();
    ctx.builder.diverge(Op::TriggerDe);
    ctx.builder.block_end();
    proof {
        assert(ctx.builder.code@ =~= old(ctx).builder.code@ + seq![Op::ModrmResolveSafeRead16(modrm_byte), Op::MoveRegistersFromLocalsToMemory, Op::CallFn1Ret("div16_without_fault"), Op::MoveRegistersFromMemoryToLocals, Op::EqzI32, Op::IfVoid, Op::TriggerDe, Op::BlockEnd]);
        assert(ctx.builder.frame().live =~= old(ctx).builder.frame().live);
        assert(ctx.builder.frame().live64 =~= old(ctx).builder.frame().live64);
        assert(ctx.builder.frame().ctrl =~= old(ctx).builder.frame().ctrl);
    }
}

/// `div` of DX:AX by the 16-bit register `r`; a fault raises the divide-error exception.
pub fn instr16_F7_6_reg_jit(ctx: &mut JitContext, r: u32)
    requires
        ready(old(ctx).builder, 8),
        r < 8,
    ensures
        emits(*old(ctx), *final(ctx), seq![Op::GetReg16(r), Op::MoveRegistersFromLocalsToMemory, Op::CallFn1Ret("div16_without_fault"), Op::MoveRegistersFromMemoryToLocals, Op::EqzI32, Op::IfVoid, Op::TriggerDe, Op::BlockEnd], 0),
        restores_by(old(ctx).builder, final(ctx).builder, 0),
{
    ctx.builder.emit(Op::GetReg16(r));
    ctx.builder.emit(Op::MoveRegistersFromLocalsToMemory);
    ctx.builder.emit(Op::CallFn1Ret("div16_without_fault"));
    ctx.builder.emit(Op::MoveRegistersFromMemoryToLocals);
    ctx.builder.emit(Op::EqzI32);
    ctx.builder.if_void();
    ctx.builder.diverge(Op::TriggerDe);
    ctx.builder.block_end();
    proof {
        assert(ctx.builder.code@ =~= old(ctx).builder.code@ + seq![Op::GetReg16(r), Op::MoveRegistersFromLocalsToMemory, Op::CallFn1Ret("div16_without_fault"), Op::MoveRegistersFromMemoryToLocals, Op::EqzI32, Op::IfVoid, Op::TriggerDe, Op::BlockEnd]);
        assert(ctx.builder.frame().live =~= old(ctx).builder.frame().live);
        assert(ctx.builder.frame().live64 =~= old(ctx).builder.frame().live64);
        assert(ctx.builder.frame().ctrl =~= old(ctx).builder.frame().ctrl);
    }
}

/// `div` of EDX:EAX by a doubleword in memory; a fault raises the divide-error exception.
pub fn instr32_F7_6_mem_jit(ctx: &mut JitContext, modrm_byte: u8)
    requires
        ready(old(ctx).builder, 8),
    ensures
        emits(*old(ctx), *final(ctx), seq![Op::ModrmResolveSafeRead32(modrm_byte), Op::MoveRegistersFromLocalsToMemory, Op::CallFn1Ret("div32_without_fault"), Op::MoveRegistersFromMemoryToLocals, Op::EqzI32, Op::IfVoid, Op::TriggerDe, Op::BlockEnd], 0),
        restores_by(old(ctx).builder, final(ctx).builder, 0),
{
    ctx.builder.emit(Op::ModrmResolveSafeRead32(modrm_byte));
    ctx.builder.emit(Op::MoveRegistersFromLocalsToMemory);
    ctx.builder.emit(Op::CallFn1Ret("div32_without_fault"));
    ctx.builder.emit(Op::MoveRegistersFromMemoryToLocals);
    ctx.builder.emit(Op::EqzI32);
    ctx.builder.if_void();
    ctx.builder.diverge(Op::TriggerDe);
    ctx.builder.block_end();
    proof {
        assert(ctx.builder.code@ =~= old(ctx).builder.code@ + seq![Op::ModrmResolveSafeRead32(modrm_byte), Op::MoveRegistersFromLocalsToMemory, Op::CallFn1Ret("div32_without_fault"), Op::MoveRegistersFromMemoryToLocals, Op::EqzI32, Op::IfVoid, Op::TriggerDe, Op::BlockEnd]);
        assert(ctx.builder.frame().live =~= old(ctx).builder.frame().live);
        assert(ctx.builder.frame().live64 =~= old(ctx).builder.frame().live64);
        assert(ctx.builder.frame().ctrl =~= old(ctx).builder.frame().ctrl);
    }
}

/// `div` of EDX:EAX by register `r`; a fault raises the divide-error exception.
pub fn instr32_F7_6_reg_jit(ctx: &mut JitContext, r: u32)
    requires
        ready(old(ctx).builder, 8),
        r < 8,
    ensures
        emits(*old(ctx), *final(ctx), seq![Op::GetReg32(r), Op::MoveRegistersFromLocalsToMemory, Op::CallFn1Ret("div32_without_fault"), Op::MoveRegistersFromMemoryToLocals, Op::EqzI32, Op::IfVoid, Op::TriggerDe, Op::BlockEnd], 0),
        restores_by(old(ctx).builder, final(ctx).builder, 0),
{
    ctx.builder.emit(Op::GetReg32(r));
    ctx.builder.emit(Op::MoveRegistersFromLocalsToMemory);
    ctx.builder.emit(Op::CallFn1Ret("div32_without_fault"));
    ctx.builder.emit(Op::MoveRegistersFromMemoryToLocals);
    ctx.builder.emit(Op::EqzI32);
    ctx.builder.if_void();
    ctx.builder.diverge(Op::TriggerDe);
    ctx.builder.block_end();
    proof {
        assert(ctx.builder.code@ =~= old(ctx).builder.code@ + seq![Op::GetReg32(r), Op::MoveRegistersFromLocalsToMemory, Op::CallFn1Ret("div32_without_fault"), Op::MoveRegistersFromMemoryToLocals, Op::EqzI32, Op::IfVoid, Op::TriggerDe, Op::BlockEnd]);
        assert(ctx.builder.frame().live =~= old(ctx).builder.frame().live);
        assert(ctx.builder.frame().live64 =~= old(ctx).builder.frame().live64);
        assert(ctx.builder.frame().ctrl =~= old(ctx).builder.frame().ctrl);
    }
}

/// `idiv` of DX:AX by a word in memory; a fault raises the divide-error exception.
pub fn instr16_F7_7_mem_jit(ctx: &mut JitContext, modrm_byte: u8)
    requires
        ready(old(ctx).builder, 8),
    ensures
        emits(*old(ctx), *final(ctx), seq![Op::ModrmResolveSafeRead16(modrm_byte), Op::SignExtendI16, Op::MoveRegistersFromLocalsToMemory, Op::CallFn1Ret("idiv16_without_fault"), Op::MoveRegistersFromMemoryToLocals, Op::EqzI32, Op::IfVoid, Op::TriggerDe, Op::BlockEnd], 0),
        restores_by(old(ctx).builder, final(ctx).builder, 0),
{
    ctx.builder.emit(Op::ModrmResolveSafeRead16(modrm_byte));
    ctx.builder.emit(Op::SignExtendI16);
    ctx.builder.emit(Op::MoveRegistersFromLocalsToMemory);
    ctx.builder.emit(Op::CallFn1Ret("idiv16_without_fault"));
    ctx.builder.emit(Op::MoveRegistersFromMemoryToLocals);
    ctx.builder.emit(Op::EqzI32);
    ctx.builder.if_void();
    ctx.builder.diverge(Op::TriggerDe);
    ctx.builder.block_end();
    proof {
        assert(ctx.builder.code@ =~= old(ctx).builder.code@ + seq![Op::ModrmResolveSafeRead16(modrm_byte), Op::SignExtendI16, Op::MoveRegistersFromLocalsToMemory, Op::CallFn1Ret("idiv16_without_fault"), Op::MoveRegistersFromMemoryToLocals, Op::EqzI32, Op::IfVoid, Op::TriggerDe, Op::BlockEnd]);
        assert(ctx.builder.frame().live =~= old(ctx).builder.frame().live);
        assert(ctx.builder.frame().live64 =~= old(ctx).builder.frame().live64);
        assert(ctx.builder.frame().ctrl =~= old(ctx).builder.frame().ctrl);
    }
}

/// `idiv` of DX:AX by the 16-bit register `r`; a fault raises the divide-error exception.
pub fn instr16_F7_7_reg_jit(ctx: &mut JitContext, r: u32)
    requires
        ready(old(ctx).builder, 8),
        r < 8,
    ensures
        emits(*old(ctx), *final(ctx), seq![Op::GetReg16(r), Op::SignExtendI16, Op::MoveRegistersFromLocalsToMemory, Op::CallFn1Ret("idiv16_without_fault"), Op::MoveRegistersFromMemoryToLocals, Op::EqzI32, Op::IfVoid, Op::TriggerDe, Op::BlockEnd], 0),
        restores_by(old(ctx).builder, final(ctx).builder, 0),
{
    ctx.builder.emit(Op::GetReg16(r));
    ctx.builder.emit(Op::SignExtendI16);
    ctx.builder.emit(Op::MoveRegistersFromLocalsToMemory);
    ctx.builder.emit(Op::CallFn1Ret("idiv16_without_fault"));
    ctx.builder.emit(Op::MoveRegistersFromMemoryToLocals);
    ctx.builder.emit(Op::EqzI32);
    ctx.builder.if_void();
    ctx.builder.diverge(Op::TriggerDe);
    ctx.builder.block_end();
    proof {
        assert(ctx.builder.code@ =~= old(ctx).builder.code@ + seq![Op::GetReg16(r), Op::SignExtendI16, Op::MoveRegistersFromLocalsToMemory, Op::CallFn1Ret("idiv16_without_fault"), Op::MoveRegistersFromMemoryToLocals, Op::EqzI32, Op::IfVoid, Op::TriggerDe, Op::BlockEnd]);
        assert(ctx.builder.frame().live =~= old(ctx).builder.frame().live);
        assert(ctx.builder.frame().live64 =~= old(ctx).builder.frame().live64);
        assert(ctx.builder.frame().ctrl =~= old(ctx).builder.frame().ctrl);
    }
}

/// `idiv` of EDX:EAX by a doubleword in memory; a fault raises the divide-error exception.
pub fn instr32_F7_7_mem_jit(ctx: &mut JitContext, modrm_byte: u8)
    requires
        ready(old(ctx).builder, 8),
    ensures
        emits(*old(ctx), *final(ctx), seq![Op::ModrmResolveSafeRead32(modrm_byte), Op::MoveRegistersFromLocalsToMemory, Op::CallFn1Ret("idiv32_without_fault"), Op::MoveRegistersFromMemoryToLocals, Op::EqzI32, Op::IfVoid, Op::TriggerDe, Op::BlockEnd], 0),
        restores_by(old(ctx).builder, final(ctx).builder, 0),
{
    ctx.builder.emit(Op::ModrmResolveSafeRead32(modrm_byte));
    ctx.builder.emit(Op::MoveRegistersFromLocalsToMemory);
    ctx.builder.emit(Op::CallFn1Ret("idiv32_without_fault"));
    ctx.builder.emit(Op::MoveRegistersFromMemoryToLocals);
    ctx.builder.emit(Op::EqzI32);
    ctx.builder.if_void();
    ctx.builder.diverge(Op::TriggerDe);
    ctx.builder.block_end();
    proof {
        assert(ctx.builder.code@ =~= old(ctx).builder.code@ + seq![Op::ModrmResolveSafeRead32(modrm_byte), Op::MoveRegistersFromLocalsToMemory, Op::CallFn1Ret("idiv32_without_fault"), Op::MoveRegistersFromMemoryToLocals, Op::EqzI32, Op::IfVoid, Op::TriggerDe, Op::BlockEnd]);
        assert(ctx.builder.frame().live =~= old(ctx).builder.frame().live);
        assert(ctx.builder.frame().live64 =~= old(ctx).builder.frame().live64);
        assert(ctx.builder.frame().ctrl =~= old(ctx).builder.frame().ctrl);
    }
}

/// `idiv` of EDX:EAX by register `r`; a fault raises the divide-error exception.
pub fn instr32_F7_7_reg_jit(ctx: &mut JitContext, r: u32)
    requires
        ready(old(ctx).builder, 8),
        r < 8,
    ensures
        emits(*old(ctx), *final(ctx), seq![Op::GetReg32(r), Op::MoveRegistersFromLocalsToMemory, Op::CallFn1Ret("idiv32_without_fault"), Op::MoveRegistersFromMemoryToLocals, Op::EqzI32, Op::IfVoid, Op::TriggerDe, Op::BlockEnd], 0),
        restores_by(old(ctx).builder, final(ctx).builder, 0),
{
    ctx.builder.emit(Op::GetReg32(r));
    ctx.builder.emit(Op::MoveRegistersFromLocalsToMemory);
    ctx.builder.emit(Op::CallFn1Ret("idiv32_without_fault"));
    ctx.builder.emit(Op::MoveRegistersFromMemoryToLocals);
    ctx.builder.emit(Op::EqzI32);
    ctx.builder.if_void();
    ctx.builder.diverge(Op::TriggerDe);
    ctx.builder.block_end();
    proof {
        assert(ctx.builder.code@ =~= old(ctx).builder.code@ + seq![Op::GetReg32(r), Op::MoveRegistersFromLocalsToMemory, Op::CallFn1Ret("idiv32_without_fault"), Op::MoveRegistersFromMemoryToLocals, Op::EqzI32, Op::IfVoid, Op::TriggerDe, Op::BlockEnd]);
        assert(ctx.builder.frame().live =~= old(ctx).builder.frame().live);
        assert(ctx.builder.frame().live64 =~= old(ctx).builder.frame().live64);
        assert(ctx.builder.frame().ctrl =~= old(ctx).builder.frame().ctrl);
    }
}

/// `cli` through the runtime helper; a refusal raises the general-protection exception.
pub fn instr_FA_jit(ctx: &mut JitContext)
    requires
        ready(old(ctx).builder, 8),
    ensures
        emits(*old(ctx), *final(ctx), seq![Op::Fn0ConstRet("instr_FA_without_fault"), Op::EqzI32, Op::IfVoid, Op::TriggerGp(0), Op::BlockEnd], 0),
        restores_by(old(ctx).builder, final(ctx).builder, 0),
{
    ctx.builder.emit(Op::Fn0ConstRet("instr_FA_without_fault"));
    ctx.builder.emit(Op::EqzI32);
    ctx.builder.if_void();
    ctx.builder.diverge(Op::TriggerGp(0));
    ctx.builder.block_end();
    proof {
        assert(ctx.builder.code@ =~= old(ctx).builder.code@ + seq![Op::Fn0ConstRet("instr_FA_without_fault"), Op::EqzI32, Op::IfVoid, Op::TriggerGp(0), Op::BlockEnd]);
        assert(ctx.builder.frame().live =~= old(ctx).builder.frame().live);
        assert(ctx.builder.frame().live64 =~= old(ctx).builder.frame().live64);
        assert(ctx.builder.frame().ctrl =~= old(ctx).builder.frame().ctrl);
    }
}

/// `sti` through the runtime helper; a refusal raises the general-protection exception.
pub fn instr_FB_jit(ctx: &mut JitContext)
    requires
        ready(old(ctx).builder, 8),
    ensures
        emits(*old(ctx), *final(ctx), seq![Op::Fn0ConstRet("instr_FB_without_fault"), Op::EqzI32, Op::IfVoid, Op::TriggerGp(0), Op::BlockEnd], 0),
        restores_by(old(ctx).builder, final(ctx).builder, 0),
{
    ctx.builder.emit(Op::Fn0ConstRet("instr_FB_without_fault"));
    ctx.builder.emit(Op::EqzI32);
    ctx.builder.if_void();
    ctx.builder.diverge(Op::TriggerGp(0));
    ctx.builder.block_end();
    proof {
        assert(ctx.builder.code@ =~= old(ctx).builder.code@ + seq![Op::Fn0ConstRet("instr_FB_without_fault"), Op::EqzI32, Op::IfVoid, Op::TriggerGp(0), Op::BlockEnd]);
        assert(ctx.builder.frame().live =~= old(ctx).builder.frame().live);
        assert(ctx.builder.frame().live64 =~= old(ctx).builder.frame().live64);
        assert(ctx.builder.frame().ctrl =~= old(ctx).builder.frame().ctrl);
    }
}

/// The code that [`instr_FC_jit`] appends.
pub open spec fn instr_FC_jit_code() -> Seq<Op> {
    seq![Op::ConstGlobal(GlobalPointer::Flags), Op::LoadAlignedI32(GlobalPointer::Flags), Op::ConstI32(NOT_DIRECTION), Op::AndI32, Op::StoreAlignedI32(0)]
}

/// `cld`: clears the direction flag.
pub fn instr_FC_jit(ctx: &mut JitContext)
    requires
        ready(old(ctx).builder, 8),
    ensures
        emits(*old(ctx), *final(ctx), instr_FC_jit_code(), 0),
        restores_by(old(ctx).builder, final(ctx).builder, 0),
{
    ctx.builder.emit(Op::ConstGlobal(GlobalPointer::Flags));
    ctx.builder.emit(Op::LoadAlignedI32(GlobalPointer::Flags));
    ctx.builder.emit(Op::ConstI32(NOT_DIRECTION));
    ctx.builder.emit(Op::AndI32);
    ctx.builder.emit(Op::StoreAlignedI32(0));
    proof {
        assert(ctx.builder.code@ =~= old(ctx).builder.code@ + instr_FC_jit_code());
        assert(ctx.builder.frame().live =~= old(ctx).builder.frame().live);
        assert(ctx.builder.frame().live64 =~= old(ctx).builder.frame().live64);
        assert(ctx.builder.frame().ctrl =~= old(ctx).builder.frame().ctrl);
    }
}

/// The code that [`instr_FD_jit`] appends.
pub open spec fn instr_FD_jit_code() -> Seq<Op> {
    seq![Op::ConstGlobal(GlobalPointer::Flags), Op::LoadAlignedI32(GlobalPointer::Flags), Op::ConstI32(FLAG_DIRECTION), Op::OrI32, Op::StoreAlignedI32(0)]
}

/// `std`: sets the direction flag.
pub fn instr_FD_jit(ctx: &mut JitContext)
    requires
        ready(old(ctx).builder, 8),
    ensures
        emits(*old(ctx), *final(ctx), instr_FD_jit_code(), 0),
        restores_by(old(ctx).builder, final(ctx).builder, 0),
{
    ctx.builder.emit(Op::ConstGlobal(GlobalPointer::Flags));
    ctx.builder.emit(Op::LoadAlignedI32(GlobalPointer::Flags));
    ctx.builder.emit(Op::ConstI32(FLAG_DIRECTION));
    ctx.builder.emit(Op::OrI32);
    ctx.builder.emit(Op::StoreAlignedI32(0));
    proof {
        assert(ctx.builder.code@ =~= old(ctx).builder.code@ + instr_FD_jit_code());
        assert(ctx.builder.frame().live =~= old(ctx).builder.frame().live);
        assert(ctx.builder.frame().live64 =~= old(ctx).builder.frame().live64);
        assert(ctx.builder.frame().ctrl =~= old(ctx).builder.frame().ctrl);
    }
}

/// Increments a 16-bit value in memory.
pub fn instr16_FF_0_mem_jit(ctx: &mut JitContext, modrm_byte: u8)
    requires
        ready(old(ctx).builder, 8),
    ensures
        emits(*old(ctx), *final(ctx), rmw16_unary_mem_code(Unary::Inc16, modrm_byte, old(ctx).builder.next_local), 2),
        restores_by(old(ctx).builder, final(ctx).builder, 0),
{
    rmw16_unary_mem(ctx, Unary::Inc16, modrm_byte);
    proof {
        assert(ctx.builder.code@ =~= old(ctx).builder.code@ + rmw16_unary_mem_code(Unary::Inc16, modrm_byte, old(ctx).builder.next_local));
        assert(ctx.builder.frame().live =~= old(ctx).builder.frame().live);
        assert(ctx.builder.frame().live64 =~= old(ctx).builder.frame().live64);
        assert(ctx.builder.frame().ctrl =~= old(ctx).builder.frame().ctrl);
    }
}

/// Increments register `r1` at 16 bits.
pub fn instr16_FF_0_reg_jit(ctx: &mut JitContext, r1: u32)
    requires
        ready(old(ctx).builder, 8),
        r1 < 8,
    ensures
        emits(*old(ctx), *final(ctx), rmw16_unary_reg_code(Unary::Inc16, r1), 0),
        restores_by(old(ctx).builder, final(ctx).builder, 0),
{
    rmw16_unary_reg(ctx, Unary::Inc16, r1);
    proof {
        assert(ctx.builder.code@ =~= old(ctx).builder.code@ + rmw16_unary_reg_code(Unary::Inc16, r1));
        assert(ctx.builder.frame().live =~= old(ctx).builder.frame().live);
        assert(ctx.builder.frame().live64 =~= old(ctx).builder.frame().live64);
        assert(ctx.builder.frame().ctrl =~= old(ctx).builder.frame().ctrl);
    }
}

/// Increments a 32-bit value in memory.
pub fn instr32_FF_0_mem_jit(ctx: &mut JitContext, modrm_byte: u8)
    requires
        ready(old(ctx).builder, 8),
    ensures
        emits(*old(ctx), *final(ctx), rmw32_unary_mem_code(Unary::Inc32, modrm_byte, old(ctx).builder.next_local), 2),
        restores_by(old(ctx).builder, final(ctx).builder, 0),
{
    rmw32_unary_mem(ctx, Unary::Inc32, modrm_byte);
    proof {
        assert(ctx.builder.code@ =~= old(ctx).builder.code@ + rmw32_unary_mem_code(Unary::Inc32, modrm_byte, old(ctx).builder.next_local));
        assert(ctx.builder.frame().live =~= old(ctx).builder.frame().live);
        assert(ctx.builder.frame().live64 =~= old(ctx).builder.frame().live64);
        assert(ctx.builder.frame().ctrl =~= old(ctx).builder.frame().ctrl);
    }
}

/// Increments register `r1` at 32 bits.
pub fn instr32_FF_0_reg_jit(ctx: &mut JitContext, r1: u32)
    requires
        ready(old(ctx).builder, 8),
        r1 < 8,
    ensures
        emits(*old(ctx), *final(ctx), rmw32_unary_reg_code(Unary::Inc32, r1), 0),
        restores_by(old(ctx).builder, final(ctx).builder, 0),
{
    rmw32_unary_reg(ctx, Unary::Inc32, r1);
    proof {
        assert(ctx.builder.code@ =~= old(ctx).builder.code@ + rmw32_unary_reg_code(Unary::Inc32, r1));
        assert(ctx.builder.frame().live =~= old(ctx).builder.frame().live);
        assert(ctx.builder.frame().live64 =~= old(ctx).builder.frame().live64);
        assert(ctx.builder.frame().ctrl =~= old(ctx).builder.frame().ctrl);
    }
}

/// Decrements a 16-bit value in memory.
pub fn instr16_FF_1_mem_jit(ctx: &mut JitContext, modrm_byte: u8)
    requires
        ready(old(ctx).builder, 8),
    ensures
        emits(*old(ctx), *final(ctx), rmw16_unary_mem_code(Unary::Dec16, modrm_byte, old(ctx).builder.next_local), 2),
        restores_by(old(ctx).builder, final(ctx).builder, 0),
{
    rmw16_unary_mem(ctx, Unary::Dec16, modrm_byte);
    proof {
        assert(ctx.builder.code@ =~= old(ctx).builder.code@ + rmw16_unary_mem_code(Unary::Dec16, modrm_byte, old(ctx).builder.next_local));
        assert(ctx.builder.frame().live =~= old(ctx).builder.frame().live);
        assert(ctx.builder.frame().live64 =~= old(ctx).builder.frame().live64);
        assert(ctx.builder.frame().ctrl =~= old(ctx).builder.frame().ctrl);
    }
}

/// Decrements register `r1` at 16 bits.
pub fn instr16_FF_1_reg_jit(ctx: &mut JitContext, r1: u32)
    requires
        ready(old(ctx).builder, 8),
        r1 < 8,
    ensures
        emits(*old(ctx), *final(ctx), rmw16_unary_reg_code(Unary::Dec16, r1), 0),
        restores_by(old(ctx).builder, final(ctx).builder, 0),
{
    rmw16_unary_reg(ctx, Unary::Dec16, r1);
    proof {
        assert(ctx.builder.code@ =~= old(ctx).builder.code@ + rmw16_unary_reg_code(Unary::Dec16, r1));
        assert(ctx.builder.frame().live =~= old(ctx).builder.frame().live);
        assert(ctx.builder.frame().live64 =~= old(ctx).builder.frame().live64);
        assert(ctx.builder.frame().ctrl =~= old(ctx).builder.frame().ctrl);
    }
}

/// Decrements a 32-bit value in memory.
pub fn instr32_FF_1_mem_jit(ctx: &mut JitContext, modrm_byte: u8)
    requires
        ready(old(ctx).builder, 8),
    ensures
        emits(*old(ctx), *final(ctx), rmw32_unary_mem_code(Unary::Dec32, modrm_byte, old(ctx).builder.next_local), 2),
        restores_by(old(ctx).builder, final(ctx).builder, 0),
{
    rmw32_unary_mem(ctx, Unary::Dec32, modrm_byte);
    proof {
        assert(ctx.builder.code@ =~= old(ctx).builder.code@ + rmw32_unary_mem_code(Unary::Dec32, modrm_byte, old(ctx).builder.next_local));
        assert(ctx.builder.frame().live =~= old(ctx).builder.frame().live);
        assert(ctx.builder.frame().live64 =~= old(ctx).builder.frame().live64);
        assert(ctx.builder.frame().ctrl =~= old(ctx).builder.frame().ctrl);
    }
}

/// Decrements register `r1` at 32 bits.
pub fn instr32_FF_1_reg_jit(ctx: &mut JitContext, r1: u32)
    requires
        ready(old(ctx).builder, 8),
        r1 < 8,
    ensures
        emits(*old(ctx), *final(ctx), rmw32_unary_reg_code(Unary::Dec32, r1), 0),
        restores_by(old(ctx).builder, final(ctx).builder, 0),
{
    rmw32_unary_reg(ctx, Unary::Dec32, r1);
    proof {
        assert(ctx.builder.code@ =~= old(ctx).builder.code@ + rmw32_unary_reg_code(Unary::Dec32, r1));
        assert(ctx.builder.frame().live =~= old(ctx).builder.frame().live);
        assert(ctx.builder.frame().live64 =~= old(ctx).builder.frame().live64);
        assert(ctx.builder.frame().ctrl =~= old(ctx).builder.frame().ctrl);
    }
}

/// `call` to an address read from memory.
pub fn instr16_FF_2_mem_jit(ctx: &mut JitContext, modrm_byte: u8)
    requires
        ready(old(ctx).builder, 8),
    ensures
        emits(*old(ctx), *final(ctx), seq![Op::ModrmResolveSafeRead16(modrm_byte), Op::AddCsOffset, Op::SetNewLocal(old(ctx).builder.next_local), Op::GetRealEip, Op::SetNewLocal((old(ctx).builder.next_local + 1) as u32), Op::Push16(WasmLocal::Temp((old(ctx).builder.next_local + 1) as u32)), Op::FreeLocal((old(ctx).builder.next_local + 1) as u32), Op::AbsoluteIndirectJump(old(ctx).builder.next_local)], 2),
        restores_by(old(ctx).builder, final(ctx).builder, 0),
{
    ctx.builder.emit(Op::ModrmResolveSafeRead16(modrm_byte));
    ctx.builder.emit(Op::AddCsOffset);
    let new_eip = ctx.builder.set_new_local();
    ctx.builder.emit(Op::GetRealEip);
    let value = ctx.builder.set_new_local();
    ctx.builder.emit(Op::Push16(value));
    ctx.builder.free_local(value);
    ctx.builder.absolute_indirect_jump(new_eip);
    proof {
        assert(ctx.builder.code@ =~= old(ctx).builder.code@ + (seq![Op::ModrmResolveSafeRead16(modrm_byte), Op::AddCsOffset, Op::SetNewLocal(old(ctx).builder.next_local), Op::GetRealEip, Op::SetNewLocal((old(ctx).builder.next_local + 1) as u32), Op::Push16(WasmLocal::Temp((old(ctx).builder.next_local + 1) as u32)), Op::FreeLocal((old(ctx).builder.next_local + 1) as u32), Op::AbsoluteIndirectJump(old(ctx).builder.next_local)]));
        assert(ctx.builder.frame().live =~= old(ctx).builder.frame().live);
        assert(ctx.builder.frame().live64 =~= old(ctx).builder.frame().live64);
        assert(ctx.builder.frame().ctrl =~= old(ctx).builder.frame().ctrl);
    }
}

/// `call` to the address in register `r`.
pub fn instr16_FF_2_reg_jit(ctx: &mut JitContext, r: u32)
    requires
        ready(old(ctx).builder, 8),
        r < 8,
    ensures
        emits(*old(ctx), *final(ctx), seq![Op::GetReg16(r), Op::AddCsOffset, Op::SetNewLocal(old(ctx).builder.next_local), Op::GetRealEip, Op::SetNewLocal((old(ctx).builder.next_local + 1) as u32), Op::Push16(WasmLocal::Temp((old(ctx).builder.next_local + 1) as u32)), Op::FreeLocal((old(ctx).builder.next_local + 1) as u32), Op::AbsoluteIndirectJump(old(ctx).builder.next_local)], 2),
        restores_by(old(ctx).builder, final(ctx).builder, 0),
{
    ctx.builder.emit(Op::GetReg16(r));
    ctx.builder.emit(Op::AddCsOffset);
    let new_eip = ctx.builder.set_new_local();
    ctx.builder.emit(Op::GetRealEip);
    let value = ctx.builder.set_new_local();
    ctx.builder.emit(Op::Push16(value));
    ctx.builder.free_local(value);
    ctx.builder.absolute_indirect_jump(new_eip);
    proof {
        assert(ctx.builder.code@ =~= old(ctx).builder.code@ + (seq![Op::GetReg16(r), Op::AddCsOffset, Op::SetNewLocal(old(ctx).builder.next_local), Op::GetRealEip, Op::SetNewLocal((old(ctx).builder.next_local + 1) as u32), Op::Push16(WasmLocal::Temp((old(ctx).builder.next_local + 1) as u32)), Op::FreeLocal((old(ctx).builder.next_local + 1) as u32), Op::AbsoluteIndirectJump(old(ctx).builder.next_local)]));
        assert(ctx.builder.frame().live =~= old(ctx).builder.frame().live);
        assert(ctx.builder.frame().live64 =~= old(ctx).builder.frame().live64);
        assert(ctx.builder.frame().ctrl =~= old(ctx).builder.frame().ctrl);
    }
}

/// `jmp` to an address read from memory.
pub fn instr16_FF_4_mem_jit(ctx: &mut JitContext, modrm_byte: u8)
    requires
        ready(old(ctx).builder, 8),
    ensures
        emits(*old(ctx), *final(ctx), seq![Op::ModrmResolveSafeRead16(modrm_byte), Op::AddCsOffset, Op::SetNewLocal(old(ctx).builder.next_local), Op::AbsoluteIndirectJump(old(ctx).builder.next_local)], 1),
        restores_by(old(ctx).builder, final(ctx).builder, 0),
{
    ctx.builder.emit(Op::ModrmResolveSafeRead16(modrm_byte));
    ctx.builder.emit(Op::AddCsOffset);
    let new_eip = ctx.builder.set_new_local();
    ctx.builder.absolute_indirect_jump(new_eip);
    proof {
        assert(ctx.builder.code@ =~= old(ctx).builder.code@ + seq![Op::ModrmResolveSafeRead16(modrm_byte), Op::AddCsOffset, Op::SetNewLocal(old(ctx).builder.next_local), Op::AbsoluteIndirectJump(old(ctx).builder.next_local)]);
        assert(ctx.builder.frame().live =~= old(ctx).builder.frame().live);
        assert(ctx.builder.frame().live64 =~= old(ctx).builder.frame().live64);
        assert(ctx.builder.frame().ctrl =~= old(ctx).builder.frame().ctrl);
    }
}

/// `jmp` to the address in register `r`.
pub fn instr16_FF_4_reg_jit(ctx: &mut JitContext, r: u32)
    requires
        ready(old(ctx).builder, 8),
        r < 8,
    ensures
        emits(*old(ctx), *final(ctx), seq![Op::GetReg16(r), Op::AddCsOffset, Op::SetNewLocal(old(ctx).builder.next_local), Op::AbsoluteIndirectJump(old(ctx).builder.next_local)], 1),
        restores_by(old(ctx).builder, final(ctx).builder, 0),
{
    ctx.builder.emit(Op::GetReg16(r));
    ctx.builder.emit(Op::AddCsOffset);
    let new_eip = ctx.builder.set_new_local();
    ctx.builder.absolute_indirect_jump(new_eip);
    proof {
        assert(ctx.builder.code@ =~= old(ctx).builder.code@ + seq![Op::GetReg16(r), Op::AddCsOffset, Op::SetNewLocal(old(ctx).builder.next_local), Op::AbsoluteIndirectJump(old(ctx).builder.next_local)]);
        assert(ctx.builder.frame().live =~= old(ctx).builder.frame().live);
        assert(ctx.builder.frame().live64 =~= old(ctx).builder.frame().live64);
        assert(ctx.builder.frame().ctrl =~= old(ctx).builder.frame().ctrl);
    }
}

/// Pushes a 16-bit value read from memory.
pub fn instr16_FF_6_mem_jit(ctx: &mut JitContext, modrm_byte: u8)
    requires
        ready(old(ctx).builder, 8),
    ensures
        emits(*old(ctx), *final(ctx), push16_mem_jit_code(modrm_byte, old(ctx).builder.next_local), 1),
        restores_by(old(ctx).builder, final(ctx).builder, 0),
{
    push16_mem_jit(ctx, modrm_byte);
    proof {
        assert(ctx.builder.code@ =~= old(ctx).builder.code@ + push16_mem_jit_code(modrm_byte, old(ctx).builder.next_local));
        assert(ctx.builder.frame().live =~= old(ctx).builder.frame().live);
        assert(ctx.builder.frame().live64 =~= old(ctx).builder.frame().live64);
        assert(ctx.builder.frame().ctrl =~= old(ctx).builder.frame().ctrl);
    }
}

/// Pushes register `r` at 16 bits.
pub fn instr16_FF_6_reg_jit(ctx: &mut JitContext, r: u32)
    requires
        ready(old(ctx).builder, 8),
        r < 8,
    ensures
        emits(*old(ctx), *final(ctx), push16_reg_jit_code(r, old(ctx).builder.next_local), 1),
        restores_by(old(ctx).builder, final(ctx).builder, 0),
{
    push16_reg_jit(ctx, r);
    proof {
        assert(ctx.builder.code@ =~= old(ctx).builder.code@ + push16_reg_jit_code(r, old(ctx).builder.next_local));
        assert(ctx.builder.frame().live =~= old(ctx).builder.frame().live);
        assert(ctx.builder.frame().live64 =~= old(ctx).builder.frame().live64);
        assert(ctx.builder.frame().ctrl =~= old(ctx).builder.frame().ctrl);
    }
}

/// `call` to an address read from memory.
pub fn instr32_FF_2_mem_jit(ctx: &mut JitContext, modrm_byte: u8)
    requires
        ready(old(ctx).builder, 8),
    ensures
        emits(*old(ctx), *final(ctx), seq![Op::ModrmResolveSafeRead32(modrm_byte), Op::AddCsOffset, Op::SetNewLocal(old(ctx).builder.next_local), Op::GetRealEip, Op::SetNewLocal((old(ctx).builder.next_local + 1) as u32), Op::Push32(WasmLocal::Temp((old(ctx).builder.next_local + 1) as u32)), Op::FreeLocal((old(ctx).builder.next_local + 1) as u32), Op::AbsoluteIndirectJump(old(ctx).builder.next_local)], 2),
        restores_by(old(ctx).builder, final(ctx).builder, 0),
{
    ctx.builder.emit(Op::ModrmResolveSafeRead32(modrm_byte));
    ctx.builder.emit(Op::AddCsOffset);
    let new_eip = ctx.builder.set_new_local();
    ctx.builder.emit(Op::GetRealEip);
    let value = ctx.builder.set_new_local();
    ctx.builder.emit(Op::Push32(value));
    ctx.builder.free_local(value);
    ctx.builder.absolute_indirect_jump(new_eip);
    proof {
        assert(ctx.builder.code@ =~= old(ctx).builder.code@ + (seq![Op::ModrmResolveSafeRead32(modrm_byte), Op::AddCsOffset, Op::SetNewLocal(old(ctx).builder.next_local), Op::GetRealEip, Op::SetNewLocal((old(ctx).builder.next_local + 1) as u32), Op::Push32(WasmLocal::Temp((old(ctx).builder.next_local + 1) as u32)), Op::FreeLocal((old(ctx).builder.next_local + 1) as u32), Op::AbsoluteIndirectJump(old(ctx).builder.next_local)]));
        assert(ctx.builder.frame().live =~= old(ctx).builder.frame().live);
        assert(ctx.builder.frame().live64 =~= old(ctx).builder.frame().live64);
        assert(ctx.builder.frame().ctrl =~= old(ctx).builder.frame().ctrl);
    }
}

/// `call` to the address in register `r`.
pub fn instr32_FF_2_reg_jit(ctx: &mut JitContext, r: u32)
    requires
        ready(old(ctx).builder, 8),
        r < 8,
    ensures
        emits(*old(ctx), *final(ctx), seq![Op::GetReg32(r), Op::AddCsOffset, Op::SetNewLocal(old(ctx).builder.next_local), Op::GetRealEip, Op::SetNewLocal((old(ctx).builder.next_local + 1) as u32), Op::Push32(WasmLocal::Temp((old(ctx).builder.next_local + 1) as u32)), Op::FreeLocal((old(ctx).builder.next_local + 1) as u32), Op::AbsoluteIndirectJump(old(ctx).builder.next_local)], 2),
        restores_by(old(ctx).builder, final(ctx).builder, 0),
{
    ctx.builder.emit(Op::GetReg32(r));
    ctx.builder.emit(Op::AddCsOffset);
    let new_eip = ctx.builder.set_new_local();
    ctx.builder.emit(Op::GetRealEip);
    let value = ctx.builder.set_new_local();
    ctx.builder.emit(Op::Push32(value));
    ctx.builder.free_local(value);
    ctx.builder.absolute_indirect_jump(new_eip);
    proof {
        assert(ctx.builder.code@ =~= old(ctx).builder.code@ + (seq![Op::GetReg32(r), Op::AddCsOffset, Op::SetNewLocal(old(ctx).builder.next_local), Op::GetRealEip, Op::SetNewLocal((old(ctx).builder.next_local + 1) as u32), Op::Push32(WasmLocal::Temp((old(ctx).builder.next_local + 1) as u32)), Op::FreeLocal((old(ctx).builder.next_local + 1) as u32), Op::AbsoluteIndirectJump(old(ctx).builder.next_local)]));
        assert(ctx.builder.frame().live =~= old(ctx).builder.frame().live);
        assert(ctx.builder.frame().live64 =~= old(ctx).builder.frame().live64);
        assert(ctx.builder.frame().ctrl =~= old(ctx).builder.frame().ctrl);
    }
}

/// `jmp` to an address read from memory.
pub fn instr32_FF_4_mem_jit(ctx: &mut JitContext, modrm_byte: u8)
    requires
        ready(old(ctx).builder, 8),
    ensures
        emits(*old(ctx), *final(ctx), seq![Op::ModrmResolveSafeRead32(modrm_byte), Op::AddCsOffset, Op::SetNewLocal(old(ctx).builder.next_local), Op::AbsoluteIndirectJump(old(ctx).builder.next_local)], 1),
        restores_by(old(ctx).builder, final(ctx).builder, 0),
{
    ctx.builder.emit(Op::ModrmResolveSafeRead32(modrm_byte));
    ctx.builder.emit(Op::AddCsOffset);
    let new_eip = ctx.builder.set_new_local();
    ctx.builder.absolute_indirect_jump(new_eip);
    proof {
        assert(ctx.builder.code@ =~= old(ctx).builder.code@ + seq![Op::ModrmResolveSafeRead32(modrm_byte), Op::AddCsOffset, Op::SetNewLocal(old(ctx).builder.next_local), Op::AbsoluteIndirectJump(old(ctx).builder.next_local)]);
        assert(ctx.builder.frame().live =~= old(ctx).builder.frame().live);
        assert(ctx.builder.frame().live64 =~= old(ctx).builder.frame().live64);
        assert(ctx.builder.frame().ctrl =~= old(ctx).builder.frame().ctrl);
    }
}

/// `jmp` to the address in register `r`.
pub fn instr32_FF_4_reg_jit(ctx: &mut JitContext, r: u32)
    requires
        ready(old(ctx).builder, 8),
        r < 8,
    ensures
        emits(*old(ctx), *final(ctx), seq![Op::GetReg32(r), Op::AddCsOffset, Op::SetNewLocal(old(ctx).builder.next_local), Op::AbsoluteIndirectJump(old(ctx).builder.next_local)], 1),
        restores_by(old(ctx).builder, final(ctx).builder, 0),
{
    ctx.builder.emit(Op::GetReg32(r));
    ctx.builder.emit(Op::AddCsOffset);
    let new_eip = ctx.builder.set_new_local();
    ctx.builder.absolute_indirect_jump(new_eip);
    proof {
        assert(ctx.builder.code@ =~= old(ctx).builder.code@ + seq![Op::GetReg32(r), Op::AddCsOffset, Op::SetNewLocal(old(ctx).builder.next_local), Op::AbsoluteIndirectJump(old(ctx).builder.next_local)]);
        assert(ctx.builder.frame().live =~= old(ctx).builder.frame().live);
        assert(ctx.builder.frame().live64 =~= old(ctx).builder.frame().live64);
        assert(ctx.builder.frame().ctrl =~= old(ctx).builder.frame().ctrl);
    }
}

/// Pushes a 32-bit value read from memory.
pub fn instr32_FF_6_mem_jit(ctx: &mut JitContext, modrm_byte: u8)
    requires
        ready(old(ctx).builder, 8),
    ensures
        emits(*old(ctx), *final(ctx), push32_mem_jit_code(modrm_byte, old(ctx).builder.next_local), 1),
        restores_by(old(ctx).builder, final(ctx).builder, 0),
{
    push32_mem_jit(ctx, modrm_byte);
    proof {
        assert(ctx.builder.code@ =~= old(ctx).builder.code@ + push32_mem_jit_code(modrm_byte, old(ctx).builder.next_local));
        assert(ctx.builder.frame().live =~= old(ctx).builder.frame().live);
        assert(ctx.builder.frame().live64 =~= old(ctx).builder.frame().live64);
        assert(ctx.builder.frame().ctrl =~= old(ctx).builder.frame().ctrl);
    }
}

/// Pushes register `r` at 32 bits.
pub fn instr32_FF_6_reg_jit(ctx: &mut JitContext, r: u32)
    requires
        ready(old(ctx).builder, 8),
        r < 8,
    ensures
        emits(*old(ctx), *final(ctx), push32_reg_jit_code(r), 0),
        restores_by(old(ctx).builder, final(ctx).builder, 0),
{
    push32_reg_jit(ctx, r);
    proof {
        assert(ctx.builder.code@ =~= old(ctx).builder.code@ + push32_reg_jit_code(r));
        assert(ctx.builder.frame().live =~= old(ctx).builder.frame().live);
        assert(ctx.builder.frame().live64 =~= old(ctx).builder.frame().live64);
        assert(ctx.builder.frame().ctrl =~= old(ctx).builder.frame().ctrl);
    }
}

} // verus!
