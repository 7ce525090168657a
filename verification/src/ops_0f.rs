//! Two-byte opcodes `0F xx` outside the SSE and MMX registers.

use vstd::prelude::*;
use crate::op::{Op, WasmLocal, LocalOrImmedate, BitSize, ImmKind};
use crate::consts::{FS, GS, get_reg16_index};
use crate::builder::{JitContext, ready, emits, restores_by, balanced_by};
use crate::alu::{Alu32, gen_bt, gen_bt_code, gen_xadd32, gen_xadd32_code, gen_compare_exchange32, gen_compare_exchange32_code};
use crate::templates::{write_reg16_mem, write_reg16_mem_code, write_reg16_reg, write_reg16_reg_code, write_reg32_mem, write_reg32_mem_code, write_reg32_reg, write_reg32_reg_code, rmw16_reg_cl_mem, rmw16_reg_cl_mem_code, rmw16_reg_cl_reg, rmw16_reg_cl_reg_code, rmw16_reg_shift_mem, rmw16_reg_shift_mem_code, rmw16_reg_shift_reg, rmw16_reg_shift_reg_code, rmw32_reg_cl_mem, rmw32_reg_cl_mem_code, rmw32_reg_cl_reg, rmw32_reg_cl_reg_code, rmw32_reg_shift_mem, rmw32_reg_shift_mem_code, rmw32_reg_shift_reg, rmw32_reg_shift_reg_code, cmov16_mem, cmov16_mem_code, cmov16_reg, cmov16_reg_code, cmov32_mem, cmov32_mem_code, cmov32_reg, cmov32_reg_code, setcc_mem, setcc_mem_code, setcc_reg, setcc_reg_code};

verus! {

/// A hint that generates nothing: only the addressing bytes are consumed.
pub fn instr_0F18_mem_jit(ctx: &mut JitContext, modrm_byte: u8, _reg: u32)
    requires
        ready(old(ctx).builder, 8),
    ensures
        emits(*old(ctx), *final(ctx), seq![Op::ModrmSkip(modrm_byte)], 0),
        restores_by(old(ctx).builder, final(ctx).builder, 0),
{
    ctx.builder.emit(Op::ModrmSkip(modrm_byte));
    proof {
        assert(ctx.builder.code@ =~= old(ctx).builder.code@ + seq![Op::ModrmSkip(modrm_byte)]);
        assert(ctx.builder.frame().live =~= old(ctx).builder.frame().live);
        assert(ctx.builder.frame().live64 =~= old(ctx).builder.frame().live64);
        assert(ctx.builder.frame().ctrl =~= old(ctx).builder.frame().ctrl);
    }
}

/// A hint that generates nothing.
pub fn instr_0F18_reg_jit(ctx: &mut JitContext, _r1: u32, _r2: u32)
    requires
        ready(old(ctx).builder, 8),
    ensures
        emits(*old(ctx), *final(ctx), Seq::<Op>::empty(), 0),
        restores_by(old(ctx).builder, final(ctx).builder, 0),
{
    proof {
        assert(ctx.builder.code@ =~= old(ctx).builder.code@ + Seq::<Op>::empty());
        assert(ctx.builder.frame().live =~= old(ctx).builder.frame().live);
        assert(ctx.builder.frame().live64 =~= old(ctx).builder.frame().live64);
        assert(ctx.builder.frame().ctrl =~= old(ctx).builder.frame().ctrl);
    }
}

/// A hint that generates nothing: only the addressing bytes are consumed.
pub fn instr_0F19_mem_jit(ctx: &mut JitContext, modrm_byte: u8, _reg: u32)
    requires
        ready(old(ctx).builder, 8),
    ensures
        emits(*old(ctx), *final(ctx), seq![Op::ModrmSkip(modrm_byte)], 0),
        restores_by(old(ctx).builder, final(ctx).builder, 0),
{
    ctx.builder.emit(Op::ModrmSkip(modrm_byte));
    proof {
        assert(ctx.builder.code@ =~= old(ctx).builder.code@ + seq![Op::ModrmSkip(modrm_byte)]);
        assert(ctx.builder.frame().live =~= old(ctx).builder.frame().live);
        assert(ctx.builder.frame().live64 =~= old(ctx).builder.frame().live64);
        assert(ctx.builder.frame().ctrl =~= old(ctx).builder.frame().ctrl);
    }
}

/// A hint that generates nothing.
pub fn instr_0F19_reg_jit(ctx: &mut JitContext, _r1: u32, _r2: u32)
    requires
        ready(old(ctx).builder, 8),
    ensures
        emits(*old(ctx), *final(ctx), Seq::<Op>::empty(), 0),
        restores_by(old(ctx).builder, final(ctx).builder, 0),
{
    proof {
        assert(ctx.builder.code@ =~= old(ctx).builder.code@ + Seq::<Op>::empty());
        assert(ctx.builder.frame().live =~= old(ctx).builder.frame().live);
        assert(ctx.builder.frame().live64 =~= old(ctx).builder.frame().live64);
        assert(ctx.builder.frame().ctrl =~= old(ctx).builder.frame().ctrl);
    }
}

/// A hint that generates nothing: only the addressing bytes are consumed.
pub fn instr_0F1C_mem_jit(ctx: &mut JitContext, modrm_byte: u8, _reg: u32)
    requires
        ready(old(ctx).builder, 8),
    ensures
        emits(*old(ctx), *final(ctx), seq![Op::ModrmSkip(modrm_byte)], 0),
        restores_by(old(ctx).builder, final(ctx).builder, 0),
{
    ctx.builder.emit(Op::ModrmSkip(modrm_byte));
    proof {
        assert(ctx.builder.code@ =~= old(ctx).builder.code@ + seq![Op::ModrmSkip(modrm_byte)]);
        assert(ctx.builder.frame().live =~= old(ctx).builder.frame().live);
        assert(ctx.builder.frame().live64 =~= old(ctx).builder.frame().live64);
        assert(ctx.builder.frame().ctrl =~= old(ctx).builder.frame().ctrl);
    }
}

/// A hint that generates nothing.
pub fn instr_0F1C_reg_jit(ctx: &mut JitContext, _r1: u32, _r2: u32)
    requires
        ready(old(ctx).builder, 8),
    ensures
        emits(*old(ctx), *final(ctx), Seq::<Op>::empty(), 0),
        restores_by(old(ctx).builder, final(ctx).builder, 0),
{
    proof {
        assert(ctx.builder.code@ =~= old(ctx).builder.code@ + Seq::<Op>::empty());
        assert(ctx.builder.frame().live =~= old(ctx).builder.frame().live);
        assert(ctx.builder.frame().live64 =~= old(ctx).builder.frame().live64);
        assert(ctx.builder.frame().ctrl =~= old(ctx).builder.frame().ctrl);
    }
}

/// A hint that generates nothing: only the addressing bytes are consumed.
pub fn instr_0F1D_mem_jit(ctx: &mut JitContext, modrm_byte: u8, _reg: u32)
    requires
        ready(old(ctx).builder, 8),
    ensures
        emits(*old(ctx), *final(ctx), seq![Op::ModrmSkip(modrm_byte)], 0),
        restores_by(old(ctx).builder, final(ctx).builder, 0),
{
    ctx.builder.emit(Op::ModrmSkip(modrm_byte));
    proof {
        assert(ctx.builder.code@ =~= old(ctx).builder.code@ + seq![Op::ModrmSkip(modrm_byte)]);
        assert(ctx.builder.frame().live =~= old(ctx).builder.frame().live);
        assert(ctx.builder.frame().live64 =~= old(ctx).builder.frame().live64);
        assert(ctx.builder.frame().ctrl =~= old(ctx).builder.frame().ctrl);
    }
}

/// A hint that generates nothing.
pub fn instr_0F1D_reg_jit(ctx: &mut JitContext, _r1: u32, _r2: u32)
    requires
        ready(old(ctx).builder, 8),
    ensures
        emits(*old(ctx), *final(ctx), Seq::<Op>::empty(), 0),
        restores_by(old(ctx).builder, final(ctx).builder, 0),
{
    proof {
        assert(ctx.builder.code@ =~= old(ctx).builder.code@ + Seq::<Op>::empty());
        assert(ctx.builder.frame().live =~= old(ctx).builder.frame().live);
        assert(ctx.builder.frame().live64 =~= old(ctx).builder.frame().live64);
        assert(ctx.builder.frame().ctrl =~= old(ctx).builder.frame().ctrl);
    }
}

/// A hint that generates nothing: only the addressing bytes are consumed.
pub fn instr_0F1E_mem_jit(ctx: &mut JitContext, modrm_byte: u8, _reg: u32)
    requires
        ready(old(ctx).builder, 8),
    ensures
        emits(*old(ctx), *final(ctx), seq![Op::ModrmSkip(modrm_byte)], 0),
        restores_by(old(ctx).builder, final(ctx).builder, 0),
{
    ctx.builder.emit(Op::ModrmSkip(modrm_byte));
    proof {
        assert(ctx.builder.code@ =~= old(ctx).builder.code@ + seq![Op::ModrmSkip(modrm_byte)]);
        assert(ctx.builder.frame().live =~= old(ctx).builder.frame().live);
        assert(ctx.builder.frame().live64 =~= old(ctx).builder.frame().live64);
        assert(ctx.builder.frame().ctrl =~= old(ctx).builder.frame().ctrl);
    }
}

/// A hint that generates nothing.
pub fn instr_0F1E_reg_jit(ctx: &mut JitContext, _r1: u32, _r2: u32)
    requires
        ready(old(ctx).builder, 8),
    ensures
        emits(*old(ctx), *final(ctx), Seq::<Op>::empty(), 0),
        restores_by(old(ctx).builder, final(ctx).builder, 0),
{
    proof {
        assert(ctx.builder.code@ =~= old(ctx).builder.code@ + Seq::<Op>::empty());
        assert(ctx.builder.frame().live =~= old(ctx).builder.frame().live);
        assert(ctx.builder.frame().live64 =~= old(ctx).builder.frame().live64);
        assert(ctx.builder.frame().ctrl =~= old(ctx).builder.frame().ctrl);
    }
}

/// A hint that generates nothing: only the addressing bytes are consumed.
pub fn instr_0F1F_mem_jit(ctx: &mut JitContext, modrm_byte: u8, _reg: u32)
    requires
        ready(old(ctx).builder, 8),
    ensures
        emits(*old(ctx), *final(ctx), seq![Op::ModrmSkip(modrm_byte)], 0),
        restores_by(old(ctx).builder, final(ctx).builder, 0),
{
    ctx.builder.emit(Op::ModrmSkip(modrm_byte));
    proof {
        assert(ctx.builder.code@ =~= old(ctx).builder.code@ + seq![Op::ModrmSkip(modrm_byte)]);
        assert(ctx.builder.frame().live =~= old(ctx).builder.frame().live);
        assert(ctx.builder.frame().live64 =~= old(ctx).builder.frame().live64);
        assert(ctx.builder.frame().ctrl =~= old(ctx).builder.frame().ctrl);
    }
}

/// A hint that generates nothing.
pub fn instr_0F1F_reg_jit(ctx: &mut JitContext, _r1: u32, _r2: u32)
    requires
        ready(old(ctx).builder, 8),
    ensures
        emits(*old(ctx), *final(ctx), Seq::<Op>::empty(), 0),
        restores_by(old(ctx).builder, final(ctx).builder, 0),
{
    proof {
        assert(ctx.builder.code@ =~= old(ctx).builder.code@ + Seq::<Op>::empty());
        assert(ctx.builder.frame().live =~= old(ctx).builder.frame().live);
        assert(ctx.builder.frame().live64 =~= old(ctx).builder.frame().live64);
        assert(ctx.builder.frame().ctrl =~= old(ctx).builder.frame().ctrl);
    }
}

/// `shld` of a 16-bit value in memory with register `r` by an immediate.
pub fn instr16_0FA4_mem_jit(ctx: &mut JitContext, modrm_byte: u8, r: u32)
    requires
        ready(old(ctx).builder, 8),
        r < 8,
    ensures
        emits(*old(ctx), *final(ctx), rmw16_reg_shift_mem_code("shld16", modrm_byte, r, old(ctx).builder.next_local), 1),
        restores_by(old(ctx).builder, final(ctx).builder, 0),
{
    rmw16_reg_shift_mem(ctx, "shld16", modrm_byte, r);
    proof {
        assert(ctx.builder.code@ =~= old(ctx).builder.code@ + rmw16_reg_shift_mem_code("shld16", modrm_byte, r, old(ctx).builder.next_local));
        assert(ctx.builder.frame().live =~= old(ctx).builder.frame().live);
        assert(ctx.builder.frame().live64 =~= old(ctx).builder.frame().live64);
        assert(ctx.builder.frame().ctrl =~= old(ctx).builder.frame().ctrl);
    }
}

/// `shld` of register `r1` with register `r2` by an immediate, at 16 bits.
pub fn instr16_0FA4_reg_jit(ctx: &mut JitContext, r1: u32, r2: u32, imm: u32)
    requires
        ready(old(ctx).builder, 8),
        r1 < 8,
        r2 < 8,
    ensures
        emits(*old(ctx), *final(ctx), rmw16_reg_shift_reg_code("shld16", r1, r2, imm), 0),
        restores_by(old(ctx).builder, final(ctx).builder, 0),
{
    rmw16_reg_shift_reg(ctx, "shld16", r1, r2, imm);
    proof {
        assert(ctx.builder.code@ =~= old(ctx).builder.code@ + rmw16_reg_shift_reg_code("shld16", r1, r2, imm));
        assert(ctx.builder.frame().live =~= old(ctx).builder.frame().live);
        assert(ctx.builder.frame().live64 =~= old(ctx).builder.frame().live64);
        assert(ctx.builder.frame().ctrl =~= old(ctx).builder.frame().ctrl);
    }
}

/// `shld` of a 32-bit value in memory with register `r` by an immediate.
pub fn instr32_0FA4_mem_jit(ctx: &mut JitContext, modrm_byte: u8, r: u32)
    requires
        ready(old(ctx).builder, 8),
        r < 8,
    ensures
        emits(*old(ctx), *final(ctx), rmw32_reg_shift_mem_code("shld32", modrm_byte, r, old(ctx).builder.next_local), 1),
        restores_by(old(ctx).builder, final(ctx).builder, 0),
{
    rmw32_reg_shift_mem(ctx, "shld32", modrm_byte, r);
    proof {
        assert(ctx.builder.code@ =~= old(ctx).builder.code@ + rmw32_reg_shift_mem_code("shld32", modrm_byte, r, old(ctx).builder.next_local));
        assert(ctx.builder.frame().live =~= old(ctx).builder.frame().live);
        assert(ctx.builder.frame().live64 =~= old(ctx).builder.frame().live64);
        assert(ctx.builder.frame().ctrl =~= old(ctx).builder.frame().ctrl);
    }
}

/// `shld` of register `r1` with register `r2` by an immediate, at 32 bits.
pub fn instr32_0FA4_reg_jit(ctx: &mut JitContext, r1: u32, r2: u32, imm: u32)
    requires
        ready(old(ctx).builder, 8),
        r1 < 8,
        r2 < 8,
    ensures
        emits(*old(ctx), *final(ctx), rmw32_reg_shift_reg_code("shld32", r1, r2, imm), 0),
        restores_by(old(ctx).builder, final(ctx).builder, 0),
{
    rmw32_reg_shift_reg(ctx, "shld32", r1, r2, imm);
    proof {
        assert(ctx.builder.code@ =~= old(ctx).builder.code@ + rmw32_reg_shift_reg_code("shld32", r1, r2, imm));
        assert(ctx.builder.frame().live =~= old(ctx).builder.frame().live);
        assert(ctx.builder.frame().live64 =~= old(ctx).builder.frame().live64);
        assert(ctx.builder.frame().ctrl =~= old(ctx).builder.frame().ctrl);
    }
}

/// `shld` of a 16-bit value in memory with register `r` by CL.
pub fn instr16_0FA5_mem_jit(ctx: &mut JitContext, modrm_byte: u8, r: u32)
    requires
        ready(old(ctx).builder, 8),
        r < 8,
    ensures
        emits(*old(ctx), *final(ctx), rmw16_reg_cl_mem_code("shld16", modrm_byte, r, old(ctx).builder.next_local), 1),
        restores_by(old(ctx).builder, final(ctx).builder, 0),
{
    rmw16_reg_cl_mem(ctx, "shld16", modrm_byte, r);
    proof {
        assert(ctx.builder.code@ =~= old(ctx).builder.code@ + rmw16_reg_cl_mem_code("shld16", modrm_byte, r, old(ctx).builder.next_local));
        assert(ctx.builder.frame().live =~= old(ctx).builder.frame().live);
        assert(ctx.builder.frame().live64 =~= old(ctx).builder.frame().live64);
        assert(ctx.builder.frame().ctrl =~= old(ctx).builder.frame().ctrl);
    }
}

/// `shld` of register `r1` with register `r2` by CL, at 16 bits.
pub fn instr16_0FA5_reg_jit(ctx: &mut JitContext, r1: u32, r2: u32)
    requires
        ready(old(ctx).builder, 8),
        r1 < 8,
        r2 < 8,
    ensures
        emits(*old(ctx), *final(ctx), rmw16_reg_cl_reg_code("shld16", r1, r2), 0),
        restores_by(old(ctx).builder, final(ctx).builder, 0),
{
    rmw16_reg_cl_reg(ctx, "shld16", r1, r2);
    proof {
        assert(ctx.builder.code@ =~= old(ctx).builder.code@ + rmw16_reg_cl_reg_code("shld16", r1, r2));
        assert(ctx.builder.frame().live =~= old(ctx).builder.frame().live);
        assert(ctx.builder.frame().live64 =~= old(ctx).builder.frame().live64);
        assert(ctx.builder.frame().ctrl =~= old(ctx).builder.frame().ctrl);
    }
}

/// `shld` of a 32-bit value in memory with register `r` by CL.
pub fn instr32_0FA5_mem_jit(ctx: &mut JitContext, modrm_byte: u8, r: u32)
    requires
        ready(old(ctx).builder, 8),
        r < 8,
    ensures
        emits(*old(ctx), *final(ctx), rmw32_reg_cl_mem_code("shld32", modrm_byte, r, old(ctx).builder.next_local), 1),
        restores_by(old(ctx).builder, final(ctx).builder, 0),
{
    rmw32_reg_cl_mem(ctx, "shld32", modrm_byte, r);
    proof {
        assert(ctx.builder.code@ =~= old(ctx).builder.code@ + rmw32_reg_cl_mem_code("shld32", modrm_byte, r, old(ctx).builder.next_local));
        assert(ctx.builder.frame().live =~= old(ctx).builder.frame().live);
        assert(ctx.builder.frame().live64 =~= old(ctx).builder.frame().live64);
        assert(ctx.builder.frame().ctrl =~= old(ctx).builder.frame().ctrl);
    }
}

/// `shld` of register `r1` with register `r2` by CL, at 32 bits.
pub fn instr32_0FA5_reg_jit(ctx: &mut JitContext, r1: u32, r2: u32)
    requires
        ready(old(ctx).builder, 8),
        r1 < 8,
        r2 < 8,
    ensures
        emits(*old(ctx), *final(ctx), rmw32_reg_cl_reg_code("shld32", r1, r2), 0),
        restores_by(old(ctx).builder, final(ctx).builder, 0),
{
    rmw32_reg_cl_reg(ctx, "shld32", r1, r2);
    proof {
        assert(ctx.builder.code@ =~= old(ctx).builder.code@ + rmw32_reg_cl_reg_code("shld32", r1, r2));
        assert(ctx.builder.frame().live =~= old(ctx).builder.frame().live);
        assert(ctx.builder.frame().live64 =~= old(ctx).builder.frame().live64);
        assert(ctx.builder.frame().ctrl =~= old(ctx).builder.frame().ctrl);
    }
}

/// `shrd` of a 16-bit value in memory with register `r` by an immediate.
pub fn instr16_0FAC_mem_jit(ctx: &mut JitContext, modrm_byte: u8, r: u32)
    requires
        ready(old(ctx).builder, 8),
        r < 8,
    ensures
        emits(*old(ctx), *final(ctx), rmw16_reg_shift_mem_code("shrd16", modrm_byte, r, old(ctx).builder.next_local), 1),
        restores_by(old(ctx).builder, final(ctx).builder, 0),
{
    rmw16_reg_shift_mem(ctx, "shrd16", modrm_byte, r);
    proof {
        assert(ctx.builder.code@ =~= old(ctx).builder.code@ + rmw16_reg_shift_mem_code("shrd16", modrm_byte, r, old(ctx).builder.next_local));
        assert(ctx.builder.frame().live =~= old(ctx).builder.frame().live);
        assert(ctx.builder.frame().live64 =~= old(ctx).builder.frame().live64);
        assert(ctx.builder.frame().ctrl =~= old(ctx).builder.frame().ctrl);
    }
}

/// `shrd` of register `r1` with register `r2` by an immediate, at 16 bits.
pub fn instr16_0FAC_reg_jit(ctx: &mut JitContext, r1: u32, r2: u32, imm: u32)
    requires
        ready(old(ctx).builder, 8),
        r1 < 8,
        r2 < 8,
    ensures
        emits(*old(ctx), *final(ctx), rmw16_reg_shift_reg_code("shrd16", r1, r2, imm), 0),
        restores_by(old(ctx).builder, final(ctx).builder, 0),
{
    rmw16_reg_shift_reg(ctx, "shrd16", r1, r2, imm);
    proof {
        assert(ctx.builder.code@ =~= old(ctx).builder.code@ + rmw16_reg_shift_reg_code("shrd16", r1, r2, imm));
        assert(ctx.builder.frame().live =~= old(ctx).builder.frame().live);
        assert(ctx.builder.frame().live64 =~= old(ctx).builder.frame().live64);
        assert(ctx.builder.frame().ctrl =~= old(ctx).builder.frame().ctrl);
    }
}

/// `shrd` of a 32-bit value in memory with register `r` by an immediate.
pub fn instr32_0FAC_mem_jit(ctx: &mut JitContext, modrm_byte: u8, r: u32)
    requires
        ready(old(ctx).builder, 8),
        r < 8,
    ensures
        emits(*old(ctx), *final(ctx), rmw32_reg_shift_mem_code("shrd32", modrm_byte, r, old(ctx).builder.next_local), 1),
        restores_by(old(ctx).builder, final(ctx).builder, 0),
{
    rmw32_reg_shift_mem(ctx, "shrd32", modrm_byte, r);
    proof {
        assert(ctx.builder.code@ =~= old(ctx).builder.code@ + rmw32_reg_shift_mem_code("shrd32", modrm_byte, r, old(ctx).builder.next_local));
        assert(ctx.builder.frame().live =~= old(ctx).builder.frame().live);
        assert(ctx.builder.frame().live64 =~= old(ctx).builder.frame().live64);
        assert(ctx.builder.frame().ctrl =~= old(ctx).builder.frame().ctrl);
    }
}

/// `shrd` of register `r1` with register `r2` by an immediate, at 32 bits.
pub fn instr32_0FAC_reg_jit(ctx: &mut JitContext, r1: u32, r2: u32, imm: u32)
    requires
        ready(old(ctx).builder, 8),
        r1 < 8,
        r2 < 8,
    ensures
        emits(*old(ctx), *final(ctx), rmw32_reg_shift_reg_code("shrd32", r1, r2, imm), 0),
        restores_by(old(ctx).builder, final(ctx).builder, 0),
{
    rmw32_reg_shift_reg(ctx, "shrd32", r1, r2, imm);
    proof {
        assert(ctx.builder.code@ =~= old(ctx).builder.code@ + rmw32_reg_shift_reg_code("shrd32", r1, r2, imm));
        assert(ctx.builder.frame().live =~= old(ctx).builder.frame().live);
        assert(ctx.builder.frame().live64 =~= old(ctx).builder.frame().live64);
        assert(ctx.builder.frame().ctrl =~= old(ctx).builder.frame().ctrl);
    }
}

/// `shrd` of a 16-bit value in memory with register `r` by CL.
pub fn instr16_0FAD_mem_jit(ctx: &mut JitContext, modrm_byte: u8, r: u32)
    requires
        ready(old(ctx).builder, 8),
        r < 8,
    ensures
        emits(*old(ctx), *final(ctx), rmw16_reg_cl_mem_code("shrd16", modrm_byte, r, old(ctx).builder.next_local), 1),
        restores_by(old(ctx).builder, final(ctx).builder, 0),
{
    rmw16_reg_cl_mem(ctx, "shrd16", modrm_byte, r);
    proof {
        assert(ctx.builder.code@ =~= old(ctx).builder.code@ + rmw16_reg_cl_mem_code("shrd16", modrm_byte, r, old(ctx).builder.next_local));
        assert(ctx.builder.frame().live =~= old(ctx).builder.frame().live);
        assert(ctx.builder.frame().live64 =~= old(ctx).builder.frame().live64);
        assert(ctx.builder.frame().ctrl =~= old(ctx).builder.frame().ctrl);
    }
}

/// `shrd` of register `r1` with register `r2` by CL, at 16 bits.
pub fn instr16_0FAD_reg_jit(ctx: &mut JitContext, r1: u32, r2: u32)
    requires
        ready(old(ctx).builder, 8),
        r1 < 8,
        r2 < 8,
    ensures
        emits(*old(ctx), *final(ctx), rmw16_reg_cl_reg_code("shrd16", r1, r2), 0),
        restores_by(old(ctx).builder, final(ctx).builder, 0),
{
    rmw16_reg_cl_reg(ctx, "shrd16", r1, r2);
    proof {
        assert(ctx.builder.code@ =~= old(ctx).builder.code@ + rmw16_reg_cl_reg_code("shrd16", r1, r2));
        assert(ctx.builder.frame().live =~= old(ctx).builder.frame().live);
        assert(ctx.builder.frame().live64 =~= old(ctx).builder.frame().live64);
        assert(ctx.builder.frame().ctrl =~= old(ctx).builder.frame().ctrl);
    }
}

/// `shrd` of a 32-bit value in memory with register `r` by CL.
pub fn instr32_0FAD_mem_jit(ctx: &mut JitContext, modrm_byte: u8, r: u32)
    requires
        ready(old(ctx).builder, 8),
        r < 8,
    ensures
        emits(*old(ctx), *final(ctx), rmw32_reg_cl_mem_code("shrd32", modrm_byte, r, old(ctx).builder.next_local), 1),
        restores_by(old(ctx).builder, final(ctx).builder, 0),
{
    rmw32_reg_cl_mem(ctx, "shrd32", modrm_byte, r);
    proof {
        assert(ctx.builder.code@ =~= old(ctx).builder.code@ + rmw32_reg_cl_mem_code("shrd32", modrm_byte, r, old(ctx).builder.next_local));
        assert(ctx.builder.frame().live =~= old(ctx).builder.frame().live);
        assert(ctx.builder.frame().live64 =~= old(ctx).builder.frame().live64);
        assert(ctx.builder.frame().ctrl =~= old(ctx).builder.frame().ctrl);
    }
}

/// `shrd` of register `r1` with register `r2` by CL, at 32 bits.
pub fn instr32_0FAD_reg_jit(ctx: &mut JitContext, r1: u32, r2: u32)
    requires
        ready(old(ctx).builder, 8),
        r1 < 8,
        r2 < 8,
    ensures
        emits(*old(ctx), *final(ctx), rmw32_reg_cl_reg_code("shrd32", r1, r2), 0),
        restores_by(old(ctx).builder, final(ctx).builder, 0),
{
    rmw32_reg_cl_reg(ctx, "shrd32", r1, r2);
    proof {
        assert(ctx.builder.code@ =~= old(ctx).builder.code@ + rmw32_reg_cl_reg_code("shrd32", r1, r2));
        assert(ctx.builder.frame().live =~= old(ctx).builder.frame().live);
        assert(ctx.builder.frame().live64 =~= old(ctx).builder.frame().live64);
        assert(ctx.builder.frame().ctrl =~= old(ctx).builder.frame().ctrl);
    }
}

/// 16-bit register `r` times a word in memory (signed).
pub fn instr16_0FAF_mem_jit(ctx: &mut JitContext, modrm_byte: u8, r: u32)
    requires
        ready(old(ctx).builder, 8),
        r < 8,
    ensures
        emits(*old(ctx), *final(ctx), write_reg16_mem_code("imul_reg16", modrm_byte, r), 0),
        restores_by(old(ctx).builder, final(ctx).builder, 0),
{
    write_reg16_mem(ctx, "imul_reg16", modrm_byte, r);
    proof {
        assert(ctx.builder.code@ =~= old(ctx).builder.code@ + write_reg16_mem_code("imul_reg16", modrm_byte, r));
        assert(ctx.builder.frame().live =~= old(ctx).builder.frame().live);
        assert(ctx.builder.frame().live64 =~= old(ctx).builder.frame().live64);
        assert(ctx.builder.frame().ctrl =~= old(ctx).builder.frame().ctrl);
    }
}

/// 16-bit register `r2` times `r1` (signed).
pub fn instr16_0FAF_reg_jit(ctx: &mut JitContext, r1: u32, r2: u32)
    requires
        ready(old(ctx).builder, 8),
        r1 < 8,
        r2 < 8,
    ensures
        emits(*old(ctx), *final(ctx), write_reg16_reg_code("imul_reg16", r1, r2), 0),
        restores_by(old(ctx).builder, final(ctx).builder, 0),
{
    write_reg16_reg(ctx, "imul_reg16", r1, r2);
    proof {
        assert(ctx.builder.code@ =~= old(ctx).builder.code@ + write_reg16_reg_code("imul_reg16", r1, r2));
        assert(ctx.builder.frame().live =~= old(ctx).builder.frame().live);
        assert(ctx.builder.frame().live64 =~= old(ctx).builder.frame().live64);
        assert(ctx.builder.frame().ctrl =~= old(ctx).builder.frame().ctrl);
    }
}

/// Register `r` times a doubleword in memory (signed).
pub fn instr32_0FAF_mem_jit(ctx: &mut JitContext, modrm_byte: u8, r: u32)
    requires
        ready(old(ctx).builder, 8),
        r < 8,
    ensures
        emits(*old(ctx), *final(ctx), write_reg32_mem_code(Alu32::ImulReg, modrm_byte, r, old(ctx).builder.next_local), 1),
        restores_by(old(ctx).builder, final(ctx).builder, 0),
{
    write_reg32_mem(ctx, Alu32::ImulReg, modrm_byte, r);
    proof {
        assert(ctx.builder.code@ =~= old(ctx).builder.code@ + write_reg32_mem_code(Alu32::ImulReg, modrm_byte, r, old(ctx).builder.next_local));
        assert(ctx.builder.frame().live =~= old(ctx).builder.frame().live);
        assert(ctx.builder.frame().live64 =~= old(ctx).builder.frame().live64);
        assert(ctx.builder.frame().ctrl =~= old(ctx).builder.frame().ctrl);
    }
}

/// Register `r2` times `r1` (signed).
pub fn instr32_0FAF_reg_jit(ctx: &mut JitContext, r1: u32, r2: u32)
    requires
        ready(old(ctx).builder, 8),
        r1 < 8,
        r2 < 8,
    ensures
        emits(*old(ctx), *final(ctx), write_reg32_reg_code(Alu32::ImulReg, r1, r2), 0),
        restores_by(old(ctx).builder, final(ctx).builder, 0),
{
    write_reg32_reg(ctx, Alu32::ImulReg, r1, r2);
    proof {
        assert(ctx.builder.code@ =~= old(ctx).builder.code@ + write_reg32_reg_code(Alu32::ImulReg, r1, r2));
        assert(ctx.builder.frame().live =~= old(ctx).builder.frame().live);
        assert(ctx.builder.frame().live64 =~= old(ctx).builder.frame().live64);
        assert(ctx.builder.frame().ctrl =~= old(ctx).builder.frame().ctrl);
    }
}

/// `cmpxchg` of the 16-bit register `r1` with AX and register `r2`, through the runtime helper.
pub fn instr16_0FB1_reg_jit(ctx: &mut JitContext, r1: u32, r2: u32)
    requires
        ready(old(ctx).builder, 8),
        r1 < 8,
    ensures
        emits(*old(ctx), *final(ctx), seq![Op::GetReg16(r1), Op::ConstI32(r2 as i32), Op::MoveRegistersFromLocalsToMemory, Op::CallFn2Ret("cmpxchg16"), Op::MoveRegistersFromMemoryToLocals, Op::SetReg16(r1)], 0),
        restores_by(old(ctx).builder, final(ctx).builder, 0),
{
    ctx.builder.emit(Op::GetReg16(r1));
    ctx.builder.emit(Op::ConstI32(r2 as i32));
    ctx.builder.emit(Op::MoveRegistersFromLocalsToMemory);
    ctx.builder.emit(Op::CallFn2Ret("cmpxchg16"));
    ctx.builder.emit(Op::MoveRegistersFromMemoryToLocals);
    ctx.builder.emit(Op::SetReg16(r1));
    proof {
        assert(ctx.builder.code@ =~= old(ctx).builder.code@ + seq![Op::GetReg16(r1), Op::ConstI32(r2 as i32), Op::MoveRegistersFromLocalsToMemory, Op::CallFn2Ret("cmpxchg16"), Op::MoveRegistersFromMemoryToLocals, Op::SetReg16(r1)]);
        assert(ctx.builder.frame().live =~= old(ctx).builder.frame().live);
        assert(ctx.builder.frame().live64 =~= old(ctx).builder.frame().live64);
        assert(ctx.builder.frame().ctrl =~= old(ctx).builder.frame().ctrl);
    }
}

/// `cmpxchg` of a word in memory with AX and register `r`, through the runtime helper.
pub fn instr16_0FB1_mem_jit(ctx: &mut JitContext, modrm_byte: u8, r: u32)
    requires
        ready(old(ctx).builder, 8),
    ensures
        emits(*old(ctx), *final(ctx), seq![Op::ModrmResolve(modrm_byte), Op::SetNewLocal(old(ctx).builder.next_local), Op::SafeReadWriteBegin(BitSize::Word, WasmLocal::Temp(old(ctx).builder.next_local)), Op::ConstI32(r as i32), Op::MoveRegistersFromLocalsToMemory, Op::CallFn2Ret("cmpxchg16"), Op::MoveRegistersFromMemoryToLocals, Op::SafeReadWriteEnd, Op::FreeLocal(old(ctx).builder.next_local)], 1),
        restores_by(old(ctx).builder, final(ctx).builder, 0),
{
    ctx.builder.emit(Op::ModrmResolve(modrm_byte));
    let addr = ctx.builder.set_new_local();
    ctx.builder.read_write_begin(BitSize::Word, addr);
    ctx.builder.emit(Op::ConstI32(r as i32));
    ctx.builder.emit(Op::MoveRegistersFromLocalsToMemory);
    ctx.builder.emit(Op::CallFn2Ret("cmpxchg16"));
    ctx.builder.emit(Op::MoveRegistersFromMemoryToLocals);
    ctx.builder.read_write_end();
    ctx.builder.free_local(addr);
    proof {
        assert(ctx.builder.code@ =~= old(ctx).builder.code@ + seq![Op::ModrmResolve(modrm_byte), Op::SetNewLocal(old(ctx).builder.next_local), Op::SafeReadWriteBegin(BitSize::Word, WasmLocal::Temp(old(ctx).builder.next_local)), Op::ConstI32(r as i32), Op::MoveRegistersFromLocalsToMemory, Op::CallFn2Ret("cmpxchg16"), Op::MoveRegistersFromMemoryToLocals, Op::SafeReadWriteEnd, Op::FreeLocal(old(ctx).builder.next_local)]);
        assert(ctx.builder.frame().live =~= old(ctx).builder.frame().live);
        assert(ctx.builder.frame().live64 =~= old(ctx).builder.frame().live64);
        assert(ctx.builder.frame().ctrl =~= old(ctx).builder.frame().ctrl);
    }
}

/// `cmpxchg` of register `r1` with EAX and register `r2`.
pub fn instr32_0FB1_reg_jit(ctx: &mut JitContext, r1: u32, r2: u32)
    requires
        ready(old(ctx).builder, 8),
        r1 < 8,
        r2 < 8,
    ensures
        emits(*old(ctx), *final(ctx), seq![Op::GetReg32(r1)] + gen_compare_exchange32_code(r2, old(ctx).builder.next_local) + seq![Op::SetReg32(r1)], 1),
        restores_by(old(ctx).builder, final(ctx).builder, 0),
{
    ctx.builder.emit(Op::GetReg32(r1));
    proof { assert(ctx.builder.code@ =~= old(ctx).builder.code@ + seq![Op::GetReg32(r1)]); }
    gen_compare_exchange32(ctx, r2);
    proof { assert(ctx.builder.code@ =~= old(ctx).builder.code@ + seq![Op::GetReg32(r1)] + gen_compare_exchange32_code(r2, old(ctx).builder.next_local)); }
    ctx.builder.emit(Op::SetReg32(r1));
    proof {
        assert(ctx.builder.code@ =~= old(ctx).builder.code@ + (seq![Op::GetReg32(r1)] + gen_compare_exchange32_code(r2, old(ctx).builder.next_local) + seq![Op::SetReg32(r1)]));
        assert(ctx.builder.frame().live =~= old(ctx).builder.frame().live);
        assert(ctx.builder.frame().live64 =~= old(ctx).builder.frame().live64);
        assert(ctx.builder.frame().ctrl =~= old(ctx).builder.frame().ctrl);
    }
}

/// `cmpxchg` of a doubleword in memory with EAX and register `r`.
pub fn instr32_0FB1_mem_jit(ctx: &mut JitContext, modrm_byte: u8, r: u32)
    requires
        ready(old(ctx).builder, 8),
        r < 8,
    ensures
        emits(*old(ctx), *final(ctx), seq![Op::ModrmResolve(modrm_byte), Op::SetNewLocal(old(ctx).builder.next_local), Op::SafeReadWriteBegin(BitSize::Dword, WasmLocal::Temp(old(ctx).builder.next_local))] + gen_compare_exchange32_code(r, (old(ctx).builder.next_local + 1) as u32) + seq![Op::SafeReadWriteEnd, Op::FreeLocal(old(ctx).builder.next_local)], 2),
        restores_by(old(ctx).builder, final(ctx).builder, 0),
{
    ctx.builder.emit(Op::ModrmResolve(modrm_byte));
    let addr = ctx.builder.set_new_local();
    ctx.builder.read_write_begin(BitSize::Dword, addr);
    proof { assert(ctx.builder.code@ =~= old(ctx).builder.code@ + seq![Op::ModrmResolve(modrm_byte), Op::SetNewLocal(old(ctx).builder.next_local), Op::SafeReadWriteBegin(BitSize::Dword, WasmLocal::Temp(old(ctx).builder.next_local))]); }
    gen_compare_exchange32(ctx, r);
    proof { assert(ctx.builder.code@ =~= old(ctx).builder.code@ + seq![Op::ModrmResolve(modrm_byte), Op::SetNewLocal(old(ctx).builder.next_local), Op::SafeReadWriteBegin(BitSize::Dword, WasmLocal::Temp(old(ctx).builder.next_local))] + gen_compare_exchange32_code(r, (old(ctx).builder.next_local + 1) as u32)); }
    ctx.builder.read_write_end();
    ctx.builder.free_local(addr);
    proof {
        assert(ctx.builder.code@ =~= old(ctx).builder.code@ + (seq![Op::ModrmResolve(modrm_byte), Op::SetNewLocal(old(ctx).builder.next_local), Op::SafeReadWriteBegin(BitSize::Dword, WasmLocal::Temp(old(ctx).builder.next_local))] + gen_compare_exchange32_code(r, (old(ctx).builder.next_local + 1) as u32) + seq![Op::SafeReadWriteEnd, Op::FreeLocal(old(ctx).builder.next_local)]));
        assert(ctx.builder.frame().live =~= old(ctx).builder.frame().live);
        assert(ctx.builder.frame().live64 =~= old(ctx).builder.frame().live64);
        assert(ctx.builder.frame().ctrl =~= old(ctx).builder.frame().ctrl);
    }
}

/// Loads 8 bits from memory, zero-extended, into the 16-bit register `r`.
pub fn instr16_0FB6_mem_jit(ctx: &mut JitContext, modrm_byte: u8, r: u32)
    requires
        ready(old(ctx).builder, 8),
        r < 8,
    ensures
        emits(*old(ctx), *final(ctx), seq![Op::ModrmResolveSafeRead8(modrm_byte), Op::SetReg16(r)], 0),
        restores_by(old(ctx).builder, final(ctx).builder, 0),
{
    ctx.builder.emit(Op::ModrmResolveSafeRead8(modrm_byte));
    ctx.builder.emit(Op::SetReg16(r));
    proof {
        assert(ctx.builder.code@ =~= old(ctx).builder.code@ + seq![Op::ModrmResolveSafeRead8(modrm_byte), Op::SetReg16(r)]);
        assert(ctx.builder.frame().live =~= old(ctx).builder.frame().live);
        assert(ctx.builder.frame().live64 =~= old(ctx).builder.frame().live64);
        assert(ctx.builder.frame().ctrl =~= old(ctx).builder.frame().ctrl);
    }
}

/// The 8-bit register `r1`, zero-extended, into the 16-bit register `r2`.
pub fn instr16_0FB6_reg_jit(ctx: &mut JitContext, r1: u32, r2: u32)
    requires
        ready(old(ctx).builder, 8),
        r1 < 8,
        r2 < 8,
    ensures
        emits(*old(ctx), *final(ctx), seq![Op::GetReg8(r1), Op::SetReg16(r2)], 0),
        restores_by(old(ctx).builder, final(ctx).builder, 0),
{
    ctx.builder.emit(Op::GetReg8(r1));
    ctx.builder.emit(Op::SetReg16(r2));
    proof {
        assert(ctx.builder.code@ =~= old(ctx).builder.code@ + seq![Op::GetReg8(r1), Op::SetReg16(r2)]);
        assert(ctx.builder.frame().live =~= old(ctx).builder.frame().live);
        assert(ctx.builder.frame().live64 =~= old(ctx).builder.frame().live64);
        assert(ctx.builder.frame().ctrl =~= old(ctx).builder.frame().ctrl);
    }
}

/// Loads 8 bits from memory, zero-extended, into the 32-bit register `r`.
pub fn instr32_0FB6_mem_jit(ctx: &mut JitContext, modrm_byte: u8, r: u32)
    requires
        ready(old(ctx).builder, 8),
        r < 8,
    ensures
        emits(*old(ctx), *final(ctx), seq![Op::ModrmResolveSafeRead8(modrm_byte), Op::SetReg32(r)], 0),
        restores_by(old(ctx).builder, final(ctx).builder, 0),
{
    ctx.builder.emit(Op::ModrmResolveSafeRead8(modrm_byte));
    ctx.builder.emit(Op::SetReg32(r));
    proof {
        assert(ctx.builder.code@ =~= old(ctx).builder.code@ + seq![Op::ModrmResolveSafeRead8(modrm_byte), Op::SetReg32(r)]);
        assert(ctx.builder.frame().live =~= old(ctx).builder.frame().live);
        assert(ctx.builder.frame().live64 =~= old(ctx).builder.frame().live64);
        assert(ctx.builder.frame().ctrl =~= old(ctx).builder.frame().ctrl);
    }
}

/// The code that [`instr32_0FB6_reg_jit`] appends.
pub open spec fn instr32_0FB6_reg_jit_code(r1: u32, r2: u32) -> Seq<Op> {
    seq![Op::GetReg8(r1), Op::SetReg32(r2)]
}

/// The 8-bit register `r1`, zero-extended, into the 32-bit register `r2`.
pub fn instr32_0FB6_reg_jit(ctx: &mut JitContext, r1: u32, r2: u32)
    requires
        ready(old(ctx).builder, 8),
        r1 < 8,
        r2 < 8,
    ensures
        emits(*old(ctx), *final(ctx), instr32_0FB6_reg_jit_code(r1, r2), 0),
        restores_by(old(ctx).builder, final(ctx).builder, 0),
{
    ctx.builder.emit(Op::GetReg8(r1));
    ctx.builder.emit(Op::SetReg32(r2));
    proof {
        assert(ctx.builder.code@ =~= old(ctx).builder.code@ + instr32_0FB6_reg_jit_code(r1, r2));
        assert(ctx.builder.frame().live =~= old(ctx).builder.frame().live);
        assert(ctx.builder.frame().live64 =~= old(ctx).builder.frame().live64);
        assert(ctx.builder.frame().ctrl =~= old(ctx).builder.frame().ctrl);
    }
}

/// Loads 16 bits from memory, zero-extended, into the 16-bit register `r`.
pub fn instr16_0FB7_mem_jit(ctx: &mut JitContext, modrm_byte: u8, r: u32)
    requires
        ready(old(ctx).builder, 8),
        r < 8,
    ensures
        emits(*old(ctx), *final(ctx), seq![Op::ModrmResolveSafeRead16(modrm_byte), Op::SetReg16(r)], 0),
        restores_by(old(ctx).builder, final(ctx).builder, 0),
{
    ctx.builder.emit(Op::ModrmResolveSafeRead16(modrm_byte));
    ctx.builder.emit(Op::SetReg16(r));
    proof {
        assert(ctx.builder.code@ =~= old(ctx).builder.code@ + seq![Op::ModrmResolveSafeRead16(modrm_byte), Op::SetReg16(r)]);
        assert(ctx.builder.frame().live =~= old(ctx).builder.frame().live);
        assert(ctx.builder.frame().live64 =~= old(ctx).builder.frame().live64);
        assert(ctx.builder.frame().ctrl =~= old(ctx).builder.frame().ctrl);
    }
}

/// The 16-bit register `r1`, zero-extended, into the 16-bit register `r2`.
pub fn instr16_0FB7_reg_jit(ctx: &mut JitContext, r1: u32, r2: u32)
    requires
        ready(old(ctx).builder, 8),
        r1 < 8,
        r2 < 8,
    ensures
        emits(*old(ctx), *final(ctx), seq![Op::GetReg16(r1), Op::SetReg16(r2)], 0),
        restores_by(old(ctx).builder, final(ctx).builder, 0),
{
    ctx.builder.emit(Op::GetReg16(r1));
    ctx.builder.emit(Op::SetReg16(r2));
    proof {
        assert(ctx.builder.code@ =~= old(ctx).builder.code@ + seq![Op::GetReg16(r1), Op::SetReg16(r2)]);
        assert(ctx.builder.frame().live =~= old(ctx).builder.frame().live);
        assert(ctx.builder.frame().live64 =~= old(ctx).builder.frame().live64);
        assert(ctx.builder.frame().ctrl =~= old(ctx).builder.frame().ctrl);
    }
}

/// Loads 16 bits from memory, zero-extended, into the 32-bit register `r`.
pub fn instr32_0FB7_mem_jit(ctx: &mut JitContext, modrm_byte: u8, r: u32)
    requires
        ready(old(ctx).builder, 8),
        r < 8,
    ensures
        emits(*old(ctx), *final(ctx), seq![Op::ModrmResolveSafeRead16(modrm_byte), Op::SetReg32(r)], 0),
        restores_by(old(ctx).builder, final(ctx).builder, 0),
{
    ctx.builder.emit(Op::ModrmResolveSafeRead16(modrm_byte));
    ctx.builder.emit(Op::SetReg32(r));
    proof {
        assert(ctx.builder.code@ =~= old(ctx).builder.code@ + seq![Op::ModrmResolveSafeRead16(modrm_byte), Op::SetReg32(r)]);
        assert(ctx.builder.frame().live =~= old(ctx).builder.frame().live);
        assert(ctx.builder.frame().live64 =~= old(ctx).builder.frame().live64);
        assert(ctx.builder.frame().ctrl =~= old(ctx).builder.frame().ctrl);
    }
}

/// The code that [`instr32_0FB7_reg_jit`] appends.
pub open spec fn instr32_0FB7_reg_jit_code(r1: u32, r2: u32) -> Seq<Op> {
    seq![Op::GetReg16(r1), Op::SetReg32(r2)]
}

/// The 16-bit register `r1`, zero-extended, into the 32-bit register `r2`.
pub fn instr32_0FB7_reg_jit(ctx: &mut JitContext, r1: u32, r2: u32)
    requires
        ready(old(ctx).builder, 8),
        r1 < 8,
        r2 < 8,
    ensures
        emits(*old(ctx), *final(ctx), instr32_0FB7_reg_jit_code(r1, r2), 0),
        restores_by(old(ctx).builder, final(ctx).builder, 0),
{
    ctx.builder.emit(Op::GetReg16(r1));
    ctx.builder.emit(Op::SetReg32(r2));
    proof {
        assert(ctx.builder.code@ =~= old(ctx).builder.code@ + instr32_0FB7_reg_jit_code(r1, r2));
        assert(ctx.builder.frame().live =~= old(ctx).builder.frame().live);
        assert(ctx.builder.frame().live64 =~= old(ctx).builder.frame().live64);
        assert(ctx.builder.frame().ctrl =~= old(ctx).builder.frame().ctrl);
    }
}

/// Loads 8 bits from memory, sign-extended, into the 16-bit register `r`.
pub fn instr16_0FBE_mem_jit(ctx: &mut JitContext, modrm_byte: u8, r: u32)
    requires
        ready(old(ctx).builder, 8),
        r < 8,
    ensures
        emits(*old(ctx), *final(ctx), seq![Op::ModrmResolveSafeRead8(modrm_byte), Op::SignExtendI8, Op::SetReg16(r)], 0),
        restores_by(old(ctx).builder, final(ctx).builder, 0),
{
    ctx.builder.emit(Op::ModrmResolveSafeRead8(modrm_byte));
    ctx.builder.emit(Op::SignExtendI8);
    ctx.builder.emit(Op::SetReg16(r));
    proof {
        assert(ctx.builder.code@ =~= old(ctx).builder.code@ + seq![Op::ModrmResolveSafeRead8(modrm_byte), Op::SignExtendI8, Op::SetReg16(r)]);
        assert(ctx.builder.frame().live =~= old(ctx).builder.frame().live);
        assert(ctx.builder.frame().live64 =~= old(ctx).builder.frame().live64);
        assert(ctx.builder.frame().ctrl =~= old(ctx).builder.frame().ctrl);
    }
}

/// The 8-bit register `r1`, sign-extended, into the 16-bit register `r2`.
pub fn instr16_0FBE_reg_jit(ctx: &mut JitContext, r1: u32, r2: u32)
    requires
        ready(old(ctx).builder, 8),
        r1 < 8,
        r2 < 8,
    ensures
        emits(*old(ctx), *final(ctx), seq![Op::GetReg8(r1), Op::SignExtendI8, Op::SetReg16(r2)], 0),
        restores_by(old(ctx).builder, final(ctx).builder, 0),
{
    ctx.builder.emit(Op::GetReg8(r1));
    ctx.builder.emit(Op::SignExtendI8);
    ctx.builder.emit(Op::SetReg16(r2));
    proof {
        assert(ctx.builder.code@ =~= old(ctx).builder.code@ + seq![Op::GetReg8(r1), Op::SignExtendI8, Op::SetReg16(r2)]);
        assert(ctx.builder.frame().live =~= old(ctx).builder.frame().live);
        assert(ctx.builder.frame().live64 =~= old(ctx).builder.frame().live64);
        assert(ctx.builder.frame().ctrl =~= old(ctx).builder.frame().ctrl);
    }
}

/// Loads 8 bits from memory, sign-extended, into the 32-bit register `r`.
pub fn instr32_0FBE_mem_jit(ctx: &mut JitContext, modrm_byte: u8, r: u32)
    requires
        ready(old(ctx).builder, 8),
        r < 8,
    ensures
        emits(*old(ctx), *final(ctx), seq![Op::ModrmResolveSafeRead8(modrm_byte), Op::SignExtendI8, Op::SetReg32(r)], 0),
        restores_by(old(ctx).builder, final(ctx).builder, 0),
{
    ctx.builder.emit(Op::ModrmResolveSafeRead8(modrm_byte));
    ctx.builder.emit(Op::SignExtendI8);
    ctx.builder.emit(Op::SetReg32(r));
    proof {
        assert(ctx.builder.code@ =~= old(ctx).builder.code@ + seq![Op::ModrmResolveSafeRead8(modrm_byte), Op::SignExtendI8, Op::SetReg32(r)]);
        assert(ctx.builder.frame().live =~= old(ctx).builder.frame().live);
        assert(ctx.builder.frame().live64 =~= old(ctx).builder.frame().live64);
        assert(ctx.builder.frame().ctrl =~= old(ctx).builder.frame().ctrl);
    }
}

/// The code that [`instr32_0FBE_reg_jit`] appends.
pub open spec fn instr32_0FBE_reg_jit_code(r1: u32, r2: u32) -> Seq<Op> {
    seq![Op::GetReg8(r1), Op::SignExtendI8, Op::SetReg32(r2)]
}

/// The 8-bit register `r1`, sign-extended, into the 32-bit register `r2`.
pub fn instr32_0FBE_reg_jit(ctx: &mut JitContext, r1: u32, r2: u32)
    requires
        ready(old(ctx).builder, 8),
        r1 < 8,
        r2 < 8,
    ensures
        emits(*old(ctx), *final(ctx), instr32_0FBE_reg_jit_code(r1, r2), 0),
        restores_by(old(ctx).builder, final(ctx).builder, 0),
{
    ctx.builder.emit(Op::GetReg8(r1));
    ctx.builder.emit(Op::SignExtendI8);
    ctx.builder.emit(Op::SetReg32(r2));
    proof {
        assert(ctx.builder.code@ =~= old(ctx).builder.code@ + instr32_0FBE_reg_jit_code(r1, r2));
        assert(ctx.builder.frame().live =~= old(ctx).builder.frame().live);
        assert(ctx.builder.frame().live64 =~= old(ctx).builder.frame().live64);
        assert(ctx.builder.frame().ctrl =~= old(ctx).builder.frame().ctrl);
    }
}

/// Loads 16 bits from memory, sign-extended, into the 16-bit register `r`.
pub fn instr16_0FBF_mem_jit(ctx: &mut JitContext, modrm_byte: u8, r: u32)
    requires
        ready(old(ctx).builder, 8),
        r < 8,
    ensures
        emits(*old(ctx), *final(ctx), seq![Op::ModrmResolveSafeRead16(modrm_byte), Op::SignExtendI16, Op::SetReg16(r)], 0),
        restores_by(old(ctx).builder, final(ctx).builder, 0),
{
    ctx.builder.emit(Op::ModrmResolveSafeRead16(modrm_byte));
    ctx.builder.emit(Op::SignExtendI16);
    ctx.builder.emit(Op::SetReg16(r));
    proof {
        assert(ctx.builder.code@ =~= old(ctx).builder.code@ + seq![Op::ModrmResolveSafeRead16(modrm_byte), Op::SignExtendI16, Op::SetReg16(r)]);
        assert(ctx.builder.frame().live =~= old(ctx).builder.frame().live);
        assert(ctx.builder.frame().live64 =~= old(ctx).builder.frame().live64);
        assert(ctx.builder.frame().ctrl =~= old(ctx).builder.frame().ctrl);
    }
}

/// The 16-bit register `r1`, sign-extended, into the 16-bit register `r2`.
pub fn instr16_0FBF_reg_jit(ctx: &mut JitContext, r1: u32, r2: u32)
    requires
        ready(old(ctx).builder, 8),
        r1 < 8,
        r2 < 8,
    ensures
        emits(*old(ctx), *final(ctx), seq![Op::GetReg16(r1), Op::SignExtendI16, Op::SetReg16(r2)], 0),
        restores_by(old(ctx).builder, final(ctx).builder, 0),
{
    ctx.builder.emit(Op::GetReg16(r1));
    ctx.builder.emit(Op::SignExtendI16);
    ctx.builder.emit(Op::SetReg16(r2));
    proof {
        assert(ctx.builder.code@ =~= old(ctx).builder.code@ + seq![Op::GetReg16(r1), Op::SignExtendI16, Op::SetReg16(r2)]);
        assert(ctx.builder.frame().live =~= old(ctx).builder.frame().live);
        assert(ctx.builder.frame().live64 =~= old(ctx).builder.frame().live64);
        assert(ctx.builder.frame().ctrl =~= old(ctx).builder.frame().ctrl);
    }
}

/// Loads 16 bits from memory, sign-extended, into the 32-bit register `r`.
pub fn instr32_0FBF_mem_jit(ctx: &mut JitContext, modrm_byte: u8, r: u32)
    requires
        ready(old(ctx).builder, 8),
        r < 8,
    ensures
        emits(*old(ctx), *final(ctx), seq![Op::ModrmResolveSafeRead16(modrm_byte), Op::SignExtendI16, Op::SetReg32(r)], 0),
        restores_by(old(ctx).builder, final(ctx).builder, 0),
{
    ctx.builder.emit(Op::ModrmResolveSafeRead16(modrm_byte));
    ctx.builder.emit(Op::SignExtendI16);
    ctx.builder.emit(Op::SetReg32(r));
    proof {
        assert(ctx.builder.code@ =~= old(ctx).builder.code@ + seq![Op::ModrmResolveSafeRead16(modrm_byte), Op::SignExtendI16, Op::SetReg32(r)]);
        assert(ctx.builder.frame().live =~= old(ctx).builder.frame().live);
        assert(ctx.builder.frame().live64 =~= old(ctx).builder.frame().live64);
        assert(ctx.builder.frame().ctrl =~= old(ctx).builder.frame().ctrl);
    }
}

/// The code that [`instr32_0FBF_reg_jit`] appends.
pub open spec fn instr32_0FBF_reg_jit_code(r1: u32, r2: u32) -> Seq<Op> {
    seq![Op::GetReg16(r1), Op::SignExtendI16, Op::SetReg32(r2)]
}

/// The 16-bit register `r1`, sign-extended, into the 32-bit register `r2`.
pub fn instr32_0FBF_reg_jit(ctx: &mut JitContext, r1: u32, r2: u32)
    requires
        ready(old(ctx).builder, 8),
        r1 < 8,
        r2 < 8,
    ensures
        emits(*old(ctx), *final(ctx), instr32_0FBF_reg_jit_code(r1, r2), 0),
        restores_by(old(ctx).builder, final(ctx).builder, 0),
{
    ctx.builder.emit(Op::GetReg16(r1));
    ctx.builder.emit(Op::SignExtendI16);
    ctx.builder.emit(Op::SetReg32(r2));
    proof {
        assert(ctx.builder.code@ =~= old(ctx).builder.code@ + instr32_0FBF_reg_jit_code(r1, r2));
        assert(ctx.builder.frame().live =~= old(ctx).builder.frame().live);
        assert(ctx.builder.frame().live64 =~= old(ctx).builder.frame().live64);
        assert(ctx.builder.frame().ctrl =~= old(ctx).builder.frame().ctrl);
    }
}

/// `xadd` of the 16-bit register `r` into a word in memory, through the runtime helper.
pub fn instr16_0FC1_mem_jit(ctx: &mut JitContext, modrm_byte: u8, r: u32)
    requires
        ready(old(ctx).builder, 8),
    ensures
        emits(*old(ctx), *final(ctx), seq![Op::ModrmResolve(modrm_byte), Op::SetNewLocal(old(ctx).builder.next_local), Op::SafeReadWriteBegin(BitSize::Word, WasmLocal::Temp(old(ctx).builder.next_local)), Op::ConstI32((2 * (r as i32)) as i32), Op::MoveRegistersFromLocalsToMemory, Op::CallFn2Ret("xadd16"), Op::MoveRegistersFromMemoryToLocals, Op::SafeReadWriteEnd, Op::FreeLocal(old(ctx).builder.next_local)], 1),
        restores_by(old(ctx).builder, final(ctx).builder, 0),
{
    ctx.builder.emit(Op::ModrmResolve(modrm_byte));
    let addr = ctx.builder.set_new_local();
    ctx.builder.read_write_begin(BitSize::Word, addr);
    ctx.builder.emit(Op::ConstI32(get_reg16_index(r as i32)));
    ctx.builder.emit(Op::MoveRegistersFromLocalsToMemory);
    ctx.builder.emit(Op::CallFn2Ret("xadd16"));
    ctx.builder.emit(Op::MoveRegistersFromMemoryToLocals);
    ctx.builder.read_write_end();
    ctx.builder.free_local(addr);
    proof {
        assert(ctx.builder.code@ =~= old(ctx).builder.code@ + seq![Op::ModrmResolve(modrm_byte), Op::SetNewLocal(old(ctx).builder.next_local), Op::SafeReadWriteBegin(BitSize::Word, WasmLocal::Temp(old(ctx).builder.next_local)), Op::ConstI32((2 * (r as i32)) as i32), Op::MoveRegistersFromLocalsToMemory, Op::CallFn2Ret("xadd16"), Op::MoveRegistersFromMemoryToLocals, Op::SafeReadWriteEnd, Op::FreeLocal(old(ctx).builder.next_local)]);
        assert(ctx.builder.frame().live =~= old(ctx).builder.frame().live);
        assert(ctx.builder.frame().live64 =~= old(ctx).builder.frame().live64);
        assert(ctx.builder.frame().ctrl =~= old(ctx).builder.frame().ctrl);
    }
}

/// `xadd` of the 16-bit register `r2` into `r1`, through the runtime helper.
pub fn instr16_0FC1_reg_jit(ctx: &mut JitContext, r1: u32, r2: u32)
    requires
        ready(old(ctx).builder, 8),
        r1 < 8,
    ensures
        emits(*old(ctx), *final(ctx), seq![Op::GetReg16(r1), Op::ConstI32((2 * (r2 as i32)) as i32), Op::MoveRegistersFromLocalsToMemory, Op::CallFn2Ret("xadd16"), Op::MoveRegistersFromMemoryToLocals, Op::SetReg16(r1)], 0),
        restores_by(old(ctx).builder, final(ctx).builder, 0),
{
    ctx.builder.emit(Op::GetReg16(r1));
    ctx.builder.emit(Op::ConstI32(get_reg16_index(r2 as i32)));
    ctx.builder.emit(Op::MoveRegistersFromLocalsToMemory);
    ctx.builder.emit(Op::CallFn2Ret("xadd16"));
    ctx.builder.emit(Op::MoveRegistersFromMemoryToLocals);
    ctx.builder.emit(Op::SetReg16(r1));
    proof {
        assert(ctx.builder.code@ =~= old(ctx).builder.code@ + seq![Op::GetReg16(r1), Op::ConstI32((2 * (r2 as i32)) as i32), Op::MoveRegistersFromLocalsToMemory, Op::CallFn2Ret("xadd16"), Op::MoveRegistersFromMemoryToLocals, Op::SetReg16(r1)]);
        assert(ctx.builder.frame().live =~= old(ctx).builder.frame().live);
        assert(ctx.builder.frame().live64 =~= old(ctx).builder.frame().live64);
        assert(ctx.builder.frame().ctrl =~= old(ctx).builder.frame().ctrl);
    }
}

/// `xadd` of register `r` into a doubleword in memory.
pub fn instr32_0FC1_mem_jit(ctx: &mut JitContext, modrm_byte: u8, r: u32)
    requires
        ready(old(ctx).builder, 8),
        r < 8,
    ensures
        emits(*old(ctx), *final(ctx), seq![Op::ModrmResolve(modrm_byte), Op::SetNewLocal(old(ctx).builder.next_local), Op::SafeReadWriteBegin(BitSize::Dword, WasmLocal::Temp(old(ctx).builder.next_local)), Op::SetNewLocal((old(ctx).builder.next_local + 1) as u32)] + gen_xadd32_code(WasmLocal::Temp((old(ctx).builder.next_local + 1) as u32), r, (old(ctx).builder.next_local + 2) as u32) + seq![Op::GetLocal(WasmLocal::Temp((old(ctx).builder.next_local + 1) as u32)), Op::FreeLocal((old(ctx).builder.next_local + 1) as u32), Op::SafeReadWriteEnd, Op::FreeLocal(old(ctx).builder.next_local)], 3),
        restores_by(old(ctx).builder, final(ctx).builder, 0),
{
    ctx.builder.emit(Op::ModrmResolve(modrm_byte));
    let addr = ctx.builder.set_new_local();
    ctx.builder.read_write_begin(BitSize::Dword, addr);
    let dest = ctx.builder.set_new_local();
    proof { assert(ctx.builder.code@ =~= old(ctx).builder.code@ + seq![Op::ModrmResolve(modrm_byte), Op::SetNewLocal(old(ctx).builder.next_local), Op::SafeReadWriteBegin(BitSize::Dword, WasmLocal::Temp(old(ctx).builder.next_local)), Op::SetNewLocal((old(ctx).builder.next_local + 1) as u32)]); }
    gen_xadd32(ctx, &dest, r);
    proof { assert(ctx.builder.code@ =~= old(ctx).builder.code@ + seq![Op::ModrmResolve(modrm_byte), Op::SetNewLocal(old(ctx).builder.next_local), Op::SafeReadWriteBegin(BitSize::Dword, WasmLocal::Temp(old(ctx).builder.next_local)), Op::SetNewLocal((old(ctx).builder.next_local + 1) as u32)] + gen_xadd32_code(WasmLocal::Temp((old(ctx).builder.next_local + 1) as u32), r, (old(ctx).builder.next_local + 2) as u32)); }
    ctx.builder.emit(Op::GetLocal(dest));
    ctx.builder.free_local(dest);
    ctx.builder.read_write_end();
    ctx.builder.free_local(addr);
    proof {
        assert(ctx.builder.code@ =~= old(ctx).builder.code@ + (seq![Op::ModrmResolve(modrm_byte), Op::SetNewLocal(old(ctx).builder.next_local), Op::SafeReadWriteBegin(BitSize::Dword, WasmLocal::Temp(old(ctx).builder.next_local)), Op::SetNewLocal((old(ctx).builder.next_local + 1) as u32)] + gen_xadd32_code(WasmLocal::Temp((old(ctx).builder.next_local + 1) as u32), r, (old(ctx).builder.next_local + 2) as u32) + seq![Op::GetLocal(WasmLocal::Temp((old(ctx).builder.next_local + 1) as u32)), Op::FreeLocal((old(ctx).builder.next_local + 1) as u32), Op::SafeReadWriteEnd, Op::FreeLocal(old(ctx).builder.next_local)]));
        assert(ctx.builder.frame().live =~= old(ctx).builder.frame().live);
        assert(ctx.builder.frame().live64 =~= old(ctx).builder.frame().live64);
        assert(ctx.builder.frame().ctrl =~= old(ctx).builder.frame().ctrl);
    }
}

/// `xadd` of register `r2` into `r1`.
pub fn instr32_0FC1_reg_jit(ctx: &mut JitContext, r1: u32, r2: u32)
    requires
        ready(old(ctx).builder, 8),
        r1 < 8,
        r2 < 8,
    ensures
        emits(*old(ctx), *final(ctx), seq![Op::GetReg32(r1), Op::SetNewLocal(old(ctx).builder.next_local)] + gen_xadd32_code(WasmLocal::Temp(old(ctx).builder.next_local), r2, (old(ctx).builder.next_local + 1) as u32) + seq![Op::GetLocal(WasmLocal::Temp(old(ctx).builder.next_local)), Op::SetReg32(r1), Op::FreeLocal(old(ctx).builder.next_local)], 2),
        restores_by(old(ctx).builder, final(ctx).builder, 0),
{
    ctx.builder.emit(Op::GetReg32(r1));
    let dest = ctx.builder.set_new_local();
    proof { assert(ctx.builder.code@ =~= old(ctx).builder.code@ + seq![Op::GetReg32(r1), Op::SetNewLocal(old(ctx).builder.next_local)]); }
    gen_xadd32(ctx, &dest, r2);
    proof { assert(ctx.builder.code@ =~= old(ctx).builder.code@ + seq![Op::GetReg32(r1), Op::SetNewLocal(old(ctx).builder.next_local)] + gen_xadd32_code(WasmLocal::Temp(old(ctx).builder.next_local), r2, (old(ctx).builder.next_local + 1) as u32)); }
    ctx.builder.emit(Op::GetLocal(dest));
    ctx.builder.emit(Op::SetReg32(r1));
    ctx.builder.free_local(dest);
    proof {
        assert(ctx.builder.code@ =~= old(ctx).builder.code@ + (seq![Op::GetReg32(r1), Op::SetNewLocal(old(ctx).builder.next_local)] + gen_xadd32_code(WasmLocal::Temp(old(ctx).builder.next_local), r2, (old(ctx).builder.next_local + 1) as u32) + seq![Op::GetLocal(WasmLocal::Temp(old(ctx).builder.next_local)), Op::SetReg32(r1), Op::FreeLocal(old(ctx).builder.next_local)]));
        assert(ctx.builder.frame().live =~= old(ctx).builder.frame().live);
        assert(ctx.builder.frame().live64 =~= old(ctx).builder.frame().live64);
        assert(ctx.builder.frame().ctrl =~= old(ctx).builder.frame().ctrl);
    }
}

/// `movnti`: stores register `r` into memory.
pub fn instr_0FC3_mem_jit(ctx: &mut JitContext, modrm_byte: u8, r: u32)
    requires
        ready(old(ctx).builder, 8),
        r < 8,
    ensures
        emits(*old(ctx), *final(ctx), seq![Op::ModrmResolve(modrm_byte), Op::SetNewLocal(old(ctx).builder.next_local), Op::SafeWrite32(WasmLocal::Temp(old(ctx).builder.next_local), WasmLocal::Register(r)), Op::FreeLocal(old(ctx).builder.next_local)], 1),
        restores_by(old(ctx).builder, final(ctx).builder, 0),
{
    ctx.builder.emit(Op::ModrmResolve(modrm_byte));
    let addr = ctx.builder.set_new_local();
    ctx.builder.emit(Op::SafeWrite32(addr, WasmLocal::Register(r)));
    ctx.builder.free_local(addr);
    proof {
        assert(ctx.builder.code@ =~= old(ctx).builder.code@ + seq![Op::ModrmResolve(modrm_byte), Op::SetNewLocal(old(ctx).builder.next_local), Op::SafeWrite32(WasmLocal::Temp(old(ctx).builder.next_local), WasmLocal::Register(r)), Op::FreeLocal(old(ctx).builder.next_local)]);
        assert(ctx.builder.frame().live =~= old(ctx).builder.frame().live);
        assert(ctx.builder.frame().live64 =~= old(ctx).builder.frame().live64);
        assert(ctx.builder.frame().ctrl =~= old(ctx).builder.frame().ctrl);
    }
}

/// Raises the invalid-opcode exception.
pub fn instr_0FC3_reg_jit(ctx: &mut JitContext, _r1: u32, _r2: u32)
    requires
        ready(old(ctx).builder, 8),
    ensures
        emits(*old(ctx), *final(ctx), seq![Op::TriggerUd], 0),
        balanced_by(old(ctx).builder, final(ctx).builder, 0),
{
    ctx.builder.diverge(Op::TriggerUd);
    proof {
        assert(ctx.builder.code@ =~= old(ctx).builder.code@ + seq![Op::TriggerUd]);
        assert(ctx.builder.frame().live =~= old(ctx).builder.frame().live);
        assert(ctx.builder.frame().live64 =~= old(ctx).builder.frame().live64);
        assert(ctx.builder.frame().ctrl =~= old(ctx).builder.frame().ctrl);
    }
}

/// Conditional move from memory under condition 0.
pub fn instr16_0F40_mem_jit(ctx: &mut JitContext, modrm_byte: u8, r: u32)
    requires
        ready(old(ctx).builder, 8),
        r < 8,
    ensures
        emits(*old(ctx), *final(ctx), cmov16_mem_code(0, modrm_byte, r, old(ctx).builder.next_local), 1),
        restores_by(old(ctx).builder, final(ctx).builder, 0),
{
    cmov16_mem(ctx, 0, modrm_byte, r);
    proof {
        assert(ctx.builder.code@ =~= old(ctx).builder.code@ + cmov16_mem_code(0, modrm_byte, r, old(ctx).builder.next_local));
        assert(ctx.builder.frame().live =~= old(ctx).builder.frame().live);
        assert(ctx.builder.frame().live64 =~= old(ctx).builder.frame().live64);
        assert(ctx.builder.frame().ctrl =~= old(ctx).builder.frame().ctrl);
    }
}

/// Conditional move between registers under condition 0.
pub fn instr16_0F40_reg_jit(ctx: &mut JitContext, r1: u32, r2: u32)
    requires
        ready(old(ctx).builder, 8),
        r1 < 8,
        r2 < 8,
    ensures
        emits(*old(ctx), *final(ctx), cmov16_reg_code(0, r1, r2), 0),
        restores_by(old(ctx).builder, final(ctx).builder, 0),
{
    cmov16_reg(ctx, 0, r1, r2);
    proof {
        assert(ctx.builder.code@ =~= old(ctx).builder.code@ + cmov16_reg_code(0, r1, r2));
        assert(ctx.builder.frame().live =~= old(ctx).builder.frame().live);
        assert(ctx.builder.frame().live64 =~= old(ctx).builder.frame().live64);
        assert(ctx.builder.frame().ctrl =~= old(ctx).builder.frame().ctrl);
    }
}

/// Conditional move from memory under condition 0.
pub fn instr32_0F40_mem_jit(ctx: &mut JitContext, modrm_byte: u8, r: u32)
    requires
        ready(old(ctx).builder, 8),
        r < 8,
    ensures
        emits(*old(ctx), *final(ctx), cmov32_mem_code(0, modrm_byte, r, old(ctx).builder.next_local), 1),
        restores_by(old(ctx).builder, final(ctx).builder, 0),
{
    cmov32_mem(ctx, 0, modrm_byte, r);
    proof {
        assert(ctx.builder.code@ =~= old(ctx).builder.code@ + cmov32_mem_code(0, modrm_byte, r, old(ctx).builder.next_local));
        assert(ctx.builder.frame().live =~= old(ctx).builder.frame().live);
        assert(ctx.builder.frame().live64 =~= old(ctx).builder.frame().live64);
        assert(ctx.builder.frame().ctrl =~= old(ctx).builder.frame().ctrl);
    }
}

/// Conditional move between registers under condition 0.
pub fn instr32_0F40_reg_jit(ctx: &mut JitContext, r1: u32, r2: u32)
    requires
        ready(old(ctx).builder, 8),
        r1 < 8,
        r2 < 8,
    ensures
        emits(*old(ctx), *final(ctx), cmov32_reg_code(0, r1, r2), 0),
        restores_by(old(ctx).builder, final(ctx).builder, 0),
{
    cmov32_reg(ctx, 0, r1, r2);
    proof {
        assert(ctx.builder.code@ =~= old(ctx).builder.code@ + cmov32_reg_code(0, r1, r2));
        assert(ctx.builder.frame().live =~= old(ctx).builder.frame().live);
        assert(ctx.builder.frame().live64 =~= old(ctx).builder.frame().live64);
        assert(ctx.builder.frame().ctrl =~= old(ctx).builder.frame().ctrl);
    }
}

/// Conditional move from memory under condition 1.
pub fn instr16_0F41_mem_jit(ctx: &mut JitContext, modrm_byte: u8, r: u32)
    requires
        ready(old(ctx).builder, 8),
        r < 8,
    ensures
        emits(*old(ctx), *final(ctx), cmov16_mem_code(1, modrm_byte, r, old(ctx).builder.next_local), 1),
        restores_by(old(ctx).builder, final(ctx).builder, 0),
{
    cmov16_mem(ctx, 1, modrm_byte, r);
    proof {
        assert(ctx.builder.code@ =~= old(ctx).builder.code@ + cmov16_mem_code(1, modrm_byte, r, old(ctx).builder.next_local));
        assert(ctx.builder.frame().live =~= old(ctx).builder.frame().live);
        assert(ctx.builder.frame().live64 =~= old(ctx).builder.frame().live64);
        assert(ctx.builder.frame().ctrl =~= old(ctx).builder.frame().ctrl);
    }
}

/// Conditional move between registers under condition 1.
pub fn instr16_0F41_reg_jit(ctx: &mut JitContext, r1: u32, r2: u32)
    requires
        ready(old(ctx).builder, 8),
        r1 < 8,
        r2 < 8,
    ensures
        emits(*old(ctx), *final(ctx), cmov16_reg_code(1, r1, r2), 0),
        restores_by(old(ctx).builder, final(ctx).builder, 0),
{
    cmov16_reg(ctx, 1, r1, r2);
    proof {
        assert(ctx.builder.code@ =~= old(ctx).builder.code@ + cmov16_reg_code(1, r1, r2));
        assert(ctx.builder.frame().live =~= old(ctx).builder.frame().live);
        assert(ctx.builder.frame().live64 =~= old(ctx).builder.frame().live64);
        assert(ctx.builder.frame().ctrl =~= old(ctx).builder.frame().ctrl);
    }
}

/// Conditional move from memory under condition 1.
pub fn instr32_0F41_mem_jit(ctx: &mut JitContext, modrm_byte: u8, r: u32)
    requires
        ready(old(ctx).builder, 8),
        r < 8,
    ensures
        emits(*old(ctx), *final(ctx), cmov32_mem_code(1, modrm_byte, r, old(ctx).builder.next_local), 1),
        restores_by(old(ctx).builder, final(ctx).builder, 0),
{
    cmov32_mem(ctx, 1, modrm_byte, r);
    proof {
        assert(ctx.builder.code@ =~= old(ctx).builder.code@ + cmov32_mem_code(1, modrm_byte, r, old(ctx).builder.next_local));
        assert(ctx.builder.frame().live =~= old(ctx).builder.frame().live);
        assert(ctx.builder.frame().live64 =~= old(ctx).builder.frame().live64);
        assert(ctx.builder.frame().ctrl =~= old(ctx).builder.frame().ctrl);
    }
}

/// Conditional move between registers under condition 1.
pub fn instr32_0F41_reg_jit(ctx: &mut JitContext, r1: u32, r2: u32)
    requires
        ready(old(ctx).builder, 8),
        r1 < 8,
        r2 < 8,
    ensures
        emits(*old(ctx), *final(ctx), cmov32_reg_code(1, r1, r2), 0),
        restores_by(old(ctx).builder, final(ctx).builder, 0),
{
    cmov32_reg(ctx, 1, r1, r2);
    proof {
        assert(ctx.builder.code@ =~= old(ctx).builder.code@ + cmov32_reg_code(1, r1, r2));
        assert(ctx.builder.frame().live =~= old(ctx).builder.frame().live);
        assert(ctx.builder.frame().live64 =~= old(ctx).builder.frame().live64);
        assert(ctx.builder.frame().ctrl =~= old(ctx).builder.frame().ctrl);
    }
}

/// Conditional move from memory under condition 2.
pub fn instr16_0F42_mem_jit(ctx: &mut JitContext, modrm_byte: u8, r: u32)
    requires
        ready(old(ctx).builder, 8),
        r < 8,
    ensures
        emits(*old(ctx), *final(ctx), cmov16_mem_code(2, modrm_byte, r, old(ctx).builder.next_local), 1),
        restores_by(old(ctx).builder, final(ctx).builder, 0),
{
    cmov16_mem(ctx, 2, modrm_byte, r);
    proof {
        assert(ctx.builder.code@ =~= old(ctx).builder.code@ + cmov16_mem_code(2, modrm_byte, r, old(ctx).builder.next_local));
        assert(ctx.builder.frame().live =~= old(ctx).builder.frame().live);
        assert(ctx.builder.frame().live64 =~= old(ctx).builder.frame().live64);
        assert(ctx.builder.frame().ctrl =~= old(ctx).builder.frame().ctrl);
    }
}

/// Conditional move between registers under condition 2.
pub fn instr16_0F42_reg_jit(ctx: &mut JitContext, r1: u32, r2: u32)
    requires
        ready(old(ctx).builder, 8),
        r1 < 8,
        r2 < 8,
    ensures
        emits(*old(ctx), *final(ctx), cmov16_reg_code(2, r1, r2), 0),
        restores_by(old(ctx).builder, final(ctx).builder, 0),
{
    cmov16_reg(ctx, 2, r1, r2);
    proof {
        assert(ctx.builder.code@ =~= old(ctx).builder.code@ + cmov16_reg_code(2, r1, r2));
        assert(ctx.builder.frame().live =~= old(ctx).builder.frame().live);
        assert(ctx.builder.frame().live64 =~= old(ctx).builder.frame().live64);
        assert(ctx.builder.frame().ctrl =~= old(ctx).builder.frame().ctrl);
    }
}

/// Conditional move from memory under condition 2.
pub fn instr32_0F42_mem_jit(ctx: &mut JitContext, modrm_byte: u8, r: u32)
    requires
        ready(old(ctx).builder, 8),
        r < 8,
    ensures
        emits(*old(ctx), *final(ctx), cmov32_mem_code(2, modrm_byte, r, old(ctx).builder.next_local), 1),
        restores_by(old(ctx).builder, final(ctx).builder, 0),
{
    cmov32_mem(ctx, 2, modrm_byte, r);
    proof {
        assert(ctx.builder.code@ =~= old(ctx).builder.code@ + cmov32_mem_code(2, modrm_byte, r, old(ctx).builder.next_local));
        assert(ctx.builder.frame().live =~= old(ctx).builder.frame().live);
        assert(ctx.builder.frame().live64 =~= old(ctx).builder.frame().live64);
        assert(ctx.builder.frame().ctrl =~= old(ctx).builder.frame().ctrl);
    }
}

/// Conditional move between registers under condition 2.
pub fn instr32_0F42_reg_jit(ctx: &mut JitContext, r1: u32, r2: u32)
    requires
        ready(old(ctx).builder, 8),
        r1 < 8,
        r2 < 8,
    ensures
        emits(*old(ctx), *final(ctx), cmov32_reg_code(2, r1, r2), 0),
        restores_by(old(ctx).builder, final(ctx).builder, 0),
{
    cmov32_reg(ctx, 2, r1, r2);
    proof {
        assert(ctx.builder.code@ =~= old(ctx).builder.code@ + cmov32_reg_code(2, r1, r2));
        assert(ctx.builder.frame().live =~= old(ctx).builder.frame().live);
        assert(ctx.builder.frame().live64 =~= old(ctx).builder.frame().live64);
        assert(ctx.builder.frame().ctrl =~= old(ctx).builder.frame().ctrl);
    }
}

/// Conditional move from memory under condition 3.
pub fn instr16_0F43_mem_jit(ctx: &mut JitContext, modrm_byte: u8, r: u32)
    requires
        ready(old(ctx).builder, 8),
        r < 8,
    ensures
        emits(*old(ctx), *final(ctx), cmov16_mem_code(3, modrm_byte, r, old(ctx).builder.next_local), 1),
        restores_by(old(ctx).builder, final(ctx).builder, 0),
{
    cmov16_mem(ctx, 3, modrm_byte, r);
    proof {
        assert(ctx.builder.code@ =~= old(ctx).builder.code@ + cmov16_mem_code(3, modrm_byte, r, old(ctx).builder.next_local));
        assert(ctx.builder.frame().live =~= old(ctx).builder.frame().live);
        assert(ctx.builder.frame().live64 =~= old(ctx).builder.frame().live64);
        assert(ctx.builder.frame().ctrl =~= old(ctx).builder.frame().ctrl);
    }
}

/// Conditional move between registers under condition 3.
pub fn instr16_0F43_reg_jit(ctx: &mut JitContext, r1: u32, r2: u32)
    requires
        ready(old(ctx).builder, 8),
        r1 < 8,
        r2 < 8,
    ensures
        emits(*old(ctx), *final(ctx), cmov16_reg_code(3, r1, r2), 0),
        restores_by(old(ctx).builder, final(ctx).builder, 0),
{
    cmov16_reg(ctx, 3, r1, r2);
    proof {
        assert(ctx.builder.code@ =~= old(ctx).builder.code@ + cmov16_reg_code(3, r1, r2));
        assert(ctx.builder.frame().live =~= old(ctx).builder.frame().live);
        assert(ctx.builder.frame().live64 =~= old(ctx).builder.frame().live64);
        assert(ctx.builder.frame().ctrl =~= old(ctx).builder.frame().ctrl);
    }
}

/// Conditional move from memory under condition 3.
pub fn instr32_0F43_mem_jit(ctx: &mut JitContext, modrm_byte: u8, r: u32)
    requires
        ready(old(ctx).builder, 8),
        r < 8,
    ensures
        emits(*old(ctx), *final(ctx), cmov32_mem_code(3, modrm_byte, r, old(ctx).builder.next_local), 1),
        restores_by(old(ctx).builder, final(ctx).builder, 0),
{
    cmov32_mem(ctx, 3, modrm_byte, r);
    proof {
        assert(ctx.builder.code@ =~= old(ctx).builder.code@ + cmov32_mem_code(3, modrm_byte, r, old(ctx).builder.next_local));
        assert(ctx.builder.frame().live =~= old(ctx).builder.frame().live);
        assert(ctx.builder.frame().live64 =~= old(ctx).builder.frame().live64);
        assert(ctx.builder.frame().ctrl =~= old(ctx).builder.frame().ctrl);
    }
}

/// Conditional move between registers under condition 3.
pub fn instr32_0F43_reg_jit(ctx: &mut JitContext, r1: u32, r2: u32)
    requires
        ready(old(ctx).builder, 8),
        r1 < 8,
        r2 < 8,
    ensures
        emits(*old(ctx), *final(ctx), cmov32_reg_code(3, r1, r2), 0),
        restores_by(old(ctx).builder, final(ctx).builder, 0),
{
    cmov32_reg(ctx, 3, r1, r2);
    proof {
        assert(ctx.builder.code@ =~= old(ctx).builder.code@ + cmov32_reg_code(3, r1, r2));
        assert(ctx.builder.frame().live =~= old(ctx).builder.frame().live);
        assert(ctx.builder.frame().live64 =~= old(ctx).builder.frame().live64);
        assert(ctx.builder.frame().ctrl =~= old(ctx).builder.frame().ctrl);
    }
}

/// Conditional move from memory under condition 4.
pub fn instr16_0F44_mem_jit(ctx: &mut JitContext, modrm_byte: u8, r: u32)
    requires
        ready(old(ctx).builder, 8),
        r < 8,
    ensures
        emits(*old(ctx), *final(ctx), cmov16_mem_code(4, modrm_byte, r, old(ctx).builder.next_local), 1),
        restores_by(old(ctx).builder, final(ctx).builder, 0),
{
    cmov16_mem(ctx, 4, modrm_byte, r);
    proof {
        assert(ctx.builder.code@ =~= old(ctx).builder.code@ + cmov16_mem_code(4, modrm_byte, r, old(ctx).builder.next_local));
        assert(ctx.builder.frame().live =~= old(ctx).builder.frame().live);
        assert(ctx.builder.frame().live64 =~= old(ctx).builder.frame().live64);
        assert(ctx.builder.frame().ctrl =~= old(ctx).builder.frame().ctrl);
    }
}

/// Conditional move between registers under condition 4.
pub fn instr16_0F44_reg_jit(ctx: &mut JitContext, r1: u32, r2: u32)
    requires
        ready(old(ctx).builder, 8),
        r1 < 8,
        r2 < 8,
    ensures
        emits(*old(ctx), *final(ctx), cmov16_reg_code(4, r1, r2), 0),
        restores_by(old(ctx).builder, final(ctx).builder, 0),
{
    cmov16_reg(ctx, 4, r1, r2);
    proof {
        assert(ctx.builder.code@ =~= old(ctx).builder.code@ + cmov16_reg_code(4, r1, r2));
        assert(ctx.builder.frame().live =~= old(ctx).builder.frame().live);
        assert(ctx.builder.frame().live64 =~= old(ctx).builder.frame().live64);
        assert(ctx.builder.frame().ctrl =~= old(ctx).builder.frame().ctrl);
    }
}

/// Conditional move from memory under condition 4.
pub fn instr32_0F44_mem_jit(ctx: &mut JitContext, modrm_byte: u8, r: u32)
    requires
        ready(old(ctx).builder, 8),
        r < 8,
    ensures
        emits(*old(ctx), *final(ctx), cmov32_mem_code(4, modrm_byte, r, old(ctx).builder.next_local), 1),
        restores_by(old(ctx).builder, final(ctx).builder, 0),
{
    cmov32_mem(ctx, 4, modrm_byte, r);
    proof {
        assert(ctx.builder.code@ =~= old(ctx).builder.code@ + cmov32_mem_code(4, modrm_byte, r, old(ctx).builder.next_local));
        assert(ctx.builder.frame().live =~= old(ctx).builder.frame().live);
        assert(ctx.builder.frame().live64 =~= old(ctx).builder.frame().live64);
        assert(ctx.builder.frame().ctrl =~= old(ctx).builder.frame().ctrl);
    }
}

/// Conditional move between registers under condition 4.
pub fn instr32_0F44_reg_jit(ctx: &mut JitContext, r1: u32, r2: u32)
    requires
        ready(old(ctx).builder, 8),
        r1 < 8,
        r2 < 8,
    ensures
        emits(*old(ctx), *final(ctx), cmov32_reg_code(4, r1, r2), 0),
        restores_by(old(ctx).builder, final(ctx).builder, 0),
{
    cmov32_reg(ctx, 4, r1, r2);
    proof {
        assert(ctx.builder.code@ =~= old(ctx).builder.code@ + cmov32_reg_code(4, r1, r2));
        assert(ctx.builder.frame().live =~= old(ctx).builder.frame().live);
        assert(ctx.builder.frame().live64 =~= old(ctx).builder.frame().live64);
        assert(ctx.builder.frame().ctrl =~= old(ctx).builder.frame().ctrl);
    }
}

/// Conditional move from memory under condition 5.
pub fn instr16_0F45_mem_jit(ctx: &mut JitContext, modrm_byte: u8, r: u32)
    requires
        ready(old(ctx).builder, 8),
        r < 8,
    ensures
        emits(*old(ctx), *final(ctx), cmov16_mem_code(5, modrm_byte, r, old(ctx).builder.next_local), 1),
        restores_by(old(ctx).builder, final(ctx).builder, 0),
{
    cmov16_mem(ctx, 5, modrm_byte, r);
    proof {
        assert(ctx.builder.code@ =~= old(ctx).builder.code@ + cmov16_mem_code(5, modrm_byte, r, old(ctx).builder.next_local));
        assert(ctx.builder.frame().live =~= old(ctx).builder.frame().live);
        assert(ctx.builder.frame().live64 =~= old(ctx).builder.frame().live64);
        assert(ctx.builder.frame().ctrl =~= old(ctx).builder.frame().ctrl);
    }
}

/// Conditional move between registers under condition 5.
pub fn instr16_0F45_reg_jit(ctx: &mut JitContext, r1: u32, r2: u32)
    requires
        ready(old(ctx).builder, 8),
        r1 < 8,
        r2 < 8,
    ensures
        emits(*old(ctx), *final(ctx), cmov16_reg_code(5, r1, r2), 0),
        restores_by(old(ctx).builder, final(ctx).builder, 0),
{
    cmov16_reg(ctx, 5, r1, r2);
    proof {
        assert(ctx.builder.code@ =~= old(ctx).builder.code@ + cmov16_reg_code(5, r1, r2));
        assert(ctx.builder.frame().live =~= old(ctx).builder.frame().live);
        assert(ctx.builder.frame().live64 =~= old(ctx).builder.frame().live64);
        assert(ctx.builder.frame().ctrl =~= old(ctx).builder.frame().ctrl);
    }
}

/// Conditional move from memory under condition 5.
pub fn instr32_0F45_mem_jit(ctx: &mut JitContext, modrm_byte: u8, r: u32)
    requires
        ready(old(ctx).builder, 8),
        r < 8,
    ensures
        emits(*old(ctx), *final(ctx), cmov32_mem_code(5, modrm_byte, r, old(ctx).builder.next_local), 1),
        restores_by(old(ctx).builder, final(ctx).builder, 0),
{
    cmov32_mem(ctx, 5, modrm_byte, r);
    proof {
        assert(ctx.builder.code@ =~= old(ctx).builder.code@ + cmov32_mem_code(5, modrm_byte, r, old(ctx).builder.next_local));
        assert(ctx.builder.frame().live =~= old(ctx).builder.frame().live);
        assert(ctx.builder.frame().live64 =~= old(ctx).builder.frame().live64);
        assert(ctx.builder.frame().ctrl =~= old(ctx).builder.frame().ctrl);
    }
}

/// Conditional move between registers under condition 5.
pub fn instr32_0F45_reg_jit(ctx: &mut JitContext, r1: u32, r2: u32)
    requires
        ready(old(ctx).builder, 8),
        r1 < 8,
        r2 < 8,
    ensures
        emits(*old(ctx), *final(ctx), cmov32_reg_code(5, r1, r2), 0),
        restores_by(old(ctx).builder, final(ctx).builder, 0),
{
    cmov32_reg(ctx, 5, r1, r2);
    proof {
        assert(ctx.builder.code@ =~= old(ctx).builder.code@ + cmov32_reg_code(5, r1, r2));
        assert(ctx.builder.frame().live =~= old(ctx).builder.frame().live);
        assert(ctx.builder.frame().live64 =~= old(ctx).builder.frame().live64);
        assert(ctx.builder.frame().ctrl =~= old(ctx).builder.frame().ctrl);
    }
}

/// Conditional move from memory under condition 6.
pub fn instr16_0F46_mem_jit(ctx: &mut JitContext, modrm_byte: u8, r: u32)
    requires
        ready(old(ctx).builder, 8),
        r < 8,
    ensures
        emits(*old(ctx), *final(ctx), cmov16_mem_code(6, modrm_byte, r, old(ctx).builder.next_local), 1),
        restores_by(old(ctx).builder, final(ctx).builder, 0),
{
    cmov16_mem(ctx, 6, modrm_byte, r);
    proof {
        assert(ctx.builder.code@ =~= old(ctx).builder.code@ + cmov16_mem_code(6, modrm_byte, r, old(ctx).builder.next_local));
        assert(ctx.builder.frame().live =~= old(ctx).builder.frame().live);
        assert(ctx.builder.frame().live64 =~= old(ctx).builder.frame().live64);
        assert(ctx.builder.frame().ctrl =~= old(ctx).builder.frame().ctrl);
    }
}

/// Conditional move between registers under condition 6.
pub fn instr16_0F46_reg_jit(ctx: &mut JitContext, r1: u32, r2: u32)
    requires
        ready(old(ctx).builder, 8),
        r1 < 8,
        r2 < 8,
    ensures
        emits(*old(ctx), *final(ctx), cmov16_reg_code(6, r1, r2), 0),
        restores_by(old(ctx).builder, final(ctx).builder, 0),
{
    cmov16_reg(ctx, 6, r1, r2);
    proof {
        assert(ctx.builder.code@ =~= old(ctx).builder.code@ + cmov16_reg_code(6, r1, r2));
        assert(ctx.builder.frame().live =~= old(ctx).builder.frame().live);
        assert(ctx.builder.frame().live64 =~= old(ctx).builder.frame().live64);
        assert(ctx.builder.frame().ctrl =~= old(ctx).builder.frame().ctrl);
    }
}

/// Conditional move from memory under condition 6.
pub fn instr32_0F46_mem_jit(ctx: &mut JitContext, modrm_byte: u8, r: u32)
    requires
        ready(old(ctx).builder, 8),
        r < 8,
    ensures
        emits(*old(ctx), *final(ctx), cmov32_mem_code(6, modrm_byte, r, old(ctx).builder.next_local), 1),
        restores_by(old(ctx).builder, final(ctx).builder, 0),
{
    cmov32_mem(ctx, 6, modrm_byte, r);
    proof {
        assert(ctx.builder.code@ =~= old(ctx).builder.code@ + cmov32_mem_code(6, modrm_byte, r, old(ctx).builder.next_local));
        assert(ctx.builder.frame().live =~= old(ctx).builder.frame().live);
        assert(ctx.builder.frame().live64 =~= old(ctx).builder.frame().live64);
        assert(ctx.builder.frame().ctrl =~= old(ctx).builder.frame().ctrl);
    }
}

/// Conditional move between registers under condition 6.
pub fn instr32_0F46_reg_jit(ctx: &mut JitContext, r1: u32, r2: u32)
    requires
        ready(old(ctx).builder, 8),
        r1 < 8,
        r2 < 8,
    ensures
        emits(*old(ctx), *final(ctx), cmov32_reg_code(6, r1, r2), 0),
        restores_by(old(ctx).builder, final(ctx).builder, 0),
{
    cmov32_reg(ctx, 6, r1, r2);
    proof {
        assert(ctx.builder.code@ =~= old(ctx).builder.code@ + cmov32_reg_code(6, r1, r2));
        assert(ctx.builder.frame().live =~= old(ctx).builder.frame().live);
        assert(ctx.builder.frame().live64 =~= old(ctx).builder.frame().live64);
        assert(ctx.builder.frame().ctrl =~= old(ctx).builder.frame().ctrl);
    }
}

/// Conditional move from memory under condition 7.
pub fn instr16_0F47_mem_jit(ctx: &mut JitContext, modrm_byte: u8, r: u32)
    requires
        ready(old(ctx).builder, 8),
        r < 8,
    ensures
        emits(*old(ctx), *final(ctx), cmov16_mem_code(7, modrm_byte, r, old(ctx).builder.next_local), 1),
        restores_by(old(ctx).builder, final(ctx).builder, 0),
{
    cmov16_mem(ctx, 7, modrm_byte, r);
    proof {
        assert(ctx.builder.code@ =~= old(ctx).builder.code@ + cmov16_mem_code(7, modrm_byte, r, old(ctx).builder.next_local));
        assert(ctx.builder.frame().live =~= old(ctx).builder.frame().live);
        assert(ctx.builder.frame().live64 =~= old(ctx).builder.frame().live64);
        assert(ctx.builder.frame().ctrl =~= old(ctx).builder.frame().ctrl);
    }
}

/// Conditional move between registers under condition 7.
pub fn instr16_0F47_reg_jit(ctx: &mut JitContext, r1: u32, r2: u32)
    requires
        ready(old(ctx).builder, 8),
        r1 < 8,
        r2 < 8,
    ensures
        emits(*old(ctx), *final(ctx), cmov16_reg_code(7, r1, r2), 0),
        restores_by(old(ctx).builder, final(ctx).builder, 0),
{
    cmov16_reg(ctx, 7, r1, r2);
    proof {
        assert(ctx.builder.code@ =~= old(ctx).builder.code@ + cmov16_reg_code(7, r1, r2));
        assert(ctx.builder.frame().live =~= old(ctx).builder.frame().live);
        assert(ctx.builder.frame().live64 =~= old(ctx).builder.frame().live64);
        assert(ctx.builder.frame().ctrl =~= old(ctx).builder.frame().ctrl);
    }
}

/// Conditional move from memory under condition 7.
pub fn instr32_0F47_mem_jit(ctx: &mut JitContext, modrm_byte: u8, r: u32)
    requires
        ready(old(ctx).builder, 8),
        r < 8,
    ensures
        emits(*old(ctx), *final(ctx), cmov32_mem_code(7, modrm_byte, r, old(ctx).builder.next_local), 1),
        restores_by(old(ctx).builder, final(ctx).builder, 0),
{
    cmov32_mem(ctx, 7, modrm_byte, r);
    proof {
        assert(ctx.builder.code@ =~= old(ctx).builder.code@ + cmov32_mem_code(7, modrm_byte, r, old(ctx).builder.next_local));
        assert(ctx.builder.frame().live =~= old(ctx).builder.frame().live);
        assert(ctx.builder.frame().live64 =~= old(ctx).builder.frame().live64);
        assert(ctx.builder.frame().ctrl =~= old(ctx).builder.frame().ctrl);
    }
}

/// Conditional move between registers under condition 7.
pub fn instr32_0F47_reg_jit(ctx: &mut JitContext, r1: u32, r2: u32)
    requires
        ready(old(ctx).builder, 8),
        r1 < 8,
        r2 < 8,
    ensures
        emits(*old(ctx), *final(ctx), cmov32_reg_code(7, r1, r2), 0),
        restores_by(old(ctx).builder, final(ctx).builder, 0),
{
    cmov32_reg(ctx, 7, r1, r2);
    proof {
        assert(ctx.builder.code@ =~= old(ctx).builder.code@ + cmov32_reg_code(7, r1, r2));
        assert(ctx.builder.frame().live =~= old(ctx).builder.frame().live);
        assert(ctx.builder.frame().live64 =~= old(ctx).builder.frame().live64);
        assert(ctx.builder.frame().ctrl =~= old(ctx).builder.frame().ctrl);
    }
}

/// Conditional move from memory under condition 8.
pub fn instr16_0F48_mem_jit(ctx: &mut JitContext, modrm_byte: u8, r: u32)
    requires
        ready(old(ctx).builder, 8),
        r < 8,
    ensures
        emits(*old(ctx), *final(ctx), cmov16_mem_code(8, modrm_byte, r, old(ctx).builder.next_local), 1),
        restores_by(old(ctx).builder, final(ctx).builder, 0),
{
    cmov16_mem(ctx, 8, modrm_byte, r);
    proof {
        assert(ctx.builder.code@ =~= old(ctx).builder.code@ + cmov16_mem_code(8, modrm_byte, r, old(ctx).builder.next_local));
        assert(ctx.builder.frame().live =~= old(ctx).builder.frame().live);
        assert(ctx.builder.frame().live64 =~= old(ctx).builder.frame().live64);
        assert(ctx.builder.frame().ctrl =~= old(ctx).builder.frame().ctrl);
    }
}

/// Conditional move between registers under condition 8.
pub fn instr16_0F48_reg_jit(ctx: &mut JitContext, r1: u32, r2: u32)
    requires
        ready(old(ctx).builder, 8),
        r1 < 8,
        r2 < 8,
    ensures
        emits(*old(ctx), *final(ctx), cmov16_reg_code(8, r1, r2), 0),
        restores_by(old(ctx).builder, final(ctx).builder, 0),
{
    cmov16_reg(ctx, 8, r1, r2);
    proof {
        assert(ctx.builder.code@ =~= old(ctx).builder.code@ + cmov16_reg_code(8, r1, r2));
        assert(ctx.builder.frame().live =~= old(ctx).builder.frame().live);
        assert(ctx.builder.frame().live64 =~= old(ctx).builder.frame().live64);
        assert(ctx.builder.frame().ctrl =~= old(ctx).builder.frame().ctrl);
    }
}

/// Conditional move from memory under condition 8.
pub fn instr32_0F48_mem_jit(ctx: &mut JitContext, modrm_byte: u8, r: u32)
    requires
        ready(old(ctx).builder, 8),
        r < 8,
    ensures
        emits(*old(ctx), *final(ctx), cmov32_mem_code(8, modrm_byte, r, old(ctx).builder.next_local), 1),
        restores_by(old(ctx).builder, final(ctx).builder, 0),
{
    cmov32_mem(ctx, 8, modrm_byte, r);
    proof {
        assert(ctx.builder.code@ =~= old(ctx).builder.code@ + cmov32_mem_code(8, modrm_byte, r, old(ctx).builder.next_local));
        assert(ctx.builder.frame().live =~= old(ctx).builder.frame().live);
        assert(ctx.builder.frame().live64 =~= old(ctx).builder.frame().live64);
        assert(ctx.builder.frame().ctrl =~= old(ctx).builder.frame().ctrl);
    }
}

/// Conditional move between registers under condition 8.
pub fn instr32_0F48_reg_jit(ctx: &mut JitContext, r1: u32, r2: u32)
    requires
        ready(old(ctx).builder, 8),
        r1 < 8,
        r2 < 8,
    ensures
        emits(*old(ctx), *final(ctx), cmov32_reg_code(8, r1, r2), 0),
        restores_by(old(ctx).builder, final(ctx).builder, 0),
{
    cmov32_reg(ctx, 8, r1, r2);
    proof {
        assert(ctx.builder.code@ =~= old(ctx).builder.code@ + cmov32_reg_code(8, r1, r2));
        assert(ctx.builder.frame().live =~= old(ctx).builder.frame().live);
        assert(ctx.builder.frame().live64 =~= old(ctx).builder.frame().live64);
        assert(ctx.builder.frame().ctrl =~= old(ctx).builder.frame().ctrl);
    }
}

/// Conditional move from memory under condition 9.
pub fn instr16_0F49_mem_jit(ctx: &mut JitContext, modrm_byte: u8, r: u32)
    requires
        ready(old(ctx).builder, 8),
        r < 8,
    ensures
        emits(*old(ctx), *final(ctx), cmov16_mem_code(9, modrm_byte, r, old(ctx).builder.next_local), 1),
        restores_by(old(ctx).builder, final(ctx).builder, 0),
{
    cmov16_mem(ctx, 9, modrm_byte, r);
    proof {
        assert(ctx.builder.code@ =~= old(ctx).builder.code@ + cmov16_mem_code(9, modrm_byte, r, old(ctx).builder.next_local));
        assert(ctx.builder.frame().live =~= old(ctx).builder.frame().live);
        assert(ctx.builder.frame().live64 =~= old(ctx).builder.frame().live64);
        assert(ctx.builder.frame().ctrl =~= old(ctx).builder.frame().ctrl);
    }
}

/// Conditional move between registers under condition 9.
pub fn instr16_0F49_reg_jit(ctx: &mut JitContext, r1: u32, r2: u32)
    requires
        ready(old(ctx).builder, 8),
        r1 < 8,
        r2 < 8,
    ensures
        emits(*old(ctx), *final(ctx), cmov16_reg_code(9, r1, r2), 0),
        restores_by(old(ctx).builder, final(ctx).builder, 0),
{
    cmov16_reg(ctx, 9, r1, r2);
    proof {
        assert(ctx.builder.code@ =~= old(ctx).builder.code@ + cmov16_reg_code(9, r1, r2));
        assert(ctx.builder.frame().live =~= old(ctx).builder.frame().live);
        assert(ctx.builder.frame().live64 =~= old(ctx).builder.frame().live64);
        assert(ctx.builder.frame().ctrl =~= old(ctx).builder.frame().ctrl);
    }
}

/// Conditional move from memory under condition 9.
pub fn instr32_0F49_mem_jit(ctx: &mut JitContext, modrm_byte: u8, r: u32)
    requires
        ready(old(ctx).builder, 8),
        r < 8,
    ensures
        emits(*old(ctx), *final(ctx), cmov32_mem_code(9, modrm_byte, r, old(ctx).builder.next_local), 1),
        restores_by(old(ctx).builder, final(ctx).builder, 0),
{
    cmov32_mem(ctx, 9, modrm_byte, r);
    proof {
        assert(ctx.builder.code@ =~= old(ctx).builder.code@ + cmov32_mem_code(9, modrm_byte, r, old(ctx).builder.next_local));
        assert(ctx.builder.frame().live =~= old(ctx).builder.frame().live);
        assert(ctx.builder.frame().live64 =~= old(ctx).builder.frame().live64);
        assert(ctx.builder.frame().ctrl =~= old(ctx).builder.frame().ctrl);
    }
}

/// Conditional move between registers under condition 9.
pub fn instr32_0F49_reg_jit(ctx: &mut JitContext, r1: u32, r2: u32)
    requires
        ready(old(ctx).builder, 8),
        r1 < 8,
        r2 < 8,
    ensures
        emits(*old(ctx), *final(ctx), cmov32_reg_code(9, r1, r2), 0),
        restores_by(old(ctx).builder, final(ctx).builder, 0),
{
    cmov32_reg(ctx, 9, r1, r2);
    proof {
        assert(ctx.builder.code@ =~= old(ctx).builder.code@ + cmov32_reg_code(9, r1, r2));
        assert(ctx.builder.frame().live =~= old(ctx).builder.frame().live);
        assert(ctx.builder.frame().live64 =~= old(ctx).builder.frame().live64);
        assert(ctx.builder.frame().ctrl =~= old(ctx).builder.frame().ctrl);
    }
}

/// Conditional move from memory under condition 10.
pub fn instr16_0F4A_mem_jit(ctx: &mut JitContext, modrm_byte: u8, r: u32)
    requires
        ready(old(ctx).builder, 8),
        r < 8,
    ensures
        emits(*old(ctx), *final(ctx), cmov16_mem_code(10, modrm_byte, r, old(ctx).builder.next_local), 1),
        restores_by(old(ctx).builder, final(ctx).builder, 0),
{
    cmov16_mem(ctx, 10, modrm_byte, r);
    proof {
        assert(ctx.builder.code@ =~= old(ctx).builder.code@ + cmov16_mem_code(10, modrm_byte, r, old(ctx).builder.next_local));
        assert(ctx.builder.frame().live =~= old(ctx).builder.frame().live);
        assert(ctx.builder.frame().live64 =~= old(ctx).builder.frame().live64);
        assert(ctx.builder.frame().ctrl =~= old(ctx).builder.frame().ctrl);
    }
}

/// Conditional move between registers under condition 10.
pub fn instr16_0F4A_reg_jit(ctx: &mut JitContext, r1: u32, r2: u32)
    requires
        ready(old(ctx).builder, 8),
        r1 < 8,
        r2 < 8,
    ensures
        emits(*old(ctx), *final(ctx), cmov16_reg_code(10, r1, r2), 0),
        restores_by(old(ctx).builder, final(ctx).builder, 0),
{
    cmov16_reg(ctx, 10, r1, r2);
    proof {
        assert(ctx.builder.code@ =~= old(ctx).builder.code@ + cmov16_reg_code(10, r1, r2));
        assert(ctx.builder.frame().live =~= old(ctx).builder.frame().live);
        assert(ctx.builder.frame().live64 =~= old(ctx).builder.frame().live64);
        assert(ctx.builder.frame().ctrl =~= old(ctx).builder.frame().ctrl);
    }
}

/// Conditional move from memory under condition 10.
pub fn instr32_0F4A_mem_jit(ctx: &mut JitContext, modrm_byte: u8, r: u32)
    requires
        ready(old(ctx).builder, 8),
        r < 8,
    ensures
        emits(*old(ctx), *final(ctx), cmov32_mem_code(10, modrm_byte, r, old(ctx).builder.next_local), 1),
        restores_by(old(ctx).builder, final(ctx).builder, 0),
{
    cmov32_mem(ctx, 10, modrm_byte, r);
    proof {
        assert(ctx.builder.code@ =~= old(ctx).builder.code@ + cmov32_mem_code(10, modrm_byte, r, old(ctx).builder.next_local));
        assert(ctx.builder.frame().live =~= old(ctx).builder.frame().live);
        assert(ctx.builder.frame().live64 =~= old(ctx).builder.frame().live64);
        assert(ctx.builder.frame().ctrl =~= old(ctx).builder.frame().ctrl);
    }
}

/// Conditional move between registers under condition 10.
pub fn instr32_0F4A_reg_jit(ctx: &mut JitContext, r1: u32, r2: u32)
    requires
        ready(old(ctx).builder, 8),
        r1 < 8,
        r2 < 8,
    ensures
        emits(*old(ctx), *final(ctx), cmov32_reg_code(10, r1, r2), 0),
        restores_by(old(ctx).builder, final(ctx).builder, 0),
{
    cmov32_reg(ctx, 10, r1, r2);
    proof {
        assert(ctx.builder.code@ =~= old(ctx).builder.code@ + cmov32_reg_code(10, r1, r2));
        assert(ctx.builder.frame().live =~= old(ctx).builder.frame().live);
        assert(ctx.builder.frame().live64 =~= old(ctx).builder.frame().live64);
        assert(ctx.builder.frame().ctrl =~= old(ctx).builder.frame().ctrl);
    }
}

/// Conditional move from memory under condition 11.
pub fn instr16_0F4B_mem_jit(ctx: &mut JitContext, modrm_byte: u8, r: u32)
    requires
        ready(old(ctx).builder, 8),
        r < 8,
    ensures
        emits(*old(ctx), *final(ctx), cmov16_mem_code(11, modrm_byte, r, old(ctx).builder.next_local), 1),
        restores_by(old(ctx).builder, final(ctx).builder, 0),
{
    cmov16_mem(ctx, 11, modrm_byte, r);
    proof {
        assert(ctx.builder.code@ =~= old(ctx).builder.code@ + cmov16_mem_code(11, modrm_byte, r, old(ctx).builder.next_local));
        assert(ctx.builder.frame().live =~= old(ctx).builder.frame().live);
        assert(ctx.builder.frame().live64 =~= old(ctx).builder.frame().live64);
        assert(ctx.builder.frame().ctrl =~= old(ctx).builder.frame().ctrl);
    }
}

/// Conditional move between registers under condition 11.
pub fn instr16_0F4B_reg_jit(ctx: &mut JitContext, r1: u32, r2: u32)
    requires
        ready(old(ctx).builder, 8),
        r1 < 8,
        r2 < 8,
    ensures
        emits(*old(ctx), *final(ctx), cmov16_reg_code(11, r1, r2), 0),
        restores_by(old(ctx).builder, final(ctx).builder, 0),
{
    cmov16_reg(ctx, 11, r1, r2);
    proof {
        assert(ctx.builder.code@ =~= old(ctx).builder.code@ + cmov16_reg_code(11, r1, r2));
        assert(ctx.builder.frame().live =~= old(ctx).builder.frame().live);
        assert(ctx.builder.frame().live64 =~= old(ctx).builder.frame().live64);
        assert(ctx.builder.frame().ctrl =~= old(ctx).builder.frame().ctrl);
    }
}

/// Conditional move from memory under condition 11.
pub fn instr32_0F4B_mem_jit(ctx: &mut JitContext, modrm_byte: u8, r: u32)
    requires
        ready(old(ctx).builder, 8),
        r < 8,
    ensures
        emits(*old(ctx), *final(ctx), cmov32_mem_code(11, modrm_byte, r, old(ctx).builder.next_local), 1),
        restores_by(old(ctx).builder, final(ctx).builder, 0),
{
    cmov32_mem(ctx, 11, modrm_byte, r);
    proof {
        assert(ctx.builder.code@ =~= old(ctx).builder.code@ + cmov32_mem_code(11, modrm_byte, r, old(ctx).builder.next_local));
        assert(ctx.builder.frame().live =~= old(ctx).builder.frame().live);
        assert(ctx.builder.frame().live64 =~= old(ctx).builder.frame().live64);
        assert(ctx.builder.frame().ctrl =~= old(ctx).builder.frame().ctrl);
    }
}

/// Conditional move between registers under condition 11.
pub fn instr32_0F4B_reg_jit(ctx: &mut JitContext, r1: u32, r2: u32)
    requires
        ready(old(ctx).builder, 8),
        r1 < 8,
        r2 < 8,
    ensures
        emits(*old(ctx), *final(ctx), cmov32_reg_code(11, r1, r2), 0),
        restores_by(old(ctx).builder, final(ctx).builder, 0),
{
    cmov32_reg(ctx, 11, r1, r2);
    proof {
        assert(ctx.builder.code@ =~= old(ctx).builder.code@ + cmov32_reg_code(11, r1, r2));
        assert(ctx.builder.frame().live =~= old(ctx).builder.frame().live);
        assert(ctx.builder.frame().live64 =~= old(ctx).builder.frame().live64);
        assert(ctx.builder.frame().ctrl =~= old(ctx).builder.frame().ctrl);
    }
}

/// Conditional move from memory under condition 12.
pub fn instr16_0F4C_mem_jit(ctx: &mut JitContext, modrm_byte: u8, r: u32)
    requires
        ready(old(ctx).builder, 8),
        r < 8,
    ensures
        emits(*old(ctx), *final(ctx), cmov16_mem_code(12, modrm_byte, r, old(ctx).builder.next_local), 1),
        restores_by(old(ctx).builder, final(ctx).builder, 0),
{
    cmov16_mem(ctx, 12, modrm_byte, r);
    proof {
        assert(ctx.builder.code@ =~= old(ctx).builder.code@ + cmov16_mem_code(12, modrm_byte, r, old(ctx).builder.next_local));
        assert(ctx.builder.frame().live =~= old(ctx).builder.frame().live);
        assert(ctx.builder.frame().live64 =~= old(ctx).builder.frame().live64);
        assert(ctx.builder.frame().ctrl =~= old(ctx).builder.frame().ctrl);
    }
}

/// Conditional move between registers under condition 12.
pub fn instr16_0F4C_reg_jit(ctx: &mut JitContext, r1: u32, r2: u32)
    requires
        ready(old(ctx).builder, 8),
        r1 < 8,
        r2 < 8,
    ensures
        emits(*old(ctx), *final(ctx), cmov16_reg_code(12, r1, r2), 0),
        restores_by(old(ctx).builder, final(ctx).builder, 0),
{
    cmov16_reg(ctx, 12, r1, r2);
    proof {
        assert(ctx.builder.code@ =~= old(ctx).builder.code@ + cmov16_reg_code(12, r1, r2));
        assert(ctx.builder.frame().live =~= old(ctx).builder.frame().live);
        assert(ctx.builder.frame().live64 =~= old(ctx).builder.frame().live64);
        assert(ctx.builder.frame().ctrl =~= old(ctx).builder.frame().ctrl);
    }
}

/// Conditional move from memory under condition 12.
pub fn instr32_0F4C_mem_jit(ctx: &mut JitContext, modrm_byte: u8, r: u32)
    requires
        ready(old(ctx).builder, 8),
        r < 8,
    ensures
        emits(*old(ctx), *final(ctx), cmov32_mem_code(12, modrm_byte, r, old(ctx).builder.next_local), 1),
        restores_by(old(ctx).builder, final(ctx).builder, 0),
{
    cmov32_mem(ctx, 12, modrm_byte, r);
    proof {
        assert(ctx.builder.code@ =~= old(ctx).builder.code@ + cmov32_mem_code(12, modrm_byte, r, old(ctx).builder.next_local));
        assert(ctx.builder.frame().live =~= old(ctx).builder.frame().live);
        assert(ctx.builder.frame().live64 =~= old(ctx).builder.frame().live64);
        assert(ctx.builder.frame().ctrl =~= old(ctx).builder.frame().ctrl);
    }
}

/// Conditional move between registers under condition 12.
pub fn instr32_0F4C_reg_jit(ctx: &mut JitContext, r1: u32, r2: u32)
    requires
        ready(old(ctx).builder, 8),
        r1 < 8,
        r2 < 8,
    ensures
        emits(*old(ctx), *final(ctx), cmov32_reg_code(12, r1, r2), 0),
        restores_by(old(ctx).builder, final(ctx).builder, 0),
{
    cmov32_reg(ctx, 12, r1, r2);
    proof {
        assert(ctx.builder.code@ =~= old(ctx).builder.code@ + cmov32_reg_code(12, r1, r2));
        assert(ctx.builder.frame().live =~= old(ctx).builder.frame().live);
        assert(ctx.builder.frame().live64 =~= old(ctx).builder.frame().live64);
        assert(ctx.builder.frame().ctrl =~= old(ctx).builder.frame().ctrl);
    }
}

/// Conditional move from memory under condition 13.
pub fn instr16_0F4D_mem_jit(ctx: &mut JitContext, modrm_byte: u8, r: u32)
    requires
        ready(old(ctx).builder, 8),
        r < 8,
    ensures
        emits(*old(ctx), *final(ctx), cmov16_mem_code(13, modrm_byte, r, old(ctx).builder.next_local), 1),
        restores_by(old(ctx).builder, final(ctx).builder, 0),
{
    cmov16_mem(ctx, 13, modrm_byte, r);
    proof {
        assert(ctx.builder.code@ =~= old(ctx).builder.code@ + cmov16_mem_code(13, modrm_byte, r, old(ctx).builder.next_local));
        assert(ctx.builder.frame().live =~= old(ctx).builder.frame().live);
        assert(ctx.builder.frame().live64 =~= old(ctx).builder.frame().live64);
        assert(ctx.builder.frame().ctrl =~= old(ctx).builder.frame().ctrl);
    }
}

/// Conditional move between registers under condition 13.
pub fn instr16_0F4D_reg_jit(ctx: &mut JitContext, r1: u32, r2: u32)
    requires
        ready(old(ctx).builder, 8),
        r1 < 8,
        r2 < 8,
    ensures
        emits(*old(ctx), *final(ctx), cmov16_reg_code(13, r1, r2), 0),
        restores_by(old(ctx).builder, final(ctx).builder, 0),
{
    cmov16_reg(ctx, 13, r1, r2);
    proof {
        assert(ctx.builder.code@ =~= old(ctx).builder.code@ + cmov16_reg_code(13, r1, r2));
        assert(ctx.builder.frame().live =~= old(ctx).builder.frame().live);
        assert(ctx.builder.frame().live64 =~= old(ctx).builder.frame().live64);
        assert(ctx.builder.frame().ctrl =~= old(ctx).builder.frame().ctrl);
    }
}

/// Conditional move from memory under condition 13.
pub fn instr32_0F4D_mem_jit(ctx: &mut JitContext, modrm_byte: u8, r: u32)
    requires
        ready(old(ctx).builder, 8),
        r < 8,
    ensures
        emits(*old(ctx), *final(ctx), cmov32_mem_code(13, modrm_byte, r, old(ctx).builder.next_local), 1),
        restores_by(old(ctx).builder, final(ctx).builder, 0),
{
    cmov32_mem(ctx, 13, modrm_byte, r);
    proof {
        assert(ctx.builder.code@ =~= old(ctx).builder.code@ + cmov32_mem_code(13, modrm_byte, r, old(ctx).builder.next_local));
        assert(ctx.builder.frame().live =~= old(ctx).builder.frame().live);
        assert(ctx.builder.frame().live64 =~= old(ctx).builder.frame().live64);
        assert(ctx.builder.frame().ctrl =~= old(ctx).builder.frame().ctrl);
    }
}

/// Conditional move between registers under condition 13.
pub fn instr32_0F4D_reg_jit(ctx: &mut JitContext, r1: u32, r2: u32)
    requires
        ready(old(ctx).builder, 8),
        r1 < 8,
        r2 < 8,
    ensures
        emits(*old(ctx), *final(ctx), cmov32_reg_code(13, r1, r2), 0),
        restores_by(old(ctx).builder, final(ctx).builder, 0),
{
    cmov32_reg(ctx, 13, r1, r2);
    proof {
        assert(ctx.builder.code@ =~= old(ctx).builder.code@ + cmov32_reg_code(13, r1, r2));
        assert(ctx.builder.frame().live =~= old(ctx).builder.frame().live);
        assert(ctx.builder.frame().live64 =~= old(ctx).builder.frame().live64);
        assert(ctx.builder.frame().ctrl =~= old(ctx).builder.frame().ctrl);
    }
}

/// Conditional move from memory under condition 14.
pub fn instr16_0F4E_mem_jit(ctx: &mut JitContext, modrm_byte: u8, r: u32)
    requires
        ready(old(ctx).builder, 8),
        r < 8,
    ensures
        emits(*old(ctx), *final(ctx), cmov16_mem_code(14, modrm_byte, r, old(ctx).builder.next_local), 1),
        restores_by(old(ctx).builder, final(ctx).builder, 0),
{
    cmov16_mem(ctx, 14, modrm_byte, r);
    proof {
        assert(ctx.builder.code@ =~= old(ctx).builder.code@ + cmov16_mem_code(14, modrm_byte, r, old(ctx).builder.next_local));
        assert(ctx.builder.frame().live =~= old(ctx).builder.frame().live);
        assert(ctx.builder.frame().live64 =~= old(ctx).builder.frame().live64);
        assert(ctx.builder.frame().ctrl =~= old(ctx).builder.frame().ctrl);
    }
}

/// Conditional move between registers under condition 14.
pub fn instr16_0F4E_reg_jit(ctx: &mut JitContext, r1: u32, r2: u32)
    requires
        ready(old(ctx).builder, 8),
        r1 < 8,
        r2 < 8,
    ensures
        emits(*old(ctx), *final(ctx), cmov16_reg_code(14, r1, r2), 0),
        restores_by(old(ctx).builder, final(ctx).builder, 0),
{
    cmov16_reg(ctx, 14, r1, r2);
    proof {
        assert(ctx.builder.code@ =~= old(ctx).builder.code@ + cmov16_reg_code(14, r1, r2));
        assert(ctx.builder.frame().live =~= old(ctx).builder.frame().live);
        assert(ctx.builder.frame().live64 =~= old(ctx).builder.frame().live64);
        assert(ctx.builder.frame().ctrl =~= old(ctx).builder.frame().ctrl);
    }
}

/// Conditional move from memory under condition 14.
pub fn instr32_0F4E_mem_jit(ctx: &mut JitContext, modrm_byte: u8, r: u32)
    requires
        ready(old(ctx).builder, 8),
        r < 8,
    ensures
        emits(*old(ctx), *final(ctx), cmov32_mem_code(14, modrm_byte, r, old(ctx).builder.next_local), 1),
        restores_by(old(ctx).builder, final(ctx).builder, 0),
{
    cmov32_mem(ctx, 14, modrm_byte, r);
    proof {
        assert(ctx.builder.code@ =~= old(ctx).builder.code@ + cmov32_mem_code(14, modrm_byte, r, old(ctx).builder.next_local));
        assert(ctx.builder.frame().live =~= old(ctx).builder.frame().live);
        assert(ctx.builder.frame().live64 =~= old(ctx).builder.frame().live64);
        assert(ctx.builder.frame().ctrl =~= old(ctx).builder.frame().ctrl);
    }
}

/// Conditional move between registers under condition 14.
pub fn instr32_0F4E_reg_jit(ctx: &mut JitContext, r1: u32, r2: u32)
    requires
        ready(old(ctx).builder, 8),
        r1 < 8,
        r2 < 8,
    ensures
        emits(*old(ctx), *final(ctx), cmov32_reg_code(14, r1, r2), 0),
        restores_by(old(ctx).builder, final(ctx).builder, 0),
{
    cmov32_reg(ctx, 14, r1, r2);
    proof {
        assert(ctx.builder.code@ =~= old(ctx).builder.code@ + cmov32_reg_code(14, r1, r2));
        assert(ctx.builder.frame().live =~= old(ctx).builder.frame().live);
        assert(ctx.builder.frame().live64 =~= old(ctx).builder.frame().live64);
        assert(ctx.builder.frame().ctrl =~= old(ctx).builder.frame().ctrl);
    }
}

/// Conditional move from memory under condition 15.
pub fn instr16_0F4F_mem_jit(ctx: &mut JitContext, modrm_byte: u8, r: u32)
    requires
        ready(old(ctx).builder, 8),
        r < 8,
    ensures
        emits(*old(ctx), *final(ctx), cmov16_mem_code(15, modrm_byte, r, old(ctx).builder.next_local), 1),
        restores_by(old(ctx).builder, final(ctx).builder, 0),
{
    cmov16_mem(ctx, 15, modrm_byte, r);
    proof {
        assert(ctx.builder.code@ =~= old(ctx).builder.code@ + cmov16_mem_code(15, modrm_byte, r, old(ctx).builder.next_local));
        assert(ctx.builder.frame().live =~= old(ctx).builder.frame().live);
        assert(ctx.builder.frame().live64 =~= old(ctx).builder.frame().live64);
        assert(ctx.builder.frame().ctrl =~= old(ctx).builder.frame().ctrl);
    }
}

/// Conditional move between registers under condition 15.
pub fn instr16_0F4F_reg_jit(ctx: &mut JitContext, r1: u32, r2: u32)
    requires
        ready(old(ctx).builder, 8),
        r1 < 8,
        r2 < 8,
    ensures
        emits(*old(ctx), *final(ctx), cmov16_reg_code(15, r1, r2), 0),
        restores_by(old(ctx).builder, final(ctx).builder, 0),
{
    cmov16_reg(ctx, 15, r1, r2);
    proof {
        assert(ctx.builder.code@ =~= old(ctx).builder.code@ + cmov16_reg_code(15, r1, r2));
        assert(ctx.builder.frame().live =~= old(ctx).builder.frame().live);
        assert(ctx.builder.frame().live64 =~= old(ctx).builder.frame().live64);
        assert(ctx.builder.frame().ctrl =~= old(ctx).builder.frame().ctrl);
    }
}

/// Conditional move from memory under condition 15.
pub fn instr32_0F4F_mem_jit(ctx: &mut JitContext, modrm_byte: u8, r: u32)
    requires
        ready(old(ctx).builder, 8),
        r < 8,
    ensures
        emits(*old(ctx), *final(ctx), cmov32_mem_code(15, modrm_byte, r, old(ctx).builder.next_local), 1),
        restores_by(old(ctx).builder, final(ctx).builder, 0),
{
    cmov32_mem(ctx, 15, modrm_byte, r);
    proof {
        assert(ctx.builder.code@ =~= old(ctx).builder.code@ + cmov32_mem_code(15, modrm_byte, r, old(ctx).builder.next_local));
        assert(ctx.builder.frame().live =~= old(ctx).builder.frame().live);
        assert(ctx.builder.frame().live64 =~= old(ctx).builder.frame().live64);
        assert(ctx.builder.frame().ctrl =~= old(ctx).builder.frame().ctrl);
    }
}

/// Conditional move between registers under condition 15.
pub fn instr32_0F4F_reg_jit(ctx: &mut JitContext, r1: u32, r2: u32)
    requires
        ready(old(ctx).builder, 8),
        r1 < 8,
        r2 < 8,
    ensures
        emits(*old(ctx), *final(ctx), cmov32_reg_code(15, r1, r2), 0),
        restores_by(old(ctx).builder, final(ctx).builder, 0),
{
    cmov32_reg(ctx, 15, r1, r2);
    proof {
        assert(ctx.builder.code@ =~= old(ctx).builder.code@ + cmov32_reg_code(15, r1, r2));
        assert(ctx.builder.frame().live =~= old(ctx).builder.frame().live);
        assert(ctx.builder.frame().live64 =~= old(ctx).builder.frame().live64);
        assert(ctx.builder.frame().ctrl =~= old(ctx).builder.frame().ctrl);
    }
}

/// Stores condition 0 into a byte in memory.
pub fn instr_0F90_mem_jit(ctx: &mut JitContext, modrm_byte: u8, _r: u32)
    requires
        ready(old(ctx).builder, 8),
    ensures
        emits(*old(ctx), *final(ctx), setcc_mem_code(0, modrm_byte, old(ctx).builder.next_local), 2),
        restores_by(old(ctx).builder, final(ctx).builder, 0),
{
    setcc_mem(ctx, 0, modrm_byte);
    proof {
        assert(ctx.builder.code@ =~= old(ctx).builder.code@ + setcc_mem_code(0, modrm_byte, old(ctx).builder.next_local));
        assert(ctx.builder.frame().live =~= old(ctx).builder.frame().live);
        assert(ctx.builder.frame().live64 =~= old(ctx).builder.frame().live64);
        assert(ctx.builder.frame().ctrl =~= old(ctx).builder.frame().ctrl);
    }
}

/// Stores condition 0 into the 8-bit register `r1`.
pub fn instr_0F90_reg_jit(ctx: &mut JitContext, r1: u32, _r2: u32)
    requires
        ready(old(ctx).builder, 8),
        r1 < 8,
    ensures
        emits(*old(ctx), *final(ctx), setcc_reg_code(0, r1), 0),
        restores_by(old(ctx).builder, final(ctx).builder, 0),
{
    setcc_reg(ctx, 0, r1);
    proof {
        assert(ctx.builder.code@ =~= old(ctx).builder.code@ + setcc_reg_code(0, r1));
        assert(ctx.builder.frame().live =~= old(ctx).builder.frame().live);
        assert(ctx.builder.frame().live64 =~= old(ctx).builder.frame().live64);
        assert(ctx.builder.frame().ctrl =~= old(ctx).builder.frame().ctrl);
    }
}

/// Stores condition 1 into a byte in memory.
pub fn instr_0F91_mem_jit(ctx: &mut JitContext, modrm_byte: u8, _r: u32)
    requires
        ready(old(ctx).builder, 8),
    ensures
        emits(*old(ctx), *final(ctx), setcc_mem_code(1, modrm_byte, old(ctx).builder.next_local), 2),
        restores_by(old(ctx).builder, final(ctx).builder, 0),
{
    setcc_mem(ctx, 1, modrm_byte);
    proof {
        assert(ctx.builder.code@ =~= old(ctx).builder.code@ + setcc_mem_code(1, modrm_byte, old(ctx).builder.next_local));
        assert(ctx.builder.frame().live =~= old(ctx).builder.frame().live);
        assert(ctx.builder.frame().live64 =~= old(ctx).builder.frame().live64);
        assert(ctx.builder.frame().ctrl =~= old(ctx).builder.frame().ctrl);
    }
}

/// Stores condition 1 into the 8-bit register `r1`.
pub fn instr_0F91_reg_jit(ctx: &mut JitContext, r1: u32, _r2: u32)
    requires
        ready(old(ctx).builder, 8),
        r1 < 8,
    ensures
        emits(*old(ctx), *final(ctx), setcc_reg_code(1, r1), 0),
        restores_by(old(ctx).builder, final(ctx).builder, 0),
{
    setcc_reg(ctx, 1, r1);
    proof {
        assert(ctx.builder.code@ =~= old(ctx).builder.code@ + setcc_reg_code(1, r1));
        assert(ctx.builder.frame().live =~= old(ctx).builder.frame().live);
        assert(ctx.builder.frame().live64 =~= old(ctx).builder.frame().live64);
        assert(ctx.builder.frame().ctrl =~= old(ctx).builder.frame().ctrl);
    }
}

/// Stores condition 2 into a byte in memory.
pub fn instr_0F92_mem_jit(ctx: &mut JitContext, modrm_byte: u8, _r: u32)
    requires
        ready(old(ctx).builder, 8),
    ensures
        emits(*old(ctx), *final(ctx), setcc_mem_code(2, modrm_byte, old(ctx).builder.next_local), 2),
        restores_by(old(ctx).builder, final(ctx).builder, 0),
{
    setcc_mem(ctx, 2, modrm_byte);
    proof {
        assert(ctx.builder.code@ =~= old(ctx).builder.code@ + setcc_mem_code(2, modrm_byte, old(ctx).builder.next_local));
        assert(ctx.builder.frame().live =~= old(ctx).builder.frame().live);
        assert(ctx.builder.frame().live64 =~= old(ctx).builder.frame().live64);
        assert(ctx.builder.frame().ctrl =~= old(ctx).builder.frame().ctrl);
    }
}

/// Stores condition 2 into the 8-bit register `r1`.
pub fn instr_0F92_reg_jit(ctx: &mut JitContext, r1: u32, _r2: u32)
    requires
        ready(old(ctx).builder, 8),
        r1 < 8,
    ensures
        emits(*old(ctx), *final(ctx), setcc_reg_code(2, r1), 0),
        restores_by(old(ctx).builder, final(ctx).builder, 0),
{
    setcc_reg(ctx, 2, r1);
    proof {
        assert(ctx.builder.code@ =~= old(ctx).builder.code@ + setcc_reg_code(2, r1));
        assert(ctx.builder.frame().live =~= old(ctx).builder.frame().live);
        assert(ctx.builder.frame().live64 =~= old(ctx).builder.frame().live64);
        assert(ctx.builder.frame().ctrl =~= old(ctx).builder.frame().ctrl);
    }
}

/// Stores condition 3 into a byte in memory.
pub fn instr_0F93_mem_jit(ctx: &mut JitContext, modrm_byte: u8, _r: u32)
    requires
        ready(old(ctx).builder, 8),
    ensures
        emits(*old(ctx), *final(ctx), setcc_mem_code(3, modrm_byte, old(ctx).builder.next_local), 2),
        restores_by(old(ctx).builder, final(ctx).builder, 0),
{
    setcc_mem(ctx, 3, modrm_byte);
    proof {
        assert(ctx.builder.code@ =~= old(ctx).builder.code@ + setcc_mem_code(3, modrm_byte, old(ctx).builder.next_local));
        assert(ctx.builder.frame().live =~= old(ctx).builder.frame().live);
        assert(ctx.builder.frame().live64 =~= old(ctx).builder.frame().live64);
        assert(ctx.builder.frame().ctrl =~= old(ctx).builder.frame().ctrl);
    }
}

/// Stores condition 3 into the 8-bit register `r1`.
pub fn instr_0F93_reg_jit(ctx: &mut JitContext, r1: u32, _r2: u32)
    requires
        ready(old(ctx).builder, 8),
        r1 < 8,
    ensures
        emits(*old(ctx), *final(ctx), setcc_reg_code(3, r1), 0),
        restores_by(old(ctx).builder, final(ctx).builder, 0),
{
    setcc_reg(ctx, 3, r1);
    proof {
        assert(ctx.builder.code@ =~= old(ctx).builder.code@ + setcc_reg_code(3, r1));
        assert(ctx.builder.frame().live =~= old(ctx).builder.frame().live);
        assert(ctx.builder.frame().live64 =~= old(ctx).builder.frame().live64);
        assert(ctx.builder.frame().ctrl =~= old(ctx).builder.frame().ctrl);
    }
}

/// Stores condition 4 into a byte in memory.
pub fn instr_0F94_mem_jit(ctx: &mut JitContext, modrm_byte: u8, _r: u32)
    requires
        ready(old(ctx).builder, 8),
    ensures
        emits(*old(ctx), *final(ctx), setcc_mem_code(4, modrm_byte, old(ctx).builder.next_local), 2),
        restores_by(old(ctx).builder, final(ctx).builder, 0),
{
    setcc_mem(ctx, 4, modrm_byte);
    proof {
        assert(ctx.builder.code@ =~= old(ctx).builder.code@ + setcc_mem_code(4, modrm_byte, old(ctx).builder.next_local));
        assert(ctx.builder.frame().live =~= old(ctx).builder.frame().live);
        assert(ctx.builder.frame().live64 =~= old(ctx).builder.frame().live64);
        assert(ctx.builder.frame().ctrl =~= old(ctx).builder.frame().ctrl);
    }
}

/// Stores condition 4 into the 8-bit register `r1`.
pub fn instr_0F94_reg_jit(ctx: &mut JitContext, r1: u32, _r2: u32)
    requires
        ready(old(ctx).builder, 8),
        r1 < 8,
    ensures
        emits(*old(ctx), *final(ctx), setcc_reg_code(4, r1), 0),
        restores_by(old(ctx).builder, final(ctx).builder, 0),
{
    setcc_reg(ctx, 4, r1);
    proof {
        assert(ctx.builder.code@ =~= old(ctx).builder.code@ + setcc_reg_code(4, r1));
        assert(ctx.builder.frame().live =~= old(ctx).builder.frame().live);
        assert(ctx.builder.frame().live64 =~= old(ctx).builder.frame().live64);
        assert(ctx.builder.frame().ctrl =~= old(ctx).builder.frame().ctrl);
    }
}

/// Stores condition 5 into a byte in memory.
pub fn instr_0F95_mem_jit(ctx: &mut JitContext, modrm_byte: u8, _r: u32)
    requires
        ready(old(ctx).builder, 8),
    ensures
        emits(*old(ctx), *final(ctx), setcc_mem_code(5, modrm_byte, old(ctx).builder.next_local), 2),
        restores_by(old(ctx).builder, final(ctx).builder, 0),
{
    setcc_mem(ctx, 5, modrm_byte);
    proof {
        assert(ctx.builder.code@ =~= old(ctx).builder.code@ + setcc_mem_code(5, modrm_byte, old(ctx).builder.next_local));
        assert(ctx.builder.frame().live =~= old(ctx).builder.frame().live);
        assert(ctx.builder.frame().live64 =~= old(ctx).builder.frame().live64);
        assert(ctx.builder.frame().ctrl =~= old(ctx).builder.frame().ctrl);
    }
}

/// Stores condition 5 into the 8-bit register `r1`.
pub fn instr_0F95_reg_jit(ctx: &mut JitContext, r1: u32, _r2: u32)
    requires
        ready(old(ctx).builder, 8),
        r1 < 8,
    ensures
        emits(*old(ctx), *final(ctx), setcc_reg_code(5, r1), 0),
        restores_by(old(ctx).builder, final(ctx).builder, 0),
{
    setcc_reg(ctx, 5, r1);
    proof {
        assert(ctx.builder.code@ =~= old(ctx).builder.code@ + setcc_reg_code(5, r1));
        assert(ctx.builder.frame().live =~= old(ctx).builder.frame().live);
        assert(ctx.builder.frame().live64 =~= old(ctx).builder.frame().live64);
        assert(ctx.builder.frame().ctrl =~= old(ctx).builder.frame().ctrl);
    }
}

/// Stores condition 6 into a byte in memory.
pub fn instr_0F96_mem_jit(ctx: &mut JitContext, modrm_byte: u8, _r: u32)
    requires
        ready(old(ctx).builder, 8),
    ensures
        emits(*old(ctx), *final(ctx), setcc_mem_code(6, modrm_byte, old(ctx).builder.next_local), 2),
        restores_by(old(ctx).builder, final(ctx).builder, 0),
{
    setcc_mem(ctx, 6, modrm_byte);
    proof {
        assert(ctx.builder.code@ =~= old(ctx).builder.code@ + setcc_mem_code(6, modrm_byte, old(ctx).builder.next_local));
        assert(ctx.builder.frame().live =~= old(ctx).builder.frame().live);
        assert(ctx.builder.frame().live64 =~= old(ctx).builder.frame().live64);
        assert(ctx.builder.frame().ctrl =~= old(ctx).builder.frame().ctrl);
    }
}

/// Stores condition 6 into the 8-bit register `r1`.
pub fn instr_0F96_reg_jit(ctx: &mut JitContext, r1: u32, _r2: u32)
    requires
        ready(old(ctx).builder, 8),
        r1 < 8,
    ensures
        emits(*old(ctx), *final(ctx), setcc_reg_code(6, r1), 0),
        restores_by(old(ctx).builder, final(ctx).builder, 0),
{
    setcc_reg(ctx, 6, r1);
    proof {
        assert(ctx.builder.code@ =~= old(ctx).builder.code@ + setcc_reg_code(6, r1));
        assert(ctx.builder.frame().live =~= old(ctx).builder.frame().live);
        assert(ctx.builder.frame().live64 =~= old(ctx).builder.frame().live64);
        assert(ctx.builder.frame().ctrl =~= old(ctx).builder.frame().ctrl);
    }
}

/// Stores condition 7 into a byte in memory.
pub fn instr_0F97_mem_jit(ctx: &mut JitContext, modrm_byte: u8, _r: u32)
    requires
        ready(old(ctx).builder, 8),
    ensures
        emits(*old(ctx), *final(ctx), setcc_mem_code(7, modrm_byte, old(ctx).builder.next_local), 2),
        restores_by(old(ctx).builder, final(ctx).builder, 0),
{
    setcc_mem(ctx, 7, modrm_byte);
    proof {
        assert(ctx.builder.code@ =~= old(ctx).builder.code@ + setcc_mem_code(7, modrm_byte, old(ctx).builder.next_local));
        assert(ctx.builder.frame().live =~= old(ctx).builder.frame().live);
        assert(ctx.builder.frame().live64 =~= old(ctx).builder.frame().live64);
        assert(ctx.builder.frame().ctrl =~= old(ctx).builder.frame().ctrl);
    }
}

/// Stores condition 7 into the 8-bit register `r1`.
pub fn instr_0F97_reg_jit(ctx: &mut JitContext, r1: u32, _r2: u32)
    requires
        ready(old(ctx).builder, 8),
        r1 < 8,
    ensures
        emits(*old(ctx), *final(ctx), setcc_reg_code(7, r1), 0),
        restores_by(old(ctx).builder, final(ctx).builder, 0),
{
    setcc_reg(ctx, 7, r1);
    proof {
        assert(ctx.builder.code@ =~= old(ctx).builder.code@ + setcc_reg_code(7, r1));
        assert(ctx.builder.frame().live =~= old(ctx).builder.frame().live);
        assert(ctx.builder.frame().live64 =~= old(ctx).builder.frame().live64);
        assert(ctx.builder.frame().ctrl =~= old(ctx).builder.frame().ctrl);
    }
}

/// Stores condition 8 into a byte in memory.
pub fn instr_0F98_mem_jit(ctx: &mut JitContext, modrm_byte: u8, _r: u32)
    requires
        ready(old(ctx).builder, 8),
    ensures
        emits(*old(ctx), *final(ctx), setcc_mem_code(8, modrm_byte, old(ctx).builder.next_local), 2),
        restores_by(old(ctx).builder, final(ctx).builder, 0),
{
    setcc_mem(ctx, 8, modrm_byte);
    proof {
        assert(ctx.builder.code@ =~= old(ctx).builder.code@ + setcc_mem_code(8, modrm_byte, old(ctx).builder.next_local));
        assert(ctx.builder.frame().live =~= old(ctx).builder.frame().live);
        assert(ctx.builder.frame().live64 =~= old(ctx).builder.frame().live64);
        assert(ctx.builder.frame().ctrl =~= old(ctx).builder.frame().ctrl);
    }
}

/// Stores condition 8 into the 8-bit register `r1`.
pub fn instr_0F98_reg_jit(ctx: &mut JitContext, r1: u32, _r2: u32)
    requires
        ready(old(ctx).builder, 8),
        r1 < 8,
    ensures
        emits(*old(ctx), *final(ctx), setcc_reg_code(8, r1), 0),
        restores_by(old(ctx).builder, final(ctx).builder, 0),
{
    setcc_reg(ctx, 8, r1);
    proof {
        assert(ctx.builder.code@ =~= old(ctx).builder.code@ + setcc_reg_code(8, r1));
        assert(ctx.builder.frame().live =~= old(ctx).builder.frame().live);
        assert(ctx.builder.frame().live64 =~= old(ctx).builder.frame().live64);
        assert(ctx.builder.frame().ctrl =~= old(ctx).builder.frame().ctrl);
    }
}

/// Stores condition 9 into a byte in memory.
pub fn instr_0F99_mem_jit(ctx: &mut JitContext, modrm_byte: u8, _r: u32)
    requires
        ready(old(ctx).builder, 8),
    ensures
        emits(*old(ctx), *final(ctx), setcc_mem_code(9, modrm_byte, old(ctx).builder.next_local), 2),
        restores_by(old(ctx).builder, final(ctx).builder, 0),
{
    setcc_mem(ctx, 9, modrm_byte);
    proof {
        assert(ctx.builder.code@ =~= old(ctx).builder.code@ + setcc_mem_code(9, modrm_byte, old(ctx).builder.next_local));
        assert(ctx.builder.frame().live =~= old(ctx).builder.frame().live);
        assert(ctx.builder.frame().live64 =~= old(ctx).builder.frame().live64);
        assert(ctx.builder.frame().ctrl =~= old(ctx).builder.frame().ctrl);
    }
}

/// Stores condition 9 into the 8-bit register `r1`.
pub fn instr_0F99_reg_jit(ctx: &mut JitContext, r1: u32, _r2: u32)
    requires
        ready(old(ctx).builder, 8),
        r1 < 8,
    ensures
        emits(*old(ctx), *final(ctx), setcc_reg_code(9, r1), 0),
        restores_by(old(ctx).builder, final(ctx).builder, 0),
{
    setcc_reg(ctx, 9, r1);
    proof {
        assert(ctx.builder.code@ =~= old(ctx).builder.code@ + setcc_reg_code(9, r1));
        assert(ctx.builder.frame().live =~= old(ctx).builder.frame().live);
        assert(ctx.builder.frame().live64 =~= old(ctx).builder.frame().live64);
        assert(ctx.builder.frame().ctrl =~= old(ctx).builder.frame().ctrl);
    }
}

/// Stores condition 10 into a byte in memory.
pub fn instr_0F9A_mem_jit(ctx: &mut JitContext, modrm_byte: u8, _r: u32)
    requires
        ready(old(ctx).builder, 8),
    ensures
        emits(*old(ctx), *final(ctx), setcc_mem_code(10, modrm_byte, old(ctx).builder.next_local), 2),
        restores_by(old(ctx).builder, final(ctx).builder, 0),
{
    setcc_mem(ctx, 10, modrm_byte);
    proof {
        assert(ctx.builder.code@ =~= old(ctx).builder.code@ + setcc_mem_code(10, modrm_byte, old(ctx).builder.next_local));
        assert(ctx.builder.frame().live =~= old(ctx).builder.frame().live);
        assert(ctx.builder.frame().live64 =~= old(ctx).builder.frame().live64);
        assert(ctx.builder.frame().ctrl =~= old(ctx).builder.frame().ctrl);
    }
}

/// Stores condition 10 into the 8-bit register `r1`.
pub fn instr_0F9A_reg_jit(ctx: &mut JitContext, r1: u32, _r2: u32)
    requires
        ready(old(ctx).builder, 8),
        r1 < 8,
    ensures
        emits(*old(ctx), *final(ctx), setcc_reg_code(10, r1), 0),
        restores_by(old(ctx).builder, final(ctx).builder, 0),
{
    setcc_reg(ctx, 10, r1);
    proof {
        assert(ctx.builder.code@ =~= old(ctx).builder.code@ + setcc_reg_code(10, r1));
        assert(ctx.builder.frame().live =~= old(ctx).builder.frame().live);
        assert(ctx.builder.frame().live64 =~= old(ctx).builder.frame().live64);
        assert(ctx.builder.frame().ctrl =~= old(ctx).builder.frame().ctrl);
    }
}

/// Stores condition 11 into a byte in memory.
pub fn instr_0F9B_mem_jit(ctx: &mut JitContext, modrm_byte: u8, _r: u32)
    requires
        ready(old(ctx).builder, 8),
    ensures
        emits(*old(ctx), *final(ctx), setcc_mem_code(11, modrm_byte, old(ctx).builder.next_local), 2),
        restores_by(old(ctx).builder, final(ctx).builder, 0),
{
    setcc_mem(ctx, 11, modrm_byte);
    proof {
        assert(ctx.builder.code@ =~= old(ctx).builder.code@ + setcc_mem_code(11, modrm_byte, old(ctx).builder.next_local));
        assert(ctx.builder.frame().live =~= old(ctx).builder.frame().live);
        assert(ctx.builder.frame().live64 =~= old(ctx).builder.frame().live64);
        assert(ctx.builder.frame().ctrl =~= old(ctx).builder.frame().ctrl);
    }
}

/// Stores condition 11 into the 8-bit register `r1`.
pub fn instr_0F9B_reg_jit(ctx: &mut JitContext, r1: u32, _r2: u32)
    requires
        ready(old(ctx).builder, 8),
        r1 < 8,
    ensures
        emits(*old(ctx), *final(ctx), setcc_reg_code(11, r1), 0),
        restores_by(old(ctx).builder, final(ctx).builder, 0),
{
    setcc_reg(ctx, 11, r1);
    proof {
        assert(ctx.builder.code@ =~= old(ctx).builder.code@ + setcc_reg_code(11, r1));
        assert(ctx.builder.frame().live =~= old(ctx).builder.frame().live);
        assert(ctx.builder.frame().live64 =~= old(ctx).builder.frame().live64);
        assert(ctx.builder.frame().ctrl =~= old(ctx).builder.frame().ctrl);
    }
}

/// Stores condition 12 into a byte in memory.
pub fn instr_0F9C_mem_jit(ctx: &mut JitContext, modrm_byte: u8, _r: u32)
    requires
        ready(old(ctx).builder, 8),
    ensures
        emits(*old(ctx), *final(ctx), setcc_mem_code(12, modrm_byte, old(ctx).builder.next_local), 2),
        restores_by(old(ctx).builder, final(ctx).builder, 0),
{
    setcc_mem(ctx, 12, modrm_byte);
    proof {
        assert(ctx.builder.code@ =~= old(ctx).builder.code@ + setcc_mem_code(12, modrm_byte, old(ctx).builder.next_local));
        assert(ctx.builder.frame().live =~= old(ctx).builder.frame().live);
        assert(ctx.builder.frame().live64 =~= old(ctx).builder.frame().live64);
        assert(ctx.builder.frame().ctrl =~= old(ctx).builder.frame().ctrl);
    }
}

/// Stores condition 12 into the 8-bit register `r1`.
pub fn instr_0F9C_reg_jit(ctx: &mut JitContext, r1: u32, _r2: u32)
    requires
        ready(old(ctx).builder, 8),
        r1 < 8,
    ensures
        emits(*old(ctx), *final(ctx), setcc_reg_code(12, r1), 0),
        restores_by(old(ctx).builder, final(ctx).builder, 0),
{
    setcc_reg(ctx, 12, r1);
    proof {
        assert(ctx.builder.code@ =~= old(ctx).builder.code@ + setcc_reg_code(12, r1));
        assert(ctx.builder.frame().live =~= old(ctx).builder.frame().live);
        assert(ctx.builder.frame().live64 =~= old(ctx).builder.frame().live64);
        assert(ctx.builder.frame().ctrl =~= old(ctx).builder.frame().ctrl);
    }
}

/// Stores condition 13 into a byte in memory.
pub fn instr_0F9D_mem_jit(ctx: &mut JitContext, modrm_byte: u8, _r: u32)
    requires
        ready(old(ctx).builder, 8),
    ensures
        emits(*old(ctx), *final(ctx), setcc_mem_code(13, modrm_byte, old(ctx).builder.next_local), 2),
        restores_by(old(ctx).builder, final(ctx).builder, 0),
{
    setcc_mem(ctx, 13, modrm_byte);
    proof {
        assert(ctx.builder.code@ =~= old(ctx).builder.code@ + setcc_mem_code(13, modrm_byte, old(ctx).builder.next_local));
        assert(ctx.builder.frame().live =~= old(ctx).builder.frame().live);
        assert(ctx.builder.frame().live64 =~= old(ctx).builder.frame().live64);
        assert(ctx.builder.frame().ctrl =~= old(ctx).builder.frame().ctrl);
    }
}

/// Stores condition 13 into the 8-bit register `r1`.
pub fn instr_0F9D_reg_jit(ctx: &mut JitContext, r1: u32, _r2: u32)
    requires
        ready(old(ctx).builder, 8),
        r1 < 8,
    ensures
        emits(*old(ctx), *final(ctx), setcc_reg_code(13, r1), 0),
        restores_by(old(ctx).builder, final(ctx).builder, 0),
{
    setcc_reg(ctx, 13, r1);
    proof {
        assert(ctx.builder.code@ =~= old(ctx).builder.code@ + setcc_reg_code(13, r1));
        assert(ctx.builder.frame().live =~= old(ctx).builder.frame().live);
        assert(ctx.builder.frame().live64 =~= old(ctx).builder.frame().live64);
        assert(ctx.builder.frame().ctrl =~= old(ctx).builder.frame().ctrl);
    }
}

/// Stores condition 14 into a byte in memory.
pub fn instr_0F9E_mem_jit(ctx: &mut JitContext, modrm_byte: u8, _r: u32)
    requires
        ready(old(ctx).builder, 8),
    ensures
        emits(*old(ctx), *final(ctx), setcc_mem_code(14, modrm_byte, old(ctx).builder.next_local), 2),
        restores_by(old(ctx).builder, final(ctx).builder, 0),
{
    setcc_mem(ctx, 14, modrm_byte);
    proof {
        assert(ctx.builder.code@ =~= old(ctx).builder.code@ + setcc_mem_code(14, modrm_byte, old(ctx).builder.next_local));
        assert(ctx.builder.frame().live =~= old(ctx).builder.frame().live);
        assert(ctx.builder.frame().live64 =~= old(ctx).builder.frame().live64);
        assert(ctx.builder.frame().ctrl =~= old(ctx).builder.frame().ctrl);
    }
}

/// Stores condition 14 into the 8-bit register `r1`.
pub fn instr_0F9E_reg_jit(ctx: &mut JitContext, r1: u32, _r2: u32)
    requires
        ready(old(ctx).builder, 8),
        r1 < 8,
    ensures
        emits(*old(ctx), *final(ctx), setcc_reg_code(14, r1), 0),
        restores_by(old(ctx).builder, final(ctx).builder, 0),
{
    setcc_reg(ctx, 14, r1);
    proof {
        assert(ctx.builder.code@ =~= old(ctx).builder.code@ + setcc_reg_code(14, r1));
        assert(ctx.builder.frame().live =~= old(ctx).builder.frame().live);
        assert(ctx.builder.frame().live64 =~= old(ctx).builder.frame().live64);
        assert(ctx.builder.frame().ctrl =~= old(ctx).builder.frame().ctrl);
    }
}

/// Stores condition 15 into a byte in memory.
pub fn instr_0F9F_mem_jit(ctx: &mut JitContext, modrm_byte: u8, _r: u32)
    requires
        ready(old(ctx).builder, 8),
    ensures
        emits(*old(ctx), *final(ctx), setcc_mem_code(15, modrm_byte, old(ctx).builder.next_local), 2),
        restores_by(old(ctx).builder, final(ctx).builder, 0),
{
    setcc_mem(ctx, 15, modrm_byte);
    proof {
        assert(ctx.builder.code@ =~= old(ctx).builder.code@ + setcc_mem_code(15, modrm_byte, old(ctx).builder.next_local));
        assert(ctx.builder.frame().live =~= old(ctx).builder.frame().live);
        assert(ctx.builder.frame().live64 =~= old(ctx).builder.frame().live64);
        assert(ctx.builder.frame().ctrl =~= old(ctx).builder.frame().ctrl);
    }
}

/// Stores condition 15 into the 8-bit register `r1`.
pub fn instr_0F9F_reg_jit(ctx: &mut JitContext, r1: u32, _r2: u32)
    requires
        ready(old(ctx).builder, 8),
        r1 < 8,
    ensures
        emits(*old(ctx), *final(ctx), setcc_reg_code(15, r1), 0),
        restores_by(old(ctx).builder, final(ctx).builder, 0),
{
    setcc_reg(ctx, 15, r1);
    proof {
        assert(ctx.builder.code@ =~= old(ctx).builder.code@ + setcc_reg_code(15, r1));
        assert(ctx.builder.frame().live =~= old(ctx).builder.frame().live);
        assert(ctx.builder.frame().live64 =~= old(ctx).builder.frame().live64);
        assert(ctx.builder.frame().ctrl =~= old(ctx).builder.frame().ctrl);
    }
}

/// Generates nothing: the basic block code generator emits the branch.
pub fn instr16_0F80_jit(ctx: &mut JitContext, _imm: u32)
    requires
        ready(old(ctx).builder, 8),
    ensures
        emits(*old(ctx), *final(ctx), Seq::<Op>::empty(), 0),
        restores_by(old(ctx).builder, final(ctx).builder, 0),
{
    proof {
        assert(ctx.builder.code@ =~= old(ctx).builder.code@ + Seq::<Op>::empty());
        assert(ctx.builder.frame().live =~= old(ctx).builder.frame().live);
        assert(ctx.builder.frame().live64 =~= old(ctx).builder.frame().live64);
        assert(ctx.builder.frame().ctrl =~= old(ctx).builder.frame().ctrl);
    }
}

/// Generates nothing: the basic block code generator emits the branch.
pub fn instr16_0F81_jit(ctx: &mut JitContext, _imm: u32)
    requires
        ready(old(ctx).builder, 8),
    ensures
        emits(*old(ctx), *final(ctx), Seq::<Op>::empty(), 0),
        restores_by(old(ctx).builder, final(ctx).builder, 0),
{
    proof {
        assert(ctx.builder.code@ =~= old(ctx).builder.code@ + Seq::<Op>::empty());
        assert(ctx.builder.frame().live =~= old(ctx).builder.frame().live);
        assert(ctx.builder.frame().live64 =~= old(ctx).builder.frame().live64);
        assert(ctx.builder.frame().ctrl =~= old(ctx).builder.frame().ctrl);
    }
}

/// Generates nothing: the basic block code generator emits the branch.
pub fn instr16_0F82_jit(ctx: &mut JitContext, _imm: u32)
    requires
        ready(old(ctx).builder, 8),
    ensures
        emits(*old(ctx), *final(ctx), Seq::<Op>::empty(), 0),
        restores_by(old(ctx).builder, final(ctx).builder, 0),
{
    proof {
        assert(ctx.builder.code@ =~= old(ctx).builder.code@ + Seq::<Op>::empty());
        assert(ctx.builder.frame().live =~= old(ctx).builder.frame().live);
        assert(ctx.builder.frame().live64 =~= old(ctx).builder.frame().live64);
        assert(ctx.builder.frame().ctrl =~= old(ctx).builder.frame().ctrl);
    }
}

/// Generates nothing: the basic block code generator emits the branch.
pub fn instr16_0F83_jit(ctx: &mut JitContext, _imm: u32)
    requires
        ready(old(ctx).builder, 8),
    ensures
        emits(*old(ctx), *final(ctx), Seq::<Op>::empty(), 0),
        restores_by(old(ctx).builder, final(ctx).builder, 0),
{
    proof {
        assert(ctx.builder.code@ =~= old(ctx).builder.code@ + Seq::<Op>::empty());
        assert(ctx.builder.frame().live =~= old(ctx).builder.frame().live);
        assert(ctx.builder.frame().live64 =~= old(ctx).builder.frame().live64);
        assert(ctx.builder.frame().ctrl =~= old(ctx).builder.frame().ctrl);
    }
}

/// Generates nothing: the basic block code generator emits the branch.
pub fn instr16_0F84_jit(ctx: &mut JitContext, _imm: u32)
    requires
        ready(old(ctx).builder, 8),
    ensures
        emits(*old(ctx), *final(ctx), Seq::<Op>::empty(), 0),
        restores_by(old(ctx).builder, final(ctx).builder, 0),
{
    proof {
        assert(ctx.builder.code@ =~= old(ctx).builder.code@ + Seq::<Op>::empty());
        assert(ctx.builder.frame().live =~= old(ctx).builder.frame().live);
        assert(ctx.builder.frame().live64 =~= old(ctx).builder.frame().live64);
        assert(ctx.builder.frame().ctrl =~= old(ctx).builder.frame().ctrl);
    }
}

/// Generates nothing: the basic block code generator emits the branch.
pub fn instr16_0F85_jit(ctx: &mut JitContext, _imm: u32)
    requires
        ready(old(ctx).builder, 8),
    ensures
        emits(*old(ctx), *final(ctx), Seq::<Op>::empty(), 0),
        restores_by(old(ctx).builder, final(ctx).builder, 0),
{
    proof {
        assert(ctx.builder.code@ =~= old(ctx).builder.code@ + Seq::<Op>::empty());
        assert(ctx.builder.frame().live =~= old(ctx).builder.frame().live);
        assert(ctx.builder.frame().live64 =~= old(ctx).builder.frame().live64);
        assert(ctx.builder.frame().ctrl =~= old(ctx).builder.frame().ctrl);
    }
}

/// Generates nothing: the basic block code generator emits the branch.
pub fn instr16_0F86_jit(ctx: &mut JitContext, _imm: u32)
    requires
        ready(old(ctx).builder, 8),
    ensures
        emits(*old(ctx), *final(ctx), Seq::<Op>::empty(), 0),
        restores_by(old(ctx).builder, final(ctx).builder, 0),
{
    proof {
        assert(ctx.builder.code@ =~= old(ctx).builder.code@ + Seq::<Op>::empty());
        assert(ctx.builder.frame().live =~= old(ctx).builder.frame().live);
        assert(ctx.builder.frame().live64 =~= old(ctx).builder.frame().live64);
        assert(ctx.builder.frame().ctrl =~= old(ctx).builder.frame().ctrl);
    }
}

/// Generates nothing: the basic block code generator emits the branch.
pub fn instr16_0F87_jit(ctx: &mut JitContext, _imm: u32)
    requires
        ready(old(ctx).builder, 8),
    ensures
        emits(*old(ctx), *final(ctx), Seq::<Op>::empty(), 0),
        restores_by(old(ctx).builder, final(ctx).builder, 0),
{
    proof {
        assert(ctx.builder.code@ =~= old(ctx).builder.code@ + Seq::<Op>::empty());
        assert(ctx.builder.frame().live =~= old(ctx).builder.frame().live);
        assert(ctx.builder.frame().live64 =~= old(ctx).builder.frame().live64);
        assert(ctx.builder.frame().ctrl =~= old(ctx).builder.frame().ctrl);
    }
}

/// Generates nothing: the basic block code generator emits the branch.
pub fn instr16_0F88_jit(ctx: &mut JitContext, _imm: u32)
    requires
        ready(old(ctx).builder, 8),
    ensures
        emits(*old(ctx), *final(ctx), Seq::<Op>::empty(), 0),
        restores_by(old(ctx).builder, final(ctx).builder, 0),
{
    proof {
        assert(ctx.builder.code@ =~= old(ctx).builder.code@ + Seq::<Op>::empty());
        assert(ctx.builder.frame().live =~= old(ctx).builder.frame().live);
        assert(ctx.builder.frame().live64 =~= old(ctx).builder.frame().live64);
        assert(ctx.builder.frame().ctrl =~= old(ctx).builder.frame().ctrl);
    }
}

/// Generates nothing: the basic block code generator emits the branch.
pub fn instr16_0F89_jit(ctx: &mut JitContext, _imm: u32)
    requires
        ready(old(ctx).builder, 8),
    ensures
        emits(*old(ctx), *final(ctx), Seq::<Op>::empty(), 0),
        restores_by(old(ctx).builder, final(ctx).builder, 0),
{
    proof {
        assert(ctx.builder.code@ =~= old(ctx).builder.code@ + Seq::<Op>::empty());
        assert(ctx.builder.frame().live =~= old(ctx).builder.frame().live);
        assert(ctx.builder.frame().live64 =~= old(ctx).builder.frame().live64);
        assert(ctx.builder.frame().ctrl =~= old(ctx).builder.frame().ctrl);
    }
}

/// Generates nothing: the basic block code generator emits the branch.
pub fn instr16_0F8A_jit(ctx: &mut JitContext, _imm: u32)
    requires
        ready(old(ctx).builder, 8),
    ensures
        emits(*old(ctx), *final(ctx), Seq::<Op>::empty(), 0),
        restores_by(old(ctx).builder, final(ctx).builder, 0),
{
    proof {
        assert(ctx.builder.code@ =~= old(ctx).builder.code@ + Seq::<Op>::empty());
        assert(ctx.builder.frame().live =~= old(ctx).builder.frame().live);
        assert(ctx.builder.frame().live64 =~= old(ctx).builder.frame().live64);
        assert(ctx.builder.frame().ctrl =~= old(ctx).builder.frame().ctrl);
    }
}

/// Generates nothing: the basic block code generator emits the branch.
pub fn instr16_0F8B_jit(ctx: &mut JitContext, _imm: u32)
    requires
        ready(old(ctx).builder, 8),
    ensures
        emits(*old(ctx), *final(ctx), Seq::<Op>::empty(), 0),
        restores_by(old(ctx).builder, final(ctx).builder, 0),
{
    proof {
        assert(ctx.builder.code@ =~= old(ctx).builder.code@ + Seq::<Op>::empty());
        assert(ctx.builder.frame().live =~= old(ctx).builder.frame().live);
        assert(ctx.builder.frame().live64 =~= old(ctx).builder.frame().live64);
        assert(ctx.builder.frame().ctrl =~= old(ctx).builder.frame().ctrl);
    }
}

/// Generates nothing: the basic block code generator emits the branch.
pub fn instr16_0F8C_jit(ctx: &mut JitContext, _imm: u32)
    requires
        ready(old(ctx).builder, 8),
    ensures
        emits(*old(ctx), *final(ctx), Seq::<Op>::empty(), 0),
        restores_by(old(ctx).builder, final(ctx).builder, 0),
{
    proof {
        assert(ctx.builder.code@ =~= old(ctx).builder.code@ + Seq::<Op>::empty());
        assert(ctx.builder.frame().live =~= old(ctx).builder.frame().live);
        assert(ctx.builder.frame().live64 =~= old(ctx).builder.frame().live64);
        assert(ctx.builder.frame().ctrl =~= old(ctx).builder.frame().ctrl);
    }
}

/// Generates nothing: the basic block code generator emits the branch.
pub fn instr16_0F8D_jit(ctx: &mut JitContext, _imm: u32)
    requires
        ready(old(ctx).builder, 8),
    ensures
        emits(*old(ctx), *final(ctx), Seq::<Op>::empty(), 0),
        restores_by(old(ctx).builder, final(ctx).builder, 0),
{
    proof {
        assert(ctx.builder.code@ =~= old(ctx).builder.code@ + Seq::<Op>::empty());
        assert(ctx.builder.frame().live =~= old(ctx).builder.frame().live);
        assert(ctx.builder.frame().live64 =~= old(ctx).builder.frame().live64);
        assert(ctx.builder.frame().ctrl =~= old(ctx).builder.frame().ctrl);
    }
}

/// Generates nothing: the basic block code generator emits the branch.
pub fn instr16_0F8E_jit(ctx: &mut JitContext, _imm: u32)
    requires
        ready(old(ctx).builder, 8),
    ensures
        emits(*old(ctx), *final(ctx), Seq::<Op>::empty(), 0),
        restores_by(old(ctx).builder, final(ctx).builder, 0),
{
    proof {
        assert(ctx.builder.code@ =~= old(ctx).builder.code@ + Seq::<Op>::empty());
        assert(ctx.builder.frame().live =~= old(ctx).builder.frame().live);
        assert(ctx.builder.frame().live64 =~= old(ctx).builder.frame().live64);
        assert(ctx.builder.frame().ctrl =~= old(ctx).builder.frame().ctrl);
    }
}

/// Generates nothing: the basic block code generator emits the branch.
pub fn instr16_0F8F_jit(ctx: &mut JitContext, _imm: u32)
    requires
        ready(old(ctx).builder, 8),
    ensures
        emits(*old(ctx), *final(ctx), Seq::<Op>::empty(), 0),
        restores_by(old(ctx).builder, final(ctx).builder, 0),
{
    proof {
        assert(ctx.builder.code@ =~= old(ctx).builder.code@ + Seq::<Op>::empty());
        assert(ctx.builder.frame().live =~= old(ctx).builder.frame().live);
        assert(ctx.builder.frame().live64 =~= old(ctx).builder.frame().live64);
        assert(ctx.builder.frame().ctrl =~= old(ctx).builder.frame().ctrl);
    }
}

/// Generates nothing: the basic block code generator emits the branch.
pub fn instr32_0F80_jit(ctx: &mut JitContext, _imm: u32)
    requires
        ready(old(ctx).builder, 8),
    ensures
        emits(*old(ctx), *final(ctx), Seq::<Op>::empty(), 0),
        restores_by(old(ctx).builder, final(ctx).builder, 0),
{
    proof {
        assert(ctx.builder.code@ =~= old(ctx).builder.code@ + Seq::<Op>::empty());
        assert(ctx.builder.frame().live =~= old(ctx).builder.frame().live);
        assert(ctx.builder.frame().live64 =~= old(ctx).builder.frame().live64);
        assert(ctx.builder.frame().ctrl =~= old(ctx).builder.frame().ctrl);
    }
}

/// Generates nothing: the basic block code generator emits the branch.
pub fn instr32_0F81_jit(ctx: &mut JitContext, _imm: u32)
    requires
        ready(old(ctx).builder, 8),
    ensures
        emits(*old(ctx), *final(ctx), Seq::<Op>::empty(), 0),
        restores_by(old(ctx).builder, final(ctx).builder, 0),
{
    proof {
        assert(ctx.builder.code@ =~= old(ctx).builder.code@ + Seq::<Op>::empty());
        assert(ctx.builder.frame().live =~= old(ctx).builder.frame().live);
        assert(ctx.builder.frame().live64 =~= old(ctx).builder.frame().live64);
        assert(ctx.builder.frame().ctrl =~= old(ctx).builder.frame().ctrl);
    }
}

/// Generates nothing: the basic block code generator emits the branch.
pub fn instr32_0F82_jit(ctx: &mut JitContext, _imm: u32)
    requires
        ready(old(ctx).builder, 8),
    ensures
        emits(*old(ctx), *final(ctx), Seq::<Op>::empty(), 0),
        restores_by(old(ctx).builder, final(ctx).builder, 0),
{
    proof {
        assert(ctx.builder.code@ =~= old(ctx).builder.code@ + Seq::<Op>::empty());
        assert(ctx.builder.frame().live =~= old(ctx).builder.frame().live);
        assert(ctx.builder.frame().live64 =~= old(ctx).builder.frame().live64);
        assert(ctx.builder.frame().ctrl =~= old(ctx).builder.frame().ctrl);
    }
}

/// Generates nothing: the basic block code generator emits the branch.
pub fn instr32_0F83_jit(ctx: &mut JitContext, _imm: u32)
    requires
        ready(old(ctx).builder, 8),
    ensures
        emits(*old(ctx), *final(ctx), Seq::<Op>::empty(), 0),
        restores_by(old(ctx).builder, final(ctx).builder, 0),
{
    proof {
        assert(ctx.builder.code@ =~= old(ctx).builder.code@ + Seq::<Op>::empty());
        assert(ctx.builder.frame().live =~= old(ctx).builder.frame().live);
        assert(ctx.builder.frame().live64 =~= old(ctx).builder.frame().live64);
        assert(ctx.builder.frame().ctrl =~= old(ctx).builder.frame().ctrl);
    }
}

/// Generates nothing: the basic block code generator emits the branch.
pub fn instr32_0F84_jit(ctx: &mut JitContext, _imm: u32)
    requires
        ready(old(ctx).builder, 8),
    ensures
        emits(*old(ctx), *final(ctx), Seq::<Op>::empty(), 0),
        restores_by(old(ctx).builder, final(ctx).builder, 0),
{
    proof {
        assert(ctx.builder.code@ =~= old(ctx).builder.code@ + Seq::<Op>::empty());
        assert(ctx.builder.frame().live =~= old(ctx).builder.frame().live);
        assert(ctx.builder.frame().live64 =~= old(ctx).builder.frame().live64);
        assert(ctx.builder.frame().ctrl =~= old(ctx).builder.frame().ctrl);
    }
}

/// Generates nothing: the basic block code generator emits the branch.
pub fn instr32_0F85_jit(ctx: &mut JitContext, _imm: u32)
    requires
        ready(old(ctx).builder, 8),
    ensures
        emits(*old(ctx), *final(ctx), Seq::<Op>::empty(), 0),
        restores_by(old(ctx).builder, final(ctx).builder, 0),
{
    proof {
        assert(ctx.builder.code@ =~= old(ctx).builder.code@ + Seq::<Op>::empty());
        assert(ctx.builder.frame().live =~= old(ctx).builder.frame().live);
        assert(ctx.builder.frame().live64 =~= old(ctx).builder.frame().live64);
        assert(ctx.builder.frame().ctrl =~= old(ctx).builder.frame().ctrl);
    }
}

/// Generates nothing: the basic block code generator emits the branch.
pub fn instr32_0F86_jit(ctx: &mut JitContext, _imm: u32)
    requires
        ready(old(ctx).builder, 8),
    ensures
        emits(*old(ctx), *final(ctx), Seq::<Op>::empty(), 0),
        restores_by(old(ctx).builder, final(ctx).builder, 0),
{
    proof {
        assert(ctx.builder.code@ =~= old(ctx).builder.code@ + Seq::<Op>::empty());
        assert(ctx.builder.frame().live =~= old(ctx).builder.frame().live);
        assert(ctx.builder.frame().live64 =~= old(ctx).builder.frame().live64);
        assert(ctx.builder.frame().ctrl =~= old(ctx).builder.frame().ctrl);
    }
}

/// Generates nothing: the basic block code generator emits the branch.
pub fn instr32_0F87_jit(ctx: &mut JitContext, _imm: u32)
    requires
        ready(old(ctx).builder, 8),
    ensures
        emits(*old(ctx), *final(ctx), Seq::<Op>::empty(), 0),
        restores_by(old(ctx).builder, final(ctx).builder, 0),
{
    proof {
        assert(ctx.builder.code@ =~= old(ctx).builder.code@ + Seq::<Op>::empty());
        assert(ctx.builder.frame().live =~= old(ctx).builder.frame().live);
        assert(ctx.builder.frame().live64 =~= old(ctx).builder.frame().live64);
        assert(ctx.builder.frame().ctrl =~= old(ctx).builder.frame().ctrl);
    }
}

/// Generates nothing: the basic block code generator emits the branch.
pub fn instr32_0F88_jit(ctx: &mut JitContext, _imm: u32)
    requires
        ready(old(ctx).builder, 8),
    ensures
        emits(*old(ctx), *final(ctx), Seq::<Op>::empty(), 0),
        restores_by(old(ctx).builder, final(ctx).builder, 0),
{
    proof {
        assert(ctx.builder.code@ =~= old(ctx).builder.code@ + Seq::<Op>::empty());
        assert(ctx.builder.frame().live =~= old(ctx).builder.frame().live);
        assert(ctx.builder.frame().live64 =~= old(ctx).builder.frame().live64);
        assert(ctx.builder.frame().ctrl =~= old(ctx).builder.frame().ctrl);
    }
}

/// Generates nothing: the basic block code generator emits the branch.
pub fn instr32_0F89_jit(ctx: &mut JitContext, _imm: u32)
    requires
        ready(old(ctx).builder, 8),
    ensures
        emits(*old(ctx), *final(ctx), Seq::<Op>::empty(), 0),
        restores_by(old(ctx).builder, final(ctx).builder, 0),
{
    proof {
        assert(ctx.builder.code@ =~= old(ctx).builder.code@ + Seq::<Op>::empty());
        assert(ctx.builder.frame().live =~= old(ctx).builder.frame().live);
        assert(ctx.builder.frame().live64 =~= old(ctx).builder.frame().live64);
        assert(ctx.builder.frame().ctrl =~= old(ctx).builder.frame().ctrl);
    }
}

/// Generates nothing: the basic block code generator emits the branch.
pub fn instr32_0F8A_jit(ctx: &mut JitContext, _imm: u32)
    requires
        ready(old(ctx).builder, 8),
    ensures
        emits(*old(ctx), *final(ctx), Seq::<Op>::empty(), 0),
        restores_by(old(ctx).builder, final(ctx).builder, 0),
{
    proof {
        assert(ctx.builder.code@ =~= old(ctx).builder.code@ + Seq::<Op>::empty());
        assert(ctx.builder.frame().live =~= old(ctx).builder.frame().live);
        assert(ctx.builder.frame().live64 =~= old(ctx).builder.frame().live64);
        assert(ctx.builder.frame().ctrl =~= old(ctx).builder.frame().ctrl);
    }
}

/// Generates nothing: the basic block code generator emits the branch.
pub fn instr32_0F8B_jit(ctx: &mut JitContext, _imm: u32)
    requires
        ready(old(ctx).builder, 8),
    ensures
        emits(*old(ctx), *final(ctx), Seq::<Op>::empty(), 0),
        restores_by(old(ctx).builder, final(ctx).builder, 0),
{
    proof {
        assert(ctx.builder.code@ =~= old(ctx).builder.code@ + Seq::<Op>::empty());
        assert(ctx.builder.frame().live =~= old(ctx).builder.frame().live);
        assert(ctx.builder.frame().live64 =~= old(ctx).builder.frame().live64);
        assert(ctx.builder.frame().ctrl =~= old(ctx).builder.frame().ctrl);
    }
}

/// Generates nothing: the basic block code generator emits the branch.
pub fn instr32_0F8C_jit(ctx: &mut JitContext, _imm: u32)
    requires
        ready(old(ctx).builder, 8),
    ensures
        emits(*old(ctx), *final(ctx), Seq::<Op>::empty(), 0),
        restores_by(old(ctx).builder, final(ctx).builder, 0),
{
    proof {
        assert(ctx.builder.code@ =~= old(ctx).builder.code@ + Seq::<Op>::empty());
        assert(ctx.builder.frame().live =~= old(ctx).builder.frame().live);
        assert(ctx.builder.frame().live64 =~= old(ctx).builder.frame().live64);
        assert(ctx.builder.frame().ctrl =~= old(ctx).builder.frame().ctrl);
    }
}

/// Generates nothing: the basic block code generator emits the branch.
pub fn instr32_0F8D_jit(ctx: &mut JitContext, _imm: u32)
    requires
        ready(old(ctx).builder, 8),
    ensures
        emits(*old(ctx), *final(ctx), Seq::<Op>::empty(), 0),
        restores_by(old(ctx).builder, final(ctx).builder, 0),
{
    proof {
        assert(ctx.builder.code@ =~= old(ctx).builder.code@ + Seq::<Op>::empty());
        assert(ctx.builder.frame().live =~= old(ctx).builder.frame().live);
        assert(ctx.builder.frame().live64 =~= old(ctx).builder.frame().live64);
        assert(ctx.builder.frame().ctrl =~= old(ctx).builder.frame().ctrl);
    }
}

/// Generates nothing: the basic block code generator emits the branch.
pub fn instr32_0F8E_jit(ctx: &mut JitContext, _imm: u32)
    requires
        ready(old(ctx).builder, 8),
    ensures
        emits(*old(ctx), *final(ctx), Seq::<Op>::empty(), 0),
        restores_by(old(ctx).builder, final(ctx).builder, 0),
{
    proof {
        assert(ctx.builder.code@ =~= old(ctx).builder.code@ + Seq::<Op>::empty());
        assert(ctx.builder.frame().live =~= old(ctx).builder.frame().live);
        assert(ctx.builder.frame().live64 =~= old(ctx).builder.frame().live64);
        assert(ctx.builder.frame().ctrl =~= old(ctx).builder.frame().ctrl);
    }
}

/// Generates nothing: the basic block code generator emits the branch.
pub fn instr32_0F8F_jit(ctx: &mut JitContext, _imm: u32)
    requires
        ready(old(ctx).builder, 8),
    ensures
        emits(*old(ctx), *final(ctx), Seq::<Op>::empty(), 0),
        restores_by(old(ctx).builder, final(ctx).builder, 0),
{
    proof {
        assert(ctx.builder.code@ =~= old(ctx).builder.code@ + Seq::<Op>::empty());
        assert(ctx.builder.frame().live =~= old(ctx).builder.frame().live);
        assert(ctx.builder.frame().live64 =~= old(ctx).builder.frame().live64);
        assert(ctx.builder.frame().ctrl =~= old(ctx).builder.frame().ctrl);
    }
}

/// Pushes FS as 16 bits.
pub fn instr16_0FA0_jit(ctx: &mut JitContext)
    requires
        ready(old(ctx).builder, 8),
    ensures
        emits(*old(ctx), *final(ctx), seq![Op::GetSreg(FS), Op::SetNewLocal(old(ctx).builder.next_local), Op::Push16(WasmLocal::Temp(old(ctx).builder.next_local)), Op::FreeLocal(old(ctx).builder.next_local)], 1),
        restores_by(old(ctx).builder, final(ctx).builder, 0),
{
    ctx.builder.emit(Op::GetSreg(FS));
    let sreg = ctx.builder.set_new_local();
    ctx.builder.emit(Op::Push16(sreg));
    ctx.builder.free_local(sreg);
    proof {
        assert(ctx.builder.code@ =~= old(ctx).builder.code@ + seq![Op::GetSreg(FS), Op::SetNewLocal(old(ctx).builder.next_local), Op::Push16(WasmLocal::Temp(old(ctx).builder.next_local)), Op::FreeLocal(old(ctx).builder.next_local)]);
        assert(ctx.builder.frame().live =~= old(ctx).builder.frame().live);
        assert(ctx.builder.frame().live64 =~= old(ctx).builder.frame().live64);
        assert(ctx.builder.frame().ctrl =~= old(ctx).builder.frame().ctrl);
    }
}

/// Pushes FS as 32 bits.
pub fn instr32_0FA0_jit(ctx: &mut JitContext)
    requires
        ready(old(ctx).builder, 8),
    ensures
        emits(*old(ctx), *final(ctx), seq![Op::GetSreg(FS), Op::SetNewLocal(old(ctx).builder.next_local), Op::Push32(WasmLocal::Temp(old(ctx).builder.next_local)), Op::FreeLocal(old(ctx).builder.next_local)], 1),
        restores_by(old(ctx).builder, final(ctx).builder, 0),
{
    ctx.builder.emit(Op::GetSreg(FS));
    let sreg = ctx.builder.set_new_local();
    ctx.builder.emit(Op::Push32(sreg));
    ctx.builder.free_local(sreg);
    proof {
        assert(ctx.builder.code@ =~= old(ctx).builder.code@ + seq![Op::GetSreg(FS), Op::SetNewLocal(old(ctx).builder.next_local), Op::Push32(WasmLocal::Temp(old(ctx).builder.next_local)), Op::FreeLocal(old(ctx).builder.next_local)]);
        assert(ctx.builder.frame().live =~= old(ctx).builder.frame().live);
        assert(ctx.builder.frame().live64 =~= old(ctx).builder.frame().live64);
        assert(ctx.builder.frame().ctrl =~= old(ctx).builder.frame().ctrl);
    }
}

/// Pushes GS as 16 bits.
pub fn instr16_0FA8_jit(ctx: &mut JitContext)
    requires
        ready(old(ctx).builder, 8),
    ensures
        emits(*old(ctx), *final(ctx), seq![Op::GetSreg(GS), Op::SetNewLocal(old(ctx).builder.next_local), Op::Push16(WasmLocal::Temp(old(ctx).builder.next_local)), Op::FreeLocal(old(ctx).builder.next_local)], 1),
        restores_by(old(ctx).builder, final(ctx).builder, 0),
{
    ctx.builder.emit(Op::GetSreg(GS));
    let sreg = ctx.builder.set_new_local();
    ctx.builder.emit(Op::Push16(sreg));
    ctx.builder.free_local(sreg);
    proof {
        assert(ctx.builder.code@ =~= old(ctx).builder.code@ + seq![Op::GetSreg(GS), Op::SetNewLocal(old(ctx).builder.next_local), Op::Push16(WasmLocal::Temp(old(ctx).builder.next_local)), Op::FreeLocal(old(ctx).builder.next_local)]);
        assert(ctx.builder.frame().live =~= old(ctx).builder.frame().live);
        assert(ctx.builder.frame().live64 =~= old(ctx).builder.frame().live64);
        assert(ctx.builder.frame().ctrl =~= old(ctx).builder.frame().ctrl);
    }
}

/// Pushes GS as 32 bits.
pub fn instr32_0FA8_jit(ctx: &mut JitContext)
    requires
        ready(old(ctx).builder, 8),
    ensures
        emits(*old(ctx), *final(ctx), seq![Op::GetSreg(GS), Op::SetNewLocal(old(ctx).builder.next_local), Op::Push32(WasmLocal::Temp(old(ctx).builder.next_local)), Op::FreeLocal(old(ctx).builder.next_local)], 1),
        restores_by(old(ctx).builder, final(ctx).builder, 0),
{
    ctx.builder.emit(Op::GetSreg(GS));
    let sreg = ctx.builder.set_new_local();
    ctx.builder.emit(Op::Push32(sreg));
    ctx.builder.free_local(sreg);
    proof {
        assert(ctx.builder.code@ =~= old(ctx).builder.code@ + seq![Op::GetSreg(GS), Op::SetNewLocal(old(ctx).builder.next_local), Op::Push32(WasmLocal::Temp(old(ctx).builder.next_local)), Op::FreeLocal(old(ctx).builder.next_local)]);
        assert(ctx.builder.frame().live =~= old(ctx).builder.frame().live);
        assert(ctx.builder.frame().live64 =~= old(ctx).builder.frame().live64);
        assert(ctx.builder.frame().ctrl =~= old(ctx).builder.frame().ctrl);
    }
}

/// `bt`: copies the bit of memory at the signed bit offset in register `r` into the carry flag.
pub fn instr16_0FA3_mem_jit(ctx: &mut JitContext, modrm_byte: u8, r: u32)
    requires
        ready(old(ctx).builder, 8),
        r < 8,
    ensures
        emits(*old(ctx), *final(ctx), seq![Op::ModrmResolve(modrm_byte), Op::GetReg16(r), Op::SignExtendI16, Op::ConstI32(3), Op::ShrSI32, Op::AddI32, Op::SetNewLocal(old(ctx).builder.next_local), Op::SafeRead8(WasmLocal::Temp(old(ctx).builder.next_local)), Op::FreeLocal(old(ctx).builder.next_local), Op::SetNewLocal((old(ctx).builder.next_local + 1) as u32)] + gen_bt_code(WasmLocal::Temp((old(ctx).builder.next_local + 1) as u32), LocalOrImmedate::WasmLocal(WasmLocal::Register(r)), 7) + seq![Op::FreeLocal((old(ctx).builder.next_local + 1) as u32)], 2),
        restores_by(old(ctx).builder, final(ctx).builder, 0),
{
    ctx.builder.emit(Op::ModrmResolve(modrm_byte));
    ctx.builder.emit(Op::GetReg16(r));
    ctx.builder.emit(Op::SignExtendI16);
    ctx.builder.emit(Op::ConstI32(3));
    ctx.builder.emit(Op::ShrSI32);
    ctx.builder.emit(Op::AddI32);
    let addr = ctx.builder.set_new_local();
    ctx.builder.emit(Op::SafeRead8(addr));
    ctx.builder.free_local(addr);
    let value = ctx.builder.set_new_local();
    proof { assert(ctx.builder.code@ =~= old(ctx).builder.code@ + seq![Op::ModrmResolve(modrm_byte), Op::GetReg16(r), Op::SignExtendI16, Op::ConstI32(3), Op::ShrSI32, Op::AddI32, Op::SetNewLocal(old(ctx).builder.next_local), Op::SafeRead8(WasmLocal::Temp(old(ctx).builder.next_local)), Op::FreeLocal(old(ctx).builder.next_local), Op::SetNewLocal((old(ctx).builder.next_local + 1) as u32)]); }
    gen_bt(&mut ctx.builder, &value, &LocalOrImmedate::WasmLocal(WasmLocal::Register(r)), 7);
    proof { assert(ctx.builder.code@ =~= old(ctx).builder.code@ + seq![Op::ModrmResolve(modrm_byte), Op::GetReg16(r), Op::SignExtendI16, Op::ConstI32(3), Op::ShrSI32, Op::AddI32, Op::SetNewLocal(old(ctx).builder.next_local), Op::SafeRead8(WasmLocal::Temp(old(ctx).builder.next_local)), Op::FreeLocal(old(ctx).builder.next_local), Op::SetNewLocal((old(ctx).builder.next_local + 1) as u32)] + gen_bt_code(WasmLocal::Temp((old(ctx).builder.next_local + 1) as u32), LocalOrImmedate::WasmLocal(WasmLocal::Register(r)), 7)); }
    ctx.builder.free_local(value);
    proof {
        assert(ctx.builder.code@ =~= old(ctx).builder.code@ + (seq![Op::ModrmResolve(modrm_byte), Op::GetReg16(r), Op::SignExtendI16, Op::ConstI32(3), Op::ShrSI32, Op::AddI32, Op::SetNewLocal(old(ctx).builder.next_local), Op::SafeRead8(WasmLocal::Temp(old(ctx).builder.next_local)), Op::FreeLocal(old(ctx).builder.next_local), Op::SetNewLocal((old(ctx).builder.next_local + 1) as u32)] + gen_bt_code(WasmLocal::Temp((old(ctx).builder.next_local + 1) as u32), LocalOrImmedate::WasmLocal(WasmLocal::Register(r)), 7) + seq![Op::FreeLocal((old(ctx).builder.next_local + 1) as u32)]));
        assert(ctx.builder.frame().live =~= old(ctx).builder.frame().live);
        assert(ctx.builder.frame().live64 =~= old(ctx).builder.frame().live64);
        assert(ctx.builder.frame().ctrl =~= old(ctx).builder.frame().ctrl);
    }
}

/// `bt`: copies bit `r2 & 15` of register `r1` into the carry flag.
pub fn instr16_0FA3_reg_jit(ctx: &mut JitContext, r1: u32, r2: u32)
    requires
        ready(old(ctx).builder, 8),
        r1 < 8,
        r2 < 8,
    ensures
        emits(*old(ctx), *final(ctx), gen_bt_code(WasmLocal::Register(r1), LocalOrImmedate::WasmLocal(WasmLocal::Register(r2)), 15), 0),
        restores_by(old(ctx).builder, final(ctx).builder, 0),
{
    gen_bt(&mut ctx.builder, &WasmLocal::Register(r1), &LocalOrImmedate::WasmLocal(WasmLocal::Register(r2)), 15);
    proof {
        assert(ctx.builder.code@ =~= old(ctx).builder.code@ + gen_bt_code(WasmLocal::Register(r1), LocalOrImmedate::WasmLocal(WasmLocal::Register(r2)), 15));
        assert(ctx.builder.frame().live =~= old(ctx).builder.frame().live);
        assert(ctx.builder.frame().live64 =~= old(ctx).builder.frame().live64);
        assert(ctx.builder.frame().ctrl =~= old(ctx).builder.frame().ctrl);
    }
}

/// `bt`: copies the bit of memory selected by the immediate that follows into the carry flag.
pub fn instr16_0FBA_4_mem_jit(ctx: &mut JitContext, modrm_byte: u8)
    requires
        ready(old(ctx).builder, 8),
    ensures
        emits(*old(ctx), *final(ctx), seq![Op::ModrmResolve(modrm_byte), Op::ReadImm(ImmKind::Imm8), Op::ConstPendingImm(15i32, 3u32), Op::AddI32, Op::SetNewLocal(old(ctx).builder.next_local), Op::SafeRead8(WasmLocal::Temp(old(ctx).builder.next_local)), Op::FreeLocal(old(ctx).builder.next_local), Op::SetNewLocal((old(ctx).builder.next_local + 1) as u32)] + gen_bt_code(WasmLocal::Temp((old(ctx).builder.next_local + 1) as u32), LocalOrImmedate::ReadImmediate, 7) + seq![Op::FreeLocal((old(ctx).builder.next_local + 1) as u32)], 2),
        restores_by(old(ctx).builder, final(ctx).builder, 0),
{
    ctx.builder.emit(Op::ModrmResolve(modrm_byte));
    ctx.builder.emit(Op::ReadImm(ImmKind::Imm8));
    ctx.builder.emit(Op::ConstPendingImm(15i32, 3u32));
    ctx.builder.emit(Op::AddI32);
    let addr = ctx.builder.set_new_local();
    ctx.builder.emit(Op::SafeRead8(addr));
    ctx.builder.free_local(addr);
    let value = ctx.builder.set_new_local();
    proof { assert(ctx.builder.code@ =~= old(ctx).builder.code@ + seq![Op::ModrmResolve(modrm_byte), Op::ReadImm(ImmKind::Imm8), Op::ConstPendingImm(15i32, 3u32), Op::AddI32, Op::SetNewLocal(old(ctx).builder.next_local), Op::SafeRead8(WasmLocal::Temp(old(ctx).builder.next_local)), Op::FreeLocal(old(ctx).builder.next_local), Op::SetNewLocal((old(ctx).builder.next_local + 1) as u32)]); }
    gen_bt(&mut ctx.builder, &value, &LocalOrImmedate::ReadImmediate, 7);
    proof { assert(ctx.builder.code@ =~= old(ctx).builder.code@ + seq![Op::ModrmResolve(modrm_byte), Op::ReadImm(ImmKind::Imm8), Op::ConstPendingImm(15i32, 3u32), Op::AddI32, Op::SetNewLocal(old(ctx).builder.next_local), Op::SafeRead8(WasmLocal::Temp(old(ctx).builder.next_local)), Op::FreeLocal(old(ctx).builder.next_local), Op::SetNewLocal((old(ctx).builder.next_local + 1) as u32)] + gen_bt_code(WasmLocal::Temp((old(ctx).builder.next_local + 1) as u32), LocalOrImmedate::ReadImmediate, 7)); }
    ctx.builder.free_local(value);
    proof {
        assert(ctx.builder.code@ =~= old(ctx).builder.code@ + (seq![Op::ModrmResolve(modrm_byte), Op::ReadImm(ImmKind::Imm8), Op::ConstPendingImm(15i32, 3u32), Op::AddI32, Op::SetNewLocal(old(ctx).builder.next_local), Op::SafeRead8(WasmLocal::Temp(old(ctx).builder.next_local)), Op::FreeLocal(old(ctx).builder.next_local), Op::SetNewLocal((old(ctx).builder.next_local + 1) as u32)] + gen_bt_code(WasmLocal::Temp((old(ctx).builder.next_local + 1) as u32), LocalOrImmedate::ReadImmediate, 7) + seq![Op::FreeLocal((old(ctx).builder.next_local + 1) as u32)]));
        assert(ctx.builder.frame().live =~= old(ctx).builder.frame().live);
        assert(ctx.builder.frame().live64 =~= old(ctx).builder.frame().live64);
        assert(ctx.builder.frame().ctrl =~= old(ctx).builder.frame().ctrl);
    }
}

/// `bt`: copies bit `imm8 & 15` of register `r` into the carry flag.
pub fn instr16_0FBA_4_reg_jit(ctx: &mut JitContext, r: u32, imm8: u32)
    requires
        ready(old(ctx).builder, 8),
        r < 8,
    ensures
        emits(*old(ctx), *final(ctx), gen_bt_code(WasmLocal::Register(r), LocalOrImmedate::Immediate(imm8 as i32), 15), 0),
        restores_by(old(ctx).builder, final(ctx).builder, 0),
{
    gen_bt(&mut ctx.builder, &WasmLocal::Register(r), &LocalOrImmedate::Immediate(imm8 as i32), 15);
    proof {
        assert(ctx.builder.code@ =~= old(ctx).builder.code@ + gen_bt_code(WasmLocal::Register(r), LocalOrImmedate::Immediate(imm8 as i32), 15));
        assert(ctx.builder.frame().live =~= old(ctx).builder.frame().live);
        assert(ctx.builder.frame().live64 =~= old(ctx).builder.frame().live64);
        assert(ctx.builder.frame().ctrl =~= old(ctx).builder.frame().ctrl);
    }
}

/// `bt`: copies the bit of memory at the signed bit offset in register `r` into the carry flag.
pub fn instr32_0FA3_mem_jit(ctx: &mut JitContext, modrm_byte: u8, r: u32)
    requires
        ready(old(ctx).builder, 8),
        r < 8,
    ensures
        emits(*old(ctx), *final(ctx), seq![Op::ModrmResolve(modrm_byte), Op::GetReg32(r), Op::ConstI32(3), Op::ShrSI32, Op::AddI32, Op::SetNewLocal(old(ctx).builder.next_local), Op::SafeRead8(WasmLocal::Temp(old(ctx).builder.next_local)), Op::FreeLocal(old(ctx).builder.next_local), Op::SetNewLocal((old(ctx).builder.next_local + 1) as u32)] + gen_bt_code(WasmLocal::Temp((old(ctx).builder.next_local + 1) as u32), LocalOrImmedate::WasmLocal(WasmLocal::Register(r)), 7) + seq![Op::FreeLocal((old(ctx).builder.next_local + 1) as u32)], 2),
        restores_by(old(ctx).builder, final(ctx).builder, 0),
{
    ctx.builder.emit(Op::ModrmResolve(modrm_byte));
    ctx.builder.emit(Op::GetReg32(r));
    ctx.builder.emit(Op::ConstI32(3));
    ctx.builder.emit(Op::ShrSI32);
    ctx.builder.emit(Op::AddI32);
    let addr = ctx.builder.set_new_local();
    ctx.builder.emit(Op::SafeRead8(addr));
    ctx.builder.free_local(addr);
    let value = ctx.builder.set_new_local();
    proof { assert(ctx.builder.code@ =~= old(ctx).builder.code@ + seq![Op::ModrmResolve(modrm_byte), Op::GetReg32(r), Op::ConstI32(3), Op::ShrSI32, Op::AddI32, Op::SetNewLocal(old(ctx).builder.next_local), Op::SafeRead8(WasmLocal::Temp(old(ctx).builder.next_local)), Op::FreeLocal(old(ctx).builder.next_local), Op::SetNewLocal((old(ctx).builder.next_local + 1) as u32)]); }
    gen_bt(&mut ctx.builder, &value, &LocalOrImmedate::WasmLocal(WasmLocal::Register(r)), 7);
    proof { assert(ctx.builder.code@ =~= old(ctx).builder.code@ + seq![Op::ModrmResolve(modrm_byte), Op::GetReg32(r), Op::ConstI32(3), Op::ShrSI32, Op::AddI32, Op::SetNewLocal(old(ctx).builder.next_local), Op::SafeRead8(WasmLocal::Temp(old(ctx).builder.next_local)), Op::FreeLocal(old(ctx).builder.next_local), Op::SetNewLocal((old(ctx).builder.next_local + 1) as u32)] + gen_bt_code(WasmLocal::Temp((old(ctx).builder.next_local + 1) as u32), LocalOrImmedate::WasmLocal(WasmLocal::Register(r)), 7)); }
    ctx.builder.free_local(value);
    proof {
        assert(ctx.builder.code@ =~= old(ctx).builder.code@ + (seq![Op::ModrmResolve(modrm_byte), Op::GetReg32(r), Op::ConstI32(3), Op::ShrSI32, Op::AddI32, Op::SetNewLocal(old(ctx).builder.next_local), Op::SafeRead8(WasmLocal::Temp(old(ctx).builder.next_local)), Op::FreeLocal(old(ctx).builder.next_local), Op::SetNewLocal((old(ctx).builder.next_local + 1) as u32)] + gen_bt_code(WasmLocal::Temp((old(ctx).builder.next_local + 1) as u32), LocalOrImmedate::WasmLocal(WasmLocal::Register(r)), 7) + seq![Op::FreeLocal((old(ctx).builder.next_local + 1) as u32)]));
        assert(ctx.builder.frame().live =~= old(ctx).builder.frame().live);
        assert(ctx.builder.frame().live64 =~= old(ctx).builder.frame().live64);
        assert(ctx.builder.frame().ctrl =~= old(ctx).builder.frame().ctrl);
    }
}

/// The code that [`instr32_0FA3_reg_jit`] appends.
pub open spec fn instr32_0FA3_reg_jit_code(r1: u32, r2: u32) -> Seq<Op> {
    gen_bt_code(WasmLocal::Register(r1), LocalOrImmedate::WasmLocal(WasmLocal::Register(r2)), 31)
}

/// `bt`: copies bit `r2 & 31` of register `r1` into the carry flag.
pub fn instr32_0FA3_reg_jit(ctx: &mut JitContext, r1: u32, r2: u32)
    requires
        ready(old(ctx).builder, 8),
        r1 < 8,
        r2 < 8,
    ensures
        emits(*old(ctx), *final(ctx), instr32_0FA3_reg_jit_code(r1, r2), 0),
        restores_by(old(ctx).builder, final(ctx).builder, 0),
{
    gen_bt(&mut ctx.builder, &WasmLocal::Register(r1), &LocalOrImmedate::WasmLocal(WasmLocal::Register(r2)), 31);
    proof {
        assert(ctx.builder.code@ =~= old(ctx).builder.code@ + instr32_0FA3_reg_jit_code(r1, r2));
        assert(ctx.builder.frame().live =~= old(ctx).builder.frame().live);
        assert(ctx.builder.frame().live64 =~= old(ctx).builder.frame().live64);
        assert(ctx.builder.frame().ctrl =~= old(ctx).builder.frame().ctrl);
    }
}

/// `bt`: copies the bit of memory selected by the immediate that follows into the carry flag.
pub fn instr32_0FBA_4_mem_jit(ctx: &mut JitContext, modrm_byte: u8)
    requires
        ready(old(ctx).builder, 8),
    ensures
        emits(*old(ctx), *final(ctx), seq![Op::ModrmResolve(modrm_byte), Op::ReadImm(ImmKind::Imm8), Op::ConstPendingImm(31i32, 3u32), Op::AddI32, Op::SetNewLocal(old(ctx).builder.next_local), Op::SafeRead8(WasmLocal::Temp(old(ctx).builder.next_local)), Op::FreeLocal(old(ctx).builder.next_local), Op::SetNewLocal((old(ctx).builder.next_local + 1) as u32)] + gen_bt_code(WasmLocal::Temp((old(ctx).builder.next_local + 1) as u32), LocalOrImmedate::ReadImmediate, 7) + seq![Op::FreeLocal((old(ctx).builder.next_local + 1) as u32)], 2),
        restores_by(old(ctx).builder, final(ctx).builder, 0),
{
    ctx.builder.emit(Op::ModrmResolve(modrm_byte));
    ctx.builder.emit(Op::ReadImm(ImmKind::Imm8));
    ctx.builder.emit(Op::ConstPendingImm(31i32, 3u32));
    ctx.builder.emit(Op::AddI32);
    let addr = ctx.builder.set_new_local();
    ctx.builder.emit(Op::SafeRead8(addr));
    ctx.builder.free_local(addr);
    let value = ctx.builder.set_new_local();
    proof { assert(ctx.builder.code@ =~= old(ctx).builder.code@ + seq![Op::ModrmResolve(modrm_byte), Op::ReadImm(ImmKind::Imm8), Op::ConstPendingImm(31i32, 3u32), Op::AddI32, Op::SetNewLocal(old(ctx).builder.next_local), Op::SafeRead8(WasmLocal::Temp(old(ctx).builder.next_local)), Op::FreeLocal(old(ctx).builder.next_local), Op::SetNewLocal((old(ctx).builder.next_local + 1) as u32)]); }
    gen_bt(&mut ctx.builder, &value, &LocalOrImmedate::ReadImmediate, 7);
    proof { assert(ctx.builder.code@ =~= old(ctx).builder.code@ + seq![Op::ModrmResolve(modrm_byte), Op::ReadImm(ImmKind::Imm8), Op::ConstPendingImm(31i32, 3u32), Op::AddI32, Op::SetNewLocal(old(ctx).builder.next_local), Op::SafeRead8(WasmLocal::Temp(old(ctx).builder.next_local)), Op::FreeLocal(old(ctx).builder.next_local), Op::SetNewLocal((old(ctx).builder.next_local + 1) as u32)] + gen_bt_code(WasmLocal::Temp((old(ctx).builder.next_local + 1) as u32), LocalOrImmedate::ReadImmediate, 7)); }
    ctx.builder.free_local(value);
    proof {
        assert(ctx.builder.code@ =~= old(ctx).builder.code@ + (seq![Op::ModrmResolve(modrm_byte), Op::ReadImm(ImmKind::Imm8), Op::ConstPendingImm(31i32, 3u32), Op::AddI32, Op::SetNewLocal(old(ctx).builder.next_local), Op::SafeRead8(WasmLocal::Temp(old(ctx).builder.next_local)), Op::FreeLocal(old(ctx).builder.next_local), Op::SetNewLocal((old(ctx).builder.next_local + 1) as u32)] + gen_bt_code(WasmLocal::Temp((old(ctx).builder.next_local + 1) as u32), LocalOrImmedate::ReadImmediate, 7) + seq![Op::FreeLocal((old(ctx).builder.next_local + 1) as u32)]));
        assert(ctx.builder.frame().live =~= old(ctx).builder.frame().live);
        assert(ctx.builder.frame().live64 =~= old(ctx).builder.frame().live64);
        assert(ctx.builder.frame().ctrl =~= old(ctx).builder.frame().ctrl);
    }
}

/// The code that [`instr32_0FBA_4_reg_jit`] appends.
pub open spec fn instr32_0FBA_4_reg_jit_code(r: u32, imm8: u32) -> Seq<Op> {
    gen_bt_code(WasmLocal::Register(r), LocalOrImmedate::Immediate(imm8 as i32), 31)
}

/// `bt`: copies bit `imm8 & 31` of register `r` into the carry flag.
pub fn instr32_0FBA_4_reg_jit(ctx: &mut JitContext, r: u32, imm8: u32)
    requires
        ready(old(ctx).builder, 8),
        r < 8,
    ensures
        emits(*old(ctx), *final(ctx), instr32_0FBA_4_reg_jit_code(r, imm8), 0),
        restores_by(old(ctx).builder, final(ctx).builder, 0),
{
    gen_bt(&mut ctx.builder, &WasmLocal::Register(r), &LocalOrImmedate::Immediate(imm8 as i32), 31);
    proof {
        assert(ctx.builder.code@ =~= old(ctx).builder.code@ + instr32_0FBA_4_reg_jit_code(r, imm8));
        assert(ctx.builder.frame().live =~= old(ctx).builder.frame().live);
        assert(ctx.builder.frame().live64 =~= old(ctx).builder.frame().live64);
        assert(ctx.builder.frame().ctrl =~= old(ctx).builder.frame().ctrl);
    }
}

/// Not supported: raises the invalid-opcode exception.
pub fn instr_0FAE_5_mem_jit(ctx: &mut JitContext, _modrm_byte: u8)
    requires
        ready(old(ctx).builder, 8),
    ensures
        emits(*old(ctx), *final(ctx), seq![Op::TriggerUd], 0),
        balanced_by(old(ctx).builder, final(ctx).builder, 0),
{
    ctx.builder.diverge(Op::TriggerUd);
    proof {
        assert(ctx.builder.code@ =~= old(ctx).builder.code@ + seq![Op::TriggerUd]);
        assert(ctx.builder.frame().live =~= old(ctx).builder.frame().live);
        assert(ctx.builder.frame().live64 =~= old(ctx).builder.frame().live64);
        assert(ctx.builder.frame().ctrl =~= old(ctx).builder.frame().ctrl);
    }
}

/// `lfence` generates nothing.
pub fn instr_0FAE_5_reg_jit(ctx: &mut JitContext, _r: u32)
    requires
        ready(old(ctx).builder, 8),
    ensures
        emits(*old(ctx), *final(ctx), Seq::<Op>::empty(), 0),
        restores_by(old(ctx).builder, final(ctx).builder, 0),
{
    proof {
        assert(ctx.builder.code@ =~= old(ctx).builder.code@ + Seq::<Op>::empty());
        assert(ctx.builder.frame().live =~= old(ctx).builder.frame().live);
        assert(ctx.builder.frame().live64 =~= old(ctx).builder.frame().live64);
        assert(ctx.builder.frame().ctrl =~= old(ctx).builder.frame().ctrl);
    }
}

} // verus!
