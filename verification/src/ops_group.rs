//! Opcodes `80` to `8F`: the immediate groups, test, exchange, moves and pop to memory.

use vstd::prelude::*;
use crate::op::{Op, WasmLocal, BitSize, ImmKind};
use crate::builder::{JitContext, ready, emits, restores_by, balanced_by};
use crate::alu::Alu32;
use crate::templates::{read8_mem, read8_mem_code, read8_reg, read8_reg_code, read8_imm_mem, read8_imm_mem_code, read8_imm_reg, read8_imm_reg_code, read16_mem, read16_mem_code, read16_reg, read16_reg_code, read16_imm_mem, read16_imm_mem_code, read16_imm_reg, read16_imm_reg_code, read32_mem, read32_mem_code, read32_reg, read32_reg_code, read32_imm_mem, read32_imm_mem_code, read32_imm_reg, read32_imm_reg_code, rmw8_imm_mem, rmw8_imm_mem_code, rmw8_imm_reg, rmw8_imm_reg_code, rmw16_imm_mem, rmw16_imm_mem_code, rmw16_imm_reg, rmw16_imm_reg_code, rmw32_alu_imm_mem, rmw32_alu_imm_mem_code, rmw32_alu_imm_reg, rmw32_alu_imm_reg_code, pop16_reg_jit, pop16_reg_jit_code, pop32_reg_jit, pop32_reg_jit_code};

verus! {

/// `add` of the immediate that follows into a byte in memory.
pub fn instr_80_0_mem_jit(ctx: &mut JitContext, modrm_byte: u8)
    requires
        ready(old(ctx).builder, 8),
    ensures
        emits(*old(ctx), *final(ctx), rmw8_imm_mem_code("add8", ImmKind::Imm8, modrm_byte, old(ctx).builder.next_local), 1),
        restores_by(old(ctx).builder, final(ctx).builder, 0),
{
    rmw8_imm_mem(ctx, "add8", ImmKind::Imm8, modrm_byte);
    proof {
        assert(ctx.builder.code@ =~= old(ctx).builder.code@ + rmw8_imm_mem_code("add8", ImmKind::Imm8, modrm_byte, old(ctx).builder.next_local));
        assert(ctx.builder.frame().live =~= old(ctx).builder.frame().live);
        assert(ctx.builder.frame().live64 =~= old(ctx).builder.frame().live64);
        assert(ctx.builder.frame().ctrl =~= old(ctx).builder.frame().ctrl);
    }
}

/// `add` of an immediate into the 8-bit register `r1`.
pub fn instr_80_0_reg_jit(ctx: &mut JitContext, r1: u32, imm: u32)
    requires
        ready(old(ctx).builder, 8),
        r1 < 8,
    ensures
        emits(*old(ctx), *final(ctx), rmw8_imm_reg_code("add8", r1, imm), 0),
        restores_by(old(ctx).builder, final(ctx).builder, 0),
{
    rmw8_imm_reg(ctx, "add8", r1, imm);
    proof {
        assert(ctx.builder.code@ =~= old(ctx).builder.code@ + rmw8_imm_reg_code("add8", r1, imm));
        assert(ctx.builder.frame().live =~= old(ctx).builder.frame().live);
        assert(ctx.builder.frame().live64 =~= old(ctx).builder.frame().live64);
        assert(ctx.builder.frame().ctrl =~= old(ctx).builder.frame().ctrl);
    }
}

/// `or` of the immediate that follows into a byte in memory.
pub fn instr_80_1_mem_jit(ctx: &mut JitContext, modrm_byte: u8)
    requires
        ready(old(ctx).builder, 8),
    ensures
        emits(*old(ctx), *final(ctx), rmw8_imm_mem_code("or8", ImmKind::Imm8, modrm_byte, old(ctx).builder.next_local), 1),
        restores_by(old(ctx).builder, final(ctx).builder, 0),
{
    rmw8_imm_mem(ctx, "or8", ImmKind::Imm8, modrm_byte);
    proof {
        assert(ctx.builder.code@ =~= old(ctx).builder.code@ + rmw8_imm_mem_code("or8", ImmKind::Imm8, modrm_byte, old(ctx).builder.next_local));
        assert(ctx.builder.frame().live =~= old(ctx).builder.frame().live);
        assert(ctx.builder.frame().live64 =~= old(ctx).builder.frame().live64);
        assert(ctx.builder.frame().ctrl =~= old(ctx).builder.frame().ctrl);
    }
}

/// `or` of an immediate into the 8-bit register `r1`.
pub fn instr_80_1_reg_jit(ctx: &mut JitContext, r1: u32, imm: u32)
    requires
        ready(old(ctx).builder, 8),
        r1 < 8,
    ensures
        emits(*old(ctx), *final(ctx), rmw8_imm_reg_code("or8", r1, imm), 0),
        restores_by(old(ctx).builder, final(ctx).builder, 0),
{
    rmw8_imm_reg(ctx, "or8", r1, imm);
    proof {
        assert(ctx.builder.code@ =~= old(ctx).builder.code@ + rmw8_imm_reg_code("or8", r1, imm));
        assert(ctx.builder.frame().live =~= old(ctx).builder.frame().live);
        assert(ctx.builder.frame().live64 =~= old(ctx).builder.frame().live64);
        assert(ctx.builder.frame().ctrl =~= old(ctx).builder.frame().ctrl);
    }
}

/// `adc` of the immediate that follows into a byte in memory.
pub fn instr_80_2_mem_jit(ctx: &mut JitContext, modrm_byte: u8)
    requires
        ready(old(ctx).builder, 8),
    ensures
        emits(*old(ctx), *final(ctx), rmw8_imm_mem_code("adc8", ImmKind::Imm8, modrm_byte, old(ctx).builder.next_local), 1),
        restores_by(old(ctx).builder, final(ctx).builder, 0),
{
    rmw8_imm_mem(ctx, "adc8", ImmKind::Imm8, modrm_byte);
    proof {
        assert(ctx.builder.code@ =~= old(ctx).builder.code@ + rmw8_imm_mem_code("adc8", ImmKind::Imm8, modrm_byte, old(ctx).builder.next_local));
        assert(ctx.builder.frame().live =~= old(ctx).builder.frame().live);
        assert(ctx.builder.frame().live64 =~= old(ctx).builder.frame().live64);
        assert(ctx.builder.frame().ctrl =~= old(ctx).builder.frame().ctrl);
    }
}

/// `adc` of an immediate into the 8-bit register `r1`.
pub fn instr_80_2_reg_jit(ctx: &mut JitContext, r1: u32, imm: u32)
    requires
        ready(old(ctx).builder, 8),
        r1 < 8,
    ensures
        emits(*old(ctx), *final(ctx), rmw8_imm_reg_code("adc8", r1, imm), 0),
        restores_by(old(ctx).builder, final(ctx).builder, 0),
{
    rmw8_imm_reg(ctx, "adc8", r1, imm);
    proof {
        assert(ctx.builder.code@ =~= old(ctx).builder.code@ + rmw8_imm_reg_code("adc8", r1, imm));
        assert(ctx.builder.frame().live =~= old(ctx).builder.frame().live);
        assert(ctx.builder.frame().live64 =~= old(ctx).builder.frame().live64);
        assert(ctx.builder.frame().ctrl =~= old(ctx).builder.frame().ctrl);
    }
}

/// `sbb` of the immediate that follows into a byte in memory.
pub fn instr_80_3_mem_jit(ctx: &mut JitContext, modrm_byte: u8)
    requires
        ready(old(ctx).builder, 8),
    ensures
        emits(*old(ctx), *final(ctx), rmw8_imm_mem_code("sbb8", ImmKind::Imm8, modrm_byte, old(ctx).builder.next_local), 1),
        restores_by(old(ctx).builder, final(ctx).builder, 0),
{
    rmw8_imm_mem(ctx, "sbb8", ImmKind::Imm8, modrm_byte);
    proof {
        assert(ctx.builder.code@ =~= old(ctx).builder.code@ + rmw8_imm_mem_code("sbb8", ImmKind::Imm8, modrm_byte, old(ctx).builder.next_local));
        assert(ctx.builder.frame().live =~= old(ctx).builder.frame().live);
        assert(ctx.builder.frame().live64 =~= old(ctx).builder.frame().live64);
        assert(ctx.builder.frame().ctrl =~= old(ctx).builder.frame().ctrl);
    }
}

/// `sbb` of an immediate into the 8-bit register `r1`.
pub fn instr_80_3_reg_jit(ctx: &mut JitContext, r1: u32, imm: u32)
    requires
        ready(old(ctx).builder, 8),
        r1 < 8,
    ensures
        emits(*old(ctx), *final(ctx), rmw8_imm_reg_code("sbb8", r1, imm), 0),
        restores_by(old(ctx).builder, final(ctx).builder, 0),
{
    rmw8_imm_reg(ctx, "sbb8", r1, imm);
    proof {
        assert(ctx.builder.code@ =~= old(ctx).builder.code@ + rmw8_imm_reg_code("sbb8", r1, imm));
        assert(ctx.builder.frame().live =~= old(ctx).builder.frame().live);
        assert(ctx.builder.frame().live64 =~= old(ctx).builder.frame().live64);
        assert(ctx.builder.frame().ctrl =~= old(ctx).builder.frame().ctrl);
    }
}

/// `and` of the immediate that follows into a byte in memory.
pub fn instr_80_4_mem_jit(ctx: &mut JitContext, modrm_byte: u8)
    requires
        ready(old(ctx).builder, 8),
    ensures
        emits(*old(ctx), *final(ctx), rmw8_imm_mem_code("and8", ImmKind::Imm8, modrm_byte, old(ctx).builder.next_local), 1),
        restores_by(old(ctx).builder, final(ctx).builder, 0),
{
    rmw8_imm_mem(ctx, "and8", ImmKind::Imm8, modrm_byte);
    proof {
        assert(ctx.builder.code@ =~= old(ctx).builder.code@ + rmw8_imm_mem_code("and8", ImmKind::Imm8, modrm_byte, old(ctx).builder.next_local));
        assert(ctx.builder.frame().live =~= old(ctx).builder.frame().live);
        assert(ctx.builder.frame().live64 =~= old(ctx).builder.frame().live64);
        assert(ctx.builder.frame().ctrl =~= old(ctx).builder.frame().ctrl);
    }
}

/// `and` of an immediate into the 8-bit register `r1`.
pub fn instr_80_4_reg_jit(ctx: &mut JitContext, r1: u32, imm: u32)
    requires
        ready(old(ctx).builder, 8),
        r1 < 8,
    ensures
        emits(*old(ctx), *final(ctx), rmw8_imm_reg_code("and8", r1, imm), 0),
        restores_by(old(ctx).builder, final(ctx).builder, 0),
{
    rmw8_imm_reg(ctx, "and8", r1, imm);
    proof {
        assert(ctx.builder.code@ =~= old(ctx).builder.code@ + rmw8_imm_reg_code("and8", r1, imm));
        assert(ctx.builder.frame().live =~= old(ctx).builder.frame().live);
        assert(ctx.builder.frame().live64 =~= old(ctx).builder.frame().live64);
        assert(ctx.builder.frame().ctrl =~= old(ctx).builder.frame().ctrl);
    }
}

/// `sub` of the immediate that follows into a byte in memory.
pub fn instr_80_5_mem_jit(ctx: &mut JitContext, modrm_byte: u8)
    requires
        ready(old(ctx).builder, 8),
    ensures
        emits(*old(ctx), *final(ctx), rmw8_imm_mem_code("sub8", ImmKind::Imm8, modrm_byte, old(ctx).builder.next_local), 1),
        restores_by(old(ctx).builder, final(ctx).builder, 0),
{
    rmw8_imm_mem(ctx, "sub8", ImmKind::Imm8, modrm_byte);
    proof {
        assert(ctx.builder.code@ =~= old(ctx).builder.code@ + rmw8_imm_mem_code("sub8", ImmKind::Imm8, modrm_byte, old(ctx).builder.next_local));
        assert(ctx.builder.frame().live =~= old(ctx).builder.frame().live);
        assert(ctx.builder.frame().live64 =~= old(ctx).builder.frame().live64);
        assert(ctx.builder.frame().ctrl =~= old(ctx).builder.frame().ctrl);
    }
}

/// `sub` of an immediate into the 8-bit register `r1`.
pub fn instr_80_5_reg_jit(ctx: &mut JitContext, r1: u32, imm: u32)
    requires
        ready(old(ctx).builder, 8),
        r1 < 8,
    ensures
        emits(*old(ctx), *final(ctx), rmw8_imm_reg_code("sub8", r1, imm), 0),
        restores_by(old(ctx).builder, final(ctx).builder, 0),
{
    rmw8_imm_reg(ctx, "sub8", r1, imm);
    proof {
        assert(ctx.builder.code@ =~= old(ctx).builder.code@ + rmw8_imm_reg_code("sub8", r1, imm));
        assert(ctx.builder.frame().live =~= old(ctx).builder.frame().live);
        assert(ctx.builder.frame().live64 =~= old(ctx).builder.frame().live64);
        assert(ctx.builder.frame().ctrl =~= old(ctx).builder.frame().ctrl);
    }
}

/// `xor` of the immediate that follows into a byte in memory.
pub fn instr_80_6_mem_jit(ctx: &mut JitContext, modrm_byte: u8)
    requires
        ready(old(ctx).builder, 8),
    ensures
        emits(*old(ctx), *final(ctx), rmw8_imm_mem_code("xor8", ImmKind::Imm8, modrm_byte, old(ctx).builder.next_local), 1),
        restores_by(old(ctx).builder, final(ctx).builder, 0),
{
    rmw8_imm_mem(ctx, "xor8", ImmKind::Imm8, modrm_byte);
    proof {
        assert(ctx.builder.code@ =~= old(ctx).builder.code@ + rmw8_imm_mem_code("xor8", ImmKind::Imm8, modrm_byte, old(ctx).builder.next_local));
        assert(ctx.builder.frame().live =~= old(ctx).builder.frame().live);
        assert(ctx.builder.frame().live64 =~= old(ctx).builder.frame().live64);
        assert(ctx.builder.frame().ctrl =~= old(ctx).builder.frame().ctrl);
    }
}

/// `xor` of an immediate into the 8-bit register `r1`.
pub fn instr_80_6_reg_jit(ctx: &mut JitContext, r1: u32, imm: u32)
    requires
        ready(old(ctx).builder, 8),
        r1 < 8,
    ensures
        emits(*old(ctx), *final(ctx), rmw8_imm_reg_code("xor8", r1, imm), 0),
        restores_by(old(ctx).builder, final(ctx).builder, 0),
{
    rmw8_imm_reg(ctx, "xor8", r1, imm);
    proof {
        assert(ctx.builder.code@ =~= old(ctx).builder.code@ + rmw8_imm_reg_code("xor8", r1, imm));
        assert(ctx.builder.frame().live =~= old(ctx).builder.frame().live);
        assert(ctx.builder.frame().live64 =~= old(ctx).builder.frame().live64);
        assert(ctx.builder.frame().ctrl =~= old(ctx).builder.frame().ctrl);
    }
}

/// Compares a byte in memory with the immediate that follows.
pub fn instr_80_7_mem_jit(ctx: &mut JitContext, modrm_byte: u8)
    requires
        ready(old(ctx).builder, 8),
    ensures
        emits(*old(ctx), *final(ctx), read8_imm_mem_code(false, ImmKind::Imm8, modrm_byte, old(ctx).builder.next_local), 1),
        restores_by(old(ctx).builder, final(ctx).builder, 0),
{
    read8_imm_mem(ctx, false, ImmKind::Imm8, modrm_byte);
    proof {
        assert(ctx.builder.code@ =~= old(ctx).builder.code@ + read8_imm_mem_code(false, ImmKind::Imm8, modrm_byte, old(ctx).builder.next_local));
        assert(ctx.builder.frame().live =~= old(ctx).builder.frame().live);
        assert(ctx.builder.frame().live64 =~= old(ctx).builder.frame().live64);
        assert(ctx.builder.frame().ctrl =~= old(ctx).builder.frame().ctrl);
    }
}

/// Compares the 8-bit register `r1` with an immediate.
pub fn instr_80_7_reg_jit(ctx: &mut JitContext, r1: u32, imm: u32)
    requires
        ready(old(ctx).builder, 8),
        r1 < 8,
    ensures
        emits(*old(ctx), *final(ctx), read8_imm_reg_code(false, r1, imm, old(ctx).builder.next_local), 1),
        restores_by(old(ctx).builder, final(ctx).builder, 0),
{
    read8_imm_reg(ctx, false, r1, imm);
    proof {
        assert(ctx.builder.code@ =~= old(ctx).builder.code@ + read8_imm_reg_code(false, r1, imm, old(ctx).builder.next_local));
        assert(ctx.builder.frame().live =~= old(ctx).builder.frame().live);
        assert(ctx.builder.frame().live64 =~= old(ctx).builder.frame().live64);
        assert(ctx.builder.frame().ctrl =~= old(ctx).builder.frame().ctrl);
    }
}

/// `add` of the immediate that follows into a byte in memory.
pub fn instr_82_0_mem_jit(ctx: &mut JitContext, modrm_byte: u8)
    requires
        ready(old(ctx).builder, 8),
    ensures
        emits(*old(ctx), *final(ctx), rmw8_imm_mem_code("add8", ImmKind::Imm8, modrm_byte, old(ctx).builder.next_local), 1),
        restores_by(old(ctx).builder, final(ctx).builder, 0),
{
    rmw8_imm_mem(ctx, "add8", ImmKind::Imm8, modrm_byte);
    proof {
        assert(ctx.builder.code@ =~= old(ctx).builder.code@ + rmw8_imm_mem_code("add8", ImmKind::Imm8, modrm_byte, old(ctx).builder.next_local));
        assert(ctx.builder.frame().live =~= old(ctx).builder.frame().live);
        assert(ctx.builder.frame().live64 =~= old(ctx).builder.frame().live64);
        assert(ctx.builder.frame().ctrl =~= old(ctx).builder.frame().ctrl);
    }
}

/// `add` of an immediate into the 8-bit register `r1`.
pub fn instr_82_0_reg_jit(ctx: &mut JitContext, r1: u32, imm: u32)
    requires
        ready(old(ctx).builder, 8),
        r1 < 8,
    ensures
        emits(*old(ctx), *final(ctx), rmw8_imm_reg_code("add8", r1, imm), 0),
        restores_by(old(ctx).builder, final(ctx).builder, 0),
{
    rmw8_imm_reg(ctx, "add8", r1, imm);
    proof {
        assert(ctx.builder.code@ =~= old(ctx).builder.code@ + rmw8_imm_reg_code("add8", r1, imm));
        assert(ctx.builder.frame().live =~= old(ctx).builder.frame().live);
        assert(ctx.builder.frame().live64 =~= old(ctx).builder.frame().live64);
        assert(ctx.builder.frame().ctrl =~= old(ctx).builder.frame().ctrl);
    }
}

/// `or` of the immediate that follows into a byte in memory.
pub fn instr_82_1_mem_jit(ctx: &mut JitContext, modrm_byte: u8)
    requires
        ready(old(ctx).builder, 8),
    ensures
        emits(*old(ctx), *final(ctx), rmw8_imm_mem_code("or8", ImmKind::Imm8, modrm_byte, old(ctx).builder.next_local), 1),
        restores_by(old(ctx).builder, final(ctx).builder, 0),
{
    rmw8_imm_mem(ctx, "or8", ImmKind::Imm8, modrm_byte);
    proof {
        assert(ctx.builder.code@ =~= old(ctx).builder.code@ + rmw8_imm_mem_code("or8", ImmKind::Imm8, modrm_byte, old(ctx).builder.next_local));
        assert(ctx.builder.frame().live =~= old(ctx).builder.frame().live);
        assert(ctx.builder.frame().live64 =~= old(ctx).builder.frame().live64);
        assert(ctx.builder.frame().ctrl =~= old(ctx).builder.frame().ctrl);
    }
}

/// `or` of an immediate into the 8-bit register `r1`.
pub fn instr_82_1_reg_jit(ctx: &mut JitContext, r1: u32, imm: u32)
    requires
        ready(old(ctx).builder, 8),
        r1 < 8,
    ensures
        emits(*old(ctx), *final(ctx), rmw8_imm_reg_code("or8", r1, imm), 0),
        restores_by(old(ctx).builder, final(ctx).builder, 0),
{
    rmw8_imm_reg(ctx, "or8", r1, imm);
    proof {
        assert(ctx.builder.code@ =~= old(ctx).builder.code@ + rmw8_imm_reg_code("or8", r1, imm));
        assert(ctx.builder.frame().live =~= old(ctx).builder.frame().live);
        assert(ctx.builder.frame().live64 =~= old(ctx).builder.frame().live64);
        assert(ctx.builder.frame().ctrl =~= old(ctx).builder.frame().ctrl);
    }
}

/// `adc` of the immediate that follows into a byte in memory.
pub fn instr_82_2_mem_jit(ctx: &mut JitContext, modrm_byte: u8)
    requires
        ready(old(ctx).builder, 8),
    ensures
        emits(*old(ctx), *final(ctx), rmw8_imm_mem_code("adc8", ImmKind::Imm8, modrm_byte, old(ctx).builder.next_local), 1),
        restores_by(old(ctx).builder, final(ctx).builder, 0),
{
    rmw8_imm_mem(ctx, "adc8", ImmKind::Imm8, modrm_byte);
    proof {
        assert(ctx.builder.code@ =~= old(ctx).builder.code@ + rmw8_imm_mem_code("adc8", ImmKind::Imm8, modrm_byte, old(ctx).builder.next_local));
        assert(ctx.builder.frame().live =~= old(ctx).builder.frame().live);
        assert(ctx.builder.frame().live64 =~= old(ctx).builder.frame().live64);
        assert(ctx.builder.frame().ctrl =~= old(ctx).builder.frame().ctrl);
    }
}

/// `adc` of an immediate into the 8-bit register `r1`.
pub fn instr_82_2_reg_jit(ctx: &mut JitContext, r1: u32, imm: u32)
    requires
        ready(old(ctx).builder, 8),
        r1 < 8,
    ensures
        emits(*old(ctx), *final(ctx), rmw8_imm_reg_code("adc8", r1, imm), 0),
        restores_by(old(ctx).builder, final(ctx).builder, 0),
{
    rmw8_imm_reg(ctx, "adc8", r1, imm);
    proof {
        assert(ctx.builder.code@ =~= old(ctx).builder.code@ + rmw8_imm_reg_code("adc8", r1, imm));
        assert(ctx.builder.frame().live =~= old(ctx).builder.frame().live);
        assert(ctx.builder.frame().live64 =~= old(ctx).builder.frame().live64);
        assert(ctx.builder.frame().ctrl =~= old(ctx).builder.frame().ctrl);
    }
}

/// `sbb` of the immediate that follows into a byte in memory.
pub fn instr_82_3_mem_jit(ctx: &mut JitContext, modrm_byte: u8)
    requires
        ready(old(ctx).builder, 8),
    ensures
        emits(*old(ctx), *final(ctx), rmw8_imm_mem_code("sbb8", ImmKind::Imm8, modrm_byte, old(ctx).builder.next_local), 1),
        restores_by(old(ctx).builder, final(ctx).builder, 0),
{
    rmw8_imm_mem(ctx, "sbb8", ImmKind::Imm8, modrm_byte);
    proof {
        assert(ctx.builder.code@ =~= old(ctx).builder.code@ + rmw8_imm_mem_code("sbb8", ImmKind::Imm8, modrm_byte, old(ctx).builder.next_local));
        assert(ctx.builder.frame().live =~= old(ctx).builder.frame().live);
        assert(ctx.builder.frame().live64 =~= old(ctx).builder.frame().live64);
        assert(ctx.builder.frame().ctrl =~= old(ctx).builder.frame().ctrl);
    }
}

/// `sbb` of an immediate into the 8-bit register `r1`.
pub fn instr_82_3_reg_jit(ctx: &mut JitContext, r1: u32, imm: u32)
    requires
        ready(old(ctx).builder, 8),
        r1 < 8,
    ensures
        emits(*old(ctx), *final(ctx), rmw8_imm_reg_code("sbb8", r1, imm), 0),
        restores_by(old(ctx).builder, final(ctx).builder, 0),
{
    rmw8_imm_reg(ctx, "sbb8", r1, imm);
    proof {
        assert(ctx.builder.code@ =~= old(ctx).builder.code@ + rmw8_imm_reg_code("sbb8", r1, imm));
        assert(ctx.builder.frame().live =~= old(ctx).builder.frame().live);
        assert(ctx.builder.frame().live64 =~= old(ctx).builder.frame().live64);
        assert(ctx.builder.frame().ctrl =~= old(ctx).builder.frame().ctrl);
    }
}

/// `and` of the immediate that follows into a byte in memory.
pub fn instr_82_4_mem_jit(ctx: &mut JitContext, modrm_byte: u8)
    requires
        ready(old(ctx).builder, 8),
    ensures
        emits(*old(ctx), *final(ctx), rmw8_imm_mem_code("and8", ImmKind::Imm8, modrm_byte, old(ctx).builder.next_local), 1),
        restores_by(old(ctx).builder, final(ctx).builder, 0),
{
    rmw8_imm_mem(ctx, "and8", ImmKind::Imm8, modrm_byte);
    proof {
        assert(ctx.builder.code@ =~= old(ctx).builder.code@ + rmw8_imm_mem_code("and8", ImmKind::Imm8, modrm_byte, old(ctx).builder.next_local));
        assert(ctx.builder.frame().live =~= old(ctx).builder.frame().live);
        assert(ctx.builder.frame().live64 =~= old(ctx).builder.frame().live64);
        assert(ctx.builder.frame().ctrl =~= old(ctx).builder.frame().ctrl);
    }
}

/// `and` of an immediate into the 8-bit register `r1`.
pub fn instr_82_4_reg_jit(ctx: &mut JitContext, r1: u32, imm: u32)
    requires
        ready(old(ctx).builder, 8),
        r1 < 8,
    ensures
        emits(*old(ctx), *final(ctx), rmw8_imm_reg_code("and8", r1, imm), 0),
        restores_by(old(ctx).builder, final(ctx).builder, 0),
{
    rmw8_imm_reg(ctx, "and8", r1, imm);
    proof {
        assert(ctx.builder.code@ =~= old(ctx).builder.code@ + rmw8_imm_reg_code("and8", r1, imm));
        assert(ctx.builder.frame().live =~= old(ctx).builder.frame().live);
        assert(ctx.builder.frame().live64 =~= old(ctx).builder.frame().live64);
        assert(ctx.builder.frame().ctrl =~= old(ctx).builder.frame().ctrl);
    }
}

/// `sub` of the immediate that follows into a byte in memory.
pub fn instr_82_5_mem_jit(ctx: &mut JitContext, modrm_byte: u8)
    requires
        ready(old(ctx).builder, 8),
    ensures
        emits(*old(ctx), *final(ctx), rmw8_imm_mem_code("sub8", ImmKind::Imm8, modrm_byte, old(ctx).builder.next_local), 1),
        restores_by(old(ctx).builder, final(ctx).builder, 0),
{
    rmw8_imm_mem(ctx, "sub8", ImmKind::Imm8, modrm_byte);
    proof {
        assert(ctx.builder.code@ =~= old(ctx).builder.code@ + rmw8_imm_mem_code("sub8", ImmKind::Imm8, modrm_byte, old(ctx).builder.next_local));
        assert(ctx.builder.frame().live =~= old(ctx).builder.frame().live);
        assert(ctx.builder.frame().live64 =~= old(ctx).builder.frame().live64);
        assert(ctx.builder.frame().ctrl =~= old(ctx).builder.frame().ctrl);
    }
}

/// `sub` of an immediate into the 8-bit register `r1`.
pub fn instr_82_5_reg_jit(ctx: &mut JitContext, r1: u32, imm: u32)
    requires
        ready(old(ctx).builder, 8),
        r1 < 8,
    ensures
        emits(*old(ctx), *final(ctx), rmw8_imm_reg_code("sub8", r1, imm), 0),
        restores_by(old(ctx).builder, final(ctx).builder, 0),
{
    rmw8_imm_reg(ctx, "sub8", r1, imm);
    proof {
        assert(ctx.builder.code@ =~= old(ctx).builder.code@ + rmw8_imm_reg_code("sub8", r1, imm));
        assert(ctx.builder.frame().live =~= old(ctx).builder.frame().live);
        assert(ctx.builder.frame().live64 =~= old(ctx).builder.frame().live64);
        assert(ctx.builder.frame().ctrl =~= old(ctx).builder.frame().ctrl);
    }
}

/// `xor` of the immediate that follows into a byte in memory.
pub fn instr_82_6_mem_jit(ctx: &mut JitContext, modrm_byte: u8)
    requires
        ready(old(ctx).builder, 8),
    ensures
        emits(*old(ctx), *final(ctx), rmw8_imm_mem_code("xor8", ImmKind::Imm8, modrm_byte, old(ctx).builder.next_local), 1),
        restores_by(old(ctx).builder, final(ctx).builder, 0),
{
    rmw8_imm_mem(ctx, "xor8", ImmKind::Imm8, modrm_byte);
    proof {
        assert(ctx.builder.code@ =~= old(ctx).builder.code@ + rmw8_imm_mem_code("xor8", ImmKind::Imm8, modrm_byte, old(ctx).builder.next_local));
        assert(ctx.builder.frame().live =~= old(ctx).builder.frame().live);
        assert(ctx.builder.frame().live64 =~= old(ctx).builder.frame().live64);
        assert(ctx.builder.frame().ctrl =~= old(ctx).builder.frame().ctrl);
    }
}

/// `xor` of an immediate into the 8-bit register `r1`.
pub fn instr_82_6_reg_jit(ctx: &mut JitContext, r1: u32, imm: u32)
    requires
        ready(old(ctx).builder, 8),
        r1 < 8,
    ensures
        emits(*old(ctx), *final(ctx), rmw8_imm_reg_code("xor8", r1, imm), 0),
        restores_by(old(ctx).builder, final(ctx).builder, 0),
{
    rmw8_imm_reg(ctx, "xor8", r1, imm);
    proof {
        assert(ctx.builder.code@ =~= old(ctx).builder.code@ + rmw8_imm_reg_code("xor8", r1, imm));
        assert(ctx.builder.frame().live =~= old(ctx).builder.frame().live);
        assert(ctx.builder.frame().live64 =~= old(ctx).builder.frame().live64);
        assert(ctx.builder.frame().ctrl =~= old(ctx).builder.frame().ctrl);
    }
}

/// Compares a byte in memory with the immediate that follows.
pub fn instr_82_7_mem_jit(ctx: &mut JitContext, modrm_byte: u8)
    requires
        ready(old(ctx).builder, 8),
    ensures
        emits(*old(ctx), *final(ctx), read8_imm_mem_code(false, ImmKind::Imm8, modrm_byte, old(ctx).builder.next_local), 1),
        restores_by(old(ctx).builder, final(ctx).builder, 0),
{
    read8_imm_mem(ctx, false, ImmKind::Imm8, modrm_byte);
    proof {
        assert(ctx.builder.code@ =~= old(ctx).builder.code@ + read8_imm_mem_code(false, ImmKind::Imm8, modrm_byte, old(ctx).builder.next_local));
        assert(ctx.builder.frame().live =~= old(ctx).builder.frame().live);
        assert(ctx.builder.frame().live64 =~= old(ctx).builder.frame().live64);
        assert(ctx.builder.frame().ctrl =~= old(ctx).builder.frame().ctrl);
    }
}

/// Compares the 8-bit register `r1` with an immediate.
pub fn instr_82_7_reg_jit(ctx: &mut JitContext, r1: u32, imm: u32)
    requires
        ready(old(ctx).builder, 8),
        r1 < 8,
    ensures
        emits(*old(ctx), *final(ctx), read8_imm_reg_code(false, r1, imm, old(ctx).builder.next_local), 1),
        restores_by(old(ctx).builder, final(ctx).builder, 0),
{
    read8_imm_reg(ctx, false, r1, imm);
    proof {
        assert(ctx.builder.code@ =~= old(ctx).builder.code@ + read8_imm_reg_code(false, r1, imm, old(ctx).builder.next_local));
        assert(ctx.builder.frame().live =~= old(ctx).builder.frame().live);
        assert(ctx.builder.frame().live64 =~= old(ctx).builder.frame().live64);
        assert(ctx.builder.frame().ctrl =~= old(ctx).builder.frame().ctrl);
    }
}

/// `add` of the immediate that follows into a word in memory.
pub fn instr16_81_0_mem_jit(ctx: &mut JitContext, modrm_byte: u8)
    requires
        ready(old(ctx).builder, 8),
    ensures
        emits(*old(ctx), *final(ctx), rmw16_imm_mem_code("add16", ImmKind::Imm16, modrm_byte, old(ctx).builder.next_local), 1),
        restores_by(old(ctx).builder, final(ctx).builder, 0),
{
    rmw16_imm_mem(ctx, "add16", ImmKind::Imm16, modrm_byte);
    proof {
        assert(ctx.builder.code@ =~= old(ctx).builder.code@ + rmw16_imm_mem_code("add16", ImmKind::Imm16, modrm_byte, old(ctx).builder.next_local));
        assert(ctx.builder.frame().live =~= old(ctx).builder.frame().live);
        assert(ctx.builder.frame().live64 =~= old(ctx).builder.frame().live64);
        assert(ctx.builder.frame().ctrl =~= old(ctx).builder.frame().ctrl);
    }
}

/// `add` of an immediate into the 16-bit register `r1`.
pub fn instr16_81_0_reg_jit(ctx: &mut JitContext, r1: u32, imm: u32)
    requires
        ready(old(ctx).builder, 8),
        r1 < 8,
    ensures
        emits(*old(ctx), *final(ctx), rmw16_imm_reg_code("add16", r1, imm), 0),
        restores_by(old(ctx).builder, final(ctx).builder, 0),
{
    rmw16_imm_reg(ctx, "add16", r1, imm);
    proof {
        assert(ctx.builder.code@ =~= old(ctx).builder.code@ + rmw16_imm_reg_code("add16", r1, imm));
        assert(ctx.builder.frame().live =~= old(ctx).builder.frame().live);
        assert(ctx.builder.frame().live64 =~= old(ctx).builder.frame().live64);
        assert(ctx.builder.frame().ctrl =~= old(ctx).builder.frame().ctrl);
    }
}

/// `add` of the immediate that follows into a doubleword in memory.
pub fn instr32_81_0_mem_jit(ctx: &mut JitContext, modrm_byte: u8)
    requires
        ready(old(ctx).builder, 8),
    ensures
        emits(*old(ctx), *final(ctx), rmw32_alu_imm_mem_code(Alu32::Add, ImmKind::Imm32, modrm_byte, old(ctx).builder.next_local), 2),
        restores_by(old(ctx).builder, final(ctx).builder, 0),
{
    rmw32_alu_imm_mem(ctx, Alu32::Add, ImmKind::Imm32, modrm_byte);
    proof {
        assert(ctx.builder.code@ =~= old(ctx).builder.code@ + rmw32_alu_imm_mem_code(Alu32::Add, ImmKind::Imm32, modrm_byte, old(ctx).builder.next_local));
        assert(ctx.builder.frame().live =~= old(ctx).builder.frame().live);
        assert(ctx.builder.frame().live64 =~= old(ctx).builder.frame().live64);
        assert(ctx.builder.frame().ctrl =~= old(ctx).builder.frame().ctrl);
    }
}

/// `add` of an immediate into register `r1`.
pub fn instr32_81_0_reg_jit(ctx: &mut JitContext, r1: u32, imm: u32)
    requires
        ready(old(ctx).builder, 8),
        r1 < 8,
    ensures
        emits(*old(ctx), *final(ctx), rmw32_alu_imm_reg_code(Alu32::Add, r1, imm), 0),
        restores_by(old(ctx).builder, final(ctx).builder, 0),
{
    rmw32_alu_imm_reg(ctx, Alu32::Add, r1, imm);
    proof {
        assert(ctx.builder.code@ =~= old(ctx).builder.code@ + rmw32_alu_imm_reg_code(Alu32::Add, r1, imm));
        assert(ctx.builder.frame().live =~= old(ctx).builder.frame().live);
        assert(ctx.builder.frame().live64 =~= old(ctx).builder.frame().live64);
        assert(ctx.builder.frame().ctrl =~= old(ctx).builder.frame().ctrl);
    }
}

/// `or` of the immediate that follows into a word in memory.
pub fn instr16_81_1_mem_jit(ctx: &mut JitContext, modrm_byte: u8)
    requires
        ready(old(ctx).builder, 8),
    ensures
        emits(*old(ctx), *final(ctx), rmw16_imm_mem_code("or16", ImmKind::Imm16, modrm_byte, old(ctx).builder.next_local), 1),
        restores_by(old(ctx).builder, final(ctx).builder, 0),
{
    rmw16_imm_mem(ctx, "or16", ImmKind::Imm16, modrm_byte);
    proof {
        assert(ctx.builder.code@ =~= old(ctx).builder.code@ + rmw16_imm_mem_code("or16", ImmKind::Imm16, modrm_byte, old(ctx).builder.next_local));
        assert(ctx.builder.frame().live =~= old(ctx).builder.frame().live);
        assert(ctx.builder.frame().live64 =~= old(ctx).builder.frame().live64);
        assert(ctx.builder.frame().ctrl =~= old(ctx).builder.frame().ctrl);
    }
}

/// `or` of an immediate into the 16-bit register `r1`.
pub fn instr16_81_1_reg_jit(ctx: &mut JitContext, r1: u32, imm: u32)
    requires
        ready(old(ctx).builder, 8),
        r1 < 8,
    ensures
        emits(*old(ctx), *final(ctx), rmw16_imm_reg_code("or16", r1, imm), 0),
        restores_by(old(ctx).builder, final(ctx).builder, 0),
{
    rmw16_imm_reg(ctx, "or16", r1, imm);
    proof {
        assert(ctx.builder.code@ =~= old(ctx).builder.code@ + rmw16_imm_reg_code("or16", r1, imm));
        assert(ctx.builder.frame().live =~= old(ctx).builder.frame().live);
        assert(ctx.builder.frame().live64 =~= old(ctx).builder.frame().live64);
        assert(ctx.builder.frame().ctrl =~= old(ctx).builder.frame().ctrl);
    }
}

/// `or` of the immediate that follows into a doubleword in memory.
pub fn instr32_81_1_mem_jit(ctx: &mut JitContext, modrm_byte: u8)
    requires
        ready(old(ctx).builder, 8),
    ensures
        emits(*old(ctx), *final(ctx), rmw32_alu_imm_mem_code(Alu32::Or, ImmKind::Imm32, modrm_byte, old(ctx).builder.next_local), 2),
        restores_by(old(ctx).builder, final(ctx).builder, 0),
{
    rmw32_alu_imm_mem(ctx, Alu32::Or, ImmKind::Imm32, modrm_byte);
    proof {
        assert(ctx.builder.code@ =~= old(ctx).builder.code@ + rmw32_alu_imm_mem_code(Alu32::Or, ImmKind::Imm32, modrm_byte, old(ctx).builder.next_local));
        assert(ctx.builder.frame().live =~= old(ctx).builder.frame().live);
        assert(ctx.builder.frame().live64 =~= old(ctx).builder.frame().live64);
        assert(ctx.builder.frame().ctrl =~= old(ctx).builder.frame().ctrl);
    }
}

/// `or` of an immediate into register `r1`.
pub fn instr32_81_1_reg_jit(ctx: &mut JitContext, r1: u32, imm: u32)
    requires
        ready(old(ctx).builder, 8),
        r1 < 8,
    ensures
        emits(*old(ctx), *final(ctx), rmw32_alu_imm_reg_code(Alu32::Or, r1, imm), 0),
        restores_by(old(ctx).builder, final(ctx).builder, 0),
{
    rmw32_alu_imm_reg(ctx, Alu32::Or, r1, imm);
    proof {
        assert(ctx.builder.code@ =~= old(ctx).builder.code@ + rmw32_alu_imm_reg_code(Alu32::Or, r1, imm));
        assert(ctx.builder.frame().live =~= old(ctx).builder.frame().live);
        assert(ctx.builder.frame().live64 =~= old(ctx).builder.frame().live64);
        assert(ctx.builder.frame().ctrl =~= old(ctx).builder.frame().ctrl);
    }
}

/// `adc` of the immediate that follows into a word in memory.
pub fn instr16_81_2_mem_jit(ctx: &mut JitContext, modrm_byte: u8)
    requires
        ready(old(ctx).builder, 8),
    ensures
        emits(*old(ctx), *final(ctx), rmw16_imm_mem_code("adc16", ImmKind::Imm16, modrm_byte, old(ctx).builder.next_local), 1),
        restores_by(old(ctx).builder, final(ctx).builder, 0),
{
    rmw16_imm_mem(ctx, "adc16", ImmKind::Imm16, modrm_byte);
    proof {
        assert(ctx.builder.code@ =~= old(ctx).builder.code@ + rmw16_imm_mem_code("adc16", ImmKind::Imm16, modrm_byte, old(ctx).builder.next_local));
        assert(ctx.builder.frame().live =~= old(ctx).builder.frame().live);
        assert(ctx.builder.frame().live64 =~= old(ctx).builder.frame().live64);
        assert(ctx.builder.frame().ctrl =~= old(ctx).builder.frame().ctrl);
    }
}

/// `adc` of an immediate into the 16-bit register `r1`.
pub fn instr16_81_2_reg_jit(ctx: &mut JitContext, r1: u32, imm: u32)
    requires
        ready(old(ctx).builder, 8),
        r1 < 8,
    ensures
        emits(*old(ctx), *final(ctx), rmw16_imm_reg_code("adc16", r1, imm), 0),
        restores_by(old(ctx).builder, final(ctx).builder, 0),
{
    rmw16_imm_reg(ctx, "adc16", r1, imm);
    proof {
        assert(ctx.builder.code@ =~= old(ctx).builder.code@ + rmw16_imm_reg_code("adc16", r1, imm));
        assert(ctx.builder.frame().live =~= old(ctx).builder.frame().live);
        assert(ctx.builder.frame().live64 =~= old(ctx).builder.frame().live64);
        assert(ctx.builder.frame().ctrl =~= old(ctx).builder.frame().ctrl);
    }
}

/// `adc` of the immediate that follows into a doubleword in memory.
pub fn instr32_81_2_mem_jit(ctx: &mut JitContext, modrm_byte: u8)
    requires
        ready(old(ctx).builder, 8),
    ensures
        emits(*old(ctx), *final(ctx), rmw32_alu_imm_mem_code(Alu32::Adc, ImmKind::Imm32, modrm_byte, old(ctx).builder.next_local), 2),
        restores_by(old(ctx).builder, final(ctx).builder, 0),
{
    rmw32_alu_imm_mem(ctx, Alu32::Adc, ImmKind::Imm32, modrm_byte);
    proof {
        assert(ctx.builder.code@ =~= old(ctx).builder.code@ + rmw32_alu_imm_mem_code(Alu32::Adc, ImmKind::Imm32, modrm_byte, old(ctx).builder.next_local));
        assert(ctx.builder.frame().live =~= old(ctx).builder.frame().live);
        assert(ctx.builder.frame().live64 =~= old(ctx).builder.frame().live64);
        assert(ctx.builder.frame().ctrl =~= old(ctx).builder.frame().ctrl);
    }
}

/// `adc` of an immediate into register `r1`.
pub fn instr32_81_2_reg_jit(ctx: &mut JitContext, r1: u32, imm: u32)
    requires
        ready(old(ctx).builder, 8),
        r1 < 8,
    ensures
        emits(*old(ctx), *final(ctx), rmw32_alu_imm_reg_code(Alu32::Adc, r1, imm), 0),
        restores_by(old(ctx).builder, final(ctx).builder, 0),
{
    rmw32_alu_imm_reg(ctx, Alu32::Adc, r1, imm);
    proof {
        assert(ctx.builder.code@ =~= old(ctx).builder.code@ + rmw32_alu_imm_reg_code(Alu32::Adc, r1, imm));
        assert(ctx.builder.frame().live =~= old(ctx).builder.frame().live);
        assert(ctx.builder.frame().live64 =~= old(ctx).builder.frame().live64);
        assert(ctx.builder.frame().ctrl =~= old(ctx).builder.frame().ctrl);
    }
}

/// `sbb` of the immediate that follows into a word in memory.
pub fn instr16_81_3_mem_jit(ctx: &mut JitContext, modrm_byte: u8)
    requires
        ready(old(ctx).builder, 8),
    ensures
        emits(*old(ctx), *final(ctx), rmw16_imm_mem_code("sbb16", ImmKind::Imm16, modrm_byte, old(ctx).builder.next_local), 1),
        restores_by(old(ctx).builder, final(ctx).builder, 0),
{
    rmw16_imm_mem(ctx, "sbb16", ImmKind::Imm16, modrm_byte);
    proof {
        assert(ctx.builder.code@ =~= old(ctx).builder.code@ + rmw16_imm_mem_code("sbb16", ImmKind::Imm16, modrm_byte, old(ctx).builder.next_local));
        assert(ctx.builder.frame().live =~= old(ctx).builder.frame().live);
        assert(ctx.builder.frame().live64 =~= old(ctx).builder.frame().live64);
        assert(ctx.builder.frame().ctrl =~= old(ctx).builder.frame().ctrl);
    }
}

/// `sbb` of an immediate into the 16-bit register `r1`.
pub fn instr16_81_3_reg_jit(ctx: &mut JitContext, r1: u32, imm: u32)
    requires
        ready(old(ctx).builder, 8),
        r1 < 8,
    ensures
        emits(*old(ctx), *final(ctx), rmw16_imm_reg_code("sbb16", r1, imm), 0),
        restores_by(old(ctx).builder, final(ctx).builder, 0),
{
    rmw16_imm_reg(ctx, "sbb16", r1, imm);
    proof {
        assert(ctx.builder.code@ =~= old(ctx).builder.code@ + rmw16_imm_reg_code("sbb16", r1, imm));
        assert(ctx.builder.frame().live =~= old(ctx).builder.frame().live);
        assert(ctx.builder.frame().live64 =~= old(ctx).builder.frame().live64);
        assert(ctx.builder.frame().ctrl =~= old(ctx).builder.frame().ctrl);
    }
}

/// `sbb` of the immediate that follows into a doubleword in memory.
pub fn instr32_81_3_mem_jit(ctx: &mut JitContext, modrm_byte: u8)
    requires
        ready(old(ctx).builder, 8),
    ensures
        emits(*old(ctx), *final(ctx), rmw32_alu_imm_mem_code(Alu32::Sbb, ImmKind::Imm32, modrm_byte, old(ctx).builder.next_local), 2),
        restores_by(old(ctx).builder, final(ctx).builder, 0),
{
    rmw32_alu_imm_mem(ctx, Alu32::Sbb, ImmKind::Imm32, modrm_byte);
    proof {
        assert(ctx.builder.code@ =~= old(ctx).builder.code@ + rmw32_alu_imm_mem_code(Alu32::Sbb, ImmKind::Imm32, modrm_byte, old(ctx).builder.next_local));
        assert(ctx.builder.frame().live =~= old(ctx).builder.frame().live);
        assert(ctx.builder.frame().live64 =~= old(ctx).builder.frame().live64);
        assert(ctx.builder.frame().ctrl =~= old(ctx).builder.frame().ctrl);
    }
}

/// `sbb` of an immediate into register `r1`.
pub fn instr32_81_3_reg_jit(ctx: &mut JitContext, r1: u32, imm: u32)
    requires
        ready(old(ctx).builder, 8),
        r1 < 8,
    ensures
        emits(*old(ctx), *final(ctx), rmw32_alu_imm_reg_code(Alu32::Sbb, r1, imm), 0),
        restores_by(old(ctx).builder, final(ctx).builder, 0),
{
    rmw32_alu_imm_reg(ctx, Alu32::Sbb, r1, imm);
    proof {
        assert(ctx.builder.code@ =~= old(ctx).builder.code@ + rmw32_alu_imm_reg_code(Alu32::Sbb, r1, imm));
        assert(ctx.builder.frame().live =~= old(ctx).builder.frame().live);
        assert(ctx.builder.frame().live64 =~= old(ctx).builder.frame().live64);
        assert(ctx.builder.frame().ctrl =~= old(ctx).builder.frame().ctrl);
    }
}

/// `and` of the immediate that follows into a word in memory.
pub fn instr16_81_4_mem_jit(ctx: &mut JitContext, modrm_byte: u8)
    requires
        ready(old(ctx).builder, 8),
    ensures
        emits(*old(ctx), *final(ctx), rmw16_imm_mem_code("and16", ImmKind::Imm16, modrm_byte, old(ctx).builder.next_local), 1),
        restores_by(old(ctx).builder, final(ctx).builder, 0),
{
    rmw16_imm_mem(ctx, "and16", ImmKind::Imm16, modrm_byte);
    proof {
        assert(ctx.builder.code@ =~= old(ctx).builder.code@ + rmw16_imm_mem_code("and16", ImmKind::Imm16, modrm_byte, old(ctx).builder.next_local));
        assert(ctx.builder.frame().live =~= old(ctx).builder.frame().live);
        assert(ctx.builder.frame().live64 =~= old(ctx).builder.frame().live64);
        assert(ctx.builder.frame().ctrl =~= old(ctx).builder.frame().ctrl);
    }
}

/// `and` of an immediate into the 16-bit register `r1`.
pub fn instr16_81_4_reg_jit(ctx: &mut JitContext, r1: u32, imm: u32)
    requires
        ready(old(ctx).builder, 8),
        r1 < 8,
    ensures
        emits(*old(ctx), *final(ctx), rmw16_imm_reg_code("and16", r1, imm), 0),
        restores_by(old(ctx).builder, final(ctx).builder, 0),
{
    rmw16_imm_reg(ctx, "and16", r1, imm);
    proof {
        assert(ctx.builder.code@ =~= old(ctx).builder.code@ + rmw16_imm_reg_code("and16", r1, imm));
        assert(ctx.builder.frame().live =~= old(ctx).builder.frame().live);
        assert(ctx.builder.frame().live64 =~= old(ctx).builder.frame().live64);
        assert(ctx.builder.frame().ctrl =~= old(ctx).builder.frame().ctrl);
    }
}

/// `and` of the immediate that follows into a doubleword in memory.
pub fn instr32_81_4_mem_jit(ctx: &mut JitContext, modrm_byte: u8)
    requires
        ready(old(ctx).builder, 8),
    ensures
        emits(*old(ctx), *final(ctx), rmw32_alu_imm_mem_code(Alu32::And, ImmKind::Imm32, modrm_byte, old(ctx).builder.next_local), 2),
        restores_by(old(ctx).builder, final(ctx).builder, 0),
{
    rmw32_alu_imm_mem(ctx, Alu32::And, ImmKind::Imm32, modrm_byte);
    proof {
        assert(ctx.builder.code@ =~= old(ctx).builder.code@ + rmw32_alu_imm_mem_code(Alu32::And, ImmKind::Imm32, modrm_byte, old(ctx).builder.next_local));
        assert(ctx.builder.frame().live =~= old(ctx).builder.frame().live);
        assert(ctx.builder.frame().live64 =~= old(ctx).builder.frame().live64);
        assert(ctx.builder.frame().ctrl =~= old(ctx).builder.frame().ctrl);
    }
}

/// `and` of an immediate into register `r1`.
pub fn instr32_81_4_reg_jit(ctx: &mut JitContext, r1: u32, imm: u32)
    requires
        ready(old(ctx).builder, 8),
        r1 < 8,
    ensures
        emits(*old(ctx), *final(ctx), rmw32_alu_imm_reg_code(Alu32::And, r1, imm), 0),
        restores_by(old(ctx).builder, final(ctx).builder, 0),
{
    rmw32_alu_imm_reg(ctx, Alu32::And, r1, imm);
    proof {
        assert(ctx.builder.code@ =~= old(ctx).builder.code@ + rmw32_alu_imm_reg_code(Alu32::And, r1, imm));
        assert(ctx.builder.frame().live =~= old(ctx).builder.frame().live);
        assert(ctx.builder.frame().live64 =~= old(ctx).builder.frame().live64);
        assert(ctx.builder.frame().ctrl =~= old(ctx).builder.frame().ctrl);
    }
}

/// `sub` of the immediate that follows into a word in memory.
pub fn instr16_81_5_mem_jit(ctx: &mut JitContext, modrm_byte: u8)
    requires
        ready(old(ctx).builder, 8),
    ensures
        emits(*old(ctx), *final(ctx), rmw16_imm_mem_code("sub16", ImmKind::Imm16, modrm_byte, old(ctx).builder.next_local), 1),
        restores_by(old(ctx).builder, final(ctx).builder, 0),
{
    rmw16_imm_mem(ctx, "sub16", ImmKind::Imm16, modrm_byte);
    proof {
        assert(ctx.builder.code@ =~= old(ctx).builder.code@ + rmw16_imm_mem_code("sub16", ImmKind::Imm16, modrm_byte, old(ctx).builder.next_local));
        assert(ctx.builder.frame().live =~= old(ctx).builder.frame().live);
        assert(ctx.builder.frame().live64 =~= old(ctx).builder.frame().live64);
        assert(ctx.builder.frame().ctrl =~= old(ctx).builder.frame().ctrl);
    }
}

/// `sub` of an immediate into the 16-bit register `r1`.
pub fn instr16_81_5_reg_jit(ctx: &mut JitContext, r1: u32, imm: u32)
    requires
        ready(old(ctx).builder, 8),
        r1 < 8,
    ensures
        emits(*old(ctx), *final(ctx), rmw16_imm_reg_code("sub16", r1, imm), 0),
        restores_by(old(ctx).builder, final(ctx).builder, 0),
{
    rmw16_imm_reg(ctx, "sub16", r1, imm);
    proof {
        assert(ctx.builder.code@ =~= old(ctx).builder.code@ + rmw16_imm_reg_code("sub16", r1, imm));
        assert(ctx.builder.frame().live =~= old(ctx).builder.frame().live);
        assert(ctx.builder.frame().live64 =~= old(ctx).builder.frame().live64);
        assert(ctx.builder.frame().ctrl =~= old(ctx).builder.frame().ctrl);
    }
}

/// `sub` of the immediate that follows into a doubleword in memory.
pub fn instr32_81_5_mem_jit(ctx: &mut JitContext, modrm_byte: u8)
    requires
        ready(old(ctx).builder, 8),
    ensures
        emits(*old(ctx), *final(ctx), rmw32_alu_imm_mem_code(Alu32::Sub, ImmKind::Imm32, modrm_byte, old(ctx).builder.next_local), 2),
        restores_by(old(ctx).builder, final(ctx).builder, 0),
{
    rmw32_alu_imm_mem(ctx, Alu32::Sub, ImmKind::Imm32, modrm_byte);
    proof {
        assert(ctx.builder.code@ =~= old(ctx).builder.code@ + rmw32_alu_imm_mem_code(Alu32::Sub, ImmKind::Imm32, modrm_byte, old(ctx).builder.next_local));
        assert(ctx.builder.frame().live =~= old(ctx).builder.frame().live);
        assert(ctx.builder.frame().live64 =~= old(ctx).builder.frame().live64);
        assert(ctx.builder.frame().ctrl =~= old(ctx).builder.frame().ctrl);
    }
}

/// `sub` of an immediate into register `r1`.
pub fn instr32_81_5_reg_jit(ctx: &mut JitContext, r1: u32, imm: u32)
    requires
        ready(old(ctx).builder, 8),
        r1 < 8,
    ensures
        emits(*old(ctx), *final(ctx), rmw32_alu_imm_reg_code(Alu32::Sub, r1, imm), 0),
        restores_by(old(ctx).builder, final(ctx).builder, 0),
{
    rmw32_alu_imm_reg(ctx, Alu32::Sub, r1, imm);
    proof {
        assert(ctx.builder.code@ =~= old(ctx).builder.code@ + rmw32_alu_imm_reg_code(Alu32::Sub, r1, imm));
        assert(ctx.builder.frame().live =~= old(ctx).builder.frame().live);
        assert(ctx.builder.frame().live64 =~= old(ctx).builder.frame().live64);
        assert(ctx.builder.frame().ctrl =~= old(ctx).builder.frame().ctrl);
    }
}

/// `xor` of the immediate that follows into a word in memory.
pub fn instr16_81_6_mem_jit(ctx: &mut JitContext, modrm_byte: u8)
    requires
        ready(old(ctx).builder, 8),
    ensures
        emits(*old(ctx), *final(ctx), rmw16_imm_mem_code("xor16", ImmKind::Imm16, modrm_byte, old(ctx).builder.next_local), 1),
        restores_by(old(ctx).builder, final(ctx).builder, 0),
{
    rmw16_imm_mem(ctx, "xor16", ImmKind::Imm16, modrm_byte);
    proof {
        assert(ctx.builder.code@ =~= old(ctx).builder.code@ + rmw16_imm_mem_code("xor16", ImmKind::Imm16, modrm_byte, old(ctx).builder.next_local));
        assert(ctx.builder.frame().live =~= old(ctx).builder.frame().live);
        assert(ctx.builder.frame().live64 =~= old(ctx).builder.frame().live64);
        assert(ctx.builder.frame().ctrl =~= old(ctx).builder.frame().ctrl);
    }
}

/// `xor` of an immediate into the 16-bit register `r1`.
pub fn instr16_81_6_reg_jit(ctx: &mut JitContext, r1: u32, imm: u32)
    requires
        ready(old(ctx).builder, 8),
        r1 < 8,
    ensures
        emits(*old(ctx), *final(ctx), rmw16_imm_reg_code("xor16", r1, imm), 0),
        restores_by(old(ctx).builder, final(ctx).builder, 0),
{
    rmw16_imm_reg(ctx, "xor16", r1, imm);
    proof {
        assert(ctx.builder.code@ =~= old(ctx).builder.code@ + rmw16_imm_reg_code("xor16", r1, imm));
        assert(ctx.builder.frame().live =~= old(ctx).builder.frame().live);
        assert(ctx.builder.frame().live64 =~= old(ctx).builder.frame().live64);
        assert(ctx.builder.frame().ctrl =~= old(ctx).builder.frame().ctrl);
    }
}

/// `xor` of the immediate that follows into a doubleword in memory.
pub fn instr32_81_6_mem_jit(ctx: &mut JitContext, modrm_byte: u8)
    requires
        ready(old(ctx).builder, 8),
    ensures
        emits(*old(ctx), *final(ctx), rmw32_alu_imm_mem_code(Alu32::Xor, ImmKind::Imm32, modrm_byte, old(ctx).builder.next_local), 2),
        restores_by(old(ctx).builder, final(ctx).builder, 0),
{
    rmw32_alu_imm_mem(ctx, Alu32::Xor, ImmKind::Imm32, modrm_byte);
    proof {
        assert(ctx.builder.code@ =~= old(ctx).builder.code@ + rmw32_alu_imm_mem_code(Alu32::Xor, ImmKind::Imm32, modrm_byte, old(ctx).builder.next_local));
        assert(ctx.builder.frame().live =~= old(ctx).builder.frame().live);
        assert(ctx.builder.frame().live64 =~= old(ctx).builder.frame().live64);
        assert(ctx.builder.frame().ctrl =~= old(ctx).builder.frame().ctrl);
    }
}

/// `xor` of an immediate into register `r1`.
pub fn instr32_81_6_reg_jit(ctx: &mut JitContext, r1: u32, imm: u32)
    requires
        ready(old(ctx).builder, 8),
        r1 < 8,
    ensures
        emits(*old(ctx), *final(ctx), rmw32_alu_imm_reg_code(Alu32::Xor, r1, imm), 0),
        restores_by(old(ctx).builder, final(ctx).builder, 0),
{
    rmw32_alu_imm_reg(ctx, Alu32::Xor, r1, imm);
    proof {
        assert(ctx.builder.code@ =~= old(ctx).builder.code@ + rmw32_alu_imm_reg_code(Alu32::Xor, r1, imm));
        assert(ctx.builder.frame().live =~= old(ctx).builder.frame().live);
        assert(ctx.builder.frame().live64 =~= old(ctx).builder.frame().live64);
        assert(ctx.builder.frame().ctrl =~= old(ctx).builder.frame().ctrl);
    }
}

/// Compares a word in memory with the immediate that follows.
pub fn instr16_81_7_mem_jit(ctx: &mut JitContext, modrm_byte: u8)
    requires
        ready(old(ctx).builder, 8),
    ensures
        emits(*old(ctx), *final(ctx), read16_imm_mem_code(false, ImmKind::Imm16, modrm_byte, old(ctx).builder.next_local), 1),
        restores_by(old(ctx).builder, final(ctx).builder, 0),
{
    read16_imm_mem(ctx, false, ImmKind::Imm16, modrm_byte);
    proof {
        assert(ctx.builder.code@ =~= old(ctx).builder.code@ + read16_imm_mem_code(false, ImmKind::Imm16, modrm_byte, old(ctx).builder.next_local));
        assert(ctx.builder.frame().live =~= old(ctx).builder.frame().live);
        assert(ctx.builder.frame().live64 =~= old(ctx).builder.frame().live64);
        assert(ctx.builder.frame().ctrl =~= old(ctx).builder.frame().ctrl);
    }
}

/// Compares the 16-bit register `r` with an immediate.
pub fn instr16_81_7_reg_jit(ctx: &mut JitContext, r: u32, imm: u32)
    requires
        ready(old(ctx).builder, 8),
        r < 8,
    ensures
        emits(*old(ctx), *final(ctx), read16_imm_reg_code(false, r, imm), 0),
        restores_by(old(ctx).builder, final(ctx).builder, 0),
{
    read16_imm_reg(ctx, false, r, imm);
    proof {
        assert(ctx.builder.code@ =~= old(ctx).builder.code@ + read16_imm_reg_code(false, r, imm));
        assert(ctx.builder.frame().live =~= old(ctx).builder.frame().live);
        assert(ctx.builder.frame().live64 =~= old(ctx).builder.frame().live64);
        assert(ctx.builder.frame().ctrl =~= old(ctx).builder.frame().ctrl);
    }
}

/// Compares a doubleword in memory with the immediate that follows.
pub fn instr32_81_7_mem_jit(ctx: &mut JitContext, modrm_byte: u8)
    requires
        ready(old(ctx).builder, 8),
    ensures
        emits(*old(ctx), *final(ctx), read32_imm_mem_code(false, ImmKind::Imm32, modrm_byte, old(ctx).builder.next_local), 1),
        restores_by(old(ctx).builder, final(ctx).builder, 0),
{
    read32_imm_mem(ctx, false, ImmKind::Imm32, modrm_byte);
    proof {
        assert(ctx.builder.code@ =~= old(ctx).builder.code@ + read32_imm_mem_code(false, ImmKind::Imm32, modrm_byte, old(ctx).builder.next_local));
        assert(ctx.builder.frame().live =~= old(ctx).builder.frame().live);
        assert(ctx.builder.frame().live64 =~= old(ctx).builder.frame().live64);
        assert(ctx.builder.frame().ctrl =~= old(ctx).builder.frame().ctrl);
    }
}

/// Compares register `r` with an immediate.
pub fn instr32_81_7_reg_jit(ctx: &mut JitContext, r: u32, imm: u32)
    requires
        ready(old(ctx).builder, 8),
        r < 8,
    ensures
        emits(*old(ctx), *final(ctx), read32_imm_reg_code(false, r, imm), 0),
        restores_by(old(ctx).builder, final(ctx).builder, 0),
{
    read32_imm_reg(ctx, false, r, imm);
    proof {
        assert(ctx.builder.code@ =~= old(ctx).builder.code@ + read32_imm_reg_code(false, r, imm));
        assert(ctx.builder.frame().live =~= old(ctx).builder.frame().live);
        assert(ctx.builder.frame().live64 =~= old(ctx).builder.frame().live64);
        assert(ctx.builder.frame().ctrl =~= old(ctx).builder.frame().ctrl);
    }
}

/// `add` of the immediate that follows into a word in memory.
pub fn instr16_83_0_mem_jit(ctx: &mut JitContext, modrm_byte: u8)
    requires
        ready(old(ctx).builder, 8),
    ensures
        emits(*old(ctx), *final(ctx), rmw16_imm_mem_code("add16", ImmKind::Imm8s, modrm_byte, old(ctx).builder.next_local), 1),
        restores_by(old(ctx).builder, final(ctx).builder, 0),
{
    rmw16_imm_mem(ctx, "add16", ImmKind::Imm8s, modrm_byte);
    proof {
        assert(ctx.builder.code@ =~= old(ctx).builder.code@ + rmw16_imm_mem_code("add16", ImmKind::Imm8s, modrm_byte, old(ctx).builder.next_local));
        assert(ctx.builder.frame().live =~= old(ctx).builder.frame().live);
        assert(ctx.builder.frame().live64 =~= old(ctx).builder.frame().live64);
        assert(ctx.builder.frame().ctrl =~= old(ctx).builder.frame().ctrl);
    }
}

/// `add` of an immediate into the 16-bit register `r1`.
pub fn instr16_83_0_reg_jit(ctx: &mut JitContext, r1: u32, imm: u32)
    requires
        ready(old(ctx).builder, 8),
        r1 < 8,
    ensures
        emits(*old(ctx), *final(ctx), rmw16_imm_reg_code("add16", r1, imm), 0),
        restores_by(old(ctx).builder, final(ctx).builder, 0),
{
    rmw16_imm_reg(ctx, "add16", r1, imm);
    proof {
        assert(ctx.builder.code@ =~= old(ctx).builder.code@ + rmw16_imm_reg_code("add16", r1, imm));
        assert(ctx.builder.frame().live =~= old(ctx).builder.frame().live);
        assert(ctx.builder.frame().live64 =~= old(ctx).builder.frame().live64);
        assert(ctx.builder.frame().ctrl =~= old(ctx).builder.frame().ctrl);
    }
}

/// `add` of the immediate that follows into a doubleword in memory.
pub fn instr32_83_0_mem_jit(ctx: &mut JitContext, modrm_byte: u8)
    requires
        ready(old(ctx).builder, 8),
    ensures
        emits(*old(ctx), *final(ctx), rmw32_alu_imm_mem_code(Alu32::Add, ImmKind::Imm8s, modrm_byte, old(ctx).builder.next_local), 2),
        restores_by(old(ctx).builder, final(ctx).builder, 0),
{
    rmw32_alu_imm_mem(ctx, Alu32::Add, ImmKind::Imm8s, modrm_byte);
    proof {
        assert(ctx.builder.code@ =~= old(ctx).builder.code@ + rmw32_alu_imm_mem_code(Alu32::Add, ImmKind::Imm8s, modrm_byte, old(ctx).builder.next_local));
        assert(ctx.builder.frame().live =~= old(ctx).builder.frame().live);
        assert(ctx.builder.frame().live64 =~= old(ctx).builder.frame().live64);
        assert(ctx.builder.frame().ctrl =~= old(ctx).builder.frame().ctrl);
    }
}

/// `add` of an immediate into register `r1`.
pub fn instr32_83_0_reg_jit(ctx: &mut JitContext, r1: u32, imm: u32)
    requires
        ready(old(ctx).builder, 8),
        r1 < 8,
    ensures
        emits(*old(ctx), *final(ctx), rmw32_alu_imm_reg_code(Alu32::Add, r1, imm), 0),
        restores_by(old(ctx).builder, final(ctx).builder, 0),
{
    rmw32_alu_imm_reg(ctx, Alu32::Add, r1, imm);
    proof {
        assert(ctx.builder.code@ =~= old(ctx).builder.code@ + rmw32_alu_imm_reg_code(Alu32::Add, r1, imm));
        assert(ctx.builder.frame().live =~= old(ctx).builder.frame().live);
        assert(ctx.builder.frame().live64 =~= old(ctx).builder.frame().live64);
        assert(ctx.builder.frame().ctrl =~= old(ctx).builder.frame().ctrl);
    }
}

/// `or` of the immediate that follows into a word in memory.
pub fn instr16_83_1_mem_jit(ctx: &mut JitContext, modrm_byte: u8)
    requires
        ready(old(ctx).builder, 8),
    ensures
        emits(*old(ctx), *final(ctx), rmw16_imm_mem_code("or16", ImmKind::Imm8s, modrm_byte, old(ctx).builder.next_local), 1),
        restores_by(old(ctx).builder, final(ctx).builder, 0),
{
    rmw16_imm_mem(ctx, "or16", ImmKind::Imm8s, modrm_byte);
    proof {
        assert(ctx.builder.code@ =~= old(ctx).builder.code@ + rmw16_imm_mem_code("or16", ImmKind::Imm8s, modrm_byte, old(ctx).builder.next_local));
        assert(ctx.builder.frame().live =~= old(ctx).builder.frame().live);
        assert(ctx.builder.frame().live64 =~= old(ctx).builder.frame().live64);
        assert(ctx.builder.frame().ctrl =~= old(ctx).builder.frame().ctrl);
    }
}

/// `or` of an immediate into the 16-bit register `r1`.
pub fn instr16_83_1_reg_jit(ctx: &mut JitContext, r1: u32, imm: u32)
    requires
        ready(old(ctx).builder, 8),
        r1 < 8,
    ensures
        emits(*old(ctx), *final(ctx), rmw16_imm_reg_code("or16", r1, imm), 0),
        restores_by(old(ctx).builder, final(ctx).builder, 0),
{
    rmw16_imm_reg(ctx, "or16", r1, imm);
    proof {
        assert(ctx.builder.code@ =~= old(ctx).builder.code@ + rmw16_imm_reg_code("or16", r1, imm));
        assert(ctx.builder.frame().live =~= old(ctx).builder.frame().live);
        assert(ctx.builder.frame().live64 =~= old(ctx).builder.frame().live64);
        assert(ctx.builder.frame().ctrl =~= old(ctx).builder.frame().ctrl);
    }
}

/// `or` of the immediate that follows into a doubleword in memory.
pub fn instr32_83_1_mem_jit(ctx: &mut JitContext, modrm_byte: u8)
    requires
        ready(old(ctx).builder, 8),
    ensures
        emits(*old(ctx), *final(ctx), rmw32_alu_imm_mem_code(Alu32::Or, ImmKind::Imm8s, modrm_byte, old(ctx).builder.next_local), 2),
        restores_by(old(ctx).builder, final(ctx).builder, 0),
{
    rmw32_alu_imm_mem(ctx, Alu32::Or, ImmKind::Imm8s, modrm_byte);
    proof {
        assert(ctx.builder.code@ =~= old(ctx).builder.code@ + rmw32_alu_imm_mem_code(Alu32::Or, ImmKind::Imm8s, modrm_byte, old(ctx).builder.next_local));
        assert(ctx.builder.frame().live =~= old(ctx).builder.frame().live);
        assert(ctx.builder.frame().live64 =~= old(ctx).builder.frame().live64);
        assert(ctx.builder.frame().ctrl =~= old(ctx).builder.frame().ctrl);
    }
}

/// `or` of an immediate into register `r1`.
pub fn instr32_83_1_reg_jit(ctx: &mut JitContext, r1: u32, imm: u32)
    requires
        ready(old(ctx).builder, 8),
        r1 < 8,
    ensures
        emits(*old(ctx), *final(ctx), rmw32_alu_imm_reg_code(Alu32::Or, r1, imm), 0),
        restores_by(old(ctx).builder, final(ctx).builder, 0),
{
    rmw32_alu_imm_reg(ctx, Alu32::Or, r1, imm);
    proof {
        assert(ctx.builder.code@ =~= old(ctx).builder.code@ + rmw32_alu_imm_reg_code(Alu32::Or, r1, imm));
        assert(ctx.builder.frame().live =~= old(ctx).builder.frame().live);
        assert(ctx.builder.frame().live64 =~= old(ctx).builder.frame().live64);
        assert(ctx.builder.frame().ctrl =~= old(ctx).builder.frame().ctrl);
    }
}

/// `adc` of the immediate that follows into a word in memory.
pub fn instr16_83_2_mem_jit(ctx: &mut JitContext, modrm_byte: u8)
    requires
        ready(old(ctx).builder, 8),
    ensures
        emits(*old(ctx), *final(ctx), rmw16_imm_mem_code("adc16", ImmKind::Imm8s, modrm_byte, old(ctx).builder.next_local), 1),
        restores_by(old(ctx).builder, final(ctx).builder, 0),
{
    rmw16_imm_mem(ctx, "adc16", ImmKind::Imm8s, modrm_byte);
    proof {
        assert(ctx.builder.code@ =~= old(ctx).builder.code@ + rmw16_imm_mem_code("adc16", ImmKind::Imm8s, modrm_byte, old(ctx).builder.next_local));
        assert(ctx.builder.frame().live =~= old(ctx).builder.frame().live);
        assert(ctx.builder.frame().live64 =~= old(ctx).builder.frame().live64);
        assert(ctx.builder.frame().ctrl =~= old(ctx).builder.frame().ctrl);
    }
}

/// `adc` of an immediate into the 16-bit register `r1`.
pub fn instr16_83_2_reg_jit(ctx: &mut JitContext, r1: u32, imm: u32)
    requires
        ready(old(ctx).builder, 8),
        r1 < 8,
    ensures
        emits(*old(ctx), *final(ctx), rmw16_imm_reg_code("adc16", r1, imm), 0),
        restores_by(old(ctx).builder, final(ctx).builder, 0),
{
    rmw16_imm_reg(ctx, "adc16", r1, imm);
    proof {
        assert(ctx.builder.code@ =~= old(ctx).builder.code@ + rmw16_imm_reg_code("adc16", r1, imm));
        assert(ctx.builder.frame().live =~= old(ctx).builder.frame().live);
        assert(ctx.builder.frame().live64 =~= old(ctx).builder.frame().live64);
        assert(ctx.builder.frame().ctrl =~= old(ctx).builder.frame().ctrl);
    }
}

/// `adc` of the immediate that follows into a doubleword in memory.
pub fn instr32_83_2_mem_jit(ctx: &mut JitContext, modrm_byte: u8)
    requires
        ready(old(ctx).builder, 8),
    ensures
        emits(*old(ctx), *final(ctx), rmw32_alu_imm_mem_code(Alu32::Adc, ImmKind::Imm8s, modrm_byte, old(ctx).builder.next_local), 2),
        restores_by(old(ctx).builder, final(ctx).builder, 0),
{
    rmw32_alu_imm_mem(ctx, Alu32::Adc, ImmKind::Imm8s, modrm_byte);
    proof {
        assert(ctx.builder.code@ =~= old(ctx).builder.code@ + rmw32_alu_imm_mem_code(Alu32::Adc, ImmKind::Imm8s, modrm_byte, old(ctx).builder.next_local));
        assert(ctx.builder.frame().live =~= old(ctx).builder.frame().live);
        assert(ctx.builder.frame().live64 =~= old(ctx).builder.frame().live64);
        assert(ctx.builder.frame().ctrl =~= old(ctx).builder.frame().ctrl);
    }
}

/// `adc` of an immediate into register `r1`.
pub fn instr32_83_2_reg_jit(ctx: &mut JitContext, r1: u32, imm: u32)
    requires
        ready(old(ctx).builder, 8),
        r1 < 8,
    ensures
        emits(*old(ctx), *final(ctx), rmw32_alu_imm_reg_code(Alu32::Adc, r1, imm), 0),
        restores_by(old(ctx).builder, final(ctx).builder, 0),
{
    rmw32_alu_imm_reg(ctx, Alu32::Adc, r1, imm);
    proof {
        assert(ctx.builder.code@ =~= old(ctx).builder.code@ + rmw32_alu_imm_reg_code(Alu32::Adc, r1, imm));
        assert(ctx.builder.frame().live =~= old(ctx).builder.frame().live);
        assert(ctx.builder.frame().live64 =~= old(ctx).builder.frame().live64);
        assert(ctx.builder.frame().ctrl =~= old(ctx).builder.frame().ctrl);
    }
}

/// `sbb` of the immediate that follows into a word in memory.
pub fn instr16_83_3_mem_jit(ctx: &mut JitContext, modrm_byte: u8)
    requires
        ready(old(ctx).builder, 8),
    ensures
        emits(*old(ctx), *final(ctx), rmw16_imm_mem_code("sbb16", ImmKind::Imm8s, modrm_byte, old(ctx).builder.next_local), 1),
        restores_by(old(ctx).builder, final(ctx).builder, 0),
{
    rmw16_imm_mem(ctx, "sbb16", ImmKind::Imm8s, modrm_byte);
    proof {
        assert(ctx.builder.code@ =~= old(ctx).builder.code@ + rmw16_imm_mem_code("sbb16", ImmKind::Imm8s, modrm_byte, old(ctx).builder.next_local));
        assert(ctx.builder.frame().live =~= old(ctx).builder.frame().live);
        assert(ctx.builder.frame().live64 =~= old(ctx).builder.frame().live64);
        assert(ctx.builder.frame().ctrl =~= old(ctx).builder.frame().ctrl);
    }
}

/// `sbb` of an immediate into the 16-bit register `r1`.
pub fn instr16_83_3_reg_jit(ctx: &mut JitContext, r1: u32, imm: u32)
    requires
        ready(old(ctx).builder, 8),
        r1 < 8,
    ensures
        emits(*old(ctx), *final(ctx), rmw16_imm_reg_code("sbb16", r1, imm), 0),
        restores_by(old(ctx).builder, final(ctx).builder, 0),
{
    rmw16_imm_reg(ctx, "sbb16", r1, imm);
    proof {
        assert(ctx.builder.code@ =~= old(ctx).builder.code@ + rmw16_imm_reg_code("sbb16", r1, imm));
        assert(ctx.builder.frame().live =~= old(ctx).builder.frame().live);
        assert(ctx.builder.frame().live64 =~= old(ctx).builder.frame().live64);
        assert(ctx.builder.frame().ctrl =~= old(ctx).builder.frame().ctrl);
    }
}

/// `sbb` of the immediate that follows into a doubleword in memory.
pub fn instr32_83_3_mem_jit(ctx: &mut JitContext, modrm_byte: u8)
    requires
        ready(old(ctx).builder, 8),
    ensures
        emits(*old(ctx), *final(ctx), rmw32_alu_imm_mem_code(Alu32::Sbb, ImmKind::Imm8s, modrm_byte, old(ctx).builder.next_local), 2),
        restores_by(old(ctx).builder, final(ctx).builder, 0),
{
    rmw32_alu_imm_mem(ctx, Alu32::Sbb, ImmKind::Imm8s, modrm_byte);
    proof {
        assert(ctx.builder.code@ =~= old(ctx).builder.code@ + rmw32_alu_imm_mem_code(Alu32::Sbb, ImmKind::Imm8s, modrm_byte, old(ctx).builder.next_local));
        assert(ctx.builder.frame().live =~= old(ctx).builder.frame().live);
        assert(ctx.builder.frame().live64 =~= old(ctx).builder.frame().live64);
        assert(ctx.builder.frame().ctrl =~= old(ctx).builder.frame().ctrl);
    }
}

/// `sbb` of an immediate into register `r1`.
pub fn instr32_83_3_reg_jit(ctx: &mut JitContext, r1: u32, imm: u32)
    requires
        ready(old(ctx).builder, 8),
        r1 < 8,
    ensures
        emits(*old(ctx), *final(ctx), rmw32_alu_imm_reg_code(Alu32::Sbb, r1, imm), 0),
        restores_by(old(ctx).builder, final(ctx).builder, 0),
{
    rmw32_alu_imm_reg(ctx, Alu32::Sbb, r1, imm);
    proof {
        assert(ctx.builder.code@ =~= old(ctx).builder.code@ + rmw32_alu_imm_reg_code(Alu32::Sbb, r1, imm));
        assert(ctx.builder.frame().live =~= old(ctx).builder.frame().live);
        assert(ctx.builder.frame().live64 =~= old(ctx).builder.frame().live64);
        assert(ctx.builder.frame().ctrl =~= old(ctx).builder.frame().ctrl);
    }
}

/// `and` of the immediate that follows into a word in memory.
pub fn instr16_83_4_mem_jit(ctx: &mut JitContext, modrm_byte: u8)
    requires
        ready(old(ctx).builder, 8),
    ensures
        emits(*old(ctx), *final(ctx), rmw16_imm_mem_code("and16", ImmKind::Imm8s, modrm_byte, old(ctx).builder.next_local), 1),
        restores_by(old(ctx).builder, final(ctx).builder, 0),
{
    rmw16_imm_mem(ctx, "and16", ImmKind::Imm8s, modrm_byte);
    proof {
        assert(ctx.builder.code@ =~= old(ctx).builder.code@ + rmw16_imm_mem_code("and16", ImmKind::Imm8s, modrm_byte, old(ctx).builder.next_local));
        assert(ctx.builder.frame().live =~= old(ctx).builder.frame().live);
        assert(ctx.builder.frame().live64 =~= old(ctx).builder.frame().live64);
        assert(ctx.builder.frame().ctrl =~= old(ctx).builder.frame().ctrl);
    }
}

/// `and` of an immediate into the 16-bit register `r1`.
pub fn instr16_83_4_reg_jit(ctx: &mut JitContext, r1: u32, imm: u32)
    requires
        ready(old(ctx).builder, 8),
        r1 < 8,
    ensures
        emits(*old(ctx), *final(ctx), rmw16_imm_reg_code("and16", r1, imm), 0),
        restores_by(old(ctx).builder, final(ctx).builder, 0),
{
    rmw16_imm_reg(ctx, "and16", r1, imm);
    proof {
        assert(ctx.builder.code@ =~= old(ctx).builder.code@ + rmw16_imm_reg_code("and16", r1, imm));
        assert(ctx.builder.frame().live =~= old(ctx).builder.frame().live);
        assert(ctx.builder.frame().live64 =~= old(ctx).builder.frame().live64);
        assert(ctx.builder.frame().ctrl =~= old(ctx).builder.frame().ctrl);
    }
}

/// `and` of the immediate that follows into a doubleword in memory.
pub fn instr32_83_4_mem_jit(ctx: &mut JitContext, modrm_byte: u8)
    requires
        ready(old(ctx).builder, 8),
    ensures
        emits(*old(ctx), *final(ctx), rmw32_alu_imm_mem_code(Alu32::And, ImmKind::Imm8s, modrm_byte, old(ctx).builder.next_local), 2),
        restores_by(old(ctx).builder, final(ctx).builder, 0),
{
    rmw32_alu_imm_mem(ctx, Alu32::And, ImmKind::Imm8s, modrm_byte);
    proof {
        assert(ctx.builder.code@ =~= old(ctx).builder.code@ + rmw32_alu_imm_mem_code(Alu32::And, ImmKind::Imm8s, modrm_byte, old(ctx).builder.next_local));
        assert(ctx.builder.frame().live =~= old(ctx).builder.frame().live);
        assert(ctx.builder.frame().live64 =~= old(ctx).builder.frame().live64);
        assert(ctx.builder.frame().ctrl =~= old(ctx).builder.frame().ctrl);
    }
}

/// `and` of an immediate into register `r1`.
pub fn instr32_83_4_reg_jit(ctx: &mut JitContext, r1: u32, imm: u32)
    requires
        ready(old(ctx).builder, 8),
        r1 < 8,
    ensures
        emits(*old(ctx), *final(ctx), rmw32_alu_imm_reg_code(Alu32::And, r1, imm), 0),
        restores_by(old(ctx).builder, final(ctx).builder, 0),
{
    rmw32_alu_imm_reg(ctx, Alu32::And, r1, imm);
    proof {
        assert(ctx.builder.code@ =~= old(ctx).builder.code@ + rmw32_alu_imm_reg_code(Alu32::And, r1, imm));
        assert(ctx.builder.frame().live =~= old(ctx).builder.frame().live);
        assert(ctx.builder.frame().live64 =~= old(ctx).builder.frame().live64);
        assert(ctx.builder.frame().ctrl =~= old(ctx).builder.frame().ctrl);
    }
}

/// `sub` of the immediate that follows into a word in memory.
pub fn instr16_83_5_mem_jit(ctx: &mut JitContext, modrm_byte: u8)
    requires
        ready(old(ctx).builder, 8),
    ensures
        emits(*old(ctx), *final(ctx), rmw16_imm_mem_code("sub16", ImmKind::Imm8s, modrm_byte, old(ctx).builder.next_local), 1),
        restores_by(old(ctx).builder, final(ctx).builder, 0),
{
    rmw16_imm_mem(ctx, "sub16", ImmKind::Imm8s, modrm_byte);
    proof {
        assert(ctx.builder.code@ =~= old(ctx).builder.code@ + rmw16_imm_mem_code("sub16", ImmKind::Imm8s, modrm_byte, old(ctx).builder.next_local));
        assert(ctx.builder.frame().live =~= old(ctx).builder.frame().live);
        assert(ctx.builder.frame().live64 =~= old(ctx).builder.frame().live64);
        assert(ctx.builder.frame().ctrl =~= old(ctx).builder.frame().ctrl);
    }
}

/// `sub` of an immediate into the 16-bit register `r1`.
pub fn instr16_83_5_reg_jit(ctx: &mut JitContext, r1: u32, imm: u32)
    requires
        ready(old(ctx).builder, 8),
        r1 < 8,
    ensures
        emits(*old(ctx), *final(ctx), rmw16_imm_reg_code("sub16", r1, imm), 0),
        restores_by(old(ctx).builder, final(ctx).builder, 0),
{
    rmw16_imm_reg(ctx, "sub16", r1, imm);
    proof {
        assert(ctx.builder.code@ =~= old(ctx).builder.code@ + rmw16_imm_reg_code("sub16", r1, imm));
        assert(ctx.builder.frame().live =~= old(ctx).builder.frame().live);
        assert(ctx.builder.frame().live64 =~= old(ctx).builder.frame().live64);
        assert(ctx.builder.frame().ctrl =~= old(ctx).builder.frame().ctrl);
    }
}

/// `sub` of the immediate that follows into a doubleword in memory.
pub fn instr32_83_5_mem_jit(ctx: &mut JitContext, modrm_byte: u8)
    requires
        ready(old(ctx).builder, 8),
    ensures
        emits(*old(ctx), *final(ctx), rmw32_alu_imm_mem_code(Alu32::Sub, ImmKind::Imm8s, modrm_byte, old(ctx).builder.next_local), 2),
        restores_by(old(ctx).builder, final(ctx).builder, 0),
{
    rmw32_alu_imm_mem(ctx, Alu32::Sub, ImmKind::Imm8s, modrm_byte);
    proof {
        assert(ctx.builder.code@ =~= old(ctx).builder.code@ + rmw32_alu_imm_mem_code(Alu32::Sub, ImmKind::Imm8s, modrm_byte, old(ctx).builder.next_local));
        assert(ctx.builder.frame().live =~= old(ctx).builder.frame().live);
        assert(ctx.builder.frame().live64 =~= old(ctx).builder.frame().live64);
        assert(ctx.builder.frame().ctrl =~= old(ctx).builder.frame().ctrl);
    }
}

/// `sub` of an immediate into register `r1`.
pub fn instr32_83_5_reg_jit(ctx: &mut JitContext, r1: u32, imm: u32)
    requires
        ready(old(ctx).builder, 8),
        r1 < 8,
    ensures
        emits(*old(ctx), *final(ctx), rmw32_alu_imm_reg_code(Alu32::Sub, r1, imm), 0),
        restores_by(old(ctx).builder, final(ctx).builder, 0),
{
    rmw32_alu_imm_reg(ctx, Alu32::Sub, r1, imm);
    proof {
        assert(ctx.builder.code@ =~= old(ctx).builder.code@ + rmw32_alu_imm_reg_code(Alu32::Sub, r1, imm));
        assert(ctx.builder.frame().live =~= old(ctx).builder.frame().live);
        assert(ctx.builder.frame().live64 =~= old(ctx).builder.frame().live64);
        assert(ctx.builder.frame().ctrl =~= old(ctx).builder.frame().ctrl);
    }
}

/// `xor` of the immediate that follows into a word in memory.
pub fn instr16_83_6_mem_jit(ctx: &mut JitContext, modrm_byte: u8)
    requires
        ready(old(ctx).builder, 8),
    ensures
        emits(*old(ctx), *final(ctx), rmw16_imm_mem_code("xor16", ImmKind::Imm8s, modrm_byte, old(ctx).builder.next_local), 1),
        restores_by(old(ctx).builder, final(ctx).builder, 0),
{
    rmw16_imm_mem(ctx, "xor16", ImmKind::Imm8s, modrm_byte);
    proof {
        assert(ctx.builder.code@ =~= old(ctx).builder.code@ + rmw16_imm_mem_code("xor16", ImmKind::Imm8s, modrm_byte, old(ctx).builder.next_local));
        assert(ctx.builder.frame().live =~= old(ctx).builder.frame().live);
        assert(ctx.builder.frame().live64 =~= old(ctx).builder.frame().live64);
        assert(ctx.builder.frame().ctrl =~= old(ctx).builder.frame().ctrl);
    }
}

/// `xor` of an immediate into the 16-bit register `r1`.
pub fn instr16_83_6_reg_jit(ctx: &mut JitContext, r1: u32, imm: u32)
    requires
        ready(old(ctx).builder, 8),
        r1 < 8,
    ensures
        emits(*old(ctx), *final(ctx), rmw16_imm_reg_code("xor16", r1, imm), 0),
        restores_by(old(ctx).builder, final(ctx).builder, 0),
{
    rmw16_imm_reg(ctx, "xor16", r1, imm);
    proof {
        assert(ctx.builder.code@ =~= old(ctx).builder.code@ + rmw16_imm_reg_code("xor16", r1, imm));
        assert(ctx.builder.frame().live =~= old(ctx).builder.frame().live);
        assert(ctx.builder.frame().live64 =~= old(ctx).builder.frame().live64);
        assert(ctx.builder.frame().ctrl =~= old(ctx).builder.frame().ctrl);
    }
}

/// `xor` of the immediate that follows into a doubleword in memory.
pub fn instr32_83_6_mem_jit(ctx: &mut JitContext, modrm_byte: u8)
    requires
        ready(old(ctx).builder, 8),
    ensures
        emits(*old(ctx), *final(ctx), rmw32_alu_imm_mem_code(Alu32::Xor, ImmKind::Imm8s, modrm_byte, old(ctx).builder.next_local), 2),
        restores_by(old(ctx).builder, final(ctx).builder, 0),
{
    rmw32_alu_imm_mem(ctx, Alu32::Xor, ImmKind::Imm8s, modrm_byte);
    proof {
        assert(ctx.builder.code@ =~= old(ctx).builder.code@ + rmw32_alu_imm_mem_code(Alu32::Xor, ImmKind::Imm8s, modrm_byte, old(ctx).builder.next_local));
        assert(ctx.builder.frame().live =~= old(ctx).builder.frame().live);
        assert(ctx.builder.frame().live64 =~= old(ctx).builder.frame().live64);
        assert(ctx.builder.frame().ctrl =~= old(ctx).builder.frame().ctrl);
    }
}

/// `xor` of an immediate into register `r1`.
pub fn instr32_83_6_reg_jit(ctx: &mut JitContext, r1: u32, imm: u32)
    requires
        ready(old(ctx).builder, 8),
        r1 < 8,
    ensures
        emits(*old(ctx), *final(ctx), rmw32_alu_imm_reg_code(Alu32::Xor, r1, imm), 0),
        restores_by(old(ctx).builder, final(ctx).builder, 0),
{
    rmw32_alu_imm_reg(ctx, Alu32::Xor, r1, imm);
    proof {
        assert(ctx.builder.code@ =~= old(ctx).builder.code@ + rmw32_alu_imm_reg_code(Alu32::Xor, r1, imm));
        assert(ctx.builder.frame().live =~= old(ctx).builder.frame().live);
        assert(ctx.builder.frame().live64 =~= old(ctx).builder.frame().live64);
        assert(ctx.builder.frame().ctrl =~= old(ctx).builder.frame().ctrl);
    }
}

/// Compares a word in memory with the immediate that follows.
pub fn instr16_83_7_mem_jit(ctx: &mut JitContext, modrm_byte: u8)
    requires
        ready(old(ctx).builder, 8),
    ensures
        emits(*old(ctx), *final(ctx), read16_imm_mem_code(false, ImmKind::Imm8s, modrm_byte, old(ctx).builder.next_local), 1),
        restores_by(old(ctx).builder, final(ctx).builder, 0),
{
    read16_imm_mem(ctx, false, ImmKind::Imm8s, modrm_byte);
    proof {
        assert(ctx.builder.code@ =~= old(ctx).builder.code@ + read16_imm_mem_code(false, ImmKind::Imm8s, modrm_byte, old(ctx).builder.next_local));
        assert(ctx.builder.frame().live =~= old(ctx).builder.frame().live);
        assert(ctx.builder.frame().live64 =~= old(ctx).builder.frame().live64);
        assert(ctx.builder.frame().ctrl =~= old(ctx).builder.frame().ctrl);
    }
}

/// Compares the 16-bit register `r` with an immediate.
pub fn instr16_83_7_reg_jit(ctx: &mut JitContext, r: u32, imm: u32)
    requires
        ready(old(ctx).builder, 8),
        r < 8,
    ensures
        emits(*old(ctx), *final(ctx), read16_imm_reg_code(false, r, imm), 0),
        restores_by(old(ctx).builder, final(ctx).builder, 0),
{
    read16_imm_reg(ctx, false, r, imm);
    proof {
        assert(ctx.builder.code@ =~= old(ctx).builder.code@ + read16_imm_reg_code(false, r, imm));
        assert(ctx.builder.frame().live =~= old(ctx).builder.frame().live);
        assert(ctx.builder.frame().live64 =~= old(ctx).builder.frame().live64);
        assert(ctx.builder.frame().ctrl =~= old(ctx).builder.frame().ctrl);
    }
}

/// Compares a doubleword in memory with the immediate that follows.
pub fn instr32_83_7_mem_jit(ctx: &mut JitContext, modrm_byte: u8)
    requires
        ready(old(ctx).builder, 8),
    ensures
        emits(*old(ctx), *final(ctx), read32_imm_mem_code(false, ImmKind::Imm8s, modrm_byte, old(ctx).builder.next_local), 1),
        restores_by(old(ctx).builder, final(ctx).builder, 0),
{
    read32_imm_mem(ctx, false, ImmKind::Imm8s, modrm_byte);
    proof {
        assert(ctx.builder.code@ =~= old(ctx).builder.code@ + read32_imm_mem_code(false, ImmKind::Imm8s, modrm_byte, old(ctx).builder.next_local));
        assert(ctx.builder.frame().live =~= old(ctx).builder.frame().live);
        assert(ctx.builder.frame().live64 =~= old(ctx).builder.frame().live64);
        assert(ctx.builder.frame().ctrl =~= old(ctx).builder.frame().ctrl);
    }
}

/// Compares register `r` with an immediate.
pub fn instr32_83_7_reg_jit(ctx: &mut JitContext, r: u32, imm: u32)
    requires
        ready(old(ctx).builder, 8),
        r < 8,
    ensures
        emits(*old(ctx), *final(ctx), read32_imm_reg_code(false, r, imm), 0),
        restores_by(old(ctx).builder, final(ctx).builder, 0),
{
    read32_imm_reg(ctx, false, r, imm);
    proof {
        assert(ctx.builder.code@ =~= old(ctx).builder.code@ + read32_imm_reg_code(false, r, imm));
        assert(ctx.builder.frame().live =~= old(ctx).builder.frame().live);
        assert(ctx.builder.frame().live64 =~= old(ctx).builder.frame().live64);
        assert(ctx.builder.frame().ctrl =~= old(ctx).builder.frame().ctrl);
    }
}

/// Tests a byte in memory against the 8-bit register `r`.
pub fn instr_84_mem_jit(ctx: &mut JitContext, modrm_byte: u8, r: u32)
    requires
        ready(old(ctx).builder, 8),
        r < 8,
    ensures
        emits(*old(ctx), *final(ctx), read8_mem_code(true, modrm_byte, r, old(ctx).builder.next_local), 2),
        restores_by(old(ctx).builder, final(ctx).builder, 0),
{
    read8_mem(ctx, true, modrm_byte, r);
    proof {
        assert(ctx.builder.code@ =~= old(ctx).builder.code@ + read8_mem_code(true, modrm_byte, r, old(ctx).builder.next_local));
        assert(ctx.builder.frame().live =~= old(ctx).builder.frame().live);
        assert(ctx.builder.frame().live64 =~= old(ctx).builder.frame().live64);
        assert(ctx.builder.frame().ctrl =~= old(ctx).builder.frame().ctrl);
    }
}

/// Tests the 8-bit register `r1` against `r2`.
pub fn instr_84_reg_jit(ctx: &mut JitContext, r1: u32, r2: u32)
    requires
        ready(old(ctx).builder, 8),
        r1 < 8,
        r2 < 8,
    ensures
        emits(*old(ctx), *final(ctx), read8_reg_code(true, r1, r2, old(ctx).builder.next_local), 2),
        restores_by(old(ctx).builder, final(ctx).builder, 0),
{
    read8_reg(ctx, true, r1, r2);
    proof {
        assert(ctx.builder.code@ =~= old(ctx).builder.code@ + read8_reg_code(true, r1, r2, old(ctx).builder.next_local));
        assert(ctx.builder.frame().live =~= old(ctx).builder.frame().live);
        assert(ctx.builder.frame().live64 =~= old(ctx).builder.frame().live64);
        assert(ctx.builder.frame().ctrl =~= old(ctx).builder.frame().ctrl);
    }
}

/// Tests a 16-bit value in memory against register `r`.
pub fn instr16_85_mem_jit(ctx: &mut JitContext, modrm_byte: u8, r: u32)
    requires
        ready(old(ctx).builder, 8),
        r < 8,
    ensures
        emits(*old(ctx), *final(ctx), read16_mem_code(true, modrm_byte, r, old(ctx).builder.next_local), 1),
        restores_by(old(ctx).builder, final(ctx).builder, 0),
{
    read16_mem(ctx, true, modrm_byte, r);
    proof {
        assert(ctx.builder.code@ =~= old(ctx).builder.code@ + read16_mem_code(true, modrm_byte, r, old(ctx).builder.next_local));
        assert(ctx.builder.frame().live =~= old(ctx).builder.frame().live);
        assert(ctx.builder.frame().live64 =~= old(ctx).builder.frame().live64);
        assert(ctx.builder.frame().ctrl =~= old(ctx).builder.frame().ctrl);
    }
}

/// Tests register `r1` against `r2` at 16 bits.
pub fn instr16_85_reg_jit(ctx: &mut JitContext, r1: u32, r2: u32)
    requires
        ready(old(ctx).builder, 8),
        r1 < 8,
        r2 < 8,
    ensures
        emits(*old(ctx), *final(ctx), read16_reg_code(true, r1, r2), 0),
        restores_by(old(ctx).builder, final(ctx).builder, 0),
{
    read16_reg(ctx, true, r1, r2);
    proof {
        assert(ctx.builder.code@ =~= old(ctx).builder.code@ + read16_reg_code(true, r1, r2));
        assert(ctx.builder.frame().live =~= old(ctx).builder.frame().live);
        assert(ctx.builder.frame().live64 =~= old(ctx).builder.frame().live64);
        assert(ctx.builder.frame().ctrl =~= old(ctx).builder.frame().ctrl);
    }
}

/// Tests a 32-bit value in memory against register `r`.
pub fn instr32_85_mem_jit(ctx: &mut JitContext, modrm_byte: u8, r: u32)
    requires
        ready(old(ctx).builder, 8),
        r < 8,
    ensures
        emits(*old(ctx), *final(ctx), read32_mem_code(true, modrm_byte, r, old(ctx).builder.next_local), 1),
        restores_by(old(ctx).builder, final(ctx).builder, 0),
{
    read32_mem(ctx, true, modrm_byte, r);
    proof {
        assert(ctx.builder.code@ =~= old(ctx).builder.code@ + read32_mem_code(true, modrm_byte, r, old(ctx).builder.next_local));
        assert(ctx.builder.frame().live =~= old(ctx).builder.frame().live);
        assert(ctx.builder.frame().live64 =~= old(ctx).builder.frame().live64);
        assert(ctx.builder.frame().ctrl =~= old(ctx).builder.frame().ctrl);
    }
}

/// Tests register `r1` against `r2` at 32 bits.
pub fn instr32_85_reg_jit(ctx: &mut JitContext, r1: u32, r2: u32)
    requires
        ready(old(ctx).builder, 8),
        r1 < 8,
        r2 < 8,
    ensures
        emits(*old(ctx), *final(ctx), read32_reg_code(true, r1, r2), 0),
        restores_by(old(ctx).builder, final(ctx).builder, 0),
{
    read32_reg(ctx, true, r1, r2);
    proof {
        assert(ctx.builder.code@ =~= old(ctx).builder.code@ + read32_reg_code(true, r1, r2));
        assert(ctx.builder.frame().live =~= old(ctx).builder.frame().live);
        assert(ctx.builder.frame().live64 =~= old(ctx).builder.frame().live64);
        assert(ctx.builder.frame().ctrl =~= old(ctx).builder.frame().ctrl);
    }
}

/// Exchanges the 8-bit register `r` with memory.
pub fn instr_86_mem_jit(ctx: &mut JitContext, modrm_byte: u8, r: u32)
    requires
        ready(old(ctx).builder, 8),
        r < 8,
    ensures
        emits(*old(ctx), *final(ctx), seq![Op::ModrmResolve(modrm_byte), Op::SetNewLocal(old(ctx).builder.next_local), Op::SafeReadWriteBegin(BitSize::Byte, WasmLocal::Temp(old(ctx).builder.next_local)), Op::GetReg8(r), Op::SetNewLocal((old(ctx).builder.next_local + 1) as u32), Op::SetReg8(r), Op::GetLocal(WasmLocal::Temp((old(ctx).builder.next_local + 1) as u32)), Op::FreeLocal((old(ctx).builder.next_local + 1) as u32), Op::SafeReadWriteEnd, Op::FreeLocal(old(ctx).builder.next_local)], 2),
        restores_by(old(ctx).builder, final(ctx).builder, 0),
{
    ctx.builder.emit(Op::ModrmResolve(modrm_byte));
    let addr = ctx.builder.set_new_local();
    ctx.builder.read_write_begin(BitSize::Byte, addr);
    ctx.builder.emit(Op::GetReg8(r));
    let tmp = ctx.builder.set_new_local();
    ctx.builder.emit(Op::SetReg8(r));
    ctx.builder.emit(Op::GetLocal(tmp));
    ctx.builder.free_local(tmp);
    ctx.builder.read_write_end();
    ctx.builder.free_local(addr);
    proof {
        assert(ctx.builder.code@ =~= old(ctx).builder.code@ + (seq![Op::ModrmResolve(modrm_byte), Op::SetNewLocal(old(ctx).builder.next_local), Op::SafeReadWriteBegin(BitSize::Byte, WasmLocal::Temp(old(ctx).builder.next_local)), Op::GetReg8(r), Op::SetNewLocal((old(ctx).builder.next_local + 1) as u32), Op::SetReg8(r), Op::GetLocal(WasmLocal::Temp((old(ctx).builder.next_local + 1) as u32)), Op::FreeLocal((old(ctx).builder.next_local + 1) as u32), Op::SafeReadWriteEnd, Op::FreeLocal(old(ctx).builder.next_local)]));
        assert(ctx.builder.frame().live =~= old(ctx).builder.frame().live);
        assert(ctx.builder.frame().live64 =~= old(ctx).builder.frame().live64);
        assert(ctx.builder.frame().ctrl =~= old(ctx).builder.frame().ctrl);
    }
}

/// The code that [`instr_86_reg_jit`] appends.
pub open spec fn instr_86_reg_jit_code(r1: u32, r2: u32, n: u32) -> Seq<Op> {
    seq![Op::GetReg8(r2), Op::SetNewLocal(n), Op::GetReg8(r1), Op::SetReg8(r2), Op::GetLocal(WasmLocal::Temp(n)), Op::SetReg8(r1), Op::FreeLocal(n)]
}

/// Exchanges the 8-bit registers `r1` and `r2`.
pub fn instr_86_reg_jit(ctx: &mut JitContext, r1: u32, r2: u32)
    requires
        ready(old(ctx).builder, 8),
        r1 < 8,
        r2 < 8,
    ensures
        emits(*old(ctx), *final(ctx), instr_86_reg_jit_code(r1, r2, old(ctx).builder.next_local), 1),
        restores_by(old(ctx).builder, final(ctx).builder, 0),
{
    ctx.builder.emit(Op::GetReg8(r2));
    let tmp = ctx.builder.set_new_local();
    ctx.builder.emit(Op::GetReg8(r1));
    ctx.builder.emit(Op::SetReg8(r2));
    ctx.builder.emit(Op::GetLocal(tmp));
    ctx.builder.emit(Op::SetReg8(r1));
    ctx.builder.free_local(tmp);
    proof {
        assert(ctx.builder.code@ =~= old(ctx).builder.code@ + instr_86_reg_jit_code(r1, r2, old(ctx).builder.next_local));
        assert(ctx.builder.frame().live =~= old(ctx).builder.frame().live);
        assert(ctx.builder.frame().live64 =~= old(ctx).builder.frame().live64);
        assert(ctx.builder.frame().ctrl =~= old(ctx).builder.frame().ctrl);
    }
}

/// Exchanges the 16-bit register `r` with memory.
pub fn instr16_87_mem_jit(ctx: &mut JitContext, modrm_byte: u8, r: u32)
    requires
        ready(old(ctx).builder, 8),
        r < 8,
    ensures
        emits(*old(ctx), *final(ctx), seq![Op::ModrmResolve(modrm_byte), Op::SetNewLocal(old(ctx).builder.next_local), Op::SafeReadWriteBegin(BitSize::Word, WasmLocal::Temp(old(ctx).builder.next_local)), Op::GetReg16(r), Op::SetNewLocal((old(ctx).builder.next_local + 1) as u32), Op::SetReg16(r), Op::GetLocal(WasmLocal::Temp((old(ctx).builder.next_local + 1) as u32)), Op::FreeLocal((old(ctx).builder.next_local + 1) as u32), Op::SafeReadWriteEnd, Op::FreeLocal(old(ctx).builder.next_local)], 2),
        restores_by(old(ctx).builder, final(ctx).builder, 0),
{
    ctx.builder.emit(Op::ModrmResolve(modrm_byte));
    let addr = ctx.builder.set_new_local();
    ctx.builder.read_write_begin(BitSize::Word, addr);
    ctx.builder.emit(Op::GetReg16(r));
    let tmp = ctx.builder.set_new_local();
    ctx.builder.emit(Op::SetReg16(r));
    ctx.builder.emit(Op::GetLocal(tmp));
    ctx.builder.free_local(tmp);
    ctx.builder.read_write_end();
    ctx.builder.free_local(addr);
    proof {
        assert(ctx.builder.code@ =~= old(ctx).builder.code@ + (seq![Op::ModrmResolve(modrm_byte), Op::SetNewLocal(old(ctx).builder.next_local), Op::SafeReadWriteBegin(BitSize::Word, WasmLocal::Temp(old(ctx).builder.next_local)), Op::GetReg16(r), Op::SetNewLocal((old(ctx).builder.next_local + 1) as u32), Op::SetReg16(r), Op::GetLocal(WasmLocal::Temp((old(ctx).builder.next_local + 1) as u32)), Op::FreeLocal((old(ctx).builder.next_local + 1) as u32), Op::SafeReadWriteEnd, Op::FreeLocal(old(ctx).builder.next_local)]));
        assert(ctx.builder.frame().live =~= old(ctx).builder.frame().live);
        assert(ctx.builder.frame().live64 =~= old(ctx).builder.frame().live64);
        assert(ctx.builder.frame().ctrl =~= old(ctx).builder.frame().ctrl);
    }
}

/// The code that [`instr16_87_reg_jit`] appends.
pub open spec fn instr16_87_reg_jit_code(r1: u32, r2: u32, n: u32) -> Seq<Op> {
    seq![Op::GetReg16(r2), Op::SetNewLocal(n), Op::GetReg16(r1), Op::SetReg16(r2), Op::GetLocal(WasmLocal::Temp(n)), Op::SetReg16(r1), Op::FreeLocal(n)]
}

/// Exchanges the 16-bit registers `r1` and `r2`.
pub fn instr16_87_reg_jit(ctx: &mut JitContext, r1: u32, r2: u32)
    requires
        ready(old(ctx).builder, 8),
        r1 < 8,
        r2 < 8,
    ensures
        emits(*old(ctx), *final(ctx), instr16_87_reg_jit_code(r1, r2, old(ctx).builder.next_local), 1),
        restores_by(old(ctx).builder, final(ctx).builder, 0),
{
    ctx.builder.emit(Op::GetReg16(r2));
    let tmp = ctx.builder.set_new_local();
    ctx.builder.emit(Op::GetReg16(r1));
    ctx.builder.emit(Op::SetReg16(r2));
    ctx.builder.emit(Op::GetLocal(tmp));
    ctx.builder.emit(Op::SetReg16(r1));
    ctx.builder.free_local(tmp);
    proof {
        assert(ctx.builder.code@ =~= old(ctx).builder.code@ + instr16_87_reg_jit_code(r1, r2, old(ctx).builder.next_local));
        assert(ctx.builder.frame().live =~= old(ctx).builder.frame().live);
        assert(ctx.builder.frame().live64 =~= old(ctx).builder.frame().live64);
        assert(ctx.builder.frame().ctrl =~= old(ctx).builder.frame().ctrl);
    }
}

/// The code that [`instr32_87_mem_jit`] appends.
pub open spec fn instr32_87_mem_jit_code(modrm_byte: u8, r: u32, n: u32) -> Seq<Op> {
    seq![Op::ModrmResolve(modrm_byte), Op::SetNewLocal(n), Op::SafeReadWriteBegin(BitSize::Dword, WasmLocal::Temp(n)), Op::GetReg32(r), Op::SetNewLocal((n + 1) as u32), Op::SetReg32(r), Op::GetLocal(WasmLocal::Temp((n + 1) as u32)), Op::FreeLocal((n + 1) as u32), Op::SafeReadWriteEnd, Op::FreeLocal(n)]
}

/// Exchanges the 32-bit register `r` with memory.
pub fn instr32_87_mem_jit(ctx: &mut JitContext, modrm_byte: u8, r: u32)
    requires
        ready(old(ctx).builder, 8),
        r < 8,
    ensures
        emits(*old(ctx), *final(ctx), instr32_87_mem_jit_code(modrm_byte, r, old(ctx).builder.next_local), 2),
        restores_by(old(ctx).builder, final(ctx).builder, 0),
{
    ctx.builder.emit(Op::ModrmResolve(modrm_byte));
    let addr = ctx.builder.set_new_local();
    ctx.builder.read_write_begin(BitSize::Dword, addr);
    ctx.builder.emit(Op::GetReg32(r));
    let tmp = ctx.builder.set_new_local();
    ctx.builder.emit(Op::SetReg32(r));
    ctx.builder.emit(Op::GetLocal(tmp));
    ctx.builder.free_local(tmp);
    ctx.builder.read_write_end();
    ctx.builder.free_local(addr);
    proof {
        assert(ctx.builder.code@ =~= old(ctx).builder.code@ + instr32_87_mem_jit_code(modrm_byte, r, old(ctx).builder.next_local));
        assert(ctx.builder.frame().live =~= old(ctx).builder.frame().live);
        assert(ctx.builder.frame().live64 =~= old(ctx).builder.frame().live64);
        assert(ctx.builder.frame().ctrl =~= old(ctx).builder.frame().ctrl);
    }
}

/// The code that [`instr32_87_reg_jit`] appends.
pub open spec fn instr32_87_reg_jit_code(r1: u32, r2: u32, n: u32) -> Seq<Op> {
    seq![Op::GetReg32(r2), Op::SetNewLocal(n), Op::GetReg32(r1), Op::SetReg32(r2), Op::GetLocal(WasmLocal::Temp(n)), Op::SetReg32(r1), Op::FreeLocal(n)]
}

/// Exchanges the 32-bit registers `r1` and `r2`.
pub fn instr32_87_reg_jit(ctx: &mut JitContext, r1: u32, r2: u32)
    requires
        ready(old(ctx).builder, 8),
        r1 < 8,
        r2 < 8,
    ensures
        emits(*old(ctx), *final(ctx), instr32_87_reg_jit_code(r1, r2, old(ctx).builder.next_local), 1),
        restores_by(old(ctx).builder, final(ctx).builder, 0),
{
    ctx.builder.emit(Op::GetReg32(r2));
    let tmp = ctx.builder.set_new_local();
    ctx.builder.emit(Op::GetReg32(r1));
    ctx.builder.emit(Op::SetReg32(r2));
    ctx.builder.emit(Op::GetLocal(tmp));
    ctx.builder.emit(Op::SetReg32(r1));
    ctx.builder.free_local(tmp);
    proof {
        assert(ctx.builder.code@ =~= old(ctx).builder.code@ + instr32_87_reg_jit_code(r1, r2, old(ctx).builder.next_local));
        assert(ctx.builder.frame().live =~= old(ctx).builder.frame().live);
        assert(ctx.builder.frame().live64 =~= old(ctx).builder.frame().live64);
        assert(ctx.builder.frame().ctrl =~= old(ctx).builder.frame().ctrl);
    }
}

/// Stores the 8-bit register `r` into memory.
pub fn instr_88_mem_jit(ctx: &mut JitContext, modrm_byte: u8, r: u32)
    requires
        ready(old(ctx).builder, 8),
        r < 8,
    ensures
        emits(*old(ctx), *final(ctx), seq![Op::ModrmResolve(modrm_byte), Op::SetNewLocal(old(ctx).builder.next_local), Op::GetReg8(r), Op::SetNewLocal((old(ctx).builder.next_local + 1) as u32), Op::SafeWrite8(WasmLocal::Temp(old(ctx).builder.next_local), WasmLocal::Temp((old(ctx).builder.next_local + 1) as u32)), Op::FreeLocal(old(ctx).builder.next_local), Op::FreeLocal((old(ctx).builder.next_local + 1) as u32)], 2),
        restores_by(old(ctx).builder, final(ctx).builder, 0),
{
    ctx.builder.emit(Op::ModrmResolve(modrm_byte));
    let addr = ctx.builder.set_new_local();
    ctx.builder.emit(Op::GetReg8(r));
    let value = ctx.builder.set_new_local();
    ctx.builder.emit(Op::SafeWrite8(addr, value));
    ctx.builder.free_local(addr);
    ctx.builder.free_local(value);
    proof {
        assert(ctx.builder.code@ =~= old(ctx).builder.code@ + (seq![Op::ModrmResolve(modrm_byte), Op::SetNewLocal(old(ctx).builder.next_local), Op::GetReg8(r), Op::SetNewLocal((old(ctx).builder.next_local + 1) as u32), Op::SafeWrite8(WasmLocal::Temp(old(ctx).builder.next_local), WasmLocal::Temp((old(ctx).builder.next_local + 1) as u32)), Op::FreeLocal(old(ctx).builder.next_local), Op::FreeLocal((old(ctx).builder.next_local + 1) as u32)]));
        assert(ctx.builder.frame().live =~= old(ctx).builder.frame().live);
        assert(ctx.builder.frame().live64 =~= old(ctx).builder.frame().live64);
        assert(ctx.builder.frame().ctrl =~= old(ctx).builder.frame().ctrl);
    }
}

/// Copies the 8-bit register `r2` into `r1`.
pub fn instr_88_reg_jit(ctx: &mut JitContext, r1: u32, r2: u32)
    requires
        ready(old(ctx).builder, 8),
        r1 < 8,
        r2 < 8,
    ensures
        emits(*old(ctx), *final(ctx), seq![Op::SetReg8R(r1, r2)], 0),
        restores_by(old(ctx).builder, final(ctx).builder, 0),
{
    ctx.builder.emit(Op::SetReg8R(r1, r2));
    proof {
        assert(ctx.builder.code@ =~= old(ctx).builder.code@ + seq![Op::SetReg8R(r1, r2)]);
        assert(ctx.builder.frame().live =~= old(ctx).builder.frame().live);
        assert(ctx.builder.frame().live64 =~= old(ctx).builder.frame().live64);
        assert(ctx.builder.frame().ctrl =~= old(ctx).builder.frame().ctrl);
    }
}

/// Stores register `r` into memory at 16 bits.
pub fn instr16_89_mem_jit(ctx: &mut JitContext, modrm_byte: u8, r: u32)
    requires
        ready(old(ctx).builder, 8),
        r < 8,
    ensures
        emits(*old(ctx), *final(ctx), seq![Op::ModrmResolve(modrm_byte), Op::SetNewLocal(old(ctx).builder.next_local), Op::SafeWrite16(WasmLocal::Temp(old(ctx).builder.next_local), WasmLocal::Register(r)), Op::FreeLocal(old(ctx).builder.next_local)], 1),
        restores_by(old(ctx).builder, final(ctx).builder, 0),
{
    ctx.builder.emit(Op::ModrmResolve(modrm_byte));
    let addr = ctx.builder.set_new_local();
    ctx.builder.emit(Op::SafeWrite16(addr, WasmLocal::Register(r)));
    ctx.builder.free_local(addr);
    proof {
        assert(ctx.builder.code@ =~= old(ctx).builder.code@ + seq![Op::ModrmResolve(modrm_byte), Op::SetNewLocal(old(ctx).builder.next_local), Op::SafeWrite16(WasmLocal::Temp(old(ctx).builder.next_local), WasmLocal::Register(r)), Op::FreeLocal(old(ctx).builder.next_local)]);
        assert(ctx.builder.frame().live =~= old(ctx).builder.frame().live);
        assert(ctx.builder.frame().live64 =~= old(ctx).builder.frame().live64);
        assert(ctx.builder.frame().ctrl =~= old(ctx).builder.frame().ctrl);
    }
}

/// Copies register `r2` into `r1` at 16 bits.
pub fn instr16_89_reg_jit(ctx: &mut JitContext, r1: u32, r2: u32)
    requires
        ready(old(ctx).builder, 8),
        r1 < 8,
        r2 < 8,
    ensures
        emits(*old(ctx), *final(ctx), seq![Op::SetReg16R(r1, r2)], 0),
        restores_by(old(ctx).builder, final(ctx).builder, 0),
{
    ctx.builder.emit(Op::SetReg16R(r1, r2));
    proof {
        assert(ctx.builder.code@ =~= old(ctx).builder.code@ + seq![Op::SetReg16R(r1, r2)]);
        assert(ctx.builder.frame().live =~= old(ctx).builder.frame().live);
        assert(ctx.builder.frame().live64 =~= old(ctx).builder.frame().live64);
        assert(ctx.builder.frame().ctrl =~= old(ctx).builder.frame().ctrl);
    }
}

/// The code that [`instr32_89_mem_jit`] appends.
pub open spec fn instr32_89_mem_jit_code(modrm_byte: u8, r: u32, n: u32) -> Seq<Op> {
    seq![Op::ModrmResolve(modrm_byte), Op::SetNewLocal(n), Op::SafeWrite32(WasmLocal::Temp(n), WasmLocal::Register(r)), Op::FreeLocal(n)]
}

/// Stores register `r` into memory at 32 bits.
pub fn instr32_89_mem_jit(ctx: &mut JitContext, modrm_byte: u8, r: u32)
    requires
        ready(old(ctx).builder, 8),
        r < 8,
    ensures
        emits(*old(ctx), *final(ctx), instr32_89_mem_jit_code(modrm_byte, r, old(ctx).builder.next_local), 1),
        restores_by(old(ctx).builder, final(ctx).builder, 0),
{
    ctx.builder.emit(Op::ModrmResolve(modrm_byte));
    let addr = ctx.builder.set_new_local();
    ctx.builder.emit(Op::SafeWrite32(addr, WasmLocal::Register(r)));
    ctx.builder.free_local(addr);
    proof {
        assert(ctx.builder.code@ =~= old(ctx).builder.code@ + instr32_89_mem_jit_code(modrm_byte, r, old(ctx).builder.next_local));
        assert(ctx.builder.frame().live =~= old(ctx).builder.frame().live);
        assert(ctx.builder.frame().live64 =~= old(ctx).builder.frame().live64);
        assert(ctx.builder.frame().ctrl =~= old(ctx).builder.frame().ctrl);
    }
}

/// The code that [`instr32_89_reg_jit`] appends.
pub open spec fn instr32_89_reg_jit_code(r1: u32, r2: u32) -> Seq<Op> {
    seq![Op::SetReg32R(r1, r2)]
}

/// Copies register `r2` into `r1` at 32 bits.
pub fn instr32_89_reg_jit(ctx: &mut JitContext, r1: u32, r2: u32)
    requires
        ready(old(ctx).builder, 8),
        r1 < 8,
        r2 < 8,
    ensures
        emits(*old(ctx), *final(ctx), instr32_89_reg_jit_code(r1, r2), 0),
        restores_by(old(ctx).builder, final(ctx).builder, 0),
{
    ctx.builder.emit(Op::SetReg32R(r1, r2));
    proof {
        assert(ctx.builder.code@ =~= old(ctx).builder.code@ + instr32_89_reg_jit_code(r1, r2));
        assert(ctx.builder.frame().live =~= old(ctx).builder.frame().live);
        assert(ctx.builder.frame().live64 =~= old(ctx).builder.frame().live64);
        assert(ctx.builder.frame().ctrl =~= old(ctx).builder.frame().ctrl);
    }
}

/// The code that [`instr_8A_mem_jit`] appends.
pub open spec fn instr_8A_mem_jit_code(modrm_byte: u8, r: u32) -> Seq<Op> {
    seq![Op::ModrmResolveSafeRead8(modrm_byte), Op::SetReg8(r)]
}

/// Loads a byte from memory into the 8-bit register `r`.
pub fn instr_8A_mem_jit(ctx: &mut JitContext, modrm_byte: u8, r: u32)
    requires
        ready(old(ctx).builder, 8),
        r < 8,
    ensures
        emits(*old(ctx), *final(ctx), instr_8A_mem_jit_code(modrm_byte, r), 0),
        restores_by(old(ctx).builder, final(ctx).builder, 0),
{
    ctx.builder.emit(Op::ModrmResolveSafeRead8(modrm_byte));
    ctx.builder.emit(Op::SetReg8(r));
    proof {
        assert(ctx.builder.code@ =~= old(ctx).builder.code@ + instr_8A_mem_jit_code(modrm_byte, r));
        assert(ctx.builder.frame().live =~= old(ctx).builder.frame().live);
        assert(ctx.builder.frame().live64 =~= old(ctx).builder.frame().live64);
        assert(ctx.builder.frame().ctrl =~= old(ctx).builder.frame().ctrl);
    }
}

/// Copies the 8-bit register `r1` into `r2`.
pub fn instr_8A_reg_jit(ctx: &mut JitContext, r1: u32, r2: u32)
    requires
        ready(old(ctx).builder, 8),
        r1 < 8,
        r2 < 8,
    ensures
        emits(*old(ctx), *final(ctx), seq![Op::SetReg8R(r2, r1)], 0),
        restores_by(old(ctx).builder, final(ctx).builder, 0),
{
    ctx.builder.emit(Op::SetReg8R(r2, r1));
    proof {
        assert(ctx.builder.code@ =~= old(ctx).builder.code@ + seq![Op::SetReg8R(r2, r1)]);
        assert(ctx.builder.frame().live =~= old(ctx).builder.frame().live);
        assert(ctx.builder.frame().live64 =~= old(ctx).builder.frame().live64);
        assert(ctx.builder.frame().ctrl =~= old(ctx).builder.frame().ctrl);
    }
}

/// The code that [`instr16_8B_mem_jit`] appends.
pub open spec fn instr16_8B_mem_jit_code(modrm_byte: u8, r: u32) -> Seq<Op> {
    seq![Op::ModrmResolveSafeRead16(modrm_byte), Op::SetReg16(r)]
}

/// Loads a 16-bit value from memory into register `r`.
pub fn instr16_8B_mem_jit(ctx: &mut JitContext, modrm_byte: u8, r: u32)
    requires
        ready(old(ctx).builder, 8),
        r < 8,
    ensures
        emits(*old(ctx), *final(ctx), instr16_8B_mem_jit_code(modrm_byte, r), 0),
        restores_by(old(ctx).builder, final(ctx).builder, 0),
{
    ctx.builder.emit(Op::ModrmResolveSafeRead16(modrm_byte));
    ctx.builder.emit(Op::SetReg16(r));
    proof {
        assert(ctx.builder.code@ =~= old(ctx).builder.code@ + instr16_8B_mem_jit_code(modrm_byte, r));
        assert(ctx.builder.frame().live =~= old(ctx).builder.frame().live);
        assert(ctx.builder.frame().live64 =~= old(ctx).builder.frame().live64);
        assert(ctx.builder.frame().ctrl =~= old(ctx).builder.frame().ctrl);
    }
}

/// Copies register `r1` into `r2` at 16 bits.
pub fn instr16_8B_reg_jit(ctx: &mut JitContext, r1: u32, r2: u32)
    requires
        ready(old(ctx).builder, 8),
        r1 < 8,
        r2 < 8,
    ensures
        emits(*old(ctx), *final(ctx), seq![Op::SetReg16R(r2, r1)], 0),
        restores_by(old(ctx).builder, final(ctx).builder, 0),
{
    ctx.builder.emit(Op::SetReg16R(r2, r1));
    proof {
        assert(ctx.builder.code@ =~= old(ctx).builder.code@ + seq![Op::SetReg16R(r2, r1)]);
        assert(ctx.builder.frame().live =~= old(ctx).builder.frame().live);
        assert(ctx.builder.frame().live64 =~= old(ctx).builder.frame().live64);
        assert(ctx.builder.frame().ctrl =~= old(ctx).builder.frame().ctrl);
    }
}

/// The code that [`instr32_8B_mem_jit`] appends.
pub open spec fn instr32_8B_mem_jit_code(modrm_byte: u8, r: u32) -> Seq<Op> {
    seq![Op::ModrmResolveSafeRead32(modrm_byte), Op::SetReg32(r)]
}

/// Loads a 32-bit value from memory into register `r`.
pub fn instr32_8B_mem_jit(ctx: &mut JitContext, modrm_byte: u8, r: u32)
    requires
        ready(old(ctx).builder, 8),
        r < 8,
    ensures
        emits(*old(ctx), *final(ctx), instr32_8B_mem_jit_code(modrm_byte, r), 0),
        restores_by(old(ctx).builder, final(ctx).builder, 0),
{
    ctx.builder.emit(Op::ModrmResolveSafeRead32(modrm_byte));
    ctx.builder.emit(Op::SetReg32(r));
    proof {
        assert(ctx.builder.code@ =~= old(ctx).builder.code@ + instr32_8B_mem_jit_code(modrm_byte, r));
        assert(ctx.builder.frame().live =~= old(ctx).builder.frame().live);
        assert(ctx.builder.frame().live64 =~= old(ctx).builder.frame().live64);
        assert(ctx.builder.frame().ctrl =~= old(ctx).builder.frame().ctrl);
    }
}

/// The code that [`instr32_8B_reg_jit`] appends.
pub open spec fn instr32_8B_reg_jit_code(r1: u32, r2: u32) -> Seq<Op> {
    seq![Op::SetReg32R(r2, r1)]
}

/// Copies register `r1` into `r2` at 32 bits.
pub fn instr32_8B_reg_jit(ctx: &mut JitContext, r1: u32, r2: u32)
    requires
        ready(old(ctx).builder, 8),
        r1 < 8,
        r2 < 8,
    ensures
        emits(*old(ctx), *final(ctx), instr32_8B_reg_jit_code(r1, r2), 0),
        restores_by(old(ctx).builder, final(ctx).builder, 0),
{
    ctx.builder.emit(Op::SetReg32R(r2, r1));
    proof {
        assert(ctx.builder.code@ =~= old(ctx).builder.code@ + instr32_8B_reg_jit_code(r1, r2));
        assert(ctx.builder.frame().live =~= old(ctx).builder.frame().live);
        assert(ctx.builder.frame().live64 =~= old(ctx).builder.frame().live64);
        assert(ctx.builder.frame().ctrl =~= old(ctx).builder.frame().ctrl);
    }
}

/// The code that [`instr16_8C_mem_jit`] appends.
pub open spec fn instr16_8C_mem_jit_code(modrm_byte: u8, r: u32, n: u32) -> Seq<Op> {
    seq![Op::ModrmResolve(modrm_byte), Op::SetNewLocal(n)] + (if r >= 6 { seq![Op::TriggerUd] } else { seq![Op::GetSreg(r), Op::SetNewLocal((n + 1) as u32), Op::SafeWrite16(WasmLocal::Temp(n), WasmLocal::Temp((n + 1) as u32)), Op::FreeLocal((n + 1) as u32)] }) + seq![Op::FreeLocal(n)]
}

/// Stores the segment register `r` into memory; there are six segment registers, so
/// a larger `r` raises the invalid-opcode exception.
pub fn instr16_8C_mem_jit(ctx: &mut JitContext, modrm_byte: u8, r: u32)
    requires
        ready(old(ctx).builder, 8),
    ensures
        emits(*old(ctx), *final(ctx), instr16_8C_mem_jit_code(modrm_byte, r, old(ctx).builder.next_local), 1nat + (if r >= 6 { 0nat } else { 1nat })),
        balanced_by(old(ctx).builder, final(ctx).builder, 0),
{
    ctx.builder.emit(Op::ModrmResolve(modrm_byte));
    let addr = ctx.builder.set_new_local();
    proof { assert(ctx.builder.code@ =~= old(ctx).builder.code@ + seq![Op::ModrmResolve(modrm_byte), Op::SetNewLocal(old(ctx).builder.next_local)]); }
    if r >= 6 {
        ctx.builder.diverge(Op::TriggerUd);
        proof { assert(ctx.builder.code@ =~= old(ctx).builder.code@ + seq![Op::ModrmResolve(modrm_byte), Op::SetNewLocal(old(ctx).builder.next_local)] + seq![Op::TriggerUd]); }
    } else {
        ctx.builder.emit(Op::GetSreg(r));
        let value = ctx.builder.set_new_local();
        ctx.builder.emit(Op::SafeWrite16(addr, value));
        ctx.builder.free_local(value);
        proof { assert(ctx.builder.code@ =~= old(ctx).builder.code@ + seq![Op::ModrmResolve(modrm_byte), Op::SetNewLocal(old(ctx).builder.next_local)] + seq![Op::GetSreg(r), Op::SetNewLocal((old(ctx).builder.next_local + 1) as u32), Op::SafeWrite16(WasmLocal::Temp(old(ctx).builder.next_local), WasmLocal::Temp((old(ctx).builder.next_local + 1) as u32)), Op::FreeLocal((old(ctx).builder.next_local + 1) as u32)]); }
    }
    proof { assert(ctx.builder.code@ =~= old(ctx).builder.code@ + seq![Op::ModrmResolve(modrm_byte), Op::SetNewLocal(old(ctx).builder.next_local)] + (if r >= 6 { seq![Op::TriggerUd] } else { seq![Op::GetSreg(r), Op::SetNewLocal((old(ctx).builder.next_local + 1) as u32), Op::SafeWrite16(WasmLocal::Temp(old(ctx).builder.next_local), WasmLocal::Temp((old(ctx).builder.next_local + 1) as u32)), Op::FreeLocal((old(ctx).builder.next_local + 1) as u32)] })); }
    ctx.builder.free_local(addr);
    proof {
        assert(ctx.builder.code@ =~= old(ctx).builder.code@ + instr16_8C_mem_jit_code(modrm_byte, r, old(ctx).builder.next_local));
        assert(ctx.builder.frame().live =~= old(ctx).builder.frame().live);
        assert(ctx.builder.frame().live64 =~= old(ctx).builder.frame().live64);
        assert(ctx.builder.frame().ctrl =~= old(ctx).builder.frame().ctrl);
    }
}

/// Copies the segment register `r2` into register `r1`; a larger `r2` than the six
/// segment registers raises the invalid-opcode exception.
pub fn instr16_8C_reg_jit(ctx: &mut JitContext, r1: u32, r2: u32)
    requires
        ready(old(ctx).builder, 8),
        r2 < 6 ==> r1 < 8,
    ensures
        emits(*old(ctx), *final(ctx), (if r2 >= 6 { seq![Op::TriggerUd] } else { seq![Op::GetSreg(r2), Op::SetReg16(r1)] }), 0),
        balanced_by(old(ctx).builder, final(ctx).builder, 0),
{
    if r2 >= 6 {
        ctx.builder.diverge(Op::TriggerUd);
        proof { assert(ctx.builder.code@ =~= old(ctx).builder.code@ + seq![Op::TriggerUd]); }
    } else {
        ctx.builder.emit(Op::GetSreg(r2));
        ctx.builder.emit(Op::SetReg16(r1));
        proof { assert(ctx.builder.code@ =~= old(ctx).builder.code@ + seq![Op::GetSreg(r2), Op::SetReg16(r1)]); }
    }
    proof {
        assert(ctx.builder.code@ =~= old(ctx).builder.code@ + (if r2 >= 6 { seq![Op::TriggerUd] } else { seq![Op::GetSreg(r2), Op::SetReg16(r1)] }));
        assert(ctx.builder.frame().live =~= old(ctx).builder.frame().live);
        assert(ctx.builder.frame().live64 =~= old(ctx).builder.frame().live64);
        assert(ctx.builder.frame().ctrl =~= old(ctx).builder.frame().ctrl);
    }
}

/// `lea` with a register operand raises the invalid-opcode exception.
pub fn instr16_8D_reg_jit(ctx: &mut JitContext, _r1: u32, _r2: u32)
    requires
        ready(old(ctx).builder, 8),
    ensures
        emits(*old(ctx), *final(ctx), seq![Op::TriggerUd], 0),
        balanced_by(old(ctx).builder, final(ctx).builder, 0),
{
    ctx.builder.diverge(Op::TriggerUd);
    proof {
        assert(ctx.builder.code@ =~= old(ctx).builder.code@ + seq![Op::TriggerUd]);
        assert(ctx.builder.frame().live =~= old(ctx).builder.frame().live);
        assert(ctx.builder.frame().live64 =~= old(ctx).builder.frame().live64);
        assert(ctx.builder.frame().ctrl =~= old(ctx).builder.frame().ctrl);
    }
}

/// The code that [`instr32_8C_mem_jit`] appends.
pub open spec fn instr32_8C_mem_jit_code(modrm_byte: u8, r: u32, n: u32) -> Seq<Op> {
    seq![Op::ModrmResolve(modrm_byte), Op::SetNewLocal(n)] + (if r >= 6 { seq![Op::TriggerUd] } else { seq![Op::GetSreg(r), Op::SetNewLocal((n + 1) as u32), Op::SafeWrite16(WasmLocal::Temp(n), WasmLocal::Temp((n + 1) as u32)), Op::FreeLocal((n + 1) as u32)] }) + seq![Op::FreeLocal(n)]
}

/// Stores the segment register `r` into memory; there are six segment registers, so
/// a larger `r` raises the invalid-opcode exception.
pub fn instr32_8C_mem_jit(ctx: &mut JitContext, modrm_byte: u8, r: u32)
    requires
        ready(old(ctx).builder, 8),
    ensures
        emits(*old(ctx), *final(ctx), instr32_8C_mem_jit_code(modrm_byte, r, old(ctx).builder.next_local), 1nat + (if r >= 6 { 0nat } else { 1nat })),
        balanced_by(old(ctx).builder, final(ctx).builder, 0),
{
    ctx.builder.emit(Op::ModrmResolve(modrm_byte));
    let addr = ctx.builder.set_new_local();
    proof { assert(ctx.builder.code@ =~= old(ctx).builder.code@ + seq![Op::ModrmResolve(modrm_byte), Op::SetNewLocal(old(ctx).builder.next_local)]); }
    if r >= 6 {
        ctx.builder.diverge(Op::TriggerUd);
        proof { assert(ctx.builder.code@ =~= old(ctx).builder.code@ + seq![Op::ModrmResolve(modrm_byte), Op::SetNewLocal(old(ctx).builder.next_local)] + seq![Op::TriggerUd]); }
    } else {
        ctx.builder.emit(Op::GetSreg(r));
        let value = ctx.builder.set_new_local();
        ctx.builder.emit(Op::SafeWrite16(addr, value));
        ctx.builder.free_local(value);
        proof { assert(ctx.builder.code@ =~= old(ctx).builder.code@ + seq![Op::ModrmResolve(modrm_byte), Op::SetNewLocal(old(ctx).builder.next_local)] + seq![Op::GetSreg(r), Op::SetNewLocal((old(ctx).builder.next_local + 1) as u32), Op::SafeWrite16(WasmLocal::Temp(old(ctx).builder.next_local), WasmLocal::Temp((old(ctx).builder.next_local + 1) as u32)), Op::FreeLocal((old(ctx).builder.next_local + 1) as u32)]); }
    }
    proof { assert(ctx.builder.code@ =~= old(ctx).builder.code@ + seq![Op::ModrmResolve(modrm_byte), Op::SetNewLocal(old(ctx).builder.next_local)] + (if r >= 6 { seq![Op::TriggerUd] } else { seq![Op::GetSreg(r), Op::SetNewLocal((old(ctx).builder.next_local + 1) as u32), Op::SafeWrite16(WasmLocal::Temp(old(ctx).builder.next_local), WasmLocal::Temp((old(ctx).builder.next_local + 1) as u32)), Op::FreeLocal((old(ctx).builder.next_local + 1) as u32)] })); }
    ctx.builder.free_local(addr);
    proof {
        assert(ctx.builder.code@ =~= old(ctx).builder.code@ + instr32_8C_mem_jit_code(modrm_byte, r, old(ctx).builder.next_local));
        assert(ctx.builder.frame().live =~= old(ctx).builder.frame().live);
        assert(ctx.builder.frame().live64 =~= old(ctx).builder.frame().live64);
        assert(ctx.builder.frame().ctrl =~= old(ctx).builder.frame().ctrl);
    }
}

/// Copies the segment register `r2` into register `r1`; a larger `r2` than the six
/// segment registers raises the invalid-opcode exception.
pub fn instr32_8C_reg_jit(ctx: &mut JitContext, r1: u32, r2: u32)
    requires
        ready(old(ctx).builder, 8),
        r2 < 6 ==> r1 < 8,
    ensures
        emits(*old(ctx), *final(ctx), (if r2 >= 6 { seq![Op::TriggerUd] } else { seq![Op::GetSreg(r2), Op::SetReg32(r1)] }), 0),
        balanced_by(old(ctx).builder, final(ctx).builder, 0),
{
    if r2 >= 6 {
        ctx.builder.diverge(Op::TriggerUd);
        proof { assert(ctx.builder.code@ =~= old(ctx).builder.code@ + seq![Op::TriggerUd]); }
    } else {
        ctx.builder.emit(Op::GetSreg(r2));
        ctx.builder.emit(Op::SetReg32(r1));
        proof { assert(ctx.builder.code@ =~= old(ctx).builder.code@ + seq![Op::GetSreg(r2), Op::SetReg32(r1)]); }
    }
    proof {
        assert(ctx.builder.code@ =~= old(ctx).builder.code@ + (if r2 >= 6 { seq![Op::TriggerUd] } else { seq![Op::GetSreg(r2), Op::SetReg32(r1)] }));
        assert(ctx.builder.frame().live =~= old(ctx).builder.frame().live);
        assert(ctx.builder.frame().live64 =~= old(ctx).builder.frame().live64);
        assert(ctx.builder.frame().ctrl =~= old(ctx).builder.frame().ctrl);
    }
}

/// `lea` with a register operand raises the invalid-opcode exception.
pub fn instr32_8D_reg_jit(ctx: &mut JitContext, _r1: u32, _r2: u32)
    requires
        ready(old(ctx).builder, 8),
    ensures
        emits(*old(ctx), *final(ctx), seq![Op::TriggerUd], 0),
        balanced_by(old(ctx).builder, final(ctx).builder, 0),
{
    ctx.builder.diverge(Op::TriggerUd);
    proof {
        assert(ctx.builder.code@ =~= old(ctx).builder.code@ + seq![Op::TriggerUd]);
        assert(ctx.builder.frame().live =~= old(ctx).builder.frame().live);
        assert(ctx.builder.frame().live64 =~= old(ctx).builder.frame().live64);
        assert(ctx.builder.frame().ctrl =~= old(ctx).builder.frame().ctrl);
    }
}

/// The code that [`instr16_8F_0_mem_jit`] appends.
pub open spec fn instr16_8F_0_mem_jit_code(modrm_byte: u8, n: u32) -> Seq<Op> {
    seq![Op::AdjustStackReg(2), Op::ModrmResolve(modrm_byte), Op::SetNewLocal(n), Op::AdjustStackReg((-2i32) as u32), Op::Pop16, Op::SetNewLocal((n + 1) as u32), Op::AdjustStackReg((-2i32) as u32), Op::SafeWrite16(WasmLocal::Temp(n), WasmLocal::Temp((n + 1) as u32)), Op::FreeLocal(n), Op::FreeLocal((n + 1) as u32), Op::AdjustStackReg(2)]
}

/// Pops 16 bits into memory.  The address is computed with the stack pointer already
/// advanced, and the stack pointer only changes for good once the write succeeded.
pub fn instr16_8F_0_mem_jit(ctx: &mut JitContext, modrm_byte: u8)
    requires
        ready(old(ctx).builder, 8),
    ensures
        emits(*old(ctx), *final(ctx), instr16_8F_0_mem_jit_code(modrm_byte, old(ctx).builder.next_local), 2),
        restores_by(old(ctx).builder, final(ctx).builder, 0),
{
    ctx.builder.emit(Op::AdjustStackReg(2));
    ctx.builder.emit(Op::ModrmResolve(modrm_byte));
    let addr = ctx.builder.set_new_local();
    ctx.builder.emit(Op::AdjustStackReg((-2i32) as u32));
    ctx.builder.emit(Op::Pop16);
    let value = ctx.builder.set_new_local();
    ctx.builder.emit(Op::AdjustStackReg((-2i32) as u32));
    ctx.builder.emit(Op::SafeWrite16(addr, value));
    ctx.builder.free_local(addr);
    ctx.builder.free_local(value);
    ctx.builder.emit(Op::AdjustStackReg(2));
    proof {
        assert(ctx.builder.code@ =~= old(ctx).builder.code@ + instr16_8F_0_mem_jit_code(modrm_byte, old(ctx).builder.next_local));
        assert(ctx.builder.frame().live =~= old(ctx).builder.frame().live);
        assert(ctx.builder.frame().live64 =~= old(ctx).builder.frame().live64);
        assert(ctx.builder.frame().ctrl =~= old(ctx).builder.frame().ctrl);
    }
}

/// Pops 16 bits into register `r`.
pub fn instr16_8F_0_reg_jit(ctx: &mut JitContext, r: u32)
    requires
        ready(old(ctx).builder, 8),
        r < 8,
    ensures
        emits(*old(ctx), *final(ctx), pop16_reg_jit_code(r), 0),
        restores_by(old(ctx).builder, final(ctx).builder, 0),
{
    pop16_reg_jit(ctx, r);
    proof {
        assert(ctx.builder.code@ =~= old(ctx).builder.code@ + pop16_reg_jit_code(r));
        assert(ctx.builder.frame().live =~= old(ctx).builder.frame().live);
        assert(ctx.builder.frame().live64 =~= old(ctx).builder.frame().live64);
        assert(ctx.builder.frame().ctrl =~= old(ctx).builder.frame().ctrl);
    }
}

/// Pops 32 bits into memory.  The address is computed with the stack pointer already
/// advanced, and the stack pointer only changes for good once the write succeeded.
pub fn instr32_8F_0_mem_jit(ctx: &mut JitContext, modrm_byte: u8)
    requires
        ready(old(ctx).builder, 8),
    ensures
        emits(*old(ctx), *final(ctx), seq![Op::AdjustStackReg(4), Op::ModrmResolve(modrm_byte), Op::SetNewLocal(old(ctx).builder.next_local), Op::AdjustStackReg((-4i32) as u32), Op::Pop32s, Op::SetNewLocal((old(ctx).builder.next_local + 1) as u32), Op::AdjustStackReg((-4i32) as u32), Op::SafeWrite32(WasmLocal::Temp(old(ctx).builder.next_local), WasmLocal::Temp((old(ctx).builder.next_local + 1) as u32)), Op::FreeLocal(old(ctx).builder.next_local), Op::FreeLocal((old(ctx).builder.next_local + 1) as u32), Op::AdjustStackReg(4)], 2),
        restores_by(old(ctx).builder, final(ctx).builder, 0),
{
    ctx.builder.emit(Op::AdjustStackReg(4));
    ctx.builder.emit(Op::ModrmResolve(modrm_byte));
    let addr = ctx.builder.set_new_local();
    ctx.builder.emit(Op::AdjustStackReg((-4i32) as u32));
    ctx.builder.emit(Op::Pop32s);
    let value = ctx.builder.set_new_local();
    ctx.builder.emit(Op::AdjustStackReg((-4i32) as u32));
    ctx.builder.emit(Op::SafeWrite32(addr, value));
    ctx.builder.free_local(addr);
    ctx.builder.free_local(value);
    ctx.builder.emit(Op::AdjustStackReg(4));
    proof {
        assert(ctx.builder.code@ =~= old(ctx).builder.code@ + (seq![Op::AdjustStackReg(4), Op::ModrmResolve(modrm_byte), Op::SetNewLocal(old(ctx).builder.next_local), Op::AdjustStackReg((-4i32) as u32), Op::Pop32s, Op::SetNewLocal((old(ctx).builder.next_local + 1) as u32), Op::AdjustStackReg((-4i32) as u32), Op::SafeWrite32(WasmLocal::Temp(old(ctx).builder.next_local), WasmLocal::Temp((old(ctx).builder.next_local + 1) as u32)), Op::FreeLocal(old(ctx).builder.next_local), Op::FreeLocal((old(ctx).builder.next_local + 1) as u32), Op::AdjustStackReg(4)]));
        assert(ctx.builder.frame().live =~= old(ctx).builder.frame().live);
        assert(ctx.builder.frame().live64 =~= old(ctx).builder.frame().live64);
        assert(ctx.builder.frame().ctrl =~= old(ctx).builder.frame().ctrl);
    }
}

/// Pops 32 bits into register `r`.
pub fn instr32_8F_0_reg_jit(ctx: &mut JitContext, r: u32)
    requires
        ready(old(ctx).builder, 8),
        r < 8,
    ensures
        emits(*old(ctx), *final(ctx), pop32_reg_jit_code(r), 0),
        restores_by(old(ctx).builder, final(ctx).builder, 0),
{
    pop32_reg_jit(ctx, r);
    proof {
        assert(ctx.builder.code@ =~= old(ctx).builder.code@ + pop32_reg_jit_code(r));
        assert(ctx.builder.frame().live =~= old(ctx).builder.frame().live);
        assert(ctx.builder.frame().live64 =~= old(ctx).builder.frame().live64);
        assert(ctx.builder.frame().ctrl =~= old(ctx).builder.frame().ctrl);
    }
}

} // verus!
