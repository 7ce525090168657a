//! Opcodes `00` to `3F`: the arithmetic and logic operations and the segment pushes.

use vstd::prelude::*;
use crate::op::{Op, WasmLocal, LocalOrImmedate};
use crate::consts::{OPSIZE_8, OPSIZE_16, OPSIZE_32, ES, CS, SS, DS};
use crate::builder::{JitContext, ready, emits, restores_by};
use crate::alu::{Alu32, gen_compare, gen_compare_code};
use crate::templates::{read8_mem, read8_mem_code, read8_reg, read8_reg_code, read16_mem, read16_mem_code, read16_reg, read16_reg_code, read32_mem, read32_mem_code, read32_reg, read32_reg_code, write_reg8_mem, write_reg8_mem_code, write_reg8_reg, write_reg8_reg_code, write_reg16_mem, write_reg16_mem_code, write_reg16_reg, write_reg16_reg_code, write_reg32_mem, write_reg32_mem_code, write_reg32_reg, write_reg32_reg_code, rmw8_reg_mem, rmw8_reg_mem_code, rmw8_reg_reg, rmw8_reg_reg_code, rmw16_reg_mem, rmw16_reg_mem_code, rmw16_reg_reg, rmw16_reg_reg_code, rmw32_reg_mem, rmw32_reg_mem_code, rmw32_reg_reg, rmw32_reg_reg_code, group_arith_al_imm8, group_arith_al_imm8_code, group_arith_ax_imm16, group_arith_ax_imm16_code, group_arith_eax_imm32, group_arith_eax_imm32_code};

verus! {

/// `add` of the 8-bit register `r` into a byte in memory.
pub fn instr_00_mem_jit(ctx: &mut JitContext, modrm_byte: u8, r: u32)
    requires
        ready(old(ctx).builder, 8),
        r < 8,
    ensures
        emits(*old(ctx), *final(ctx), rmw8_reg_mem_code("add8", modrm_byte, r, old(ctx).builder.next_local), 1),
        restores_by(old(ctx).builder, final(ctx).builder, 0),
{
    rmw8_reg_mem(ctx, "add8", modrm_byte, r);
    proof {
        assert(ctx.builder.code@ =~= old(ctx).builder.code@ + rmw8_reg_mem_code("add8", modrm_byte, r, old(ctx).builder.next_local));
        assert(ctx.builder.frame().live =~= old(ctx).builder.frame().live);
        assert(ctx.builder.frame().live64 =~= old(ctx).builder.frame().live64);
        assert(ctx.builder.frame().ctrl =~= old(ctx).builder.frame().ctrl);
    }
}

/// `add` of the 8-bit register `r2` into `r1`.
pub fn instr_00_reg_jit(ctx: &mut JitContext, r1: u32, r2: u32)
    requires
        ready(old(ctx).builder, 8),
        r1 < 8,
        r2 < 8,
    ensures
        emits(*old(ctx), *final(ctx), rmw8_reg_reg_code("add8", r1, r2), 0),
        restores_by(old(ctx).builder, final(ctx).builder, 0),
{
    rmw8_reg_reg(ctx, "add8", r1, r2);
    proof {
        assert(ctx.builder.code@ =~= old(ctx).builder.code@ + rmw8_reg_reg_code("add8", r1, r2));
        assert(ctx.builder.frame().live =~= old(ctx).builder.frame().live);
        assert(ctx.builder.frame().live64 =~= old(ctx).builder.frame().live64);
        assert(ctx.builder.frame().ctrl =~= old(ctx).builder.frame().ctrl);
    }
}

/// `add` of the 16-bit register `r` into a word in memory.
pub fn instr16_01_mem_jit(ctx: &mut JitContext, modrm_byte: u8, r: u32)
    requires
        ready(old(ctx).builder, 8),
        r < 8,
    ensures
        emits(*old(ctx), *final(ctx), rmw16_reg_mem_code("add16", modrm_byte, r, old(ctx).builder.next_local), 1),
        restores_by(old(ctx).builder, final(ctx).builder, 0),
{
    rmw16_reg_mem(ctx, "add16", modrm_byte, r);
    proof {
        assert(ctx.builder.code@ =~= old(ctx).builder.code@ + rmw16_reg_mem_code("add16", modrm_byte, r, old(ctx).builder.next_local));
        assert(ctx.builder.frame().live =~= old(ctx).builder.frame().live);
        assert(ctx.builder.frame().live64 =~= old(ctx).builder.frame().live64);
        assert(ctx.builder.frame().ctrl =~= old(ctx).builder.frame().ctrl);
    }
}

/// `add` of the 16-bit register `r2` into `r1`.
pub fn instr16_01_reg_jit(ctx: &mut JitContext, r1: u32, r2: u32)
    requires
        ready(old(ctx).builder, 8),
        r1 < 8,
        r2 < 8,
    ensures
        emits(*old(ctx), *final(ctx), rmw16_reg_reg_code("add16", r1, r2), 0),
        restores_by(old(ctx).builder, final(ctx).builder, 0),
{
    rmw16_reg_reg(ctx, "add16", r1, r2);
    proof {
        assert(ctx.builder.code@ =~= old(ctx).builder.code@ + rmw16_reg_reg_code("add16", r1, r2));
        assert(ctx.builder.frame().live =~= old(ctx).builder.frame().live);
        assert(ctx.builder.frame().live64 =~= old(ctx).builder.frame().live64);
        assert(ctx.builder.frame().ctrl =~= old(ctx).builder.frame().ctrl);
    }
}

/// `add` of register `r` into a doubleword in memory.
pub fn instr32_01_mem_jit(ctx: &mut JitContext, modrm_byte: u8, r: u32)
    requires
        ready(old(ctx).builder, 8),
        r < 8,
    ensures
        emits(*old(ctx), *final(ctx), rmw32_reg_mem_code(Alu32::Add, modrm_byte, r, old(ctx).builder.next_local), 2),
        restores_by(old(ctx).builder, final(ctx).builder, 0),
{
    rmw32_reg_mem(ctx, Alu32::Add, modrm_byte, r);
    proof {
        assert(ctx.builder.code@ =~= old(ctx).builder.code@ + rmw32_reg_mem_code(Alu32::Add, modrm_byte, r, old(ctx).builder.next_local));
        assert(ctx.builder.frame().live =~= old(ctx).builder.frame().live);
        assert(ctx.builder.frame().live64 =~= old(ctx).builder.frame().live64);
        assert(ctx.builder.frame().ctrl =~= old(ctx).builder.frame().ctrl);
    }
}

/// `add` of register `r2` into `r1`.
pub fn instr32_01_reg_jit(ctx: &mut JitContext, r1: u32, r2: u32)
    requires
        ready(old(ctx).builder, 8),
        r1 < 8,
        r2 < 8,
    ensures
        emits(*old(ctx), *final(ctx), rmw32_reg_reg_code(Alu32::Add, r1, r2), 0),
        restores_by(old(ctx).builder, final(ctx).builder, 0),
{
    rmw32_reg_reg(ctx, Alu32::Add, r1, r2);
    proof {
        assert(ctx.builder.code@ =~= old(ctx).builder.code@ + rmw32_reg_reg_code(Alu32::Add, r1, r2));
        assert(ctx.builder.frame().live =~= old(ctx).builder.frame().live);
        assert(ctx.builder.frame().live64 =~= old(ctx).builder.frame().live64);
        assert(ctx.builder.frame().ctrl =~= old(ctx).builder.frame().ctrl);
    }
}

/// `add` of a byte in memory into the 8-bit register `r`.
pub fn instr_02_mem_jit(ctx: &mut JitContext, modrm_byte: u8, r: u32)
    requires
        ready(old(ctx).builder, 8),
        r < 8,
    ensures
        emits(*old(ctx), *final(ctx), write_reg8_mem_code("add8", modrm_byte, r), 0),
        restores_by(old(ctx).builder, final(ctx).builder, 0),
{
    write_reg8_mem(ctx, "add8", modrm_byte, r);
    proof {
        assert(ctx.builder.code@ =~= old(ctx).builder.code@ + write_reg8_mem_code("add8", modrm_byte, r));
        assert(ctx.builder.frame().live =~= old(ctx).builder.frame().live);
        assert(ctx.builder.frame().live64 =~= old(ctx).builder.frame().live64);
        assert(ctx.builder.frame().ctrl =~= old(ctx).builder.frame().ctrl);
    }
}

/// `add` of the 8-bit register `r1` into `r2`.
pub fn instr_02_reg_jit(ctx: &mut JitContext, r1: u32, r2: u32)
    requires
        ready(old(ctx).builder, 8),
        r1 < 8,
        r2 < 8,
    ensures
        emits(*old(ctx), *final(ctx), write_reg8_reg_code("add8", r1, r2), 0),
        restores_by(old(ctx).builder, final(ctx).builder, 0),
{
    write_reg8_reg(ctx, "add8", r1, r2);
    proof {
        assert(ctx.builder.code@ =~= old(ctx).builder.code@ + write_reg8_reg_code("add8", r1, r2));
        assert(ctx.builder.frame().live =~= old(ctx).builder.frame().live);
        assert(ctx.builder.frame().live64 =~= old(ctx).builder.frame().live64);
        assert(ctx.builder.frame().ctrl =~= old(ctx).builder.frame().ctrl);
    }
}

/// `add` of a word in memory into the 16-bit register `r`.
pub fn instr16_03_mem_jit(ctx: &mut JitContext, modrm_byte: u8, r: u32)
    requires
        ready(old(ctx).builder, 8),
        r < 8,
    ensures
        emits(*old(ctx), *final(ctx), write_reg16_mem_code("add16", modrm_byte, r), 0),
        restores_by(old(ctx).builder, final(ctx).builder, 0),
{
    write_reg16_mem(ctx, "add16", modrm_byte, r);
    proof {
        assert(ctx.builder.code@ =~= old(ctx).builder.code@ + write_reg16_mem_code("add16", modrm_byte, r));
        assert(ctx.builder.frame().live =~= old(ctx).builder.frame().live);
        assert(ctx.builder.frame().live64 =~= old(ctx).builder.frame().live64);
        assert(ctx.builder.frame().ctrl =~= old(ctx).builder.frame().ctrl);
    }
}

/// `add` of the 16-bit register `r1` into `r2`.
pub fn instr16_03_reg_jit(ctx: &mut JitContext, r1: u32, r2: u32)
    requires
        ready(old(ctx).builder, 8),
        r1 < 8,
        r2 < 8,
    ensures
        emits(*old(ctx), *final(ctx), write_reg16_reg_code("add16", r1, r2), 0),
        restores_by(old(ctx).builder, final(ctx).builder, 0),
{
    write_reg16_reg(ctx, "add16", r1, r2);
    proof {
        assert(ctx.builder.code@ =~= old(ctx).builder.code@ + write_reg16_reg_code("add16", r1, r2));
        assert(ctx.builder.frame().live =~= old(ctx).builder.frame().live);
        assert(ctx.builder.frame().live64 =~= old(ctx).builder.frame().live64);
        assert(ctx.builder.frame().ctrl =~= old(ctx).builder.frame().ctrl);
    }
}

/// `add` of a doubleword in memory into register `r`.
pub fn instr32_03_mem_jit(ctx: &mut JitContext, modrm_byte: u8, r: u32)
    requires
        ready(old(ctx).builder, 8),
        r < 8,
    ensures
        emits(*old(ctx), *final(ctx), write_reg32_mem_code(Alu32::Add, modrm_byte, r, old(ctx).builder.next_local), 1),
        restores_by(old(ctx).builder, final(ctx).builder, 0),
{
    write_reg32_mem(ctx, Alu32::Add, modrm_byte, r);
    proof {
        assert(ctx.builder.code@ =~= old(ctx).builder.code@ + write_reg32_mem_code(Alu32::Add, modrm_byte, r, old(ctx).builder.next_local));
        assert(ctx.builder.frame().live =~= old(ctx).builder.frame().live);
        assert(ctx.builder.frame().live64 =~= old(ctx).builder.frame().live64);
        assert(ctx.builder.frame().ctrl =~= old(ctx).builder.frame().ctrl);
    }
}

/// `add` of register `r1` into `r2`.
pub fn instr32_03_reg_jit(ctx: &mut JitContext, r1: u32, r2: u32)
    requires
        ready(old(ctx).builder, 8),
        r1 < 8,
        r2 < 8,
    ensures
        emits(*old(ctx), *final(ctx), write_reg32_reg_code(Alu32::Add, r1, r2), 0),
        restores_by(old(ctx).builder, final(ctx).builder, 0),
{
    write_reg32_reg(ctx, Alu32::Add, r1, r2);
    proof {
        assert(ctx.builder.code@ =~= old(ctx).builder.code@ + write_reg32_reg_code(Alu32::Add, r1, r2));
        assert(ctx.builder.frame().live =~= old(ctx).builder.frame().live);
        assert(ctx.builder.frame().live64 =~= old(ctx).builder.frame().live64);
        assert(ctx.builder.frame().ctrl =~= old(ctx).builder.frame().ctrl);
    }
}

/// `add` of an immediate into AL.
pub fn instr_04_jit(ctx: &mut JitContext, imm8: u32)
    requires
        ready(old(ctx).builder, 8),
    ensures
        emits(*old(ctx), *final(ctx), group_arith_al_imm8_code("add8", imm8), 0),
        restores_by(old(ctx).builder, final(ctx).builder, 0),
{
    group_arith_al_imm8(ctx, "add8", imm8);
    proof {
        assert(ctx.builder.code@ =~= old(ctx).builder.code@ + group_arith_al_imm8_code("add8", imm8));
        assert(ctx.builder.frame().live =~= old(ctx).builder.frame().live);
        assert(ctx.builder.frame().live64 =~= old(ctx).builder.frame().live64);
        assert(ctx.builder.frame().ctrl =~= old(ctx).builder.frame().ctrl);
    }
}

/// `add` of an immediate into AX.
pub fn instr16_05_jit(ctx: &mut JitContext, imm16: u32)
    requires
        ready(old(ctx).builder, 8),
    ensures
        emits(*old(ctx), *final(ctx), group_arith_ax_imm16_code("add16", imm16), 0),
        restores_by(old(ctx).builder, final(ctx).builder, 0),
{
    group_arith_ax_imm16(ctx, "add16", imm16);
    proof {
        assert(ctx.builder.code@ =~= old(ctx).builder.code@ + group_arith_ax_imm16_code("add16", imm16));
        assert(ctx.builder.frame().live =~= old(ctx).builder.frame().live);
        assert(ctx.builder.frame().live64 =~= old(ctx).builder.frame().live64);
        assert(ctx.builder.frame().ctrl =~= old(ctx).builder.frame().ctrl);
    }
}

/// `add` of an immediate into EAX.
pub fn instr32_05_jit(ctx: &mut JitContext, imm32: u32)
    requires
        ready(old(ctx).builder, 8),
    ensures
        emits(*old(ctx), *final(ctx), group_arith_eax_imm32_code(Alu32::Add, imm32), 0),
        restores_by(old(ctx).builder, final(ctx).builder, 0),
{
    group_arith_eax_imm32(ctx, Alu32::Add, imm32);
    proof {
        assert(ctx.builder.code@ =~= old(ctx).builder.code@ + group_arith_eax_imm32_code(Alu32::Add, imm32));
        assert(ctx.builder.frame().live =~= old(ctx).builder.frame().live);
        assert(ctx.builder.frame().live64 =~= old(ctx).builder.frame().live64);
        assert(ctx.builder.frame().ctrl =~= old(ctx).builder.frame().ctrl);
    }
}

/// `or` of the 8-bit register `r` into a byte in memory.
pub fn instr_08_mem_jit(ctx: &mut JitContext, modrm_byte: u8, r: u32)
    requires
        ready(old(ctx).builder, 8),
        r < 8,
    ensures
        emits(*old(ctx), *final(ctx), rmw8_reg_mem_code("or8", modrm_byte, r, old(ctx).builder.next_local), 1),
        restores_by(old(ctx).builder, final(ctx).builder, 0),
{
    rmw8_reg_mem(ctx, "or8", modrm_byte, r);
    proof {
        assert(ctx.builder.code@ =~= old(ctx).builder.code@ + rmw8_reg_mem_code("or8", modrm_byte, r, old(ctx).builder.next_local));
        assert(ctx.builder.frame().live =~= old(ctx).builder.frame().live);
        assert(ctx.builder.frame().live64 =~= old(ctx).builder.frame().live64);
        assert(ctx.builder.frame().ctrl =~= old(ctx).builder.frame().ctrl);
    }
}

/// `or` of the 8-bit register `r2` into `r1`.
pub fn instr_08_reg_jit(ctx: &mut JitContext, r1: u32, r2: u32)
    requires
        ready(old(ctx).builder, 8),
        r1 < 8,
        r2 < 8,
    ensures
        emits(*old(ctx), *final(ctx), rmw8_reg_reg_code("or8", r1, r2), 0),
        restores_by(old(ctx).builder, final(ctx).builder, 0),
{
    rmw8_reg_reg(ctx, "or8", r1, r2);
    proof {
        assert(ctx.builder.code@ =~= old(ctx).builder.code@ + rmw8_reg_reg_code("or8", r1, r2));
        assert(ctx.builder.frame().live =~= old(ctx).builder.frame().live);
        assert(ctx.builder.frame().live64 =~= old(ctx).builder.frame().live64);
        assert(ctx.builder.frame().ctrl =~= old(ctx).builder.frame().ctrl);
    }
}

/// `or` of the 16-bit register `r` into a word in memory.
pub fn instr16_09_mem_jit(ctx: &mut JitContext, modrm_byte: u8, r: u32)
    requires
        ready(old(ctx).builder, 8),
        r < 8,
    ensures
        emits(*old(ctx), *final(ctx), rmw16_reg_mem_code("or16", modrm_byte, r, old(ctx).builder.next_local), 1),
        restores_by(old(ctx).builder, final(ctx).builder, 0),
{
    rmw16_reg_mem(ctx, "or16", modrm_byte, r);
    proof {
        assert(ctx.builder.code@ =~= old(ctx).builder.code@ + rmw16_reg_mem_code("or16", modrm_byte, r, old(ctx).builder.next_local));
        assert(ctx.builder.frame().live =~= old(ctx).builder.frame().live);
        assert(ctx.builder.frame().live64 =~= old(ctx).builder.frame().live64);
        assert(ctx.builder.frame().ctrl =~= old(ctx).builder.frame().ctrl);
    }
}

/// `or` of the 16-bit register `r2` into `r1`.
pub fn instr16_09_reg_jit(ctx: &mut JitContext, r1: u32, r2: u32)
    requires
        ready(old(ctx).builder, 8),
        r1 < 8,
        r2 < 8,
    ensures
        emits(*old(ctx), *final(ctx), rmw16_reg_reg_code("or16", r1, r2), 0),
        restores_by(old(ctx).builder, final(ctx).builder, 0),
{
    rmw16_reg_reg(ctx, "or16", r1, r2);
    proof {
        assert(ctx.builder.code@ =~= old(ctx).builder.code@ + rmw16_reg_reg_code("or16", r1, r2));
        assert(ctx.builder.frame().live =~= old(ctx).builder.frame().live);
        assert(ctx.builder.frame().live64 =~= old(ctx).builder.frame().live64);
        assert(ctx.builder.frame().ctrl =~= old(ctx).builder.frame().ctrl);
    }
}

/// `or` of register `r` into a doubleword in memory.
pub fn instr32_09_mem_jit(ctx: &mut JitContext, modrm_byte: u8, r: u32)
    requires
        ready(old(ctx).builder, 8),
        r < 8,
    ensures
        emits(*old(ctx), *final(ctx), rmw32_reg_mem_code(Alu32::Or, modrm_byte, r, old(ctx).builder.next_local), 2),
        restores_by(old(ctx).builder, final(ctx).builder, 0),
{
    rmw32_reg_mem(ctx, Alu32::Or, modrm_byte, r);
    proof {
        assert(ctx.builder.code@ =~= old(ctx).builder.code@ + rmw32_reg_mem_code(Alu32::Or, modrm_byte, r, old(ctx).builder.next_local));
        assert(ctx.builder.frame().live =~= old(ctx).builder.frame().live);
        assert(ctx.builder.frame().live64 =~= old(ctx).builder.frame().live64);
        assert(ctx.builder.frame().ctrl =~= old(ctx).builder.frame().ctrl);
    }
}

/// `or` of register `r2` into `r1`.
pub fn instr32_09_reg_jit(ctx: &mut JitContext, r1: u32, r2: u32)
    requires
        ready(old(ctx).builder, 8),
        r1 < 8,
        r2 < 8,
    ensures
        emits(*old(ctx), *final(ctx), rmw32_reg_reg_code(Alu32::Or, r1, r2), 0),
        restores_by(old(ctx).builder, final(ctx).builder, 0),
{
    rmw32_reg_reg(ctx, Alu32::Or, r1, r2);
    proof {
        assert(ctx.builder.code@ =~= old(ctx).builder.code@ + rmw32_reg_reg_code(Alu32::Or, r1, r2));
        assert(ctx.builder.frame().live =~= old(ctx).builder.frame().live);
        assert(ctx.builder.frame().live64 =~= old(ctx).builder.frame().live64);
        assert(ctx.builder.frame().ctrl =~= old(ctx).builder.frame().ctrl);
    }
}

/// `or` of a byte in memory into the 8-bit register `r`.
pub fn instr_0A_mem_jit(ctx: &mut JitContext, modrm_byte: u8, r: u32)
    requires
        ready(old(ctx).builder, 8),
        r < 8,
    ensures
        emits(*old(ctx), *final(ctx), write_reg8_mem_code("or8", modrm_byte, r), 0),
        restores_by(old(ctx).builder, final(ctx).builder, 0),
{
    write_reg8_mem(ctx, "or8", modrm_byte, r);
    proof {
        assert(ctx.builder.code@ =~= old(ctx).builder.code@ + write_reg8_mem_code("or8", modrm_byte, r));
        assert(ctx.builder.frame().live =~= old(ctx).builder.frame().live);
        assert(ctx.builder.frame().live64 =~= old(ctx).builder.frame().live64);
        assert(ctx.builder.frame().ctrl =~= old(ctx).builder.frame().ctrl);
    }
}

/// `or` of the 8-bit register `r1` into `r2`.
pub fn instr_0A_reg_jit(ctx: &mut JitContext, r1: u32, r2: u32)
    requires
        ready(old(ctx).builder, 8),
        r1 < 8,
        r2 < 8,
    ensures
        emits(*old(ctx), *final(ctx), write_reg8_reg_code("or8", r1, r2), 0),
        restores_by(old(ctx).builder, final(ctx).builder, 0),
{
    write_reg8_reg(ctx, "or8", r1, r2);
    proof {
        assert(ctx.builder.code@ =~= old(ctx).builder.code@ + write_reg8_reg_code("or8", r1, r2));
        assert(ctx.builder.frame().live =~= old(ctx).builder.frame().live);
        assert(ctx.builder.frame().live64 =~= old(ctx).builder.frame().live64);
        assert(ctx.builder.frame().ctrl =~= old(ctx).builder.frame().ctrl);
    }
}

/// `or` of a word in memory into the 16-bit register `r`.
pub fn instr16_0B_mem_jit(ctx: &mut JitContext, modrm_byte: u8, r: u32)
    requires
        ready(old(ctx).builder, 8),
        r < 8,
    ensures
        emits(*old(ctx), *final(ctx), write_reg16_mem_code("or16", modrm_byte, r), 0),
        restores_by(old(ctx).builder, final(ctx).builder, 0),
{
    write_reg16_mem(ctx, "or16", modrm_byte, r);
    proof {
        assert(ctx.builder.code@ =~= old(ctx).builder.code@ + write_reg16_mem_code("or16", modrm_byte, r));
        assert(ctx.builder.frame().live =~= old(ctx).builder.frame().live);
        assert(ctx.builder.frame().live64 =~= old(ctx).builder.frame().live64);
        assert(ctx.builder.frame().ctrl =~= old(ctx).builder.frame().ctrl);
    }
}

/// `or` of the 16-bit register `r1` into `r2`.
pub fn instr16_0B_reg_jit(ctx: &mut JitContext, r1: u32, r2: u32)
    requires
        ready(old(ctx).builder, 8),
        r1 < 8,
        r2 < 8,
    ensures
        emits(*old(ctx), *final(ctx), write_reg16_reg_code("or16", r1, r2), 0),
        restores_by(old(ctx).builder, final(ctx).builder, 0),
{
    write_reg16_reg(ctx, "or16", r1, r2);
    proof {
        assert(ctx.builder.code@ =~= old(ctx).builder.code@ + write_reg16_reg_code("or16", r1, r2));
        assert(ctx.builder.frame().live =~= old(ctx).builder.frame().live);
        assert(ctx.builder.frame().live64 =~= old(ctx).builder.frame().live64);
        assert(ctx.builder.frame().ctrl =~= old(ctx).builder.frame().ctrl);
    }
}

/// `or` of a doubleword in memory into register `r`.
pub fn instr32_0B_mem_jit(ctx: &mut JitContext, modrm_byte: u8, r: u32)
    requires
        ready(old(ctx).builder, 8),
        r < 8,
    ensures
        emits(*old(ctx), *final(ctx), write_reg32_mem_code(Alu32::Or, modrm_byte, r, old(ctx).builder.next_local), 1),
        restores_by(old(ctx).builder, final(ctx).builder, 0),
{
    write_reg32_mem(ctx, Alu32::Or, modrm_byte, r);
    proof {
        assert(ctx.builder.code@ =~= old(ctx).builder.code@ + write_reg32_mem_code(Alu32::Or, modrm_byte, r, old(ctx).builder.next_local));
        assert(ctx.builder.frame().live =~= old(ctx).builder.frame().live);
        assert(ctx.builder.frame().live64 =~= old(ctx).builder.frame().live64);
        assert(ctx.builder.frame().ctrl =~= old(ctx).builder.frame().ctrl);
    }
}

/// `or` of register `r1` into `r2`.
pub fn instr32_0B_reg_jit(ctx: &mut JitContext, r1: u32, r2: u32)
    requires
        ready(old(ctx).builder, 8),
        r1 < 8,
        r2 < 8,
    ensures
        emits(*old(ctx), *final(ctx), write_reg32_reg_code(Alu32::Or, r1, r2), 0),
        restores_by(old(ctx).builder, final(ctx).builder, 0),
{
    write_reg32_reg(ctx, Alu32::Or, r1, r2);
    proof {
        assert(ctx.builder.code@ =~= old(ctx).builder.code@ + write_reg32_reg_code(Alu32::Or, r1, r2));
        assert(ctx.builder.frame().live =~= old(ctx).builder.frame().live);
        assert(ctx.builder.frame().live64 =~= old(ctx).builder.frame().live64);
        assert(ctx.builder.frame().ctrl =~= old(ctx).builder.frame().ctrl);
    }
}

/// `or` of an immediate into AL.
pub fn instr_0C_jit(ctx: &mut JitContext, imm8: u32)
    requires
        ready(old(ctx).builder, 8),
    ensures
        emits(*old(ctx), *final(ctx), group_arith_al_imm8_code("or8", imm8), 0),
        restores_by(old(ctx).builder, final(ctx).builder, 0),
{
    group_arith_al_imm8(ctx, "or8", imm8);
    proof {
        assert(ctx.builder.code@ =~= old(ctx).builder.code@ + group_arith_al_imm8_code("or8", imm8));
        assert(ctx.builder.frame().live =~= old(ctx).builder.frame().live);
        assert(ctx.builder.frame().live64 =~= old(ctx).builder.frame().live64);
        assert(ctx.builder.frame().ctrl =~= old(ctx).builder.frame().ctrl);
    }
}

/// `or` of an immediate into AX.
pub fn instr16_0D_jit(ctx: &mut JitContext, imm16: u32)
    requires
        ready(old(ctx).builder, 8),
    ensures
        emits(*old(ctx), *final(ctx), group_arith_ax_imm16_code("or16", imm16), 0),
        restores_by(old(ctx).builder, final(ctx).builder, 0),
{
    group_arith_ax_imm16(ctx, "or16", imm16);
    proof {
        assert(ctx.builder.code@ =~= old(ctx).builder.code@ + group_arith_ax_imm16_code("or16", imm16));
        assert(ctx.builder.frame().live =~= old(ctx).builder.frame().live);
        assert(ctx.builder.frame().live64 =~= old(ctx).builder.frame().live64);
        assert(ctx.builder.frame().ctrl =~= old(ctx).builder.frame().ctrl);
    }
}

/// `or` of an immediate into EAX.
pub fn instr32_0D_jit(ctx: &mut JitContext, imm32: u32)
    requires
        ready(old(ctx).builder, 8),
    ensures
        emits(*old(ctx), *final(ctx), group_arith_eax_imm32_code(Alu32::Or, imm32), 0),
        restores_by(old(ctx).builder, final(ctx).builder, 0),
{
    group_arith_eax_imm32(ctx, Alu32::Or, imm32);
    proof {
        assert(ctx.builder.code@ =~= old(ctx).builder.code@ + group_arith_eax_imm32_code(Alu32::Or, imm32));
        assert(ctx.builder.frame().live =~= old(ctx).builder.frame().live);
        assert(ctx.builder.frame().live64 =~= old(ctx).builder.frame().live64);
        assert(ctx.builder.frame().ctrl =~= old(ctx).builder.frame().ctrl);
    }
}

/// `adc` of the 8-bit register `r` into a byte in memory.
pub fn instr_10_mem_jit(ctx: &mut JitContext, modrm_byte: u8, r: u32)
    requires
        ready(old(ctx).builder, 8),
        r < 8,
    ensures
        emits(*old(ctx), *final(ctx), rmw8_reg_mem_code("adc8", modrm_byte, r, old(ctx).builder.next_local), 1),
        restores_by(old(ctx).builder, final(ctx).builder, 0),
{
    rmw8_reg_mem(ctx, "adc8", modrm_byte, r);
    proof {
        assert(ctx.builder.code@ =~= old(ctx).builder.code@ + rmw8_reg_mem_code("adc8", modrm_byte, r, old(ctx).builder.next_local));
        assert(ctx.builder.frame().live =~= old(ctx).builder.frame().live);
        assert(ctx.builder.frame().live64 =~= old(ctx).builder.frame().live64);
        assert(ctx.builder.frame().ctrl =~= old(ctx).builder.frame().ctrl);
    }
}

/// `adc` of the 8-bit register `r2` into `r1`.
pub fn instr_10_reg_jit(ctx: &mut JitContext, r1: u32, r2: u32)
    requires
        ready(old(ctx).builder, 8),
        r1 < 8,
        r2 < 8,
    ensures
        emits(*old(ctx), *final(ctx), rmw8_reg_reg_code("adc8", r1, r2), 0),
        restores_by(old(ctx).builder, final(ctx).builder, 0),
{
    rmw8_reg_reg(ctx, "adc8", r1, r2);
    proof {
        assert(ctx.builder.code@ =~= old(ctx).builder.code@ + rmw8_reg_reg_code("adc8", r1, r2));
        assert(ctx.builder.frame().live =~= old(ctx).builder.frame().live);
        assert(ctx.builder.frame().live64 =~= old(ctx).builder.frame().live64);
        assert(ctx.builder.frame().ctrl =~= old(ctx).builder.frame().ctrl);
    }
}

/// `adc` of the 16-bit register `r` into a word in memory.
pub fn instr16_11_mem_jit(ctx: &mut JitContext, modrm_byte: u8, r: u32)
    requires
        ready(old(ctx).builder, 8),
        r < 8,
    ensures
        emits(*old(ctx), *final(ctx), rmw16_reg_mem_code("adc16", modrm_byte, r, old(ctx).builder.next_local), 1),
        restores_by(old(ctx).builder, final(ctx).builder, 0),
{
    rmw16_reg_mem(ctx, "adc16", modrm_byte, r);
    proof {
        assert(ctx.builder.code@ =~= old(ctx).builder.code@ + rmw16_reg_mem_code("adc16", modrm_byte, r, old(ctx).builder.next_local));
        assert(ctx.builder.frame().live =~= old(ctx).builder.frame().live);
        assert(ctx.builder.frame().live64 =~= old(ctx).builder.frame().live64);
        assert(ctx.builder.frame().ctrl =~= old(ctx).builder.frame().ctrl);
    }
}

/// `adc` of the 16-bit register `r2` into `r1`.
pub fn instr16_11_reg_jit(ctx: &mut JitContext, r1: u32, r2: u32)
    requires
        ready(old(ctx).builder, 8),
        r1 < 8,
        r2 < 8,
    ensures
        emits(*old(ctx), *final(ctx), rmw16_reg_reg_code("adc16", r1, r2), 0),
        restores_by(old(ctx).builder, final(ctx).builder, 0),
{
    rmw16_reg_reg(ctx, "adc16", r1, r2);
    proof {
        assert(ctx.builder.code@ =~= old(ctx).builder.code@ + rmw16_reg_reg_code("adc16", r1, r2));
        assert(ctx.builder.frame().live =~= old(ctx).builder.frame().live);
        assert(ctx.builder.frame().live64 =~= old(ctx).builder.frame().live64);
        assert(ctx.builder.frame().ctrl =~= old(ctx).builder.frame().ctrl);
    }
}

/// `adc` of register `r` into a doubleword in memory.
pub fn instr32_11_mem_jit(ctx: &mut JitContext, modrm_byte: u8, r: u32)
    requires
        ready(old(ctx).builder, 8),
        r < 8,
    ensures
        emits(*old(ctx), *final(ctx), rmw32_reg_mem_code(Alu32::Adc, modrm_byte, r, old(ctx).builder.next_local), 2),
        restores_by(old(ctx).builder, final(ctx).builder, 0),
{
    rmw32_reg_mem(ctx, Alu32::Adc, modrm_byte, r);
    proof {
        assert(ctx.builder.code@ =~= old(ctx).builder.code@ + rmw32_reg_mem_code(Alu32::Adc, modrm_byte, r, old(ctx).builder.next_local));
        assert(ctx.builder.frame().live =~= old(ctx).builder.frame().live);
        assert(ctx.builder.frame().live64 =~= old(ctx).builder.frame().live64);
        assert(ctx.builder.frame().ctrl =~= old(ctx).builder.frame().ctrl);
    }
}

/// `adc` of register `r2` into `r1`.
pub fn instr32_11_reg_jit(ctx: &mut JitContext, r1: u32, r2: u32)
    requires
        ready(old(ctx).builder, 8),
        r1 < 8,
        r2 < 8,
    ensures
        emits(*old(ctx), *final(ctx), rmw32_reg_reg_code(Alu32::Adc, r1, r2), 0),
        restores_by(old(ctx).builder, final(ctx).builder, 0),
{
    rmw32_reg_reg(ctx, Alu32::Adc, r1, r2);
    proof {
        assert(ctx.builder.code@ =~= old(ctx).builder.code@ + rmw32_reg_reg_code(Alu32::Adc, r1, r2));
        assert(ctx.builder.frame().live =~= old(ctx).builder.frame().live);
        assert(ctx.builder.frame().live64 =~= old(ctx).builder.frame().live64);
        assert(ctx.builder.frame().ctrl =~= old(ctx).builder.frame().ctrl);
    }
}

/// `adc` of a byte in memory into the 8-bit register `r`.
pub fn instr_12_mem_jit(ctx: &mut JitContext, modrm_byte: u8, r: u32)
    requires
        ready(old(ctx).builder, 8),
        r < 8,
    ensures
        emits(*old(ctx), *final(ctx), write_reg8_mem_code("adc8", modrm_byte, r), 0),
        restores_by(old(ctx).builder, final(ctx).builder, 0),
{
    write_reg8_mem(ctx, "adc8", modrm_byte, r);
    proof {
        assert(ctx.builder.code@ =~= old(ctx).builder.code@ + write_reg8_mem_code("adc8", modrm_byte, r));
        assert(ctx.builder.frame().live =~= old(ctx).builder.frame().live);
        assert(ctx.builder.frame().live64 =~= old(ctx).builder.frame().live64);
        assert(ctx.builder.frame().ctrl =~= old(ctx).builder.frame().ctrl);
    }
}

/// `adc` of the 8-bit register `r1` into `r2`.
pub fn instr_12_reg_jit(ctx: &mut JitContext, r1: u32, r2: u32)
    requires
        ready(old(ctx).builder, 8),
        r1 < 8,
        r2 < 8,
    ensures
        emits(*old(ctx), *final(ctx), write_reg8_reg_code("adc8", r1, r2), 0),
        restores_by(old(ctx).builder, final(ctx).builder, 0),
{
    write_reg8_reg(ctx, "adc8", r1, r2);
    proof {
        assert(ctx.builder.code@ =~= old(ctx).builder.code@ + write_reg8_reg_code("adc8", r1, r2));
        assert(ctx.builder.frame().live =~= old(ctx).builder.frame().live);
        assert(ctx.builder.frame().live64 =~= old(ctx).builder.frame().live64);
        assert(ctx.builder.frame().ctrl =~= old(ctx).builder.frame().ctrl);
    }
}

/// `adc` of a word in memory into the 16-bit register `r`.
pub fn instr16_13_mem_jit(ctx: &mut JitContext, modrm_byte: u8, r: u32)
    requires
        ready(old(ctx).builder, 8),
        r < 8,
    ensures
        emits(*old(ctx), *final(ctx), write_reg16_mem_code("adc16", modrm_byte, r), 0),
        restores_by(old(ctx).builder, final(ctx).builder, 0),
{
    write_reg16_mem(ctx, "adc16", modrm_byte, r);
    proof {
        assert(ctx.builder.code@ =~= old(ctx).builder.code@ + write_reg16_mem_code("adc16", modrm_byte, r));
        assert(ctx.builder.frame().live =~= old(ctx).builder.frame().live);
        assert(ctx.builder.frame().live64 =~= old(ctx).builder.frame().live64);
        assert(ctx.builder.frame().ctrl =~= old(ctx).builder.frame().ctrl);
    }
}

/// `adc` of the 16-bit register `r1` into `r2`.
pub fn instr16_13_reg_jit(ctx: &mut JitContext, r1: u32, r2: u32)
    requires
        ready(old(ctx).builder, 8),
        r1 < 8,
        r2 < 8,
    ensures
        emits(*old(ctx), *final(ctx), write_reg16_reg_code("adc16", r1, r2), 0),
        restores_by(old(ctx).builder, final(ctx).builder, 0),
{
    write_reg16_reg(ctx, "adc16", r1, r2);
    proof {
        assert(ctx.builder.code@ =~= old(ctx).builder.code@ + write_reg16_reg_code("adc16", r1, r2));
        assert(ctx.builder.frame().live =~= old(ctx).builder.frame().live);
        assert(ctx.builder.frame().live64 =~= old(ctx).builder.frame().live64);
        assert(ctx.builder.frame().ctrl =~= old(ctx).builder.frame().ctrl);
    }
}

/// `adc` of a doubleword in memory into register `r`.
pub fn instr32_13_mem_jit(ctx: &mut JitContext, modrm_byte: u8, r: u32)
    requires
        ready(old(ctx).builder, 8),
        r < 8,
    ensures
        emits(*old(ctx), *final(ctx), write_reg32_mem_code(Alu32::Adc, modrm_byte, r, old(ctx).builder.next_local), 1),
        restores_by(old(ctx).builder, final(ctx).builder, 0),
{
    write_reg32_mem(ctx, Alu32::Adc, modrm_byte, r);
    proof {
        assert(ctx.builder.code@ =~= old(ctx).builder.code@ + write_reg32_mem_code(Alu32::Adc, modrm_byte, r, old(ctx).builder.next_local));
        assert(ctx.builder.frame().live =~= old(ctx).builder.frame().live);
        assert(ctx.builder.frame().live64 =~= old(ctx).builder.frame().live64);
        assert(ctx.builder.frame().ctrl =~= old(ctx).builder.frame().ctrl);
    }
}

/// `adc` of register `r1` into `r2`.
pub fn instr32_13_reg_jit(ctx: &mut JitContext, r1: u32, r2: u32)
    requires
        ready(old(ctx).builder, 8),
        r1 < 8,
        r2 < 8,
    ensures
        emits(*old(ctx), *final(ctx), write_reg32_reg_code(Alu32::Adc, r1, r2), 0),
        restores_by(old(ctx).builder, final(ctx).builder, 0),
{
    write_reg32_reg(ctx, Alu32::Adc, r1, r2);
    proof {
        assert(ctx.builder.code@ =~= old(ctx).builder.code@ + write_reg32_reg_code(Alu32::Adc, r1, r2));
        assert(ctx.builder.frame().live =~= old(ctx).builder.frame().live);
        assert(ctx.builder.frame().live64 =~= old(ctx).builder.frame().live64);
        assert(ctx.builder.frame().ctrl =~= old(ctx).builder.frame().ctrl);
    }
}

/// `adc` of an immediate into AL.
pub fn instr_14_jit(ctx: &mut JitContext, imm8: u32)
    requires
        ready(old(ctx).builder, 8),
    ensures
        emits(*old(ctx), *final(ctx), group_arith_al_imm8_code("adc8", imm8), 0),
        restores_by(old(ctx).builder, final(ctx).builder, 0),
{
    group_arith_al_imm8(ctx, "adc8", imm8);
    proof {
        assert(ctx.builder.code@ =~= old(ctx).builder.code@ + group_arith_al_imm8_code("adc8", imm8));
        assert(ctx.builder.frame().live =~= old(ctx).builder.frame().live);
        assert(ctx.builder.frame().live64 =~= old(ctx).builder.frame().live64);
        assert(ctx.builder.frame().ctrl =~= old(ctx).builder.frame().ctrl);
    }
}

/// `adc` of an immediate into AX.
pub fn instr16_15_jit(ctx: &mut JitContext, imm16: u32)
    requires
        ready(old(ctx).builder, 8),
    ensures
        emits(*old(ctx), *final(ctx), group_arith_ax_imm16_code("adc16", imm16), 0),
        restores_by(old(ctx).builder, final(ctx).builder, 0),
{
    group_arith_ax_imm16(ctx, "adc16", imm16);
    proof {
        assert(ctx.builder.code@ =~= old(ctx).builder.code@ + group_arith_ax_imm16_code("adc16", imm16));
        assert(ctx.builder.frame().live =~= old(ctx).builder.frame().live);
        assert(ctx.builder.frame().live64 =~= old(ctx).builder.frame().live64);
        assert(ctx.builder.frame().ctrl =~= old(ctx).builder.frame().ctrl);
    }
}

/// `adc` of an immediate into EAX.
pub fn instr32_15_jit(ctx: &mut JitContext, imm32: u32)
    requires
        ready(old(ctx).builder, 8),
    ensures
        emits(*old(ctx), *final(ctx), group_arith_eax_imm32_code(Alu32::Adc, imm32), 0),
        restores_by(old(ctx).builder, final(ctx).builder, 0),
{
    group_arith_eax_imm32(ctx, Alu32::Adc, imm32);
    proof {
        assert(ctx.builder.code@ =~= old(ctx).builder.code@ + group_arith_eax_imm32_code(Alu32::Adc, imm32));
        assert(ctx.builder.frame().live =~= old(ctx).builder.frame().live);
        assert(ctx.builder.frame().live64 =~= old(ctx).builder.frame().live64);
        assert(ctx.builder.frame().ctrl =~= old(ctx).builder.frame().ctrl);
    }
}

/// `sbb` of the 8-bit register `r` into a byte in memory.
pub fn instr_18_mem_jit(ctx: &mut JitContext, modrm_byte: u8, r: u32)
    requires
        ready(old(ctx).builder, 8),
        r < 8,
    ensures
        emits(*old(ctx), *final(ctx), rmw8_reg_mem_code("sbb8", modrm_byte, r, old(ctx).builder.next_local), 1),
        restores_by(old(ctx).builder, final(ctx).builder, 0),
{
    rmw8_reg_mem(ctx, "sbb8", modrm_byte, r);
    proof {
        assert(ctx.builder.code@ =~= old(ctx).builder.code@ + rmw8_reg_mem_code("sbb8", modrm_byte, r, old(ctx).builder.next_local));
        assert(ctx.builder.frame().live =~= old(ctx).builder.frame().live);
        assert(ctx.builder.frame().live64 =~= old(ctx).builder.frame().live64);
        assert(ctx.builder.frame().ctrl =~= old(ctx).builder.frame().ctrl);
    }
}

/// `sbb` of the 8-bit register `r2` into `r1`.
pub fn instr_18_reg_jit(ctx: &mut JitContext, r1: u32, r2: u32)
    requires
        ready(old(ctx).builder, 8),
        r1 < 8,
        r2 < 8,
    ensures
        emits(*old(ctx), *final(ctx), rmw8_reg_reg_code("sbb8", r1, r2), 0),
        restores_by(old(ctx).builder, final(ctx).builder, 0),
{
    rmw8_reg_reg(ctx, "sbb8", r1, r2);
    proof {
        assert(ctx.builder.code@ =~= old(ctx).builder.code@ + rmw8_reg_reg_code("sbb8", r1, r2));
        assert(ctx.builder.frame().live =~= old(ctx).builder.frame().live);
        assert(ctx.builder.frame().live64 =~= old(ctx).builder.frame().live64);
        assert(ctx.builder.frame().ctrl =~= old(ctx).builder.frame().ctrl);
    }
}

/// `sbb` of the 16-bit register `r` into a word in memory.
pub fn instr16_19_mem_jit(ctx: &mut JitContext, modrm_byte: u8, r: u32)
    requires
        ready(old(ctx).builder, 8),
        r < 8,
    ensures
        emits(*old(ctx), *final(ctx), rmw16_reg_mem_code("sbb16", modrm_byte, r, old(ctx).builder.next_local), 1),
        restores_by(old(ctx).builder, final(ctx).builder, 0),
{
    rmw16_reg_mem(ctx, "sbb16", modrm_byte, r);
    proof {
        assert(ctx.builder.code@ =~= old(ctx).builder.code@ + rmw16_reg_mem_code("sbb16", modrm_byte, r, old(ctx).builder.next_local));
        assert(ctx.builder.frame().live =~= old(ctx).builder.frame().live);
        assert(ctx.builder.frame().live64 =~= old(ctx).builder.frame().live64);
        assert(ctx.builder.frame().ctrl =~= old(ctx).builder.frame().ctrl);
    }
}

/// `sbb` of the 16-bit register `r2` into `r1`.
pub fn instr16_19_reg_jit(ctx: &mut JitContext, r1: u32, r2: u32)
    requires
        ready(old(ctx).builder, 8),
        r1 < 8,
        r2 < 8,
    ensures
        emits(*old(ctx), *final(ctx), rmw16_reg_reg_code("sbb16", r1, r2), 0),
        restores_by(old(ctx).builder, final(ctx).builder, 0),
{
    rmw16_reg_reg(ctx, "sbb16", r1, r2);
    proof {
        assert(ctx.builder.code@ =~= old(ctx).builder.code@ + rmw16_reg_reg_code("sbb16", r1, r2));
        assert(ctx.builder.frame().live =~= old(ctx).builder.frame().live);
        assert(ctx.builder.frame().live64 =~= old(ctx).builder.frame().live64);
        assert(ctx.builder.frame().ctrl =~= old(ctx).builder.frame().ctrl);
    }
}

/// `sbb` of register `r` into a doubleword in memory.
pub fn instr32_19_mem_jit(ctx: &mut JitContext, modrm_byte: u8, r: u32)
    requires
        ready(old(ctx).builder, 8),
        r < 8,
    ensures
        emits(*old(ctx), *final(ctx), rmw32_reg_mem_code(Alu32::Sbb, modrm_byte, r, old(ctx).builder.next_local), 2),
        restores_by(old(ctx).builder, final(ctx).builder, 0),
{
    rmw32_reg_mem(ctx, Alu32::Sbb, modrm_byte, r);
    proof {
        assert(ctx.builder.code@ =~= old(ctx).builder.code@ + rmw32_reg_mem_code(Alu32::Sbb, modrm_byte, r, old(ctx).builder.next_local));
        assert(ctx.builder.frame().live =~= old(ctx).builder.frame().live);
        assert(ctx.builder.frame().live64 =~= old(ctx).builder.frame().live64);
        assert(ctx.builder.frame().ctrl =~= old(ctx).builder.frame().ctrl);
    }
}

/// `sbb` of register `r2` into `r1`.
pub fn instr32_19_reg_jit(ctx: &mut JitContext, r1: u32, r2: u32)
    requires
        ready(old(ctx).builder, 8),
        r1 < 8,
        r2 < 8,
    ensures
        emits(*old(ctx), *final(ctx), rmw32_reg_reg_code(Alu32::Sbb, r1, r2), 0),
        restores_by(old(ctx).builder, final(ctx).builder, 0),
{
    rmw32_reg_reg(ctx, Alu32::Sbb, r1, r2);
    proof {
        assert(ctx.builder.code@ =~= old(ctx).builder.code@ + rmw32_reg_reg_code(Alu32::Sbb, r1, r2));
        assert(ctx.builder.frame().live =~= old(ctx).builder.frame().live);
        assert(ctx.builder.frame().live64 =~= old(ctx).builder.frame().live64);
        assert(ctx.builder.frame().ctrl =~= old(ctx).builder.frame().ctrl);
    }
}

/// `sbb` of a byte in memory into the 8-bit register `r`.
pub fn instr_1A_mem_jit(ctx: &mut JitContext, modrm_byte: u8, r: u32)
    requires
        ready(old(ctx).builder, 8),
        r < 8,
    ensures
        emits(*old(ctx), *final(ctx), write_reg8_mem_code("sbb8", modrm_byte, r), 0),
        restores_by(old(ctx).builder, final(ctx).builder, 0),
{
    write_reg8_mem(ctx, "sbb8", modrm_byte, r);
    proof {
        assert(ctx.builder.code@ =~= old(ctx).builder.code@ + write_reg8_mem_code("sbb8", modrm_byte, r));
        assert(ctx.builder.frame().live =~= old(ctx).builder.frame().live);
        assert(ctx.builder.frame().live64 =~= old(ctx).builder.frame().live64);
        assert(ctx.builder.frame().ctrl =~= old(ctx).builder.frame().ctrl);
    }
}

/// `sbb` of the 8-bit register `r1` into `r2`.
pub fn instr_1A_reg_jit(ctx: &mut JitContext, r1: u32, r2: u32)
    requires
        ready(old(ctx).builder, 8),
        r1 < 8,
        r2 < 8,
    ensures
        emits(*old(ctx), *final(ctx), write_reg8_reg_code("sbb8", r1, r2), 0),
        restores_by(old(ctx).builder, final(ctx).builder, 0),
{
    write_reg8_reg(ctx, "sbb8", r1, r2);
    proof {
        assert(ctx.builder.code@ =~= old(ctx).builder.code@ + write_reg8_reg_code("sbb8", r1, r2));
        assert(ctx.builder.frame().live =~= old(ctx).builder.frame().live);
        assert(ctx.builder.frame().live64 =~= old(ctx).builder.frame().live64);
        assert(ctx.builder.frame().ctrl =~= old(ctx).builder.frame().ctrl);
    }
}

/// `sbb` of a word in memory into the 16-bit register `r`.
pub fn instr16_1B_mem_jit(ctx: &mut JitContext, modrm_byte: u8, r: u32)
    requires
        ready(old(ctx).builder, 8),
        r < 8,
    ensures
        emits(*old(ctx), *final(ctx), write_reg16_mem_code("sbb16", modrm_byte, r), 0),
        restores_by(old(ctx).builder, final(ctx).builder, 0),
{
    write_reg16_mem(ctx, "sbb16", modrm_byte, r);
    proof {
        assert(ctx.builder.code@ =~= old(ctx).builder.code@ + write_reg16_mem_code("sbb16", modrm_byte, r));
        assert(ctx.builder.frame().live =~= old(ctx).builder.frame().live);
        assert(ctx.builder.frame().live64 =~= old(ctx).builder.frame().live64);
        assert(ctx.builder.frame().ctrl =~= old(ctx).builder.frame().ctrl);
    }
}

/// `sbb` of the 16-bit register `r1` into `r2`.
pub fn instr16_1B_reg_jit(ctx: &mut JitContext, r1: u32, r2: u32)
    requires
        ready(old(ctx).builder, 8),
        r1 < 8,
        r2 < 8,
    ensures
        emits(*old(ctx), *final(ctx), write_reg16_reg_code("sbb16", r1, r2), 0),
        restores_by(old(ctx).builder, final(ctx).builder, 0),
{
    write_reg16_reg(ctx, "sbb16", r1, r2);
    proof {
        assert(ctx.builder.code@ =~= old(ctx).builder.code@ + write_reg16_reg_code("sbb16", r1, r2));
        assert(ctx.builder.frame().live =~= old(ctx).builder.frame().live);
        assert(ctx.builder.frame().live64 =~= old(ctx).builder.frame().live64);
        assert(ctx.builder.frame().ctrl =~= old(ctx).builder.frame().ctrl);
    }
}

/// `sbb` of a doubleword in memory into register `r`.
pub fn instr32_1B_mem_jit(ctx: &mut JitContext, modrm_byte: u8, r: u32)
    requires
        ready(old(ctx).builder, 8),
        r < 8,
    ensures
        emits(*old(ctx), *final(ctx), write_reg32_mem_code(Alu32::Sbb, modrm_byte, r, old(ctx).builder.next_local), 1),
        restores_by(old(ctx).builder, final(ctx).builder, 0),
{
    write_reg32_mem(ctx, Alu32::Sbb, modrm_byte, r);
    proof {
        assert(ctx.builder.code@ =~= old(ctx).builder.code@ + write_reg32_mem_code(Alu32::Sbb, modrm_byte, r, old(ctx).builder.next_local));
        assert(ctx.builder.frame().live =~= old(ctx).builder.frame().live);
        assert(ctx.builder.frame().live64 =~= old(ctx).builder.frame().live64);
        assert(ctx.builder.frame().ctrl =~= old(ctx).builder.frame().ctrl);
    }
}

/// `sbb` of register `r1` into `r2`.
pub fn instr32_1B_reg_jit(ctx: &mut JitContext, r1: u32, r2: u32)
    requires
        ready(old(ctx).builder, 8),
        r1 < 8,
        r2 < 8,
    ensures
        emits(*old(ctx), *final(ctx), write_reg32_reg_code(Alu32::Sbb, r1, r2), 0),
        restores_by(old(ctx).builder, final(ctx).builder, 0),
{
    write_reg32_reg(ctx, Alu32::Sbb, r1, r2);
    proof {
        assert(ctx.builder.code@ =~= old(ctx).builder.code@ + write_reg32_reg_code(Alu32::Sbb, r1, r2));
        assert(ctx.builder.frame().live =~= old(ctx).builder.frame().live);
        assert(ctx.builder.frame().live64 =~= old(ctx).builder.frame().live64);
        assert(ctx.builder.frame().ctrl =~= old(ctx).builder.frame().ctrl);
    }
}

/// `sbb` of an immediate into AL.
pub fn instr_1C_jit(ctx: &mut JitContext, imm8: u32)
    requires
        ready(old(ctx).builder, 8),
    ensures
        emits(*old(ctx), *final(ctx), group_arith_al_imm8_code("sbb8", imm8), 0),
        restores_by(old(ctx).builder, final(ctx).builder, 0),
{
    group_arith_al_imm8(ctx, "sbb8", imm8);
    proof {
        assert(ctx.builder.code@ =~= old(ctx).builder.code@ + group_arith_al_imm8_code("sbb8", imm8));
        assert(ctx.builder.frame().live =~= old(ctx).builder.frame().live);
        assert(ctx.builder.frame().live64 =~= old(ctx).builder.frame().live64);
        assert(ctx.builder.frame().ctrl =~= old(ctx).builder.frame().ctrl);
    }
}

/// `sbb` of an immediate into AX.
pub fn instr16_1D_jit(ctx: &mut JitContext, imm16: u32)
    requires
        ready(old(ctx).builder, 8),
    ensures
        emits(*old(ctx), *final(ctx), group_arith_ax_imm16_code("sbb16", imm16), 0),
        restores_by(old(ctx).builder, final(ctx).builder, 0),
{
    group_arith_ax_imm16(ctx, "sbb16", imm16);
    proof {
        assert(ctx.builder.code@ =~= old(ctx).builder.code@ + group_arith_ax_imm16_code("sbb16", imm16));
        assert(ctx.builder.frame().live =~= old(ctx).builder.frame().live);
        assert(ctx.builder.frame().live64 =~= old(ctx).builder.frame().live64);
        assert(ctx.builder.frame().ctrl =~= old(ctx).builder.frame().ctrl);
    }
}

/// `sbb` of an immediate into EAX.
pub fn instr32_1D_jit(ctx: &mut JitContext, imm32: u32)
    requires
        ready(old(ctx).builder, 8),
    ensures
        emits(*old(ctx), *final(ctx), group_arith_eax_imm32_code(Alu32::Sbb, imm32), 0),
        restores_by(old(ctx).builder, final(ctx).builder, 0),
{
    group_arith_eax_imm32(ctx, Alu32::Sbb, imm32);
    proof {
        assert(ctx.builder.code@ =~= old(ctx).builder.code@ + group_arith_eax_imm32_code(Alu32::Sbb, imm32));
        assert(ctx.builder.frame().live =~= old(ctx).builder.frame().live);
        assert(ctx.builder.frame().live64 =~= old(ctx).builder.frame().live64);
        assert(ctx.builder.frame().ctrl =~= old(ctx).builder.frame().ctrl);
    }
}

/// `and` of the 8-bit register `r` into a byte in memory.
pub fn instr_20_mem_jit(ctx: &mut JitContext, modrm_byte: u8, r: u32)
    requires
        ready(old(ctx).builder, 8),
        r < 8,
    ensures
        emits(*old(ctx), *final(ctx), rmw8_reg_mem_code("and8", modrm_byte, r, old(ctx).builder.next_local), 1),
        restores_by(old(ctx).builder, final(ctx).builder, 0),
{
    rmw8_reg_mem(ctx, "and8", modrm_byte, r);
    proof {
        assert(ctx.builder.code@ =~= old(ctx).builder.code@ + rmw8_reg_mem_code("and8", modrm_byte, r, old(ctx).builder.next_local));
        assert(ctx.builder.frame().live =~= old(ctx).builder.frame().live);
        assert(ctx.builder.frame().live64 =~= old(ctx).builder.frame().live64);
        assert(ctx.builder.frame().ctrl =~= old(ctx).builder.frame().ctrl);
    }
}

/// `and` of the 8-bit register `r2` into `r1`.
pub fn instr_20_reg_jit(ctx: &mut JitContext, r1: u32, r2: u32)
    requires
        ready(old(ctx).builder, 8),
        r1 < 8,
        r2 < 8,
    ensures
        emits(*old(ctx), *final(ctx), rmw8_reg_reg_code("and8", r1, r2), 0),
        restores_by(old(ctx).builder, final(ctx).builder, 0),
{
    rmw8_reg_reg(ctx, "and8", r1, r2);
    proof {
        assert(ctx.builder.code@ =~= old(ctx).builder.code@ + rmw8_reg_reg_code("and8", r1, r2));
        assert(ctx.builder.frame().live =~= old(ctx).builder.frame().live);
        assert(ctx.builder.frame().live64 =~= old(ctx).builder.frame().live64);
        assert(ctx.builder.frame().ctrl =~= old(ctx).builder.frame().ctrl);
    }
}

/// `and` of the 16-bit register `r` into a word in memory.
pub fn instr16_21_mem_jit(ctx: &mut JitContext, modrm_byte: u8, r: u32)
    requires
        ready(old(ctx).builder, 8),
        r < 8,
    ensures
        emits(*old(ctx), *final(ctx), rmw16_reg_mem_code("and16", modrm_byte, r, old(ctx).builder.next_local), 1),
        restores_by(old(ctx).builder, final(ctx).builder, 0),
{
    rmw16_reg_mem(ctx, "and16", modrm_byte, r);
    proof {
        assert(ctx.builder.code@ =~= old(ctx).builder.code@ + rmw16_reg_mem_code("and16", modrm_byte, r, old(ctx).builder.next_local));
        assert(ctx.builder.frame().live =~= old(ctx).builder.frame().live);
        assert(ctx.builder.frame().live64 =~= old(ctx).builder.frame().live64);
        assert(ctx.builder.frame().ctrl =~= old(ctx).builder.frame().ctrl);
    }
}

/// `and` of the 16-bit register `r2` into `r1`.
pub fn instr16_21_reg_jit(ctx: &mut JitContext, r1: u32, r2: u32)
    requires
        ready(old(ctx).builder, 8),
        r1 < 8,
        r2 < 8,
    ensures
        emits(*old(ctx), *final(ctx), rmw16_reg_reg_code("and16", r1, r2), 0),
        restores_by(old(ctx).builder, final(ctx).builder, 0),
{
    rmw16_reg_reg(ctx, "and16", r1, r2);
    proof {
        assert(ctx.builder.code@ =~= old(ctx).builder.code@ + rmw16_reg_reg_code("and16", r1, r2));
        assert(ctx.builder.frame().live =~= old(ctx).builder.frame().live);
        assert(ctx.builder.frame().live64 =~= old(ctx).builder.frame().live64);
        assert(ctx.builder.frame().ctrl =~= old(ctx).builder.frame().ctrl);
    }
}

/// `and` of register `r` into a doubleword in memory.
pub fn instr32_21_mem_jit(ctx: &mut JitContext, modrm_byte: u8, r: u32)
    requires
        ready(old(ctx).builder, 8),
        r < 8,
    ensures
        emits(*old(ctx), *final(ctx), rmw32_reg_mem_code(Alu32::And, modrm_byte, r, old(ctx).builder.next_local), 2),
        restores_by(old(ctx).builder, final(ctx).builder, 0),
{
    rmw32_reg_mem(ctx, Alu32::And, modrm_byte, r);
    proof {
        assert(ctx.builder.code@ =~= old(ctx).builder.code@ + rmw32_reg_mem_code(Alu32::And, modrm_byte, r, old(ctx).builder.next_local));
        assert(ctx.builder.frame().live =~= old(ctx).builder.frame().live);
        assert(ctx.builder.frame().live64 =~= old(ctx).builder.frame().live64);
        assert(ctx.builder.frame().ctrl =~= old(ctx).builder.frame().ctrl);
    }
}

/// `and` of register `r2` into `r1`.
pub fn instr32_21_reg_jit(ctx: &mut JitContext, r1: u32, r2: u32)
    requires
        ready(old(ctx).builder, 8),
        r1 < 8,
        r2 < 8,
    ensures
        emits(*old(ctx), *final(ctx), rmw32_reg_reg_code(Alu32::And, r1, r2), 0),
        restores_by(old(ctx).builder, final(ctx).builder, 0),
{
    rmw32_reg_reg(ctx, Alu32::And, r1, r2);
    proof {
        assert(ctx.builder.code@ =~= old(ctx).builder.code@ + rmw32_reg_reg_code(Alu32::And, r1, r2));
        assert(ctx.builder.frame().live =~= old(ctx).builder.frame().live);
        assert(ctx.builder.frame().live64 =~= old(ctx).builder.frame().live64);
        assert(ctx.builder.frame().ctrl =~= old(ctx).builder.frame().ctrl);
    }
}

/// `and` of a byte in memory into the 8-bit register `r`.
pub fn instr_22_mem_jit(ctx: &mut JitContext, modrm_byte: u8, r: u32)
    requires
        ready(old(ctx).builder, 8),
        r < 8,
    ensures
        emits(*old(ctx), *final(ctx), write_reg8_mem_code("and8", modrm_byte, r), 0),
        restores_by(old(ctx).builder, final(ctx).builder, 0),
{
    write_reg8_mem(ctx, "and8", modrm_byte, r);
    proof {
        assert(ctx.builder.code@ =~= old(ctx).builder.code@ + write_reg8_mem_code("and8", modrm_byte, r));
        assert(ctx.builder.frame().live =~= old(ctx).builder.frame().live);
        assert(ctx.builder.frame().live64 =~= old(ctx).builder.frame().live64);
        assert(ctx.builder.frame().ctrl =~= old(ctx).builder.frame().ctrl);
    }
}

/// `and` of the 8-bit register `r1` into `r2`.
pub fn instr_22_reg_jit(ctx: &mut JitContext, r1: u32, r2: u32)
    requires
        ready(old(ctx).builder, 8),
        r1 < 8,
        r2 < 8,
    ensures
        emits(*old(ctx), *final(ctx), write_reg8_reg_code("and8", r1, r2), 0),
        restores_by(old(ctx).builder, final(ctx).builder, 0),
{
    write_reg8_reg(ctx, "and8", r1, r2);
    proof {
        assert(ctx.builder.code@ =~= old(ctx).builder.code@ + write_reg8_reg_code("and8", r1, r2));
        assert(ctx.builder.frame().live =~= old(ctx).builder.frame().live);
        assert(ctx.builder.frame().live64 =~= old(ctx).builder.frame().live64);
        assert(ctx.builder.frame().ctrl =~= old(ctx).builder.frame().ctrl);
    }
}

/// `and` of a word in memory into the 16-bit register `r`.
pub fn instr16_23_mem_jit(ctx: &mut JitContext, modrm_byte: u8, r: u32)
    requires
        ready(old(ctx).builder, 8),
        r < 8,
    ensures
        emits(*old(ctx), *final(ctx), write_reg16_mem_code("and16", modrm_byte, r), 0),
        restores_by(old(ctx).builder, final(ctx).builder, 0),
{
    write_reg16_mem(ctx, "and16", modrm_byte, r);
    proof {
        assert(ctx.builder.code@ =~= old(ctx).builder.code@ + write_reg16_mem_code("and16", modrm_byte, r));
        assert(ctx.builder.frame().live =~= old(ctx).builder.frame().live);
        assert(ctx.builder.frame().live64 =~= old(ctx).builder.frame().live64);
        assert(ctx.builder.frame().ctrl =~= old(ctx).builder.frame().ctrl);
    }
}

/// `and` of the 16-bit register `r1` into `r2`.
pub fn instr16_23_reg_jit(ctx: &mut JitContext, r1: u32, r2: u32)
    requires
        ready(old(ctx).builder, 8),
        r1 < 8,
        r2 < 8,
    ensures
        emits(*old(ctx), *final(ctx), write_reg16_reg_code("and16", r1, r2), 0),
        restores_by(old(ctx).builder, final(ctx).builder, 0),
{
    write_reg16_reg(ctx, "and16", r1, r2);
    proof {
        assert(ctx.builder.code@ =~= old(ctx).builder.code@ + write_reg16_reg_code("and16", r1, r2));
        assert(ctx.builder.frame().live =~= old(ctx).builder.frame().live);
        assert(ctx.builder.frame().live64 =~= old(ctx).builder.frame().live64);
        assert(ctx.builder.frame().ctrl =~= old(ctx).builder.frame().ctrl);
    }
}

/// `and` of a doubleword in memory into register `r`.
pub fn instr32_23_mem_jit(ctx: &mut JitContext, modrm_byte: u8, r: u32)
    requires
        ready(old(ctx).builder, 8),
        r < 8,
    ensures
        emits(*old(ctx), *final(ctx), write_reg32_mem_code(Alu32::And, modrm_byte, r, old(ctx).builder.next_local), 1),
        restores_by(old(ctx).builder, final(ctx).builder, 0),
{
    write_reg32_mem(ctx, Alu32::And, modrm_byte, r);
    proof {
        assert(ctx.builder.code@ =~= old(ctx).builder.code@ + write_reg32_mem_code(Alu32::And, modrm_byte, r, old(ctx).builder.next_local));
        assert(ctx.builder.frame().live =~= old(ctx).builder.frame().live);
        assert(ctx.builder.frame().live64 =~= old(ctx).builder.frame().live64);
        assert(ctx.builder.frame().ctrl =~= old(ctx).builder.frame().ctrl);
    }
}

/// `and` of register `r1` into `r2`.
pub fn instr32_23_reg_jit(ctx: &mut JitContext, r1: u32, r2: u32)
    requires
        ready(old(ctx).builder, 8),
        r1 < 8,
        r2 < 8,
    ensures
        emits(*old(ctx), *final(ctx), write_reg32_reg_code(Alu32::And, r1, r2), 0),
        restores_by(old(ctx).builder, final(ctx).builder, 0),
{
    write_reg32_reg(ctx, Alu32::And, r1, r2);
    proof {
        assert(ctx.builder.code@ =~= old(ctx).builder.code@ + write_reg32_reg_code(Alu32::And, r1, r2));
        assert(ctx.builder.frame().live =~= old(ctx).builder.frame().live);
        assert(ctx.builder.frame().live64 =~= old(ctx).builder.frame().live64);
        assert(ctx.builder.frame().ctrl =~= old(ctx).builder.frame().ctrl);
    }
}

/// `and` of an immediate into AL.
pub fn instr_24_jit(ctx: &mut JitContext, imm8: u32)
    requires
        ready(old(ctx).builder, 8),
    ensures
        emits(*old(ctx), *final(ctx), group_arith_al_imm8_code("and8", imm8), 0),
        restores_by(old(ctx).builder, final(ctx).builder, 0),
{
    group_arith_al_imm8(ctx, "and8", imm8);
    proof {
        assert(ctx.builder.code@ =~= old(ctx).builder.code@ + group_arith_al_imm8_code("and8", imm8));
        assert(ctx.builder.frame().live =~= old(ctx).builder.frame().live);
        assert(ctx.builder.frame().live64 =~= old(ctx).builder.frame().live64);
        assert(ctx.builder.frame().ctrl =~= old(ctx).builder.frame().ctrl);
    }
}

/// `and` of an immediate into AX.
pub fn instr16_25_jit(ctx: &mut JitContext, imm16: u32)
    requires
        ready(old(ctx).builder, 8),
    ensures
        emits(*old(ctx), *final(ctx), group_arith_ax_imm16_code("and16", imm16), 0),
        restores_by(old(ctx).builder, final(ctx).builder, 0),
{
    group_arith_ax_imm16(ctx, "and16", imm16);
    proof {
        assert(ctx.builder.code@ =~= old(ctx).builder.code@ + group_arith_ax_imm16_code("and16", imm16));
        assert(ctx.builder.frame().live =~= old(ctx).builder.frame().live);
        assert(ctx.builder.frame().live64 =~= old(ctx).builder.frame().live64);
        assert(ctx.builder.frame().ctrl =~= old(ctx).builder.frame().ctrl);
    }
}

/// `and` of an immediate into EAX.
pub fn instr32_25_jit(ctx: &mut JitContext, imm32: u32)
    requires
        ready(old(ctx).builder, 8),
    ensures
        emits(*old(ctx), *final(ctx), group_arith_eax_imm32_code(Alu32::And, imm32), 0),
        restores_by(old(ctx).builder, final(ctx).builder, 0),
{
    group_arith_eax_imm32(ctx, Alu32::And, imm32);
    proof {
        assert(ctx.builder.code@ =~= old(ctx).builder.code@ + group_arith_eax_imm32_code(Alu32::And, imm32));
        assert(ctx.builder.frame().live =~= old(ctx).builder.frame().live);
        assert(ctx.builder.frame().live64 =~= old(ctx).builder.frame().live64);
        assert(ctx.builder.frame().ctrl =~= old(ctx).builder.frame().ctrl);
    }
}

/// `sub` of the 8-bit register `r` into a byte in memory.
pub fn instr_28_mem_jit(ctx: &mut JitContext, modrm_byte: u8, r: u32)
    requires
        ready(old(ctx).builder, 8),
        r < 8,
    ensures
        emits(*old(ctx), *final(ctx), rmw8_reg_mem_code("sub8", modrm_byte, r, old(ctx).builder.next_local), 1),
        restores_by(old(ctx).builder, final(ctx).builder, 0),
{
    rmw8_reg_mem(ctx, "sub8", modrm_byte, r);
    proof {
        assert(ctx.builder.code@ =~= old(ctx).builder.code@ + rmw8_reg_mem_code("sub8", modrm_byte, r, old(ctx).builder.next_local));
        assert(ctx.builder.frame().live =~= old(ctx).builder.frame().live);
        assert(ctx.builder.frame().live64 =~= old(ctx).builder.frame().live64);
        assert(ctx.builder.frame().ctrl =~= old(ctx).builder.frame().ctrl);
    }
}

/// `sub` of the 8-bit register `r2` into `r1`.
pub fn instr_28_reg_jit(ctx: &mut JitContext, r1: u32, r2: u32)
    requires
        ready(old(ctx).builder, 8),
        r1 < 8,
        r2 < 8,
    ensures
        emits(*old(ctx), *final(ctx), rmw8_reg_reg_code("sub8", r1, r2), 0),
        restores_by(old(ctx).builder, final(ctx).builder, 0),
{
    rmw8_reg_reg(ctx, "sub8", r1, r2);
    proof {
        assert(ctx.builder.code@ =~= old(ctx).builder.code@ + rmw8_reg_reg_code("sub8", r1, r2));
        assert(ctx.builder.frame().live =~= old(ctx).builder.frame().live);
        assert(ctx.builder.frame().live64 =~= old(ctx).builder.frame().live64);
        assert(ctx.builder.frame().ctrl =~= old(ctx).builder.frame().ctrl);
    }
}

/// `sub` of the 16-bit register `r` into a word in memory.
pub fn instr16_29_mem_jit(ctx: &mut JitContext, modrm_byte: u8, r: u32)
    requires
        ready(old(ctx).builder, 8),
        r < 8,
    ensures
        emits(*old(ctx), *final(ctx), rmw16_reg_mem_code("sub16", modrm_byte, r, old(ctx).builder.next_local), 1),
        restores_by(old(ctx).builder, final(ctx).builder, 0),
{
    rmw16_reg_mem(ctx, "sub16", modrm_byte, r);
    proof {
        assert(ctx.builder.code@ =~= old(ctx).builder.code@ + rmw16_reg_mem_code("sub16", modrm_byte, r, old(ctx).builder.next_local));
        assert(ctx.builder.frame().live =~= old(ctx).builder.frame().live);
        assert(ctx.builder.frame().live64 =~= old(ctx).builder.frame().live64);
        assert(ctx.builder.frame().ctrl =~= old(ctx).builder.frame().ctrl);
    }
}

/// `sub` of the 16-bit register `r2` into `r1`.
pub fn instr16_29_reg_jit(ctx: &mut JitContext, r1: u32, r2: u32)
    requires
        ready(old(ctx).builder, 8),
        r1 < 8,
        r2 < 8,
    ensures
        emits(*old(ctx), *final(ctx), rmw16_reg_reg_code("sub16", r1, r2), 0),
        restores_by(old(ctx).builder, final(ctx).builder, 0),
{
    rmw16_reg_reg(ctx, "sub16", r1, r2);
    proof {
        assert(ctx.builder.code@ =~= old(ctx).builder.code@ + rmw16_reg_reg_code("sub16", r1, r2));
        assert(ctx.builder.frame().live =~= old(ctx).builder.frame().live);
        assert(ctx.builder.frame().live64 =~= old(ctx).builder.frame().live64);
        assert(ctx.builder.frame().ctrl =~= old(ctx).builder.frame().ctrl);
    }
}

/// `sub` of register `r` into a doubleword in memory.
pub fn instr32_29_mem_jit(ctx: &mut JitContext, modrm_byte: u8, r: u32)
    requires
        ready(old(ctx).builder, 8),
        r < 8,
    ensures
        emits(*old(ctx), *final(ctx), rmw32_reg_mem_code(Alu32::Sub, modrm_byte, r, old(ctx).builder.next_local), 2),
        restores_by(old(ctx).builder, final(ctx).builder, 0),
{
    rmw32_reg_mem(ctx, Alu32::Sub, modrm_byte, r);
    proof {
        assert(ctx.builder.code@ =~= old(ctx).builder.code@ + rmw32_reg_mem_code(Alu32::Sub, modrm_byte, r, old(ctx).builder.next_local));
        assert(ctx.builder.frame().live =~= old(ctx).builder.frame().live);
        assert(ctx.builder.frame().live64 =~= old(ctx).builder.frame().live64);
        assert(ctx.builder.frame().ctrl =~= old(ctx).builder.frame().ctrl);
    }
}

/// `sub` of register `r2` into `r1`.
pub fn instr32_29_reg_jit(ctx: &mut JitContext, r1: u32, r2: u32)
    requires
        ready(old(ctx).builder, 8),
        r1 < 8,
        r2 < 8,
    ensures
        emits(*old(ctx), *final(ctx), rmw32_reg_reg_code(Alu32::Sub, r1, r2), 0),
        restores_by(old(ctx).builder, final(ctx).builder, 0),
{
    rmw32_reg_reg(ctx, Alu32::Sub, r1, r2);
    proof {
        assert(ctx.builder.code@ =~= old(ctx).builder.code@ + rmw32_reg_reg_code(Alu32::Sub, r1, r2));
        assert(ctx.builder.frame().live =~= old(ctx).builder.frame().live);
        assert(ctx.builder.frame().live64 =~= old(ctx).builder.frame().live64);
        assert(ctx.builder.frame().ctrl =~= old(ctx).builder.frame().ctrl);
    }
}

/// `sub` of a byte in memory into the 8-bit register `r`.
pub fn instr_2A_mem_jit(ctx: &mut JitContext, modrm_byte: u8, r: u32)
    requires
        ready(old(ctx).builder, 8),
        r < 8,
    ensures
        emits(*old(ctx), *final(ctx), write_reg8_mem_code("sub8", modrm_byte, r), 0),
        restores_by(old(ctx).builder, final(ctx).builder, 0),
{
    write_reg8_mem(ctx, "sub8", modrm_byte, r);
    proof {
        assert(ctx.builder.code@ =~= old(ctx).builder.code@ + write_reg8_mem_code("sub8", modrm_byte, r));
        assert(ctx.builder.frame().live =~= old(ctx).builder.frame().live);
        assert(ctx.builder.frame().live64 =~= old(ctx).builder.frame().live64);
        assert(ctx.builder.frame().ctrl =~= old(ctx).builder.frame().ctrl);
    }
}

/// `sub` of the 8-bit register `r1` into `r2`.
pub fn instr_2A_reg_jit(ctx: &mut JitContext, r1: u32, r2: u32)
    requires
        ready(old(ctx).builder, 8),
        r1 < 8,
        r2 < 8,
    ensures
        emits(*old(ctx), *final(ctx), write_reg8_reg_code("sub8", r1, r2), 0),
        restores_by(old(ctx).builder, final(ctx).builder, 0),
{
    write_reg8_reg(ctx, "sub8", r1, r2);
    proof {
        assert(ctx.builder.code@ =~= old(ctx).builder.code@ + write_reg8_reg_code("sub8", r1, r2));
        assert(ctx.builder.frame().live =~= old(ctx).builder.frame().live);
        assert(ctx.builder.frame().live64 =~= old(ctx).builder.frame().live64);
        assert(ctx.builder.frame().ctrl =~= old(ctx).builder.frame().ctrl);
    }
}

/// `sub` of a word in memory into the 16-bit register `r`.
pub fn instr16_2B_mem_jit(ctx: &mut JitContext, modrm_byte: u8, r: u32)
    requires
        ready(old(ctx).builder, 8),
        r < 8,
    ensures
        emits(*old(ctx), *final(ctx), write_reg16_mem_code("sub16", modrm_byte, r), 0),
        restores_by(old(ctx).builder, final(ctx).builder, 0),
{
    write_reg16_mem(ctx, "sub16", modrm_byte, r);
    proof {
        assert(ctx.builder.code@ =~= old(ctx).builder.code@ + write_reg16_mem_code("sub16", modrm_byte, r));
        assert(ctx.builder.frame().live =~= old(ctx).builder.frame().live);
        assert(ctx.builder.frame().live64 =~= old(ctx).builder.frame().live64);
        assert(ctx.builder.frame().ctrl =~= old(ctx).builder.frame().ctrl);
    }
}

/// `sub` of the 16-bit register `r1` into `r2`.
pub fn instr16_2B_reg_jit(ctx: &mut JitContext, r1: u32, r2: u32)
    requires
        ready(old(ctx).builder, 8),
        r1 < 8,
        r2 < 8,
    ensures
        emits(*old(ctx), *final(ctx), write_reg16_reg_code("sub16", r1, r2), 0),
        restores_by(old(ctx).builder, final(ctx).builder, 0),
{
    write_reg16_reg(ctx, "sub16", r1, r2);
    proof {
        assert(ctx.builder.code@ =~= old(ctx).builder.code@ + write_reg16_reg_code("sub16", r1, r2));
        assert(ctx.builder.frame().live =~= old(ctx).builder.frame().live);
        assert(ctx.builder.frame().live64 =~= old(ctx).builder.frame().live64);
        assert(ctx.builder.frame().ctrl =~= old(ctx).builder.frame().ctrl);
    }
}

/// `sub` of a doubleword in memory into register `r`.
pub fn instr32_2B_mem_jit(ctx: &mut JitContext, modrm_byte: u8, r: u32)
    requires
        ready(old(ctx).builder, 8),
        r < 8,
    ensures
        emits(*old(ctx), *final(ctx), write_reg32_mem_code(Alu32::Sub, modrm_byte, r, old(ctx).builder.next_local), 1),
        restores_by(old(ctx).builder, final(ctx).builder, 0),
{
    write_reg32_mem(ctx, Alu32::Sub, modrm_byte, r);
    proof {
        assert(ctx.builder.code@ =~= old(ctx).builder.code@ + write_reg32_mem_code(Alu32::Sub, modrm_byte, r, old(ctx).builder.next_local));
        assert(ctx.builder.frame().live =~= old(ctx).builder.frame().live);
        assert(ctx.builder.frame().live64 =~= old(ctx).builder.frame().live64);
        assert(ctx.builder.frame().ctrl =~= old(ctx).builder.frame().ctrl);
    }
}

/// `sub` of register `r1` into `r2`.
pub fn instr32_2B_reg_jit(ctx: &mut JitContext, r1: u32, r2: u32)
    requires
        ready(old(ctx).builder, 8),
        r1 < 8,
        r2 < 8,
    ensures
        emits(*old(ctx), *final(ctx), write_reg32_reg_code(Alu32::Sub, r1, r2), 0),
        restores_by(old(ctx).builder, final(ctx).builder, 0),
{
    write_reg32_reg(ctx, Alu32::Sub, r1, r2);
    proof {
        assert(ctx.builder.code@ =~= old(ctx).builder.code@ + write_reg32_reg_code(Alu32::Sub, r1, r2));
        assert(ctx.builder.frame().live =~= old(ctx).builder.frame().live);
        assert(ctx.builder.frame().live64 =~= old(ctx).builder.frame().live64);
        assert(ctx.builder.frame().ctrl =~= old(ctx).builder.frame().ctrl);
    }
}

/// `sub` of an immediate into AL.
pub fn instr_2C_jit(ctx: &mut JitContext, imm8: u32)
    requires
        ready(old(ctx).builder, 8),
    ensures
        emits(*old(ctx), *final(ctx), group_arith_al_imm8_code("sub8", imm8), 0),
        restores_by(old(ctx).builder, final(ctx).builder, 0),
{
    group_arith_al_imm8(ctx, "sub8", imm8);
    proof {
        assert(ctx.builder.code@ =~= old(ctx).builder.code@ + group_arith_al_imm8_code("sub8", imm8));
        assert(ctx.builder.frame().live =~= old(ctx).builder.frame().live);
        assert(ctx.builder.frame().live64 =~= old(ctx).builder.frame().live64);
        assert(ctx.builder.frame().ctrl =~= old(ctx).builder.frame().ctrl);
    }
}

/// `sub` of an immediate into AX.
pub fn instr16_2D_jit(ctx: &mut JitContext, imm16: u32)
    requires
        ready(old(ctx).builder, 8),
    ensures
        emits(*old(ctx), *final(ctx), group_arith_ax_imm16_code("sub16", imm16), 0),
        restores_by(old(ctx).builder, final(ctx).builder, 0),
{
    group_arith_ax_imm16(ctx, "sub16", imm16);
    proof {
        assert(ctx.builder.code@ =~= old(ctx).builder.code@ + group_arith_ax_imm16_code("sub16", imm16));
        assert(ctx.builder.frame().live =~= old(ctx).builder.frame().live);
        assert(ctx.builder.frame().live64 =~= old(ctx).builder.frame().live64);
        assert(ctx.builder.frame().ctrl =~= old(ctx).builder.frame().ctrl);
    }
}

/// `sub` of an immediate into EAX.
pub fn instr32_2D_jit(ctx: &mut JitContext, imm32: u32)
    requires
        ready(old(ctx).builder, 8),
    ensures
        emits(*old(ctx), *final(ctx), group_arith_eax_imm32_code(Alu32::Sub, imm32), 0),
        restores_by(old(ctx).builder, final(ctx).builder, 0),
{
    group_arith_eax_imm32(ctx, Alu32::Sub, imm32);
    proof {
        assert(ctx.builder.code@ =~= old(ctx).builder.code@ + group_arith_eax_imm32_code(Alu32::Sub, imm32));
        assert(ctx.builder.frame().live =~= old(ctx).builder.frame().live);
        assert(ctx.builder.frame().live64 =~= old(ctx).builder.frame().live64);
        assert(ctx.builder.frame().ctrl =~= old(ctx).builder.frame().ctrl);
    }
}

/// `xor` of the 8-bit register `r` into a byte in memory.
pub fn instr_30_mem_jit(ctx: &mut JitContext, modrm_byte: u8, r: u32)
    requires
        ready(old(ctx).builder, 8),
        r < 8,
    ensures
        emits(*old(ctx), *final(ctx), rmw8_reg_mem_code("xor8", modrm_byte, r, old(ctx).builder.next_local), 1),
        restores_by(old(ctx).builder, final(ctx).builder, 0),
{
    rmw8_reg_mem(ctx, "xor8", modrm_byte, r);
    proof {
        assert(ctx.builder.code@ =~= old(ctx).builder.code@ + rmw8_reg_mem_code("xor8", modrm_byte, r, old(ctx).builder.next_local));
        assert(ctx.builder.frame().live =~= old(ctx).builder.frame().live);
        assert(ctx.builder.frame().live64 =~= old(ctx).builder.frame().live64);
        assert(ctx.builder.frame().ctrl =~= old(ctx).builder.frame().ctrl);
    }
}

/// `xor` of the 8-bit register `r2` into `r1`.
pub fn instr_30_reg_jit(ctx: &mut JitContext, r1: u32, r2: u32)
    requires
        ready(old(ctx).builder, 8),
        r1 < 8,
        r2 < 8,
    ensures
        emits(*old(ctx), *final(ctx), rmw8_reg_reg_code("xor8", r1, r2), 0),
        restores_by(old(ctx).builder, final(ctx).builder, 0),
{
    rmw8_reg_reg(ctx, "xor8", r1, r2);
    proof {
        assert(ctx.builder.code@ =~= old(ctx).builder.code@ + rmw8_reg_reg_code("xor8", r1, r2));
        assert(ctx.builder.frame().live =~= old(ctx).builder.frame().live);
        assert(ctx.builder.frame().live64 =~= old(ctx).builder.frame().live64);
        assert(ctx.builder.frame().ctrl =~= old(ctx).builder.frame().ctrl);
    }
}

/// `xor` of the 16-bit register `r` into a word in memory.
pub fn instr16_31_mem_jit(ctx: &mut JitContext, modrm_byte: u8, r: u32)
    requires
        ready(old(ctx).builder, 8),
        r < 8,
    ensures
        emits(*old(ctx), *final(ctx), rmw16_reg_mem_code("xor16", modrm_byte, r, old(ctx).builder.next_local), 1),
        restores_by(old(ctx).builder, final(ctx).builder, 0),
{
    rmw16_reg_mem(ctx, "xor16", modrm_byte, r);
    proof {
        assert(ctx.builder.code@ =~= old(ctx).builder.code@ + rmw16_reg_mem_code("xor16", modrm_byte, r, old(ctx).builder.next_local));
        assert(ctx.builder.frame().live =~= old(ctx).builder.frame().live);
        assert(ctx.builder.frame().live64 =~= old(ctx).builder.frame().live64);
        assert(ctx.builder.frame().ctrl =~= old(ctx).builder.frame().ctrl);
    }
}

/// `xor` of the 16-bit register `r2` into `r1`.
pub fn instr16_31_reg_jit(ctx: &mut JitContext, r1: u32, r2: u32)
    requires
        ready(old(ctx).builder, 8),
        r1 < 8,
        r2 < 8,
    ensures
        emits(*old(ctx), *final(ctx), rmw16_reg_reg_code("xor16", r1, r2), 0),
        restores_by(old(ctx).builder, final(ctx).builder, 0),
{
    rmw16_reg_reg(ctx, "xor16", r1, r2);
    proof {
        assert(ctx.builder.code@ =~= old(ctx).builder.code@ + rmw16_reg_reg_code("xor16", r1, r2));
        assert(ctx.builder.frame().live =~= old(ctx).builder.frame().live);
        assert(ctx.builder.frame().live64 =~= old(ctx).builder.frame().live64);
        assert(ctx.builder.frame().ctrl =~= old(ctx).builder.frame().ctrl);
    }
}

/// `xor` of register `r` into a doubleword in memory.
pub fn instr32_31_mem_jit(ctx: &mut JitContext, modrm_byte: u8, r: u32)
    requires
        ready(old(ctx).builder, 8),
        r < 8,
    ensures
        emits(*old(ctx), *final(ctx), rmw32_reg_mem_code(Alu32::Xor, modrm_byte, r, old(ctx).builder.next_local), 2),
        restores_by(old(ctx).builder, final(ctx).builder, 0),
{
    rmw32_reg_mem(ctx, Alu32::Xor, modrm_byte, r);
    proof {
        assert(ctx.builder.code@ =~= old(ctx).builder.code@ + rmw32_reg_mem_code(Alu32::Xor, modrm_byte, r, old(ctx).builder.next_local));
        assert(ctx.builder.frame().live =~= old(ctx).builder.frame().live);
        assert(ctx.builder.frame().live64 =~= old(ctx).builder.frame().live64);
        assert(ctx.builder.frame().ctrl =~= old(ctx).builder.frame().ctrl);
    }
}

/// `xor` of register `r2` into `r1`.
pub fn instr32_31_reg_jit(ctx: &mut JitContext, r1: u32, r2: u32)
    requires
        ready(old(ctx).builder, 8),
        r1 < 8,
        r2 < 8,
    ensures
        emits(*old(ctx), *final(ctx), rmw32_reg_reg_code(Alu32::Xor, r1, r2), 0),
        restores_by(old(ctx).builder, final(ctx).builder, 0),
{
    rmw32_reg_reg(ctx, Alu32::Xor, r1, r2);
    proof {
        assert(ctx.builder.code@ =~= old(ctx).builder.code@ + rmw32_reg_reg_code(Alu32::Xor, r1, r2));
        assert(ctx.builder.frame().live =~= old(ctx).builder.frame().live);
        assert(ctx.builder.frame().live64 =~= old(ctx).builder.frame().live64);
        assert(ctx.builder.frame().ctrl =~= old(ctx).builder.frame().ctrl);
    }
}

/// `xor` of a byte in memory into the 8-bit register `r`.
pub fn instr_32_mem_jit(ctx: &mut JitContext, modrm_byte: u8, r: u32)
    requires
        ready(old(ctx).builder, 8),
        r < 8,
    ensures
        emits(*old(ctx), *final(ctx), write_reg8_mem_code("xor8", modrm_byte, r), 0),
        restores_by(old(ctx).builder, final(ctx).builder, 0),
{
    write_reg8_mem(ctx, "xor8", modrm_byte, r);
    proof {
        assert(ctx.builder.code@ =~= old(ctx).builder.code@ + write_reg8_mem_code("xor8", modrm_byte, r));
        assert(ctx.builder.frame().live =~= old(ctx).builder.frame().live);
        assert(ctx.builder.frame().live64 =~= old(ctx).builder.frame().live64);
        assert(ctx.builder.frame().ctrl =~= old(ctx).builder.frame().ctrl);
    }
}

/// `xor` of the 8-bit register `r1` into `r2`.
pub fn instr_32_reg_jit(ctx: &mut JitContext, r1: u32, r2: u32)
    requires
        ready(old(ctx).builder, 8),
        r1 < 8,
        r2 < 8,
    ensures
        emits(*old(ctx), *final(ctx), write_reg8_reg_code("xor8", r1, r2), 0),
        restores_by(old(ctx).builder, final(ctx).builder, 0),
{
    write_reg8_reg(ctx, "xor8", r1, r2);
    proof {
        assert(ctx.builder.code@ =~= old(ctx).builder.code@ + write_reg8_reg_code("xor8", r1, r2));
        assert(ctx.builder.frame().live =~= old(ctx).builder.frame().live);
        assert(ctx.builder.frame().live64 =~= old(ctx).builder.frame().live64);
        assert(ctx.builder.frame().ctrl =~= old(ctx).builder.frame().ctrl);
    }
}

/// `xor` of a word in memory into the 16-bit register `r`.
pub fn instr16_33_mem_jit(ctx: &mut JitContext, modrm_byte: u8, r: u32)
    requires
        ready(old(ctx).builder, 8),
        r < 8,
    ensures
        emits(*old(ctx), *final(ctx), write_reg16_mem_code("xor16", modrm_byte, r), 0),
        restores_by(old(ctx).builder, final(ctx).builder, 0),
{
    write_reg16_mem(ctx, "xor16", modrm_byte, r);
    proof {
        assert(ctx.builder.code@ =~= old(ctx).builder.code@ + write_reg16_mem_code("xor16", modrm_byte, r));
        assert(ctx.builder.frame().live =~= old(ctx).builder.frame().live);
        assert(ctx.builder.frame().live64 =~= old(ctx).builder.frame().live64);
        assert(ctx.builder.frame().ctrl =~= old(ctx).builder.frame().ctrl);
    }
}

/// `xor` of the 16-bit register `r1` into `r2`.
pub fn instr16_33_reg_jit(ctx: &mut JitContext, r1: u32, r2: u32)
    requires
        ready(old(ctx).builder, 8),
        r1 < 8,
        r2 < 8,
    ensures
        emits(*old(ctx), *final(ctx), write_reg16_reg_code("xor16", r1, r2), 0),
        restores_by(old(ctx).builder, final(ctx).builder, 0),
{
    write_reg16_reg(ctx, "xor16", r1, r2);
    proof {
        assert(ctx.builder.code@ =~= old(ctx).builder.code@ + write_reg16_reg_code("xor16", r1, r2));
        assert(ctx.builder.frame().live =~= old(ctx).builder.frame().live);
        assert(ctx.builder.frame().live64 =~= old(ctx).builder.frame().live64);
        assert(ctx.builder.frame().ctrl =~= old(ctx).builder.frame().ctrl);
    }
}

/// `xor` of a doubleword in memory into register `r`.
pub fn instr32_33_mem_jit(ctx: &mut JitContext, modrm_byte: u8, r: u32)
    requires
        ready(old(ctx).builder, 8),
        r < 8,
    ensures
        emits(*old(ctx), *final(ctx), write_reg32_mem_code(Alu32::Xor, modrm_byte, r, old(ctx).builder.next_local), 1),
        restores_by(old(ctx).builder, final(ctx).builder, 0),
{
    write_reg32_mem(ctx, Alu32::Xor, modrm_byte, r);
    proof {
        assert(ctx.builder.code@ =~= old(ctx).builder.code@ + write_reg32_mem_code(Alu32::Xor, modrm_byte, r, old(ctx).builder.next_local));
        assert(ctx.builder.frame().live =~= old(ctx).builder.frame().live);
        assert(ctx.builder.frame().live64 =~= old(ctx).builder.frame().live64);
        assert(ctx.builder.frame().ctrl =~= old(ctx).builder.frame().ctrl);
    }
}

/// `xor` of register `r1` into `r2`.
pub fn instr32_33_reg_jit(ctx: &mut JitContext, r1: u32, r2: u32)
    requires
        ready(old(ctx).builder, 8),
        r1 < 8,
        r2 < 8,
    ensures
        emits(*old(ctx), *final(ctx), write_reg32_reg_code(Alu32::Xor, r1, r2), 0),
        restores_by(old(ctx).builder, final(ctx).builder, 0),
{
    write_reg32_reg(ctx, Alu32::Xor, r1, r2);
    proof {
        assert(ctx.builder.code@ =~= old(ctx).builder.code@ + write_reg32_reg_code(Alu32::Xor, r1, r2));
        assert(ctx.builder.frame().live =~= old(ctx).builder.frame().live);
        assert(ctx.builder.frame().live64 =~= old(ctx).builder.frame().live64);
        assert(ctx.builder.frame().ctrl =~= old(ctx).builder.frame().ctrl);
    }
}

/// `xor` of an immediate into AL.
pub fn instr_34_jit(ctx: &mut JitContext, imm8: u32)
    requires
        ready(old(ctx).builder, 8),
    ensures
        emits(*old(ctx), *final(ctx), group_arith_al_imm8_code("xor8", imm8), 0),
        restores_by(old(ctx).builder, final(ctx).builder, 0),
{
    group_arith_al_imm8(ctx, "xor8", imm8);
    proof {
        assert(ctx.builder.code@ =~= old(ctx).builder.code@ + group_arith_al_imm8_code("xor8", imm8));
        assert(ctx.builder.frame().live =~= old(ctx).builder.frame().live);
        assert(ctx.builder.frame().live64 =~= old(ctx).builder.frame().live64);
        assert(ctx.builder.frame().ctrl =~= old(ctx).builder.frame().ctrl);
    }
}

/// `xor` of an immediate into AX.
pub fn instr16_35_jit(ctx: &mut JitContext, imm16: u32)
    requires
        ready(old(ctx).builder, 8),
    ensures
        emits(*old(ctx), *final(ctx), group_arith_ax_imm16_code("xor16", imm16), 0),
        restores_by(old(ctx).builder, final(ctx).builder, 0),
{
    group_arith_ax_imm16(ctx, "xor16", imm16);
    proof {
        assert(ctx.builder.code@ =~= old(ctx).builder.code@ + group_arith_ax_imm16_code("xor16", imm16));
        assert(ctx.builder.frame().live =~= old(ctx).builder.frame().live);
        assert(ctx.builder.frame().live64 =~= old(ctx).builder.frame().live64);
        assert(ctx.builder.frame().ctrl =~= old(ctx).builder.frame().ctrl);
    }
}

/// `xor` of an immediate into EAX.
pub fn instr32_35_jit(ctx: &mut JitContext, imm32: u32)
    requires
        ready(old(ctx).builder, 8),
    ensures
        emits(*old(ctx), *final(ctx), group_arith_eax_imm32_code(Alu32::Xor, imm32), 0),
        restores_by(old(ctx).builder, final(ctx).builder, 0),
{
    group_arith_eax_imm32(ctx, Alu32::Xor, imm32);
    proof {
        assert(ctx.builder.code@ =~= old(ctx).builder.code@ + group_arith_eax_imm32_code(Alu32::Xor, imm32));
        assert(ctx.builder.frame().live =~= old(ctx).builder.frame().live);
        assert(ctx.builder.frame().live64 =~= old(ctx).builder.frame().live64);
        assert(ctx.builder.frame().ctrl =~= old(ctx).builder.frame().ctrl);
    }
}

/// Compares a byte in memory with the 8-bit register `r`.
pub fn instr_38_mem_jit(ctx: &mut JitContext, modrm_byte: u8, r: u32)
    requires
        ready(old(ctx).builder, 8),
        r < 8,
    ensures
        emits(*old(ctx), *final(ctx), read8_mem_code(false, modrm_byte, r, old(ctx).builder.next_local), 2),
        restores_by(old(ctx).builder, final(ctx).builder, 0),
{
    read8_mem(ctx, false, modrm_byte, r);
    proof {
        assert(ctx.builder.code@ =~= old(ctx).builder.code@ + read8_mem_code(false, modrm_byte, r, old(ctx).builder.next_local));
        assert(ctx.builder.frame().live =~= old(ctx).builder.frame().live);
        assert(ctx.builder.frame().live64 =~= old(ctx).builder.frame().live64);
        assert(ctx.builder.frame().ctrl =~= old(ctx).builder.frame().ctrl);
    }
}

/// Compares the 8-bit register `r1` with `r2`.
pub fn instr_38_reg_jit(ctx: &mut JitContext, r1: u32, r2: u32)
    requires
        ready(old(ctx).builder, 8),
        r1 < 8,
        r2 < 8,
    ensures
        emits(*old(ctx), *final(ctx), read8_reg_code(false, r1, r2, old(ctx).builder.next_local), 2),
        restores_by(old(ctx).builder, final(ctx).builder, 0),
{
    read8_reg(ctx, false, r1, r2);
    proof {
        assert(ctx.builder.code@ =~= old(ctx).builder.code@ + read8_reg_code(false, r1, r2, old(ctx).builder.next_local));
        assert(ctx.builder.frame().live =~= old(ctx).builder.frame().live);
        assert(ctx.builder.frame().live64 =~= old(ctx).builder.frame().live64);
        assert(ctx.builder.frame().ctrl =~= old(ctx).builder.frame().ctrl);
    }
}

/// Compares a 16-bit value in memory with register `r`.
pub fn instr16_39_mem_jit(ctx: &mut JitContext, modrm_byte: u8, r: u32)
    requires
        ready(old(ctx).builder, 8),
        r < 8,
    ensures
        emits(*old(ctx), *final(ctx), read16_mem_code(false, modrm_byte, r, old(ctx).builder.next_local), 1),
        restores_by(old(ctx).builder, final(ctx).builder, 0),
{
    read16_mem(ctx, false, modrm_byte, r);
    proof {
        assert(ctx.builder.code@ =~= old(ctx).builder.code@ + read16_mem_code(false, modrm_byte, r, old(ctx).builder.next_local));
        assert(ctx.builder.frame().live =~= old(ctx).builder.frame().live);
        assert(ctx.builder.frame().live64 =~= old(ctx).builder.frame().live64);
        assert(ctx.builder.frame().ctrl =~= old(ctx).builder.frame().ctrl);
    }
}

/// Compares register `r1` with `r2` at 16 bits.
pub fn instr16_39_reg_jit(ctx: &mut JitContext, r1: u32, r2: u32)
    requires
        ready(old(ctx).builder, 8),
        r1 < 8,
        r2 < 8,
    ensures
        emits(*old(ctx), *final(ctx), read16_reg_code(false, r1, r2), 0),
        restores_by(old(ctx).builder, final(ctx).builder, 0),
{
    read16_reg(ctx, false, r1, r2);
    proof {
        assert(ctx.builder.code@ =~= old(ctx).builder.code@ + read16_reg_code(false, r1, r2));
        assert(ctx.builder.frame().live =~= old(ctx).builder.frame().live);
        assert(ctx.builder.frame().live64 =~= old(ctx).builder.frame().live64);
        assert(ctx.builder.frame().ctrl =~= old(ctx).builder.frame().ctrl);
    }
}

/// Compares a 32-bit value in memory with register `r`.
pub fn instr32_39_mem_jit(ctx: &mut JitContext, modrm_byte: u8, r: u32)
    requires
        ready(old(ctx).builder, 8),
        r < 8,
    ensures
        emits(*old(ctx), *final(ctx), read32_mem_code(false, modrm_byte, r, old(ctx).builder.next_local), 1),
        restores_by(old(ctx).builder, final(ctx).builder, 0),
{
    read32_mem(ctx, false, modrm_byte, r);
    proof {
        assert(ctx.builder.code@ =~= old(ctx).builder.code@ + read32_mem_code(false, modrm_byte, r, old(ctx).builder.next_local));
        assert(ctx.builder.frame().live =~= old(ctx).builder.frame().live);
        assert(ctx.builder.frame().live64 =~= old(ctx).builder.frame().live64);
        assert(ctx.builder.frame().ctrl =~= old(ctx).builder.frame().ctrl);
    }
}

/// Compares register `r1` with `r2` at 32 bits.
pub fn instr32_39_reg_jit(ctx: &mut JitContext, r1: u32, r2: u32)
    requires
        ready(old(ctx).builder, 8),
        r1 < 8,
        r2 < 8,
    ensures
        emits(*old(ctx), *final(ctx), read32_reg_code(false, r1, r2), 0),
        restores_by(old(ctx).builder, final(ctx).builder, 0),
{
    read32_reg(ctx, false, r1, r2);
    proof {
        assert(ctx.builder.code@ =~= old(ctx).builder.code@ + read32_reg_code(false, r1, r2));
        assert(ctx.builder.frame().live =~= old(ctx).builder.frame().live);
        assert(ctx.builder.frame().live64 =~= old(ctx).builder.frame().live64);
        assert(ctx.builder.frame().ctrl =~= old(ctx).builder.frame().ctrl);
    }
}

/// Compares the 8-bit register `r` with a byte in memory.
pub fn instr_3A_mem_jit(ctx: &mut JitContext, modrm_byte: u8, r: u32)
    requires
        ready(old(ctx).builder, 8),
        r < 8,
    ensures
        emits(*old(ctx), *final(ctx), seq![Op::AliasReg8(r, old(ctx).builder.next_local), Op::ModrmResolveSafeRead8(modrm_byte), Op::SetNewLocal((old(ctx).builder.next_local + 1) as u32)] + gen_compare_code(false, WasmLocal::Temp(old(ctx).builder.next_local), LocalOrImmedate::WasmLocal(WasmLocal::Temp((old(ctx).builder.next_local + 1) as u32)), OPSIZE_8) + seq![Op::FreeReg8Alias(r, old(ctx).builder.next_local), Op::FreeLocal((old(ctx).builder.next_local + 1) as u32)], 2),
        restores_by(old(ctx).builder, final(ctx).builder, 0),
{
    let dest = ctx.builder.alias_reg8(r);
    ctx.builder.emit(Op::ModrmResolveSafeRead8(modrm_byte));
    let source = ctx.builder.set_new_local();
    proof { assert(ctx.builder.code@ =~= old(ctx).builder.code@ + seq![Op::AliasReg8(r, old(ctx).builder.next_local), Op::ModrmResolveSafeRead8(modrm_byte), Op::SetNewLocal((old(ctx).builder.next_local + 1) as u32)]); }
    gen_compare(&mut ctx.builder, false, &dest, &LocalOrImmedate::WasmLocal(source), OPSIZE_8);
    proof { assert(ctx.builder.code@ =~= old(ctx).builder.code@ + seq![Op::AliasReg8(r, old(ctx).builder.next_local), Op::ModrmResolveSafeRead8(modrm_byte), Op::SetNewLocal((old(ctx).builder.next_local + 1) as u32)] + gen_compare_code(false, WasmLocal::Temp(old(ctx).builder.next_local), LocalOrImmedate::WasmLocal(WasmLocal::Temp((old(ctx).builder.next_local + 1) as u32)), OPSIZE_8)); }
    ctx.builder.free_reg8_alias(r, dest);
    ctx.builder.free_local(source);
    proof {
        assert(ctx.builder.code@ =~= old(ctx).builder.code@ + (seq![Op::AliasReg8(r, old(ctx).builder.next_local), Op::ModrmResolveSafeRead8(modrm_byte), Op::SetNewLocal((old(ctx).builder.next_local + 1) as u32)] + gen_compare_code(false, WasmLocal::Temp(old(ctx).builder.next_local), LocalOrImmedate::WasmLocal(WasmLocal::Temp((old(ctx).builder.next_local + 1) as u32)), OPSIZE_8) + seq![Op::FreeReg8Alias(r, old(ctx).builder.next_local), Op::FreeLocal((old(ctx).builder.next_local + 1) as u32)]));
        assert(ctx.builder.frame().live =~= old(ctx).builder.frame().live);
        assert(ctx.builder.frame().live64 =~= old(ctx).builder.frame().live64);
        assert(ctx.builder.frame().ctrl =~= old(ctx).builder.frame().ctrl);
    }
}

/// Compares the 8-bit register `r2` with `r1`.
pub fn instr_3A_reg_jit(ctx: &mut JitContext, r1: u32, r2: u32)
    requires
        ready(old(ctx).builder, 8),
        r1 < 8,
        r2 < 8,
    ensures
        emits(*old(ctx), *final(ctx), seq![Op::AliasReg8(r2, old(ctx).builder.next_local), Op::AliasReg8(r1, (old(ctx).builder.next_local + 1) as u32)] + gen_compare_code(false, WasmLocal::Temp(old(ctx).builder.next_local), LocalOrImmedate::WasmLocal(WasmLocal::Temp((old(ctx).builder.next_local + 1) as u32)), OPSIZE_8) + seq![Op::FreeReg8Alias(r2, old(ctx).builder.next_local), Op::FreeReg8Alias(r1, (old(ctx).builder.next_local + 1) as u32)], 2),
        restores_by(old(ctx).builder, final(ctx).builder, 0),
{
    let dest = ctx.builder.alias_reg8(r2);
    let source = ctx.builder.alias_reg8(r1);
    proof { assert(ctx.builder.code@ =~= old(ctx).builder.code@ + seq![Op::AliasReg8(r2, old(ctx).builder.next_local), Op::AliasReg8(r1, (old(ctx).builder.next_local + 1) as u32)]); }
    gen_compare(&mut ctx.builder, false, &dest, &LocalOrImmedate::WasmLocal(source), OPSIZE_8);
    proof { assert(ctx.builder.code@ =~= old(ctx).builder.code@ + seq![Op::AliasReg8(r2, old(ctx).builder.next_local), Op::AliasReg8(r1, (old(ctx).builder.next_local + 1) as u32)] + gen_compare_code(false, WasmLocal::Temp(old(ctx).builder.next_local), LocalOrImmedate::WasmLocal(WasmLocal::Temp((old(ctx).builder.next_local + 1) as u32)), OPSIZE_8)); }
    ctx.builder.free_reg8_alias(r2, dest);
    ctx.builder.free_reg8_alias(r1, source);
    proof {
        assert(ctx.builder.code@ =~= old(ctx).builder.code@ + (seq![Op::AliasReg8(r2, old(ctx).builder.next_local), Op::AliasReg8(r1, (old(ctx).builder.next_local + 1) as u32)] + gen_compare_code(false, WasmLocal::Temp(old(ctx).builder.next_local), LocalOrImmedate::WasmLocal(WasmLocal::Temp((old(ctx).builder.next_local + 1) as u32)), OPSIZE_8) + seq![Op::FreeReg8Alias(r2, old(ctx).builder.next_local), Op::FreeReg8Alias(r1, (old(ctx).builder.next_local + 1) as u32)]));
        assert(ctx.builder.frame().live =~= old(ctx).builder.frame().live);
        assert(ctx.builder.frame().live64 =~= old(ctx).builder.frame().live64);
        assert(ctx.builder.frame().ctrl =~= old(ctx).builder.frame().ctrl);
    }
}

/// Compares register `r` with a 16-bit value in memory.
pub fn instr16_3B_mem_jit(ctx: &mut JitContext, modrm_byte: u8, r: u32)
    requires
        ready(old(ctx).builder, 8),
        r < 8,
    ensures
        emits(*old(ctx), *final(ctx), seq![Op::ModrmResolveSafeRead16(modrm_byte), Op::SetNewLocal(old(ctx).builder.next_local)] + gen_compare_code(false, WasmLocal::Register(r), LocalOrImmedate::WasmLocal(WasmLocal::Temp(old(ctx).builder.next_local)), OPSIZE_16) + seq![Op::FreeLocal(old(ctx).builder.next_local)], 1),
        restores_by(old(ctx).builder, final(ctx).builder, 0),
{
    ctx.builder.emit(Op::ModrmResolveSafeRead16(modrm_byte));
    let source = ctx.builder.set_new_local();
    proof { assert(ctx.builder.code@ =~= old(ctx).builder.code@ + seq![Op::ModrmResolveSafeRead16(modrm_byte), Op::SetNewLocal(old(ctx).builder.next_local)]); }
    gen_compare(&mut ctx.builder, false, &WasmLocal::Register(r), &LocalOrImmedate::WasmLocal(source), OPSIZE_16);
    proof { assert(ctx.builder.code@ =~= old(ctx).builder.code@ + seq![Op::ModrmResolveSafeRead16(modrm_byte), Op::SetNewLocal(old(ctx).builder.next_local)] + gen_compare_code(false, WasmLocal::Register(r), LocalOrImmedate::WasmLocal(WasmLocal::Temp(old(ctx).builder.next_local)), OPSIZE_16)); }
    ctx.builder.free_local(source);
    proof {
        assert(ctx.builder.code@ =~= old(ctx).builder.code@ + (seq![Op::ModrmResolveSafeRead16(modrm_byte), Op::SetNewLocal(old(ctx).builder.next_local)] + gen_compare_code(false, WasmLocal::Register(r), LocalOrImmedate::WasmLocal(WasmLocal::Temp(old(ctx).builder.next_local)), OPSIZE_16) + seq![Op::FreeLocal(old(ctx).builder.next_local)]));
        assert(ctx.builder.frame().live =~= old(ctx).builder.frame().live);
        assert(ctx.builder.frame().live64 =~= old(ctx).builder.frame().live64);
        assert(ctx.builder.frame().ctrl =~= old(ctx).builder.frame().ctrl);
    }
}

/// Compares register `r2` with `r1` at 16 bits.
pub fn instr16_3B_reg_jit(ctx: &mut JitContext, r1: u32, r2: u32)
    requires
        ready(old(ctx).builder, 8),
        r1 < 8,
        r2 < 8,
    ensures
        emits(*old(ctx), *final(ctx), gen_compare_code(false, WasmLocal::Register(r2), LocalOrImmedate::WasmLocal(WasmLocal::Register(r1)), OPSIZE_16), 0),
        restores_by(old(ctx).builder, final(ctx).builder, 0),
{
    gen_compare(&mut ctx.builder, false, &WasmLocal::Register(r2), &LocalOrImmedate::WasmLocal(WasmLocal::Register(r1)), OPSIZE_16);
    proof {
        assert(ctx.builder.code@ =~= old(ctx).builder.code@ + gen_compare_code(false, WasmLocal::Register(r2), LocalOrImmedate::WasmLocal(WasmLocal::Register(r1)), OPSIZE_16));
        assert(ctx.builder.frame().live =~= old(ctx).builder.frame().live);
        assert(ctx.builder.frame().live64 =~= old(ctx).builder.frame().live64);
        assert(ctx.builder.frame().ctrl =~= old(ctx).builder.frame().ctrl);
    }
}

/// The code that [`instr32_3B_mem_jit`] appends.
pub open spec fn instr32_3B_mem_jit_code(modrm_byte: u8, r: u32, n: u32) -> Seq<Op> {
    seq![Op::ModrmResolveSafeRead32(modrm_byte), Op::SetNewLocal(n)] + gen_compare_code(false, WasmLocal::Register(r), LocalOrImmedate::WasmLocal(WasmLocal::Temp(n)), OPSIZE_32) + seq![Op::FreeLocal(n)]
}

/// Compares register `r` with a 32-bit value in memory.
pub fn instr32_3B_mem_jit(ctx: &mut JitContext, modrm_byte: u8, r: u32)
    requires
        ready(old(ctx).builder, 8),
        r < 8,
    ensures
        emits(*old(ctx), *final(ctx), instr32_3B_mem_jit_code(modrm_byte, r, old(ctx).builder.next_local), 1),
        restores_by(old(ctx).builder, final(ctx).builder, 0),
{
    ctx.builder.emit(Op::ModrmResolveSafeRead32(modrm_byte));
    let source = ctx.builder.set_new_local();
    proof { assert(ctx.builder.code@ =~= old(ctx).builder.code@ + seq![Op::ModrmResolveSafeRead32(modrm_byte), Op::SetNewLocal(old(ctx).builder.next_local)]); }
    gen_compare(&mut ctx.builder, false, &WasmLocal::Register(r), &LocalOrImmedate::WasmLocal(source), OPSIZE_32);
    proof { assert(ctx.builder.code@ =~= old(ctx).builder.code@ + seq![Op::ModrmResolveSafeRead32(modrm_byte), Op::SetNewLocal(old(ctx).builder.next_local)] + gen_compare_code(false, WasmLocal::Register(r), LocalOrImmedate::WasmLocal(WasmLocal::Temp(old(ctx).builder.next_local)), OPSIZE_32)); }
    ctx.builder.free_local(source);
    proof {
        assert(ctx.builder.code@ =~= old(ctx).builder.code@ + instr32_3B_mem_jit_code(modrm_byte, r, old(ctx).builder.next_local));
        assert(ctx.builder.frame().live =~= old(ctx).builder.frame().live);
        assert(ctx.builder.frame().live64 =~= old(ctx).builder.frame().live64);
        assert(ctx.builder.frame().ctrl =~= old(ctx).builder.frame().ctrl);
    }
}

/// The code that [`instr32_3B_reg_jit`] appends.
pub open spec fn instr32_3B_reg_jit_code(r1: u32, r2: u32) -> Seq<Op> {
    gen_compare_code(false, WasmLocal::Register(r2), LocalOrImmedate::WasmLocal(WasmLocal::Register(r1)), OPSIZE_32)
}

/// Compares register `r2` with `r1` at 32 bits.
pub fn instr32_3B_reg_jit(ctx: &mut JitContext, r1: u32, r2: u32)
    requires
        ready(old(ctx).builder, 8),
        r1 < 8,
        r2 < 8,
    ensures
        emits(*old(ctx), *final(ctx), instr32_3B_reg_jit_code(r1, r2), 0),
        restores_by(old(ctx).builder, final(ctx).builder, 0),
{
    gen_compare(&mut ctx.builder, false, &WasmLocal::Register(r2), &LocalOrImmedate::WasmLocal(WasmLocal::Register(r1)), OPSIZE_32);
    proof {
        assert(ctx.builder.code@ =~= old(ctx).builder.code@ + instr32_3B_reg_jit_code(r1, r2));
        assert(ctx.builder.frame().live =~= old(ctx).builder.frame().live);
        assert(ctx.builder.frame().live64 =~= old(ctx).builder.frame().live64);
        assert(ctx.builder.frame().ctrl =~= old(ctx).builder.frame().ctrl);
    }
}

/// Compares AL with an immediate.
pub fn instr_3C_jit(ctx: &mut JitContext, imm8: u32)
    requires
        ready(old(ctx).builder, 8),
    ensures
        emits(*old(ctx), *final(ctx), gen_compare_code(false, WasmLocal::Register(0), LocalOrImmedate::Immediate(imm8 as i32), OPSIZE_8), 0),
        restores_by(old(ctx).builder, final(ctx).builder, 0),
{
    gen_compare(&mut ctx.builder, false, &WasmLocal::Register(0), &LocalOrImmedate::Immediate(imm8 as i32), OPSIZE_8);
    proof {
        assert(ctx.builder.code@ =~= old(ctx).builder.code@ + gen_compare_code(false, WasmLocal::Register(0), LocalOrImmedate::Immediate(imm8 as i32), OPSIZE_8));
        assert(ctx.builder.frame().live =~= old(ctx).builder.frame().live);
        assert(ctx.builder.frame().live64 =~= old(ctx).builder.frame().live64);
        assert(ctx.builder.frame().ctrl =~= old(ctx).builder.frame().ctrl);
    }
}

/// Compares AX with an immediate.
pub fn instr16_3D_jit(ctx: &mut JitContext, imm16: u32)
    requires
        ready(old(ctx).builder, 8),
    ensures
        emits(*old(ctx), *final(ctx), gen_compare_code(false, WasmLocal::Register(0), LocalOrImmedate::Immediate(imm16 as i32), OPSIZE_16), 0),
        restores_by(old(ctx).builder, final(ctx).builder, 0),
{
    gen_compare(&mut ctx.builder, false, &WasmLocal::Register(0), &LocalOrImmedate::Immediate(imm16 as i32), OPSIZE_16);
    proof {
        assert(ctx.builder.code@ =~= old(ctx).builder.code@ + gen_compare_code(false, WasmLocal::Register(0), LocalOrImmedate::Immediate(imm16 as i32), OPSIZE_16));
        assert(ctx.builder.frame().live =~= old(ctx).builder.frame().live);
        assert(ctx.builder.frame().live64 =~= old(ctx).builder.frame().live64);
        assert(ctx.builder.frame().ctrl =~= old(ctx).builder.frame().ctrl);
    }
}

/// The code that [`instr32_3D_jit`] appends.
pub open spec fn instr32_3D_jit_code(imm32: u32) -> Seq<Op> {
    gen_compare_code(false, WasmLocal::Register(0), LocalOrImmedate::Immediate(imm32 as i32), OPSIZE_32)
}

/// Compares EAX with an immediate.
pub fn instr32_3D_jit(ctx: &mut JitContext, imm32: u32)
    requires
        ready(old(ctx).builder, 8),
    ensures
        emits(*old(ctx), *final(ctx), instr32_3D_jit_code(imm32), 0),
        restores_by(old(ctx).builder, final(ctx).builder, 0),
{
    gen_compare(&mut ctx.builder, false, &WasmLocal::Register(0), &LocalOrImmedate::Immediate(imm32 as i32), OPSIZE_32);
    proof {
        assert(ctx.builder.code@ =~= old(ctx).builder.code@ + instr32_3D_jit_code(imm32));
        assert(ctx.builder.frame().live =~= old(ctx).builder.frame().live);
        assert(ctx.builder.frame().live64 =~= old(ctx).builder.frame().live64);
        assert(ctx.builder.frame().ctrl =~= old(ctx).builder.frame().ctrl);
    }
}

/// Pushes ES as 16 bits.
pub fn instr16_06_jit(ctx: &mut JitContext)
    requires
        ready(old(ctx).builder, 8),
    ensures
        emits(*old(ctx), *final(ctx), seq![Op::GetSreg(ES), Op::SetNewLocal(old(ctx).builder.next_local), Op::Push16(WasmLocal::Temp(old(ctx).builder.next_local)), Op::FreeLocal(old(ctx).builder.next_local)], 1),
        restores_by(old(ctx).builder, final(ctx).builder, 0),
{
    ctx.builder.emit(Op::GetSreg(ES));
    let sreg = ctx.builder.set_new_local();
    ctx.builder.emit(Op::Push16(sreg));
    ctx.builder.free_local(sreg);
    proof {
        assert(ctx.builder.code@ =~= old(ctx).builder.code@ + seq![Op::GetSreg(ES), Op::SetNewLocal(old(ctx).builder.next_local), Op::Push16(WasmLocal::Temp(old(ctx).builder.next_local)), Op::FreeLocal(old(ctx).builder.next_local)]);
        assert(ctx.builder.frame().live =~= old(ctx).builder.frame().live);
        assert(ctx.builder.frame().live64 =~= old(ctx).builder.frame().live64);
        assert(ctx.builder.frame().ctrl =~= old(ctx).builder.frame().ctrl);
    }
}

/// Pushes ES as 32 bits.
pub fn instr32_06_jit(ctx: &mut JitContext)
    requires
        ready(old(ctx).builder, 8),
    ensures
        emits(*old(ctx), *final(ctx), seq![Op::GetSreg(ES), Op::SetNewLocal(old(ctx).builder.next_local), Op::Push32(WasmLocal::Temp(old(ctx).builder.next_local)), Op::FreeLocal(old(ctx).builder.next_local)], 1),
        restores_by(old(ctx).builder, final(ctx).builder, 0),
{
    ctx.builder.emit(Op::GetSreg(ES));
    let sreg = ctx.builder.set_new_local();
    ctx.builder.emit(Op::Push32(sreg));
    ctx.builder.free_local(sreg);
    proof {
        assert(ctx.builder.code@ =~= old(ctx).builder.code@ + seq![Op::GetSreg(ES), Op::SetNewLocal(old(ctx).builder.next_local), Op::Push32(WasmLocal::Temp(old(ctx).builder.next_local)), Op::FreeLocal(old(ctx).builder.next_local)]);
        assert(ctx.builder.frame().live =~= old(ctx).builder.frame().live);
        assert(ctx.builder.frame().live64 =~= old(ctx).builder.frame().live64);
        assert(ctx.builder.frame().ctrl =~= old(ctx).builder.frame().ctrl);
    }
}

/// Pushes CS as 16 bits.
pub fn instr16_0E_jit(ctx: &mut JitContext)
    requires
        ready(old(ctx).builder, 8),
    ensures
        emits(*old(ctx), *final(ctx), seq![Op::GetSreg(CS), Op::SetNewLocal(old(ctx).builder.next_local), Op::Push16(WasmLocal::Temp(old(ctx).builder.next_local)), Op::FreeLocal(old(ctx).builder.next_local)], 1),
        restores_by(old(ctx).builder, final(ctx).builder, 0),
{
    ctx.builder.emit(Op::GetSreg(CS));
    let sreg = ctx.builder.set_new_local();
    ctx.builder.emit(Op::Push16(sreg));
    ctx.builder.free_local(sreg);
    proof {
        assert(ctx.builder.code@ =~= old(ctx).builder.code@ + seq![Op::GetSreg(CS), Op::SetNewLocal(old(ctx).builder.next_local), Op::Push16(WasmLocal::Temp(old(ctx).builder.next_local)), Op::FreeLocal(old(ctx).builder.next_local)]);
        assert(ctx.builder.frame().live =~= old(ctx).builder.frame().live);
        assert(ctx.builder.frame().live64 =~= old(ctx).builder.frame().live64);
        assert(ctx.builder.frame().ctrl =~= old(ctx).builder.frame().ctrl);
    }
}

/// Pushes CS as 32 bits.
pub fn instr32_0E_jit(ctx: &mut JitContext)
    requires
        ready(old(ctx).builder, 8),
    ensures
        emits(*old(ctx), *final(ctx), seq![Op::GetSreg(CS), Op::SetNewLocal(old(ctx).builder.next_local), Op::Push32(WasmLocal::Temp(old(ctx).builder.next_local)), Op::FreeLocal(old(ctx).builder.next_local)], 1),
        restores_by(old(ctx).builder, final(ctx).builder, 0),
{
    ctx.builder.emit(Op::GetSreg(CS));
    let sreg = ctx.builder.set_new_local();
    ctx.builder.emit(Op::Push32(sreg));
    ctx.builder.free_local(sreg);
    proof {
        assert(ctx.builder.code@ =~= old(ctx).builder.code@ + seq![Op::GetSreg(CS), Op::SetNewLocal(old(ctx).builder.next_local), Op::Push32(WasmLocal::Temp(old(ctx).builder.next_local)), Op::FreeLocal(old(ctx).builder.next_local)]);
        assert(ctx.builder.frame().live =~= old(ctx).builder.frame().live);
        assert(ctx.builder.frame().live64 =~= old(ctx).builder.frame().live64);
        assert(ctx.builder.frame().ctrl =~= old(ctx).builder.frame().ctrl);
    }
}

/// Pushes SS as 16 bits.
pub fn instr16_16_jit(ctx: &mut JitContext)
    requires
        ready(old(ctx).builder, 8),
    ensures
        emits(*old(ctx), *final(ctx), seq![Op::GetSreg(SS), Op::SetNewLocal(old(ctx).builder.next_local), Op::Push16(WasmLocal::Temp(old(ctx).builder.next_local)), Op::FreeLocal(old(ctx).builder.next_local)], 1),
        restores_by(old(ctx).builder, final(ctx).builder, 0),
{
    ctx.builder.emit(Op::GetSreg(SS));
    let sreg = ctx.builder.set_new_local();
    ctx.builder.emit(Op::Push16(sreg));
    ctx.builder.free_local(sreg);
    proof {
        assert(ctx.builder.code@ =~= old(ctx).builder.code@ + seq![Op::GetSreg(SS), Op::SetNewLocal(old(ctx).builder.next_local), Op::Push16(WasmLocal::Temp(old(ctx).builder.next_local)), Op::FreeLocal(old(ctx).builder.next_local)]);
        assert(ctx.builder.frame().live =~= old(ctx).builder.frame().live);
        assert(ctx.builder.frame().live64 =~= old(ctx).builder.frame().live64);
        assert(ctx.builder.frame().ctrl =~= old(ctx).builder.frame().ctrl);
    }
}

/// Pushes SS as 32 bits.
pub fn instr32_16_jit(ctx: &mut JitContext)
    requires
        ready(old(ctx).builder, 8),
    ensures
        emits(*old(ctx), *final(ctx), seq![Op::GetSreg(SS), Op::SetNewLocal(old(ctx).builder.next_local), Op::Push32(WasmLocal::Temp(old(ctx).builder.next_local)), Op::FreeLocal(old(ctx).builder.next_local)], 1),
        restores_by(old(ctx).builder, final(ctx).builder, 0),
{
    ctx.builder.emit(Op::GetSreg(SS));
    let sreg = ctx.builder.set_new_local();
    ctx.builder.emit(Op::Push32(sreg));
    ctx.builder.free_local(sreg);
    proof {
        assert(ctx.builder.code@ =~= old(ctx).builder.code@ + seq![Op::GetSreg(SS), Op::SetNewLocal(old(ctx).builder.next_local), Op::Push32(WasmLocal::Temp(old(ctx).builder.next_local)), Op::FreeLocal(old(ctx).builder.next_local)]);
        assert(ctx.builder.frame().live =~= old(ctx).builder.frame().live);
        assert(ctx.builder.frame().live64 =~= old(ctx).builder.frame().live64);
        assert(ctx.builder.frame().ctrl =~= old(ctx).builder.frame().ctrl);
    }
}

/// Pushes DS as 16 bits.
pub fn instr16_1E_jit(ctx: &mut JitContext)
    requires
        ready(old(ctx).builder, 8),
    ensures
        emits(*old(ctx), *final(ctx), seq![Op::GetSreg(DS), Op::SetNewLocal(old(ctx).builder.next_local), Op::Push16(WasmLocal::Temp(old(ctx).builder.next_local)), Op::FreeLocal(old(ctx).builder.next_local)], 1),
        restores_by(old(ctx).builder, final(ctx).builder, 0),
{
    ctx.builder.emit(Op::GetSreg(DS));
    let sreg = ctx.builder.set_new_local();
    ctx.builder.emit(Op::Push16(sreg));
    ctx.builder.free_local(sreg);
    proof {
        assert(ctx.builder.code@ =~= old(ctx).builder.code@ + seq![Op::GetSreg(DS), Op::SetNewLocal(old(ctx).builder.next_local), Op::Push16(WasmLocal::Temp(old(ctx).builder.next_local)), Op::FreeLocal(old(ctx).builder.next_local)]);
        assert(ctx.builder.frame().live =~= old(ctx).builder.frame().live);
        assert(ctx.builder.frame().live64 =~= old(ctx).builder.frame().live64);
        assert(ctx.builder.frame().ctrl =~= old(ctx).builder.frame().ctrl);
    }
}

/// Pushes DS as 32 bits.
pub fn instr32_1E_jit(ctx: &mut JitContext)
    requires
        ready(old(ctx).builder, 8),
    ensures
        emits(*old(ctx), *final(ctx), seq![Op::GetSreg(DS), Op::SetNewLocal(old(ctx).builder.next_local), Op::Push32(WasmLocal::Temp(old(ctx).builder.next_local)), Op::FreeLocal(old(ctx).builder.next_local)], 1),
        restores_by(old(ctx).builder, final(ctx).builder, 0),
{
    ctx.builder.emit(Op::GetSreg(DS));
    let sreg = ctx.builder.set_new_local();
    ctx.builder.emit(Op::Push32(sreg));
    ctx.builder.free_local(sreg);
    proof {
        assert(ctx.builder.code@ =~= old(ctx).builder.code@ + seq![Op::GetSreg(DS), Op::SetNewLocal(old(ctx).builder.next_local), Op::Push32(WasmLocal::Temp(old(ctx).builder.next_local)), Op::FreeLocal(old(ctx).builder.next_local)]);
        assert(ctx.builder.frame().live =~= old(ctx).builder.frame().live);
        assert(ctx.builder.frame().live64 =~= old(ctx).builder.frame().live64);
        assert(ctx.builder.frame().ctrl =~= old(ctx).builder.frame().ctrl);
    }
}

} // verus!
