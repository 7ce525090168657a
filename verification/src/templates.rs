//! Generator bodies shared by families of instructions that differ only in the runtime
//! helper they call, the operation they apply or the condition they test.

use vstd::prelude::*;
use crate::op::{Op, WasmLocal, LocalOrImmedate, GlobalPointer, BitSize, ImmKind};
use crate::consts::{OPSIZE_8, OPSIZE_16, OPSIZE_32, EAX, AX, AL, CL};
use crate::builder::{JitContext, ready, emits, restores_by};
use crate::alu::{Alu32, Unary, gen_alu32, gen_alu32_code, gen_unary, gen_unary_code, gen_compare, gen_compare_code};

verus! {

/// The code that [`read8_mem`] appends.
pub open spec fn read8_mem_code(test: bool, modrm_byte: u8, r: u32, n: u32) -> Seq<Op> {
    seq![Op::ModrmResolveSafeRead8(modrm_byte), Op::SetNewLocal(n), Op::AliasReg8(r, (n + 1) as u32)] + gen_compare_code(test, WasmLocal::Temp(n), LocalOrImmedate::WasmLocal(WasmLocal::Temp((n + 1) as u32)), OPSIZE_8) + seq![Op::FreeLocal(n), Op::FreeReg8Alias(r, (n + 1) as u32)]
}

/// Compares or tests a byte read through the ModR/M byte with the 8-bit register `r`.
pub fn read8_mem(ctx: &mut JitContext, test: bool, modrm_byte: u8, r: u32)
    requires
        ready(old(ctx).builder, 16),
        r < 8,
    ensures
        emits(*old(ctx), *final(ctx), read8_mem_code(test, modrm_byte, r, old(ctx).builder.next_local), 2),
        restores_by(old(ctx).builder, final(ctx).builder, 0),
{
    ctx.builder.emit(Op::ModrmResolveSafeRead8(modrm_byte));
    let dest = ctx.builder.set_new_local();
    let source = ctx.builder.alias_reg8(r);
    proof { assert(ctx.builder.code@ =~= old(ctx).builder.code@ + seq![Op::ModrmResolveSafeRead8(modrm_byte), Op::SetNewLocal(old(ctx).builder.next_local), Op::AliasReg8(r, (old(ctx).builder.next_local + 1) as u32)]); }
    gen_compare(&mut ctx.builder, test, &dest, &LocalOrImmedate::WasmLocal(source), OPSIZE_8);
    proof { assert(ctx.builder.code@ =~= old(ctx).builder.code@ + seq![Op::ModrmResolveSafeRead8(modrm_byte), Op::SetNewLocal(old(ctx).builder.next_local), Op::AliasReg8(r, (old(ctx).builder.next_local + 1) as u32)] + gen_compare_code(test, WasmLocal::Temp(old(ctx).builder.next_local), LocalOrImmedate::WasmLocal(WasmLocal::Temp((old(ctx).builder.next_local + 1) as u32)), OPSIZE_8)); }
    ctx.builder.free_local(dest);
    ctx.builder.free_reg8_alias(r, source);
    proof {
        assert(ctx.builder.code@ =~= old(ctx).builder.code@ + read8_mem_code(test, modrm_byte, r, old(ctx).builder.next_local));
        assert(ctx.builder.frame().live =~= old(ctx).builder.frame().live);
        assert(ctx.builder.frame().live64 =~= old(ctx).builder.frame().live64);
        assert(ctx.builder.frame().ctrl =~= old(ctx).builder.frame().ctrl);
    }
}

/// The code that [`read8_reg`] appends.
pub open spec fn read8_reg_code(test: bool, r1: u32, r2: u32, n: u32) -> Seq<Op> {
    seq![Op::AliasReg8(r1, n), Op::AliasReg8(r2, (n + 1) as u32)] + gen_compare_code(test, WasmLocal::Temp(n), LocalOrImmedate::WasmLocal(WasmLocal::Temp((n + 1) as u32)), OPSIZE_8) + seq![Op::FreeReg8Alias(r1, n), Op::FreeReg8Alias(r2, (n + 1) as u32)]
}

/// Compares or tests the 8-bit register `r1` with the 8-bit register `r2`.
pub fn read8_reg(ctx: &mut JitContext, test: bool, r1: u32, r2: u32)
    requires
        ready(old(ctx).builder, 16),
        r1 < 8,
        r2 < 8,
    ensures
        emits(*old(ctx), *final(ctx), read8_reg_code(test, r1, r2, old(ctx).builder.next_local), 2),
        restores_by(old(ctx).builder, final(ctx).builder, 0),
{
    let dest = ctx.builder.alias_reg8(r1);
    let source = ctx.builder.alias_reg8(r2);
    proof { assert(ctx.builder.code@ =~= old(ctx).builder.code@ + seq![Op::AliasReg8(r1, old(ctx).builder.next_local), Op::AliasReg8(r2, (old(ctx).builder.next_local + 1) as u32)]); }
    gen_compare(&mut ctx.builder, test, &dest, &LocalOrImmedate::WasmLocal(source), OPSIZE_8);
    proof { assert(ctx.builder.code@ =~= old(ctx).builder.code@ + seq![Op::AliasReg8(r1, old(ctx).builder.next_local), Op::AliasReg8(r2, (old(ctx).builder.next_local + 1) as u32)] + gen_compare_code(test, WasmLocal::Temp(old(ctx).builder.next_local), LocalOrImmedate::WasmLocal(WasmLocal::Temp((old(ctx).builder.next_local + 1) as u32)), OPSIZE_8)); }
    ctx.builder.free_reg8_alias(r1, dest);
    ctx.builder.free_reg8_alias(r2, source);
    proof {
        assert(ctx.builder.code@ =~= old(ctx).builder.code@ + read8_reg_code(test, r1, r2, old(ctx).builder.next_local));
        assert(ctx.builder.frame().live =~= old(ctx).builder.frame().live);
        assert(ctx.builder.frame().live64 =~= old(ctx).builder.frame().live64);
        assert(ctx.builder.frame().ctrl =~= old(ctx).builder.frame().ctrl);
    }
}

/// The code that [`read8_imm_mem`] appends.
pub open spec fn read8_imm_mem_code(test: bool, kind: ImmKind, modrm_byte: u8, n: u32) -> Seq<Op> {
    seq![Op::ModrmResolveSafeRead8(modrm_byte), Op::SetNewLocal(n), Op::ReadImm(kind)] + gen_compare_code(test, WasmLocal::Temp(n), LocalOrImmedate::ReadImmediate, OPSIZE_8) + seq![Op::FreeLocal(n)]
}

/// Compares or tests a byte read through the ModR/M byte with the immediate that follows.
pub fn read8_imm_mem(ctx: &mut JitContext, test: bool, kind: ImmKind, modrm_byte: u8)
    requires
        ready(old(ctx).builder, 16),
    ensures
        emits(*old(ctx), *final(ctx), read8_imm_mem_code(test, kind, modrm_byte, old(ctx).builder.next_local), 1),
        restores_by(old(ctx).builder, final(ctx).builder, 0),
{
    ctx.builder.emit(Op::ModrmResolveSafeRead8(modrm_byte));
    let dest = ctx.builder.set_new_local();
    ctx.builder.emit(Op::ReadImm(kind));
    proof { assert(ctx.builder.code@ =~= old(ctx).builder.code@ + seq![Op::ModrmResolveSafeRead8(modrm_byte), Op::SetNewLocal(old(ctx).builder.next_local), Op::ReadImm(kind)]); }
    gen_compare(&mut ctx.builder, test, &dest, &LocalOrImmedate::ReadImmediate, OPSIZE_8);
    proof { assert(ctx.builder.code@ =~= old(ctx).builder.code@ + seq![Op::ModrmResolveSafeRead8(modrm_byte), Op::SetNewLocal(old(ctx).builder.next_local), Op::ReadImm(kind)] + gen_compare_code(test, WasmLocal::Temp(old(ctx).builder.next_local), LocalOrImmedate::ReadImmediate, OPSIZE_8)); }
    ctx.builder.free_local(dest);
    proof {
        assert(ctx.builder.code@ =~= old(ctx).builder.code@ + read8_imm_mem_code(test, kind, modrm_byte, old(ctx).builder.next_local));
        assert(ctx.builder.frame().live =~= old(ctx).builder.frame().live);
        assert(ctx.builder.frame().live64 =~= old(ctx).builder.frame().live64);
        assert(ctx.builder.frame().ctrl =~= old(ctx).builder.frame().ctrl);
    }
}

/// The code that [`read8_imm_reg`] appends.
pub open spec fn read8_imm_reg_code(test: bool, r: u32, imm: u32, n: u32) -> Seq<Op> {
    seq![Op::AliasReg8(r, n)] + gen_compare_code(test, WasmLocal::Temp(n), LocalOrImmedate::Immediate(imm as i32), OPSIZE_8) + seq![Op::FreeReg8Alias(r, n)]
}

/// Compares or tests the 8-bit register `r` with an immediate.
pub fn read8_imm_reg(ctx: &mut JitContext, test: bool, r: u32, imm: u32)
    requires
        ready(old(ctx).builder, 16),
        r < 8,
    ensures
        emits(*old(ctx), *final(ctx), read8_imm_reg_code(test, r, imm, old(ctx).builder.next_local), 1),
        restores_by(old(ctx).builder, final(ctx).builder, 0),
{
    let dest = ctx.builder.alias_reg8(r);
    proof { assert(ctx.builder.code@ =~= old(ctx).builder.code@ + seq![Op::AliasReg8(r, old(ctx).builder.next_local)]); }
    gen_compare(&mut ctx.builder, test, &dest, &LocalOrImmedate::Immediate(imm as i32), OPSIZE_8);
    proof { assert(ctx.builder.code@ =~= old(ctx).builder.code@ + seq![Op::AliasReg8(r, old(ctx).builder.next_local)] + gen_compare_code(test, WasmLocal::Temp(old(ctx).builder.next_local), LocalOrImmedate::Immediate(imm as i32), OPSIZE_8)); }
    ctx.builder.free_reg8_alias(r, dest);
    proof {
        assert(ctx.builder.code@ =~= old(ctx).builder.code@ + read8_imm_reg_code(test, r, imm, old(ctx).builder.next_local));
        assert(ctx.builder.frame().live =~= old(ctx).builder.frame().live);
        assert(ctx.builder.frame().live64 =~= old(ctx).builder.frame().live64);
        assert(ctx.builder.frame().ctrl =~= old(ctx).builder.frame().ctrl);
    }
}

/// The code that [`read16_mem`] appends.
pub open spec fn read16_mem_code(test: bool, modrm_byte: u8, r: u32, n: u32) -> Seq<Op> {
    seq![Op::ModrmResolveSafeRead16(modrm_byte), Op::SetNewLocal(n)] + gen_compare_code(test, WasmLocal::Temp(n), LocalOrImmedate::WasmLocal(WasmLocal::Register(r)), OPSIZE_16) + seq![Op::FreeLocal(n)]
}

/// Compares or tests a 16-bit value read through the ModR/M byte with register `r`.
pub fn read16_mem(ctx: &mut JitContext, test: bool, modrm_byte: u8, r: u32)
    requires
        ready(old(ctx).builder, 16),
        r < 8,
    ensures
        emits(*old(ctx), *final(ctx), read16_mem_code(test, modrm_byte, r, old(ctx).builder.next_local), 1),
        restores_by(old(ctx).builder, final(ctx).builder, 0),
{
    ctx.builder.emit(Op::ModrmResolveSafeRead16(modrm_byte));
    let dest = ctx.builder.set_new_local();
    proof { assert(ctx.builder.code@ =~= old(ctx).builder.code@ + seq![Op::ModrmResolveSafeRead16(modrm_byte), Op::SetNewLocal(old(ctx).builder.next_local)]); }
    gen_compare(&mut ctx.builder, test, &dest, &LocalOrImmedate::WasmLocal(WasmLocal::Register(r)), OPSIZE_16);
    proof { assert(ctx.builder.code@ =~= old(ctx).builder.code@ + seq![Op::ModrmResolveSafeRead16(modrm_byte), Op::SetNewLocal(old(ctx).builder.next_local)] + gen_compare_code(test, WasmLocal::Temp(old(ctx).builder.next_local), LocalOrImmedate::WasmLocal(WasmLocal::Register(r)), OPSIZE_16)); }
    ctx.builder.free_local(dest);
    proof {
        assert(ctx.builder.code@ =~= old(ctx).builder.code@ + read16_mem_code(test, modrm_byte, r, old(ctx).builder.next_local));
        assert(ctx.builder.frame().live =~= old(ctx).builder.frame().live);
        assert(ctx.builder.frame().live64 =~= old(ctx).builder.frame().live64);
        assert(ctx.builder.frame().ctrl =~= old(ctx).builder.frame().ctrl);
    }
}

/// The code that [`read16_reg`] appends.
pub open spec fn read16_reg_code(test: bool, r1: u32, r2: u32) -> Seq<Op> {
    gen_compare_code(test, WasmLocal::Register(r1), LocalOrImmedate::WasmLocal(WasmLocal::Register(r2)), OPSIZE_16)
}

/// Compares or tests register `r1` with register `r2` at 16 bits.
pub fn read16_reg(ctx: &mut JitContext, test: bool, r1: u32, r2: u32)
    requires
        ready(old(ctx).builder, 16),
        r1 < 8,
        r2 < 8,
    ensures
        emits(*old(ctx), *final(ctx), read16_reg_code(test, r1, r2), 0),
        restores_by(old(ctx).builder, final(ctx).builder, 0),
{
    gen_compare(&mut ctx.builder, test, &WasmLocal::Register(r1), &LocalOrImmedate::WasmLocal(WasmLocal::Register(r2)), OPSIZE_16);
    proof {
        assert(ctx.builder.code@ =~= old(ctx).builder.code@ + read16_reg_code(test, r1, r2));
        assert(ctx.builder.frame().live =~= old(ctx).builder.frame().live);
        assert(ctx.builder.frame().live64 =~= old(ctx).builder.frame().live64);
        assert(ctx.builder.frame().ctrl =~= old(ctx).builder.frame().ctrl);
    }
}

/// The code that [`read16_imm_mem`] appends.
pub open spec fn read16_imm_mem_code(test: bool, kind: ImmKind, modrm_byte: u8, n: u32) -> Seq<Op> {
    seq![Op::ModrmResolveSafeRead16(modrm_byte), Op::SetNewLocal(n), Op::ReadImm(kind)] + gen_compare_code(test, WasmLocal::Temp(n), LocalOrImmedate::ReadImmediate, OPSIZE_16) + seq![Op::FreeLocal(n)]
}

/// Compares or tests a 16-bit value read through the ModR/M byte with the immediate that follows.
pub fn read16_imm_mem(ctx: &mut JitContext, test: bool, kind: ImmKind, modrm_byte: u8)
    requires
        ready(old(ctx).builder, 16),
    ensures
        emits(*old(ctx), *final(ctx), read16_imm_mem_code(test, kind, modrm_byte, old(ctx).builder.next_local), 1),
        restores_by(old(ctx).builder, final(ctx).builder, 0),
{
    ctx.builder.emit(Op::ModrmResolveSafeRead16(modrm_byte));
    let dest = ctx.builder.set_new_local();
    ctx.builder.emit(Op::ReadImm(kind));
    proof { assert(ctx.builder.code@ =~= old(ctx).builder.code@ + seq![Op::ModrmResolveSafeRead16(modrm_byte), Op::SetNewLocal(old(ctx).builder.next_local), Op::ReadImm(kind)]); }
    gen_compare(&mut ctx.builder, test, &dest, &LocalOrImmedate::ReadImmediate, OPSIZE_16);
    proof { assert(ctx.builder.code@ =~= old(ctx).builder.code@ + seq![Op::ModrmResolveSafeRead16(modrm_byte), Op::SetNewLocal(old(ctx).builder.next_local), Op::ReadImm(kind)] + gen_compare_code(test, WasmLocal::Temp(old(ctx).builder.next_local), LocalOrImmedate::ReadImmediate, OPSIZE_16)); }
    ctx.builder.free_local(dest);
    proof {
        assert(ctx.builder.code@ =~= old(ctx).builder.code@ + read16_imm_mem_code(test, kind, modrm_byte, old(ctx).builder.next_local));
        assert(ctx.builder.frame().live =~= old(ctx).builder.frame().live);
        assert(ctx.builder.frame().live64 =~= old(ctx).builder.frame().live64);
        assert(ctx.builder.frame().ctrl =~= old(ctx).builder.frame().ctrl);
    }
}

/// The code that [`read16_imm_reg`] appends.
pub open spec fn read16_imm_reg_code(test: bool, r: u32, imm: u32) -> Seq<Op> {
    gen_compare_code(test, WasmLocal::Register(r), LocalOrImmedate::Immediate(imm as i32), OPSIZE_16)
}

/// Compares or tests register `r` with an immediate at 16 bits.
pub fn read16_imm_reg(ctx: &mut JitContext, test: bool, r: u32, imm: u32)
    requires
        ready(old(ctx).builder, 16),
        r < 8,
    ensures
        emits(*old(ctx), *final(ctx), read16_imm_reg_code(test, r, imm), 0),
        restores_by(old(ctx).builder, final(ctx).builder, 0),
{
    gen_compare(&mut ctx.builder, test, &WasmLocal::Register(r), &LocalOrImmedate::Immediate(imm as i32), OPSIZE_16);
    proof {
        assert(ctx.builder.code@ =~= old(ctx).builder.code@ + read16_imm_reg_code(test, r, imm));
        assert(ctx.builder.frame().live =~= old(ctx).builder.frame().live);
        assert(ctx.builder.frame().live64 =~= old(ctx).builder.frame().live64);
        assert(ctx.builder.frame().ctrl =~= old(ctx).builder.frame().ctrl);
    }
}

/// The code that [`read32_mem`] appends.
pub open spec fn read32_mem_code(test: bool, modrm_byte: u8, r: u32, n: u32) -> Seq<Op> {
    seq![Op::ModrmResolveSafeRead32(modrm_byte), Op::SetNewLocal(n)] + gen_compare_code(test, WasmLocal::Temp(n), LocalOrImmedate::WasmLocal(WasmLocal::Register(r)), OPSIZE_32) + seq![Op::FreeLocal(n)]
}

/// Compares or tests a 32-bit value read through the ModR/M byte with register `r`.
pub fn read32_mem(ctx: &mut JitContext, test: bool, modrm_byte: u8, r: u32)
    requires
        ready(old(ctx).builder, 16),
        r < 8,
    ensures
        emits(*old(ctx), *final(ctx), read32_mem_code(test, modrm_byte, r, old(ctx).builder.next_local), 1),
        restores_by(old(ctx).builder, final(ctx).builder, 0),
{
    ctx.builder.emit(Op::ModrmResolveSafeRead32(modrm_byte));
    let dest = ctx.builder.set_new_local();
    proof { assert(ctx.builder.code@ =~= old(ctx).builder.code@ + seq![Op::ModrmResolveSafeRead32(modrm_byte), Op::SetNewLocal(old(ctx).builder.next_local)]); }
    gen_compare(&mut ctx.builder, test, &dest, &LocalOrImmedate::WasmLocal(WasmLocal::Register(r)), OPSIZE_32);
    proof { assert(ctx.builder.code@ =~= old(ctx).builder.code@ + seq![Op::ModrmResolveSafeRead32(modrm_byte), Op::SetNewLocal(old(ctx).builder.next_local)] + gen_compare_code(test, WasmLocal::Temp(old(ctx).builder.next_local), LocalOrImmedate::WasmLocal(WasmLocal::Register(r)), OPSIZE_32)); }
    ctx.builder.free_local(dest);
    proof {
        assert(ctx.builder.code@ =~= old(ctx).builder.code@ + read32_mem_code(test, modrm_byte, r, old(ctx).builder.next_local));
        assert(ctx.builder.frame().live =~= old(ctx).builder.frame().live);
        assert(ctx.builder.frame().live64 =~= old(ctx).builder.frame().live64);
        assert(ctx.builder.frame().ctrl =~= old(ctx).builder.frame().ctrl);
    }
}

/// The code that [`read32_reg`] appends.
pub open spec fn read32_reg_code(test: bool, r1: u32, r2: u32) -> Seq<Op> {
    gen_compare_code(test, WasmLocal::Register(r1), LocalOrImmedate::WasmLocal(WasmLocal::Register(r2)), OPSIZE_32)
}

/// Compares or tests register `r1` with register `r2` at 32 bits.
pub fn read32_reg(ctx: &mut JitContext, test: bool, r1: u32, r2: u32)
    requires
        ready(old(ctx).builder, 16),
        r1 < 8,
        r2 < 8,
    ensures
        emits(*old(ctx), *final(ctx), read32_reg_code(test, r1, r2), 0),
        restores_by(old(ctx).builder, final(ctx).builder, 0),
{
    gen_compare(&mut ctx.builder, test, &WasmLocal::Register(r1), &LocalOrImmedate::WasmLocal(WasmLocal::Register(r2)), OPSIZE_32);
    proof {
        assert(ctx.builder.code@ =~= old(ctx).builder.code@ + read32_reg_code(test, r1, r2));
        assert(ctx.builder.frame().live =~= old(ctx).builder.frame().live);
        assert(ctx.builder.frame().live64 =~= old(ctx).builder.frame().live64);
        assert(ctx.builder.frame().ctrl =~= old(ctx).builder.frame().ctrl);
    }
}

/// The code that [`read32_imm_mem`] appends.
pub open spec fn read32_imm_mem_code(test: bool, kind: ImmKind, modrm_byte: u8, n: u32) -> Seq<Op> {
    seq![Op::ModrmResolveSafeRead32(modrm_byte), Op::SetNewLocal(n), Op::ReadImm(kind)] + gen_compare_code(test, WasmLocal::Temp(n), LocalOrImmedate::ReadImmediate, OPSIZE_32) + seq![Op::FreeLocal(n)]
}

/// Compares or tests a 32-bit value read through the ModR/M byte with the immediate that follows.
pub fn read32_imm_mem(ctx: &mut JitContext, test: bool, kind: ImmKind, modrm_byte: u8)
    requires
        ready(old(ctx).builder, 16),
    ensures
        emits(*old(ctx), *final(ctx), read32_imm_mem_code(test, kind, modrm_byte, old(ctx).builder.next_local), 1),
        restores_by(old(ctx).builder, final(ctx).builder, 0),
{
    ctx.builder.emit(Op::ModrmResolveSafeRead32(modrm_byte));
    let dest = ctx.builder.set_new_local();
    ctx.builder.emit(Op::ReadImm(kind));
    proof { assert(ctx.builder.code@ =~= old(ctx).builder.code@ + seq![Op::ModrmResolveSafeRead32(modrm_byte), Op::SetNewLocal(old(ctx).builder.next_local), Op::ReadImm(kind)]); }
    gen_compare(&mut ctx.builder, test, &dest, &LocalOrImmedate::ReadImmediate, OPSIZE_32);
    proof { assert(ctx.builder.code@ =~= old(ctx).builder.code@ + seq![Op::ModrmResolveSafeRead32(modrm_byte), Op::SetNewLocal(old(ctx).builder.next_local), Op::ReadImm(kind)] + gen_compare_code(test, WasmLocal::Temp(old(ctx).builder.next_local), LocalOrImmedate::ReadImmediate, OPSIZE_32)); }
    ctx.builder.free_local(dest);
    proof {
        assert(ctx.builder.code@ =~= old(ctx).builder.code@ + read32_imm_mem_code(test, kind, modrm_byte, old(ctx).builder.next_local));
        assert(ctx.builder.frame().live =~= old(ctx).builder.frame().live);
        assert(ctx.builder.frame().live64 =~= old(ctx).builder.frame().live64);
        assert(ctx.builder.frame().ctrl =~= old(ctx).builder.frame().ctrl);
    }
}

/// The code that [`read32_imm_reg`] appends.
pub open spec fn read32_imm_reg_code(test: bool, r: u32, imm: u32) -> Seq<Op> {
    gen_compare_code(test, WasmLocal::Register(r), LocalOrImmedate::Immediate(imm as i32), OPSIZE_32)
}

/// Compares or tests register `r` with an immediate at 32 bits.
pub fn read32_imm_reg(ctx: &mut JitContext, test: bool, r: u32, imm: u32)
    requires
        ready(old(ctx).builder, 16),
        r < 8,
    ensures
        emits(*old(ctx), *final(ctx), read32_imm_reg_code(test, r, imm), 0),
        restores_by(old(ctx).builder, final(ctx).builder, 0),
{
    gen_compare(&mut ctx.builder, test, &WasmLocal::Register(r), &LocalOrImmedate::Immediate(imm as i32), OPSIZE_32);
    proof {
        assert(ctx.builder.code@ =~= old(ctx).builder.code@ + read32_imm_reg_code(test, r, imm));
        assert(ctx.builder.frame().live =~= old(ctx).builder.frame().live);
        assert(ctx.builder.frame().live64 =~= old(ctx).builder.frame().live64);
        assert(ctx.builder.frame().ctrl =~= old(ctx).builder.frame().ctrl);
    }
}

/// The code that [`write_reg8_mem`] appends.
pub open spec fn write_reg8_mem_code(name: &'static str, modrm_byte: u8, r: u32) -> Seq<Op> {
    seq![Op::GetReg8(r), Op::ModrmResolveSafeRead8(modrm_byte), Op::CallFn2Ret(name), Op::SetReg8(r)]
}

/// `reg8[r] = name(reg8[r], value read through the ModR/M byte)`.
pub fn write_reg8_mem(ctx: &mut JitContext, name: &'static str, modrm_byte: u8, r: u32)
    requires
        ready(old(ctx).builder, 16),
        r < 8,
    ensures
        emits(*old(ctx), *final(ctx), write_reg8_mem_code(name, modrm_byte, r), 0),
        restores_by(old(ctx).builder, final(ctx).builder, 0),
{
    ctx.builder.emit(Op::GetReg8(r));
    ctx.builder.emit(Op::ModrmResolveSafeRead8(modrm_byte));
    ctx.builder.emit(Op::CallFn2Ret(name));
    ctx.builder.emit(Op::SetReg8(r));
    proof {
        assert(ctx.builder.code@ =~= old(ctx).builder.code@ + write_reg8_mem_code(name, modrm_byte, r));
        assert(ctx.builder.frame().live =~= old(ctx).builder.frame().live);
        assert(ctx.builder.frame().live64 =~= old(ctx).builder.frame().live64);
        assert(ctx.builder.frame().ctrl =~= old(ctx).builder.frame().ctrl);
    }
}

/// The code that [`write_reg8_reg`] appends.
pub open spec fn write_reg8_reg_code(name: &'static str, r1: u32, r2: u32) -> Seq<Op> {
    seq![Op::GetReg8(r2), Op::GetReg8(r1), Op::CallFn2Ret(name), Op::SetReg8(r2)]
}

/// `reg8[r2] = name(reg8[r2], reg8[r1])`.
pub fn write_reg8_reg(ctx: &mut JitContext, name: &'static str, r1: u32, r2: u32)
    requires
        ready(old(ctx).builder, 16),
        r1 < 8,
        r2 < 8,
    ensures
        emits(*old(ctx), *final(ctx), write_reg8_reg_code(name, r1, r2), 0),
        restores_by(old(ctx).builder, final(ctx).builder, 0),
{
    ctx.builder.emit(Op::GetReg8(r2));
    ctx.builder.emit(Op::GetReg8(r1));
    ctx.builder.emit(Op::CallFn2Ret(name));
    ctx.builder.emit(Op::SetReg8(r2));
    proof {
        assert(ctx.builder.code@ =~= old(ctx).builder.code@ + write_reg8_reg_code(name, r1, r2));
        assert(ctx.builder.frame().live =~= old(ctx).builder.frame().live);
        assert(ctx.builder.frame().live64 =~= old(ctx).builder.frame().live64);
        assert(ctx.builder.frame().ctrl =~= old(ctx).builder.frame().ctrl);
    }
}

/// The code that [`write_reg16_mem`] appends.
pub open spec fn write_reg16_mem_code(name: &'static str, modrm_byte: u8, r: u32) -> Seq<Op> {
    seq![Op::GetReg16(r), Op::ModrmResolveSafeRead16(modrm_byte), Op::CallFn2Ret(name), Op::SetReg16(r)]
}

/// `reg16[r] = name(reg16[r], value read through the ModR/M byte)`.
pub fn write_reg16_mem(ctx: &mut JitContext, name: &'static str, modrm_byte: u8, r: u32)
    requires
        ready(old(ctx).builder, 16),
        r < 8,
    ensures
        emits(*old(ctx), *final(ctx), write_reg16_mem_code(name, modrm_byte, r), 0),
        restores_by(old(ctx).builder, final(ctx).builder, 0),
{
    ctx.builder.emit(Op::GetReg16(r));
    ctx.builder.emit(Op::ModrmResolveSafeRead16(modrm_byte));
    ctx.builder.emit(Op::CallFn2Ret(name));
    ctx.builder.emit(Op::SetReg16(r));
    proof {
        assert(ctx.builder.code@ =~= old(ctx).builder.code@ + write_reg16_mem_code(name, modrm_byte, r));
        assert(ctx.builder.frame().live =~= old(ctx).builder.frame().live);
        assert(ctx.builder.frame().live64 =~= old(ctx).builder.frame().live64);
        assert(ctx.builder.frame().ctrl =~= old(ctx).builder.frame().ctrl);
    }
}

/// The code that [`write_reg16_reg`] appends.
pub open spec fn write_reg16_reg_code(name: &'static str, r1: u32, r2: u32) -> Seq<Op> {
    seq![Op::GetReg16(r2), Op::GetReg16(r1), Op::CallFn2Ret(name), Op::SetReg16(r2)]
}

/// `reg16[r2] = name(reg16[r2], reg16[r1])`.
pub fn write_reg16_reg(ctx: &mut JitContext, name: &'static str, r1: u32, r2: u32)
    requires
        ready(old(ctx).builder, 16),
        r1 < 8,
        r2 < 8,
    ensures
        emits(*old(ctx), *final(ctx), write_reg16_reg_code(name, r1, r2), 0),
        restores_by(old(ctx).builder, final(ctx).builder, 0),
{
    ctx.builder.emit(Op::GetReg16(r2));
    ctx.builder.emit(Op::GetReg16(r1));
    ctx.builder.emit(Op::CallFn2Ret(name));
    ctx.builder.emit(Op::SetReg16(r2));
    proof {
        assert(ctx.builder.code@ =~= old(ctx).builder.code@ + write_reg16_reg_code(name, r1, r2));
        assert(ctx.builder.frame().live =~= old(ctx).builder.frame().live);
        assert(ctx.builder.frame().live64 =~= old(ctx).builder.frame().live64);
        assert(ctx.builder.frame().ctrl =~= old(ctx).builder.frame().ctrl);
    }
}

/// The code that [`write_reg32_mem`] appends.
pub open spec fn write_reg32_mem_code(alu: Alu32, modrm_byte: u8, r: u32, n: u32) -> Seq<Op> {
    seq![Op::ModrmResolveSafeRead32(modrm_byte), Op::SetNewLocal(n)] + gen_alu32_code(alu, WasmLocal::Register(r), LocalOrImmedate::WasmLocal(WasmLocal::Temp(n))) + seq![Op::FreeLocal(n)]
}

/// The 32-bit operation `alu` on register `r` and a value read through the ModR/M byte.
pub fn write_reg32_mem(ctx: &mut JitContext, alu: Alu32, modrm_byte: u8, r: u32)
    requires
        ready(old(ctx).builder, 16),
        r < 8,
    ensures
        emits(*old(ctx), *final(ctx), write_reg32_mem_code(alu, modrm_byte, r, old(ctx).builder.next_local), 1),
        restores_by(old(ctx).builder, final(ctx).builder, 0),
{
    ctx.builder.emit(Op::ModrmResolveSafeRead32(modrm_byte));
    let source = ctx.builder.set_new_local();
    proof { assert(ctx.builder.code@ =~= old(ctx).builder.code@ + seq![Op::ModrmResolveSafeRead32(modrm_byte), Op::SetNewLocal(old(ctx).builder.next_local)]); }
    gen_alu32(&mut ctx.builder, alu, &WasmLocal::Register(r), &LocalOrImmedate::WasmLocal(source));
    proof { assert(ctx.builder.code@ =~= old(ctx).builder.code@ + seq![Op::ModrmResolveSafeRead32(modrm_byte), Op::SetNewLocal(old(ctx).builder.next_local)] + gen_alu32_code(alu, WasmLocal::Register(r), LocalOrImmedate::WasmLocal(WasmLocal::Temp(old(ctx).builder.next_local)))); }
    ctx.builder.free_local(source);
    proof {
        assert(ctx.builder.code@ =~= old(ctx).builder.code@ + write_reg32_mem_code(alu, modrm_byte, r, old(ctx).builder.next_local));
        assert(ctx.builder.frame().live =~= old(ctx).builder.frame().live);
        assert(ctx.builder.frame().live64 =~= old(ctx).builder.frame().live64);
        assert(ctx.builder.frame().ctrl =~= old(ctx).builder.frame().ctrl);
    }
}

/// The code that [`write_reg32_reg`] appends.
pub open spec fn write_reg32_reg_code(alu: Alu32, r1: u32, r2: u32) -> Seq<Op> {
    gen_alu32_code(alu, WasmLocal::Register(r2), LocalOrImmedate::WasmLocal(WasmLocal::Register(r1)))
}

/// The 32-bit operation `alu` on register `r2` and register `r1`.
pub fn write_reg32_reg(ctx: &mut JitContext, alu: Alu32, r1: u32, r2: u32)
    requires
        ready(old(ctx).builder, 16),
        r1 < 8,
        r2 < 8,
    ensures
        emits(*old(ctx), *final(ctx), write_reg32_reg_code(alu, r1, r2), 0),
        restores_by(old(ctx).builder, final(ctx).builder, 0),
{
    gen_alu32(&mut ctx.builder, alu, &WasmLocal::Register(r2), &LocalOrImmedate::WasmLocal(WasmLocal::Register(r1)));
    proof {
        assert(ctx.builder.code@ =~= old(ctx).builder.code@ + write_reg32_reg_code(alu, r1, r2));
        assert(ctx.builder.frame().live =~= old(ctx).builder.frame().live);
        assert(ctx.builder.frame().live64 =~= old(ctx).builder.frame().live64);
        assert(ctx.builder.frame().ctrl =~= old(ctx).builder.frame().ctrl);
    }
}

/// The code that [`rmw8_reg_mem`] appends.
pub open spec fn rmw8_reg_mem_code(name: &'static str, modrm_byte: u8, r: u32, n: u32) -> Seq<Op> {
    seq![Op::ModrmResolve(modrm_byte), Op::SetNewLocal(n), Op::SafeReadWriteBegin(BitSize::Byte, WasmLocal::Temp(n)), Op::GetReg8(r), Op::CallFn2Ret(name), Op::SafeReadWriteEnd, Op::FreeLocal(n)]
}

/// Replaces a byte in memory by `name(value, reg8[r])`.
pub fn rmw8_reg_mem(ctx: &mut JitContext, name: &'static str, modrm_byte: u8, r: u32)
    requires
        ready(old(ctx).builder, 16),
        r < 8,
    ensures
        emits(*old(ctx), *final(ctx), rmw8_reg_mem_code(name, modrm_byte, r, old(ctx).builder.next_local), 1),
        restores_by(old(ctx).builder, final(ctx).builder, 0),
{
    ctx.builder.emit(Op::ModrmResolve(modrm_byte));
    let addr = ctx.builder.set_new_local();
    ctx.builder.read_write_begin(BitSize::Byte, addr);
    ctx.builder.emit(Op::GetReg8(r));
    ctx.builder.emit(Op::CallFn2Ret(name));
    ctx.builder.read_write_end();
    ctx.builder.free_local(addr);
    proof {
        assert(ctx.builder.code@ =~= old(ctx).builder.code@ + rmw8_reg_mem_code(name, modrm_byte, r, old(ctx).builder.next_local));
        assert(ctx.builder.frame().live =~= old(ctx).builder.frame().live);
        assert(ctx.builder.frame().live64 =~= old(ctx).builder.frame().live64);
        assert(ctx.builder.frame().ctrl =~= old(ctx).builder.frame().ctrl);
    }
}

/// The code that [`rmw8_reg_reg`] appends.
pub open spec fn rmw8_reg_reg_code(name: &'static str, r1: u32, r2: u32) -> Seq<Op> {
    seq![Op::GetReg8(r1), Op::GetReg8(r2), Op::CallFn2Ret(name), Op::SetReg8(r1)]
}

/// `reg8[r1] = name(reg8[r1], reg8[r2])`.
pub fn rmw8_reg_reg(ctx: &mut JitContext, name: &'static str, r1: u32, r2: u32)
    requires
        ready(old(ctx).builder, 16),
        r1 < 8,
        r2 < 8,
    ensures
        emits(*old(ctx), *final(ctx), rmw8_reg_reg_code(name, r1, r2), 0),
        restores_by(old(ctx).builder, final(ctx).builder, 0),
{
    ctx.builder.emit(Op::GetReg8(r1));
    ctx.builder.emit(Op::GetReg8(r2));
    ctx.builder.emit(Op::CallFn2Ret(name));
    ctx.builder.emit(Op::SetReg8(r1));
    proof {
        assert(ctx.builder.code@ =~= old(ctx).builder.code@ + rmw8_reg_reg_code(name, r1, r2));
        assert(ctx.builder.frame().live =~= old(ctx).builder.frame().live);
        assert(ctx.builder.frame().live64 =~= old(ctx).builder.frame().live64);
        assert(ctx.builder.frame().ctrl =~= old(ctx).builder.frame().ctrl);
    }
}

/// The code that [`rmw8_one_mem`] appends.
pub open spec fn rmw8_one_mem_code(name: &'static str, modrm_byte: u8, n: u32) -> Seq<Op> {
    seq![Op::ModrmResolve(modrm_byte), Op::SetNewLocal(n), Op::SafeReadWriteBegin(BitSize::Byte, WasmLocal::Temp(n)), Op::ConstI32(1), Op::CallFn2Ret(name), Op::SafeReadWriteEnd, Op::FreeLocal(n)]
}

/// Replaces a byte in memory by `name(value, 1)`.
pub fn rmw8_one_mem(ctx: &mut JitContext, name: &'static str, modrm_byte: u8)
    requires
        ready(old(ctx).builder, 16),
    ensures
        emits(*old(ctx), *final(ctx), rmw8_one_mem_code(name, modrm_byte, old(ctx).builder.next_local), 1),
        restores_by(old(ctx).builder, final(ctx).builder, 0),
{
    ctx.builder.emit(Op::ModrmResolve(modrm_byte));
    let addr = ctx.builder.set_new_local();
    ctx.builder.read_write_begin(BitSize::Byte, addr);
    ctx.builder.emit(Op::ConstI32(1));
    ctx.builder.emit(Op::CallFn2Ret(name));
    ctx.builder.read_write_end();
    ctx.builder.free_local(addr);
    proof {
        assert(ctx.builder.code@ =~= old(ctx).builder.code@ + rmw8_one_mem_code(name, modrm_byte, old(ctx).builder.next_local));
        assert(ctx.builder.frame().live =~= old(ctx).builder.frame().live);
        assert(ctx.builder.frame().live64 =~= old(ctx).builder.frame().live64);
        assert(ctx.builder.frame().ctrl =~= old(ctx).builder.frame().ctrl);
    }
}

/// The code that [`rmw8_one_reg`] appends.
pub open spec fn rmw8_one_reg_code(name: &'static str, r1: u32) -> Seq<Op> {
    seq![Op::GetReg8(r1), Op::ConstI32(1), Op::CallFn2Ret(name), Op::SetReg8(r1)]
}

/// `reg8[r1] = name(reg8[r1], 1)`.
pub fn rmw8_one_reg(ctx: &mut JitContext, name: &'static str, r1: u32)
    requires
        ready(old(ctx).builder, 16),
        r1 < 8,
    ensures
        emits(*old(ctx), *final(ctx), rmw8_one_reg_code(name, r1), 0),
        restores_by(old(ctx).builder, final(ctx).builder, 0),
{
    ctx.builder.emit(Op::GetReg8(r1));
    ctx.builder.emit(Op::ConstI32(1));
    ctx.builder.emit(Op::CallFn2Ret(name));
    ctx.builder.emit(Op::SetReg8(r1));
    proof {
        assert(ctx.builder.code@ =~= old(ctx).builder.code@ + rmw8_one_reg_code(name, r1));
        assert(ctx.builder.frame().live =~= old(ctx).builder.frame().live);
        assert(ctx.builder.frame().live64 =~= old(ctx).builder.frame().live64);
        assert(ctx.builder.frame().ctrl =~= old(ctx).builder.frame().ctrl);
    }
}

/// The code that [`rmw8_cl_mem`] appends.
pub open spec fn rmw8_cl_mem_code(name: &'static str, modrm_byte: u8, n: u32) -> Seq<Op> {
    seq![Op::ModrmResolve(modrm_byte), Op::SetNewLocal(n), Op::SafeReadWriteBegin(BitSize::Byte, WasmLocal::Temp(n)), Op::GetReg8(CL), Op::ConstI32(31), Op::AndI32, Op::CallFn2Ret(name), Op::SafeReadWriteEnd, Op::FreeLocal(n)]
}

/// Replaces a byte in memory by `name(value, CL & 31)`.
pub fn rmw8_cl_mem(ctx: &mut JitContext, name: &'static str, modrm_byte: u8)
    requires
        ready(old(ctx).builder, 16),
    ensures
        emits(*old(ctx), *final(ctx), rmw8_cl_mem_code(name, modrm_byte, old(ctx).builder.next_local), 1),
        restores_by(old(ctx).builder, final(ctx).builder, 0),
{
    ctx.builder.emit(Op::ModrmResolve(modrm_byte));
    let addr = ctx.builder.set_new_local();
    ctx.builder.read_write_begin(BitSize::Byte, addr);
    ctx.builder.emit(Op::GetReg8(CL));
    ctx.builder.emit(Op::ConstI32(31));
    ctx.builder.emit(Op::AndI32);
    ctx.builder.emit(Op::CallFn2Ret(name));
    ctx.builder.read_write_end();
    ctx.builder.free_local(addr);
    proof {
        assert(ctx.builder.code@ =~= old(ctx).builder.code@ + rmw8_cl_mem_code(name, modrm_byte, old(ctx).builder.next_local));
        assert(ctx.builder.frame().live =~= old(ctx).builder.frame().live);
        assert(ctx.builder.frame().live64 =~= old(ctx).builder.frame().live64);
        assert(ctx.builder.frame().ctrl =~= old(ctx).builder.frame().ctrl);
    }
}

/// The code that [`rmw8_cl_reg`] appends.
pub open spec fn rmw8_cl_reg_code(name: &'static str, r1: u32) -> Seq<Op> {
    seq![Op::GetReg8(r1), Op::GetReg8(CL), Op::ConstI32(31), Op::AndI32, Op::CallFn2Ret(name), Op::SetReg8(r1)]
}

/// `reg8[r1] = name(reg8[r1], CL & 31)`.
pub fn rmw8_cl_reg(ctx: &mut JitContext, name: &'static str, r1: u32)
    requires
        ready(old(ctx).builder, 16),
        r1 < 8,
    ensures
        emits(*old(ctx), *final(ctx), rmw8_cl_reg_code(name, r1), 0),
        restores_by(old(ctx).builder, final(ctx).builder, 0),
{
    ctx.builder.emit(Op::GetReg8(r1));
    ctx.builder.emit(Op::GetReg8(CL));
    ctx.builder.emit(Op::ConstI32(31));
    ctx.builder.emit(Op::AndI32);
    ctx.builder.emit(Op::CallFn2Ret(name));
    ctx.builder.emit(Op::SetReg8(r1));
    proof {
        assert(ctx.builder.code@ =~= old(ctx).builder.code@ + rmw8_cl_reg_code(name, r1));
        assert(ctx.builder.frame().live =~= old(ctx).builder.frame().live);
        assert(ctx.builder.frame().live64 =~= old(ctx).builder.frame().live64);
        assert(ctx.builder.frame().ctrl =~= old(ctx).builder.frame().ctrl);
    }
}

/// The code that [`rmw8_imm_mem`] appends.
pub open spec fn rmw8_imm_mem_code(name: &'static str, kind: ImmKind, modrm_byte: u8, n: u32) -> Seq<Op> {
    seq![Op::ModrmResolve(modrm_byte), Op::SetNewLocal(n), Op::ReadImm(kind), Op::SafeReadWriteBegin(BitSize::Byte, WasmLocal::Temp(n)), Op::ConstPendingImm(-1i32, 0u32), Op::CallFn2Ret(name), Op::SafeReadWriteEnd, Op::FreeLocal(n)]
}

/// Replaces a byte in memory by `name(value, imm)`, where the immediate follows the
/// addressing bytes.
pub fn rmw8_imm_mem(ctx: &mut JitContext, name: &'static str, kind: ImmKind, modrm_byte: u8)
    requires
        ready(old(ctx).builder, 16),
    ensures
        emits(*old(ctx), *final(ctx), rmw8_imm_mem_code(name, kind, modrm_byte, old(ctx).builder.next_local), 1),
        restores_by(old(ctx).builder, final(ctx).builder, 0),
{
    ctx.builder.emit(Op::ModrmResolve(modrm_byte));
    let addr = ctx.builder.set_new_local();
    ctx.builder.emit(Op::ReadImm(kind));
    ctx.builder.read_write_begin(BitSize::Byte, addr);
    ctx.builder.emit(Op::ConstPendingImm(-1i32, 0u32));
    ctx.builder.emit(Op::CallFn2Ret(name));
    ctx.builder.read_write_end();
    ctx.builder.free_local(addr);
    proof {
        assert(ctx.builder.code@ =~= old(ctx).builder.code@ + rmw8_imm_mem_code(name, kind, modrm_byte, old(ctx).builder.next_local));
        assert(ctx.builder.frame().live =~= old(ctx).builder.frame().live);
        assert(ctx.builder.frame().live64 =~= old(ctx).builder.frame().live64);
        assert(ctx.builder.frame().ctrl =~= old(ctx).builder.frame().ctrl);
    }
}

/// The code that [`rmw8_imm_reg`] appends.
pub open spec fn rmw8_imm_reg_code(name: &'static str, r1: u32, imm: u32) -> Seq<Op> {
    seq![Op::GetReg8(r1), Op::ConstI32(imm as i32), Op::CallFn2Ret(name), Op::SetReg8(r1)]
}

/// `reg8[r1] = name(reg8[r1], imm)`.
pub fn rmw8_imm_reg(ctx: &mut JitContext, name: &'static str, r1: u32, imm: u32)
    requires
        ready(old(ctx).builder, 16),
        r1 < 8,
    ensures
        emits(*old(ctx), *final(ctx), rmw8_imm_reg_code(name, r1, imm), 0),
        restores_by(old(ctx).builder, final(ctx).builder, 0),
{
    ctx.builder.emit(Op::GetReg8(r1));
    ctx.builder.emit(Op::ConstI32(imm as i32));
    ctx.builder.emit(Op::CallFn2Ret(name));
    ctx.builder.emit(Op::SetReg8(r1));
    proof {
        assert(ctx.builder.code@ =~= old(ctx).builder.code@ + rmw8_imm_reg_code(name, r1, imm));
        assert(ctx.builder.frame().live =~= old(ctx).builder.frame().live);
        assert(ctx.builder.frame().live64 =~= old(ctx).builder.frame().live64);
        assert(ctx.builder.frame().ctrl =~= old(ctx).builder.frame().ctrl);
    }
}

/// The code that [`rmw8_shift_mem`] appends.
pub open spec fn rmw8_shift_mem_code(name: &'static str, modrm_byte: u8, n: u32) -> Seq<Op> {
    seq![Op::ModrmResolve(modrm_byte), Op::SetNewLocal(n), Op::ReadImm(ImmKind::Imm8), Op::SafeReadWriteBegin(BitSize::Byte, WasmLocal::Temp(n)), Op::ConstPendingImm(31i32, 0u32), Op::CallFn2Ret(name), Op::SafeReadWriteEnd, Op::FreeLocal(n)]
}

/// Replaces a byte in memory by `name(value, imm8 & 31)`, where the immediate follows the
/// addressing bytes.
pub fn rmw8_shift_mem(ctx: &mut JitContext, name: &'static str, modrm_byte: u8)
    requires
        ready(old(ctx).builder, 16),
    ensures
        emits(*old(ctx), *final(ctx), rmw8_shift_mem_code(name, modrm_byte, old(ctx).builder.next_local), 1),
        restores_by(old(ctx).builder, final(ctx).builder, 0),
{
    ctx.builder.emit(Op::ModrmResolve(modrm_byte));
    let addr = ctx.builder.set_new_local();
    ctx.builder.emit(Op::ReadImm(ImmKind::Imm8));
    ctx.builder.read_write_begin(BitSize::Byte, addr);
    ctx.builder.emit(Op::ConstPendingImm(31i32, 0u32));
    ctx.builder.emit(Op::CallFn2Ret(name));
    ctx.builder.read_write_end();
    ctx.builder.free_local(addr);
    proof {
        assert(ctx.builder.code@ =~= old(ctx).builder.code@ + rmw8_shift_mem_code(name, modrm_byte, old(ctx).builder.next_local));
        assert(ctx.builder.frame().live =~= old(ctx).builder.frame().live);
        assert(ctx.builder.frame().live64 =~= old(ctx).builder.frame().live64);
        assert(ctx.builder.frame().ctrl =~= old(ctx).builder.frame().ctrl);
    }
}

/// The code that [`rmw8_shift_reg`] appends.
pub open spec fn rmw8_shift_reg_code(name: &'static str, r1: u32, imm: u32) -> Seq<Op> {
    seq![Op::GetReg8(r1), Op::ConstI32((imm & 31) as i32), Op::CallFn2Ret(name), Op::SetReg8(r1)]
}

/// `reg8[r1] = name(reg8[r1], imm & 31)`.
pub fn rmw8_shift_reg(ctx: &mut JitContext, name: &'static str, r1: u32, imm: u32)
    requires
        ready(old(ctx).builder, 16),
        r1 < 8,
    ensures
        emits(*old(ctx), *final(ctx), rmw8_shift_reg_code(name, r1, imm), 0),
        restores_by(old(ctx).builder, final(ctx).builder, 0),
{
    ctx.builder.emit(Op::GetReg8(r1));
    ctx.builder.emit(Op::ConstI32((imm & 31) as i32));
    ctx.builder.emit(Op::CallFn2Ret(name));
    ctx.builder.emit(Op::SetReg8(r1));
    proof {
        assert(ctx.builder.code@ =~= old(ctx).builder.code@ + rmw8_shift_reg_code(name, r1, imm));
        assert(ctx.builder.frame().live =~= old(ctx).builder.frame().live);
        assert(ctx.builder.frame().live64 =~= old(ctx).builder.frame().live64);
        assert(ctx.builder.frame().ctrl =~= old(ctx).builder.frame().ctrl);
    }
}

/// The code that [`rmw16_reg_mem`] appends.
pub open spec fn rmw16_reg_mem_code(name: &'static str, modrm_byte: u8, r: u32, n: u32) -> Seq<Op> {
    seq![Op::ModrmResolve(modrm_byte), Op::SetNewLocal(n), Op::SafeReadWriteBegin(BitSize::Word, WasmLocal::Temp(n)), Op::GetReg16(r), Op::CallFn2Ret(name), Op::SafeReadWriteEnd, Op::FreeLocal(n)]
}

/// Replaces a 16-bit value in memory by `name(value, reg16[r])`.
pub fn rmw16_reg_mem(ctx: &mut JitContext, name: &'static str, modrm_byte: u8, r: u32)
    requires
        ready(old(ctx).builder, 16),
        r < 8,
    ensures
        emits(*old(ctx), *final(ctx), rmw16_reg_mem_code(name, modrm_byte, r, old(ctx).builder.next_local), 1),
        restores_by(old(ctx).builder, final(ctx).builder, 0),
{
    ctx.builder.emit(Op::ModrmResolve(modrm_byte));
    let addr = ctx.builder.set_new_local();
    ctx.builder.read_write_begin(BitSize::Word, addr);
    ctx.builder.emit(Op::GetReg16(r));
    ctx.builder.emit(Op::CallFn2Ret(name));
    ctx.builder.read_write_end();
    ctx.builder.free_local(addr);
    proof {
        assert(ctx.builder.code@ =~= old(ctx).builder.code@ + rmw16_reg_mem_code(name, modrm_byte, r, old(ctx).builder.next_local));
        assert(ctx.builder.frame().live =~= old(ctx).builder.frame().live);
        assert(ctx.builder.frame().live64 =~= old(ctx).builder.frame().live64);
        assert(ctx.builder.frame().ctrl =~= old(ctx).builder.frame().ctrl);
    }
}

/// The code that [`rmw16_reg_reg`] appends.
pub open spec fn rmw16_reg_reg_code(name: &'static str, r1: u32, r2: u32) -> Seq<Op> {
    seq![Op::GetReg16(r1), Op::GetReg16(r2), Op::CallFn2Ret(name), Op::SetReg16(r1)]
}

/// `reg16[r1] = name(reg16[r1], reg16[r2])`.
pub fn rmw16_reg_reg(ctx: &mut JitContext, name: &'static str, r1: u32, r2: u32)
    requires
        ready(old(ctx).builder, 16),
        r1 < 8,
        r2 < 8,
    ensures
        emits(*old(ctx), *final(ctx), rmw16_reg_reg_code(name, r1, r2), 0),
        restores_by(old(ctx).builder, final(ctx).builder, 0),
{
    ctx.builder.emit(Op::GetReg16(r1));
    ctx.builder.emit(Op::GetReg16(r2));
    ctx.builder.emit(Op::CallFn2Ret(name));
    ctx.builder.emit(Op::SetReg16(r1));
    proof {
        assert(ctx.builder.code@ =~= old(ctx).builder.code@ + rmw16_reg_reg_code(name, r1, r2));
        assert(ctx.builder.frame().live =~= old(ctx).builder.frame().live);
        assert(ctx.builder.frame().live64 =~= old(ctx).builder.frame().live64);
        assert(ctx.builder.frame().ctrl =~= old(ctx).builder.frame().ctrl);
    }
}

/// The code that [`rmw16_one_mem`] appends.
pub open spec fn rmw16_one_mem_code(name: &'static str, modrm_byte: u8, n: u32) -> Seq<Op> {
    seq![Op::ModrmResolve(modrm_byte), Op::SetNewLocal(n), Op::SafeReadWriteBegin(BitSize::Word, WasmLocal::Temp(n)), Op::ConstI32(1), Op::CallFn2Ret(name), Op::SafeReadWriteEnd, Op::FreeLocal(n)]
}

/// Replaces a 16-bit value in memory by `name(value, 1)`.
pub fn rmw16_one_mem(ctx: &mut JitContext, name: &'static str, modrm_byte: u8)
    requires
        ready(old(ctx).builder, 16),
    ensures
        emits(*old(ctx), *final(ctx), rmw16_one_mem_code(name, modrm_byte, old(ctx).builder.next_local), 1),
        restores_by(old(ctx).builder, final(ctx).builder, 0),
{
    ctx.builder.emit(Op::ModrmResolve(modrm_byte));
    let addr = ctx.builder.set_new_local();
    ctx.builder.read_write_begin(BitSize::Word, addr);
    ctx.builder.emit(Op::ConstI32(1));
    ctx.builder.emit(Op::CallFn2Ret(name));
    ctx.builder.read_write_end();
    ctx.builder.free_local(addr);
    proof {
        assert(ctx.builder.code@ =~= old(ctx).builder.code@ + rmw16_one_mem_code(name, modrm_byte, old(ctx).builder.next_local));
        assert(ctx.builder.frame().live =~= old(ctx).builder.frame().live);
        assert(ctx.builder.frame().live64 =~= old(ctx).builder.frame().live64);
        assert(ctx.builder.frame().ctrl =~= old(ctx).builder.frame().ctrl);
    }
}

/// The code that [`rmw16_one_reg`] appends.
pub open spec fn rmw16_one_reg_code(name: &'static str, r1: u32) -> Seq<Op> {
    seq![Op::GetReg16(r1), Op::ConstI32(1), Op::CallFn2Ret(name), Op::SetReg16(r1)]
}

/// `reg16[r1] = name(reg16[r1], 1)`.
pub fn rmw16_one_reg(ctx: &mut JitContext, name: &'static str, r1: u32)
    requires
        ready(old(ctx).builder, 16),
        r1 < 8,
    ensures
        emits(*old(ctx), *final(ctx), rmw16_one_reg_code(name, r1), 0),
        restores_by(old(ctx).builder, final(ctx).builder, 0),
{
    ctx.builder.emit(Op::GetReg16(r1));
    ctx.builder.emit(Op::ConstI32(1));
    ctx.builder.emit(Op::CallFn2Ret(name));
    ctx.builder.emit(Op::SetReg16(r1));
    proof {
        assert(ctx.builder.code@ =~= old(ctx).builder.code@ + rmw16_one_reg_code(name, r1));
        assert(ctx.builder.frame().live =~= old(ctx).builder.frame().live);
        assert(ctx.builder.frame().live64 =~= old(ctx).builder.frame().live64);
        assert(ctx.builder.frame().ctrl =~= old(ctx).builder.frame().ctrl);
    }
}

/// The code that [`rmw16_cl_mem`] appends.
pub open spec fn rmw16_cl_mem_code(name: &'static str, modrm_byte: u8, n: u32) -> Seq<Op> {
    seq![Op::ModrmResolve(modrm_byte), Op::SetNewLocal(n), Op::SafeReadWriteBegin(BitSize::Word, WasmLocal::Temp(n)), Op::GetReg8(CL), Op::ConstI32(31), Op::AndI32, Op::CallFn2Ret(name), Op::SafeReadWriteEnd, Op::FreeLocal(n)]
}

/// Replaces a 16-bit value in memory by `name(value, CL & 31)`.
pub fn rmw16_cl_mem(ctx: &mut JitContext, name: &'static str, modrm_byte: u8)
    requires
        ready(old(ctx).builder, 16),
    ensures
        emits(*old(ctx), *final(ctx), rmw16_cl_mem_code(name, modrm_byte, old(ctx).builder.next_local), 1),
        restores_by(old(ctx).builder, final(ctx).builder, 0),
{
    ctx.builder.emit(Op::ModrmResolve(modrm_byte));
    let addr = ctx.builder.set_new_local();
    ctx.builder.read_write_begin(BitSize::Word, addr);
    ctx.builder.emit(Op::GetReg8(CL));
    ctx.builder.emit(Op::ConstI32(31));
    ctx.builder.emit(Op::AndI32);
    ctx.builder.emit(Op::CallFn2Ret(name));
    ctx.builder.read_write_end();
    ctx.builder.free_local(addr);
    proof {
        assert(ctx.builder.code@ =~= old(ctx).builder.code@ + rmw16_cl_mem_code(name, modrm_byte, old(ctx).builder.next_local));
        assert(ctx.builder.frame().live =~= old(ctx).builder.frame().live);
        assert(ctx.builder.frame().live64 =~= old(ctx).builder.frame().live64);
        assert(ctx.builder.frame().ctrl =~= old(ctx).builder.frame().ctrl);
    }
}

/// The code that [`rmw16_cl_reg`] appends.
pub open spec fn rmw16_cl_reg_code(name: &'static str, r1: u32) -> Seq<Op> {
    seq![Op::GetReg16(r1), Op::GetReg8(CL), Op::ConstI32(31), Op::AndI32, Op::CallFn2Ret(name), Op::SetReg16(r1)]
}

/// `reg16[r1] = name(reg16[r1], CL & 31)`.
pub fn rmw16_cl_reg(ctx: &mut JitContext, name: &'static str, r1: u32)
    requires
        ready(old(ctx).builder, 16),
        r1 < 8,
    ensures
        emits(*old(ctx), *final(ctx), rmw16_cl_reg_code(name, r1), 0),
        restores_by(old(ctx).builder, final(ctx).builder, 0),
{
    ctx.builder.emit(Op::GetReg16(r1));
    ctx.builder.emit(Op::GetReg8(CL));
    ctx.builder.emit(Op::ConstI32(31));
    ctx.builder.emit(Op::AndI32);
    ctx.builder.emit(Op::CallFn2Ret(name));
    ctx.builder.emit(Op::SetReg16(r1));
    proof {
        assert(ctx.builder.code@ =~= old(ctx).builder.code@ + rmw16_cl_reg_code(name, r1));
        assert(ctx.builder.frame().live =~= old(ctx).builder.frame().live);
        assert(ctx.builder.frame().live64 =~= old(ctx).builder.frame().live64);
        assert(ctx.builder.frame().ctrl =~= old(ctx).builder.frame().ctrl);
    }
}

/// The code that [`rmw16_imm_mem`] appends.
pub open spec fn rmw16_imm_mem_code(name: &'static str, kind: ImmKind, modrm_byte: u8, n: u32) -> Seq<Op> {
    seq![Op::ModrmResolve(modrm_byte), Op::SetNewLocal(n), Op::ReadImm(kind), Op::SafeReadWriteBegin(BitSize::Word, WasmLocal::Temp(n)), Op::ConstPendingImm(-1i32, 0u32), Op::CallFn2Ret(name), Op::SafeReadWriteEnd, Op::FreeLocal(n)]
}

/// Replaces a 16-bit value in memory by `name(value, imm)`, where the immediate follows the
/// addressing bytes.
pub fn rmw16_imm_mem(ctx: &mut JitContext, name: &'static str, kind: ImmKind, modrm_byte: u8)
    requires
        ready(old(ctx).builder, 16),
    ensures
        emits(*old(ctx), *final(ctx), rmw16_imm_mem_code(name, kind, modrm_byte, old(ctx).builder.next_local), 1),
        restores_by(old(ctx).builder, final(ctx).builder, 0),
{
    ctx.builder.emit(Op::ModrmResolve(modrm_byte));
    let addr = ctx.builder.set_new_local();
    ctx.builder.emit(Op::ReadImm(kind));
    ctx.builder.read_write_begin(BitSize::Word, addr);
    ctx.builder.emit(Op::ConstPendingImm(-1i32, 0u32));
    ctx.builder.emit(Op::CallFn2Ret(name));
    ctx.builder.read_write_end();
    ctx.builder.free_local(addr);
    proof {
        assert(ctx.builder.code@ =~= old(ctx).builder.code@ + rmw16_imm_mem_code(name, kind, modrm_byte, old(ctx).builder.next_local));
        assert(ctx.builder.frame().live =~= old(ctx).builder.frame().live);
        assert(ctx.builder.frame().live64 =~= old(ctx).builder.frame().live64);
        assert(ctx.builder.frame().ctrl =~= old(ctx).builder.frame().ctrl);
    }
}

/// The code that [`rmw16_imm_reg`] appends.
pub open spec fn rmw16_imm_reg_code(name: &'static str, r1: u32, imm: u32) -> Seq<Op> {
    seq![Op::GetReg16(r1), Op::ConstI32(imm as i32), Op::CallFn2Ret(name), Op::SetReg16(r1)]
}

/// `reg16[r1] = name(reg16[r1], imm)`.
pub fn rmw16_imm_reg(ctx: &mut JitContext, name: &'static str, r1: u32, imm: u32)
    requires
        ready(old(ctx).builder, 16),
        r1 < 8,
    ensures
        emits(*old(ctx), *final(ctx), rmw16_imm_reg_code(name, r1, imm), 0),
        restores_by(old(ctx).builder, final(ctx).builder, 0),
{
    ctx.builder.emit(Op::GetReg16(r1));
    ctx.builder.emit(Op::ConstI32(imm as i32));
    ctx.builder.emit(Op::CallFn2Ret(name));
    ctx.builder.emit(Op::SetReg16(r1));
    proof {
        assert(ctx.builder.code@ =~= old(ctx).builder.code@ + rmw16_imm_reg_code(name, r1, imm));
        assert(ctx.builder.frame().live =~= old(ctx).builder.frame().live);
        assert(ctx.builder.frame().live64 =~= old(ctx).builder.frame().live64);
        assert(ctx.builder.frame().ctrl =~= old(ctx).builder.frame().ctrl);
    }
}

/// The code that [`rmw16_shift_mem`] appends.
pub open spec fn rmw16_shift_mem_code(name: &'static str, modrm_byte: u8, n: u32) -> Seq<Op> {
    seq![Op::ModrmResolve(modrm_byte), Op::SetNewLocal(n), Op::ReadImm(ImmKind::Imm8), Op::SafeReadWriteBegin(BitSize::Word, WasmLocal::Temp(n)), Op::ConstPendingImm(31i32, 0u32), Op::CallFn2Ret(name), Op::SafeReadWriteEnd, Op::FreeLocal(n)]
}

/// Replaces a 16-bit value in memory by `name(value, imm8 & 31)`, where the immediate follows the
/// addressing bytes.
pub fn rmw16_shift_mem(ctx: &mut JitContext, name: &'static str, modrm_byte: u8)
    requires
        ready(old(ctx).builder, 16),
    ensures
        emits(*old(ctx), *final(ctx), rmw16_shift_mem_code(name, modrm_byte, old(ctx).builder.next_local), 1),
        restores_by(old(ctx).builder, final(ctx).builder, 0),
{
    ctx.builder.emit(Op::ModrmResolve(modrm_byte));
    let addr = ctx.builder.set_new_local();
    ctx.builder.emit(Op::ReadImm(ImmKind::Imm8));
    ctx.builder.read_write_begin(BitSize::Word, addr);
    ctx.builder.emit(Op::ConstPendingImm(31i32, 0u32));
    ctx.builder.emit(Op::CallFn2Ret(name));
    ctx.builder.read_write_end();
    ctx.builder.free_local(addr);
    proof {
        assert(ctx.builder.code@ =~= old(ctx).builder.code@ + rmw16_shift_mem_code(name, modrm_byte, old(ctx).builder.next_local));
        assert(ctx.builder.frame().live =~= old(ctx).builder.frame().live);
        assert(ctx.builder.frame().live64 =~= old(ctx).builder.frame().live64);
        assert(ctx.builder.frame().ctrl =~= old(ctx).builder.frame().ctrl);
    }
}

/// The code that [`rmw16_shift_reg`] appends.
pub open spec fn rmw16_shift_reg_code(name: &'static str, r1: u32, imm: u32) -> Seq<Op> {
    seq![Op::GetReg16(r1), Op::ConstI32((imm & 31) as i32), Op::CallFn2Ret(name), Op::SetReg16(r1)]
}

/// `reg16[r1] = name(reg16[r1], imm & 31)`.
pub fn rmw16_shift_reg(ctx: &mut JitContext, name: &'static str, r1: u32, imm: u32)
    requires
        ready(old(ctx).builder, 16),
        r1 < 8,
    ensures
        emits(*old(ctx), *final(ctx), rmw16_shift_reg_code(name, r1, imm), 0),
        restores_by(old(ctx).builder, final(ctx).builder, 0),
{
    ctx.builder.emit(Op::GetReg16(r1));
    ctx.builder.emit(Op::ConstI32((imm & 31) as i32));
    ctx.builder.emit(Op::CallFn2Ret(name));
    ctx.builder.emit(Op::SetReg16(r1));
    proof {
        assert(ctx.builder.code@ =~= old(ctx).builder.code@ + rmw16_shift_reg_code(name, r1, imm));
        assert(ctx.builder.frame().live =~= old(ctx).builder.frame().live);
        assert(ctx.builder.frame().live64 =~= old(ctx).builder.frame().live64);
        assert(ctx.builder.frame().ctrl =~= old(ctx).builder.frame().ctrl);
    }
}

/// The code that [`rmw16_reg_cl_mem`] appends.
pub open spec fn rmw16_reg_cl_mem_code(name: &'static str, modrm_byte: u8, r: u32, n: u32) -> Seq<Op> {
    seq![Op::ModrmResolve(modrm_byte), Op::SetNewLocal(n), Op::SafeReadWriteBegin(BitSize::Word, WasmLocal::Temp(n)), Op::GetReg16(r), Op::GetReg8(CL), Op::ConstI32(31), Op::AndI32, Op::CallFn3Ret(name), Op::SafeReadWriteEnd, Op::FreeLocal(n)]
}

/// Replaces a 16-bit value in memory by `name(value, reg16[r], CL & 31)`.
pub fn rmw16_reg_cl_mem(ctx: &mut JitContext, name: &'static str, modrm_byte: u8, r: u32)
    requires
        ready(old(ctx).builder, 16),
        r < 8,
    ensures
        emits(*old(ctx), *final(ctx), rmw16_reg_cl_mem_code(name, modrm_byte, r, old(ctx).builder.next_local), 1),
        restores_by(old(ctx).builder, final(ctx).builder, 0),
{
    ctx.builder.emit(Op::ModrmResolve(modrm_byte));
    let addr = ctx.builder.set_new_local();
    ctx.builder.read_write_begin(BitSize::Word, addr);
    ctx.builder.emit(Op::GetReg16(r));
    ctx.builder.emit(Op::GetReg8(CL));
    ctx.builder.emit(Op::ConstI32(31));
    ctx.builder.emit(Op::AndI32);
    ctx.builder.emit(Op::CallFn3Ret(name));
    ctx.builder.read_write_end();
    ctx.builder.free_local(addr);
    proof {
        assert(ctx.builder.code@ =~= old(ctx).builder.code@ + rmw16_reg_cl_mem_code(name, modrm_byte, r, old(ctx).builder.next_local));
        assert(ctx.builder.frame().live =~= old(ctx).builder.frame().live);
        assert(ctx.builder.frame().live64 =~= old(ctx).builder.frame().live64);
        assert(ctx.builder.frame().ctrl =~= old(ctx).builder.frame().ctrl);
    }
}

/// The code that [`rmw16_reg_cl_reg`] appends.
pub open spec fn rmw16_reg_cl_reg_code(name: &'static str, r1: u32, r2: u32) -> Seq<Op> {
    seq![Op::GetReg16(r1), Op::GetReg16(r2), Op::GetReg8(CL), Op::ConstI32(31), Op::AndI32, Op::CallFn3Ret(name), Op::SetReg16(r1)]
}

/// `reg16[r1] = name(reg16[r1], reg16[r2], CL & 31)`.
pub fn rmw16_reg_cl_reg(ctx: &mut JitContext, name: &'static str, r1: u32, r2: u32)
    requires
        ready(old(ctx).builder, 16),
        r1 < 8,
        r2 < 8,
    ensures
        emits(*old(ctx), *final(ctx), rmw16_reg_cl_reg_code(name, r1, r2), 0),
        restores_by(old(ctx).builder, final(ctx).builder, 0),
{
    ctx.builder.emit(Op::GetReg16(r1));
    ctx.builder.emit(Op::GetReg16(r2));
    ctx.builder.emit(Op::GetReg8(CL));
    ctx.builder.emit(Op::ConstI32(31));
    ctx.builder.emit(Op::AndI32);
    ctx.builder.emit(Op::CallFn3Ret(name));
    ctx.builder.emit(Op::SetReg16(r1));
    proof {
        assert(ctx.builder.code@ =~= old(ctx).builder.code@ + rmw16_reg_cl_reg_code(name, r1, r2));
        assert(ctx.builder.frame().live =~= old(ctx).builder.frame().live);
        assert(ctx.builder.frame().live64 =~= old(ctx).builder.frame().live64);
        assert(ctx.builder.frame().ctrl =~= old(ctx).builder.frame().ctrl);
    }
}

/// The code that [`rmw16_reg_shift_mem`] appends.
pub open spec fn rmw16_reg_shift_mem_code(name: &'static str, modrm_byte: u8, r: u32, n: u32) -> Seq<Op> {
    seq![Op::ModrmResolve(modrm_byte), Op::SetNewLocal(n), Op::ReadImm(ImmKind::Imm8), Op::SafeReadWriteBegin(BitSize::Word, WasmLocal::Temp(n)), Op::GetReg16(r), Op::ConstPendingImm(31i32, 0u32), Op::CallFn3Ret(name), Op::SafeReadWriteEnd, Op::FreeLocal(n)]
}

/// Replaces a 16-bit value in memory by `name(value, reg16[r], imm8 & 31)`, where the
/// immediate follows the addressing bytes.
pub fn rmw16_reg_shift_mem(ctx: &mut JitContext, name: &'static str, modrm_byte: u8, r: u32)
    requires
        ready(old(ctx).builder, 16),
        r < 8,
    ensures
        emits(*old(ctx), *final(ctx), rmw16_reg_shift_mem_code(name, modrm_byte, r, old(ctx).builder.next_local), 1),
        restores_by(old(ctx).builder, final(ctx).builder, 0),
{
    ctx.builder.emit(Op::ModrmResolve(modrm_byte));
    let addr = ctx.builder.set_new_local();
    ctx.builder.emit(Op::ReadImm(ImmKind::Imm8));
    ctx.builder.read_write_begin(BitSize::Word, addr);
    ctx.builder.emit(Op::GetReg16(r));
    ctx.builder.emit(Op::ConstPendingImm(31i32, 0u32));
    ctx.builder.emit(Op::CallFn3Ret(name));
    ctx.builder.read_write_end();
    ctx.builder.free_local(addr);
    proof {
        assert(ctx.builder.code@ =~= old(ctx).builder.code@ + rmw16_reg_shift_mem_code(name, modrm_byte, r, old(ctx).builder.next_local));
        assert(ctx.builder.frame().live =~= old(ctx).builder.frame().live);
        assert(ctx.builder.frame().live64 =~= old(ctx).builder.frame().live64);
        assert(ctx.builder.frame().ctrl =~= old(ctx).builder.frame().ctrl);
    }
}

/// The code that [`rmw16_reg_shift_reg`] appends.
pub open spec fn rmw16_reg_shift_reg_code(name: &'static str, r1: u32, r2: u32, imm: u32) -> Seq<Op> {
    seq![Op::GetReg16(r1), Op::GetReg16(r2), Op::ConstI32((imm & 31) as i32), Op::CallFn3Ret(name), Op::SetReg16(r1)]
}

/// `reg16[r1] = name(reg16[r1], reg16[r2], imm & 31)`.
pub fn rmw16_reg_shift_reg(ctx: &mut JitContext, name: &'static str, r1: u32, r2: u32, imm: u32)
    requires
        ready(old(ctx).builder, 16),
        r1 < 8,
        r2 < 8,
    ensures
        emits(*old(ctx), *final(ctx), rmw16_reg_shift_reg_code(name, r1, r2, imm), 0),
        restores_by(old(ctx).builder, final(ctx).builder, 0),
{
    ctx.builder.emit(Op::GetReg16(r1));
    ctx.builder.emit(Op::GetReg16(r2));
    ctx.builder.emit(Op::ConstI32((imm & 31) as i32));
    ctx.builder.emit(Op::CallFn3Ret(name));
    ctx.builder.emit(Op::SetReg16(r1));
    proof {
        assert(ctx.builder.code@ =~= old(ctx).builder.code@ + rmw16_reg_shift_reg_code(name, r1, r2, imm));
        assert(ctx.builder.frame().live =~= old(ctx).builder.frame().live);
        assert(ctx.builder.frame().live64 =~= old(ctx).builder.frame().live64);
        assert(ctx.builder.frame().ctrl =~= old(ctx).builder.frame().ctrl);
    }
}

/// The code that [`rmw16_unary_mem`] appends.
pub open spec fn rmw16_unary_mem_code(unary: Unary, modrm_byte: u8, n: u32) -> Seq<Op> {
    seq![Op::ModrmResolve(modrm_byte), Op::SetNewLocal(n), Op::SafeReadWriteBegin(BitSize::Word, WasmLocal::Temp(n)), Op::SetNewLocal((n + 1) as u32)] + gen_unary_code(unary, WasmLocal::Temp((n + 1) as u32)) + seq![Op::GetLocal(WasmLocal::Temp((n + 1) as u32)), Op::FreeLocal((n + 1) as u32), Op::SafeReadWriteEnd, Op::FreeLocal(n)]
}

/// Replaces a 16-bit value in memory by the one-operand operation `unary` on it.
pub fn rmw16_unary_mem(ctx: &mut JitContext, unary: Unary, modrm_byte: u8)
    requires
        ready(old(ctx).builder, 16),
    ensures
        emits(*old(ctx), *final(ctx), rmw16_unary_mem_code(unary, modrm_byte, old(ctx).builder.next_local), 2),
        restores_by(old(ctx).builder, final(ctx).builder, 0),
{
    ctx.builder.emit(Op::ModrmResolve(modrm_byte));
    let addr = ctx.builder.set_new_local();
    ctx.builder.read_write_begin(BitSize::Word, addr);
    let dest = ctx.builder.set_new_local();
    proof { assert(ctx.builder.code@ =~= old(ctx).builder.code@ + seq![Op::ModrmResolve(modrm_byte), Op::SetNewLocal(old(ctx).builder.next_local), Op::SafeReadWriteBegin(BitSize::Word, WasmLocal::Temp(old(ctx).builder.next_local)), Op::SetNewLocal((old(ctx).builder.next_local + 1) as u32)]); }
    gen_unary(&mut ctx.builder, unary, &dest);
    proof { assert(ctx.builder.code@ =~= old(ctx).builder.code@ + seq![Op::ModrmResolve(modrm_byte), Op::SetNewLocal(old(ctx).builder.next_local), Op::SafeReadWriteBegin(BitSize::Word, WasmLocal::Temp(old(ctx).builder.next_local)), Op::SetNewLocal((old(ctx).builder.next_local + 1) as u32)] + gen_unary_code(unary, WasmLocal::Temp((old(ctx).builder.next_local + 1) as u32))); }
    ctx.builder.emit(Op::GetLocal(dest));
    ctx.builder.free_local(dest);
    ctx.builder.read_write_end();
    ctx.builder.free_local(addr);
    proof {
        assert(ctx.builder.code@ =~= old(ctx).builder.code@ + rmw16_unary_mem_code(unary, modrm_byte, old(ctx).builder.next_local));
        assert(ctx.builder.frame().live =~= old(ctx).builder.frame().live);
        assert(ctx.builder.frame().live64 =~= old(ctx).builder.frame().live64);
        assert(ctx.builder.frame().ctrl =~= old(ctx).builder.frame().ctrl);
    }
}

/// The code that [`rmw16_unary_reg`] appends.
pub open spec fn rmw16_unary_reg_code(unary: Unary, r1: u32) -> Seq<Op> {
    gen_unary_code(unary, WasmLocal::Register(r1))
}

/// The one-operand operation `unary` on register `r1`.
pub fn rmw16_unary_reg(ctx: &mut JitContext, unary: Unary, r1: u32)
    requires
        ready(old(ctx).builder, 16),
        r1 < 8,
    ensures
        emits(*old(ctx), *final(ctx), rmw16_unary_reg_code(unary, r1), 0),
        restores_by(old(ctx).builder, final(ctx).builder, 0),
{
    gen_unary(&mut ctx.builder, unary, &WasmLocal::Register(r1));
    proof {
        assert(ctx.builder.code@ =~= old(ctx).builder.code@ + rmw16_unary_reg_code(unary, r1));
        assert(ctx.builder.frame().live =~= old(ctx).builder.frame().live);
        assert(ctx.builder.frame().live64 =~= old(ctx).builder.frame().live64);
        assert(ctx.builder.frame().ctrl =~= old(ctx).builder.frame().ctrl);
    }
}

/// The code that [`rmw32_reg_mem`] appends.
pub open spec fn rmw32_reg_mem_code(alu: Alu32, modrm_byte: u8, r: u32, n: u32) -> Seq<Op> {
    seq![Op::ModrmResolve(modrm_byte), Op::SetNewLocal(n), Op::SafeReadWriteBegin(BitSize::Dword, WasmLocal::Temp(n)), Op::SetNewLocal((n + 1) as u32)] + gen_alu32_code(alu, WasmLocal::Temp((n + 1) as u32), LocalOrImmedate::WasmLocal(WasmLocal::Register(r))) + seq![Op::GetLocal(WasmLocal::Temp((n + 1) as u32)), Op::FreeLocal((n + 1) as u32), Op::SafeReadWriteEnd, Op::FreeLocal(n)]
}

/// Replaces a 32-bit value in memory by the operation `alu` on it and register `r`.
pub fn rmw32_reg_mem(ctx: &mut JitContext, alu: Alu32, modrm_byte: u8, r: u32)
    requires
        ready(old(ctx).builder, 16),
        r < 8,
    ensures
        emits(*old(ctx), *final(ctx), rmw32_reg_mem_code(alu, modrm_byte, r, old(ctx).builder.next_local), 2),
        restores_by(old(ctx).builder, final(ctx).builder, 0),
{
    ctx.builder.emit(Op::ModrmResolve(modrm_byte));
    let addr = ctx.builder.set_new_local();
    ctx.builder.read_write_begin(BitSize::Dword, addr);
    let dest = ctx.builder.set_new_local();
    proof { assert(ctx.builder.code@ =~= old(ctx).builder.code@ + seq![Op::ModrmResolve(modrm_byte), Op::SetNewLocal(old(ctx).builder.next_local), Op::SafeReadWriteBegin(BitSize::Dword, WasmLocal::Temp(old(ctx).builder.next_local)), Op::SetNewLocal((old(ctx).builder.next_local + 1) as u32)]); }
    gen_alu32(&mut ctx.builder, alu, &dest, &LocalOrImmedate::WasmLocal(WasmLocal::Register(r)));
    proof { assert(ctx.builder.code@ =~= old(ctx).builder.code@ + seq![Op::ModrmResolve(modrm_byte), Op::SetNewLocal(old(ctx).builder.next_local), Op::SafeReadWriteBegin(BitSize::Dword, WasmLocal::Temp(old(ctx).builder.next_local)), Op::SetNewLocal((old(ctx).builder.next_local + 1) as u32)] + gen_alu32_code(alu, WasmLocal::Temp((old(ctx).builder.next_local + 1) as u32), LocalOrImmedate::WasmLocal(WasmLocal::Register(r)))); }
    ctx.builder.emit(Op::GetLocal(dest));
    ctx.builder.free_local(dest);
    ctx.builder.read_write_end();
    ctx.builder.free_local(addr);
    proof {
        assert(ctx.builder.code@ =~= old(ctx).builder.code@ + rmw32_reg_mem_code(alu, modrm_byte, r, old(ctx).builder.next_local));
        assert(ctx.builder.frame().live =~= old(ctx).builder.frame().live);
        assert(ctx.builder.frame().live64 =~= old(ctx).builder.frame().live64);
        assert(ctx.builder.frame().ctrl =~= old(ctx).builder.frame().ctrl);
    }
}

/// The code that [`rmw32_reg_reg`] appends.
pub open spec fn rmw32_reg_reg_code(alu: Alu32, r1: u32, r2: u32) -> Seq<Op> {
    gen_alu32_code(alu, WasmLocal::Register(r1), LocalOrImmedate::WasmLocal(WasmLocal::Register(r2)))
}

/// The 32-bit operation `alu` on register `r1` and register `r2`.
pub fn rmw32_reg_reg(ctx: &mut JitContext, alu: Alu32, r1: u32, r2: u32)
    requires
        ready(old(ctx).builder, 16),
        r1 < 8,
        r2 < 8,
    ensures
        emits(*old(ctx), *final(ctx), rmw32_reg_reg_code(alu, r1, r2), 0),
        restores_by(old(ctx).builder, final(ctx).builder, 0),
{
    gen_alu32(&mut ctx.builder, alu, &WasmLocal::Register(r1), &LocalOrImmedate::WasmLocal(WasmLocal::Register(r2)));
    proof {
        assert(ctx.builder.code@ =~= old(ctx).builder.code@ + rmw32_reg_reg_code(alu, r1, r2));
        assert(ctx.builder.frame().live =~= old(ctx).builder.frame().live);
        assert(ctx.builder.frame().live64 =~= old(ctx).builder.frame().live64);
        assert(ctx.builder.frame().ctrl =~= old(ctx).builder.frame().ctrl);
    }
}

/// The code that [`rmw32_one_mem`] appends.
pub open spec fn rmw32_one_mem_code(name: &'static str, modrm_byte: u8, n: u32) -> Seq<Op> {
    seq![Op::ModrmResolve(modrm_byte), Op::SetNewLocal(n), Op::SafeReadWriteBegin(BitSize::Dword, WasmLocal::Temp(n)), Op::ConstI32(1), Op::CallFn2Ret(name), Op::SafeReadWriteEnd, Op::FreeLocal(n)]
}

/// Replaces a 32-bit value in memory by `name(value, 1)`.
pub fn rmw32_one_mem(ctx: &mut JitContext, name: &'static str, modrm_byte: u8)
    requires
        ready(old(ctx).builder, 16),
    ensures
        emits(*old(ctx), *final(ctx), rmw32_one_mem_code(name, modrm_byte, old(ctx).builder.next_local), 1),
        restores_by(old(ctx).builder, final(ctx).builder, 0),
{
    ctx.builder.emit(Op::ModrmResolve(modrm_byte));
    let addr = ctx.builder.set_new_local();
    ctx.builder.read_write_begin(BitSize::Dword, addr);
    ctx.builder.emit(Op::ConstI32(1));
    ctx.builder.emit(Op::CallFn2Ret(name));
    ctx.builder.read_write_end();
    ctx.builder.free_local(addr);
    proof {
        assert(ctx.builder.code@ =~= old(ctx).builder.code@ + rmw32_one_mem_code(name, modrm_byte, old(ctx).builder.next_local));
        assert(ctx.builder.frame().live =~= old(ctx).builder.frame().live);
        assert(ctx.builder.frame().live64 =~= old(ctx).builder.frame().live64);
        assert(ctx.builder.frame().ctrl =~= old(ctx).builder.frame().ctrl);
    }
}

/// The code that [`rmw32_one_reg`] appends.
pub open spec fn rmw32_one_reg_code(name: &'static str, r1: u32) -> Seq<Op> {
    seq![Op::GetReg32(r1), Op::ConstI32(1), Op::CallFn2Ret(name), Op::SetReg32(r1)]
}

/// `reg32[r1] = name(reg32[r1], 1)`.
pub fn rmw32_one_reg(ctx: &mut JitContext, name: &'static str, r1: u32)
    requires
        ready(old(ctx).builder, 16),
        r1 < 8,
    ensures
        emits(*old(ctx), *final(ctx), rmw32_one_reg_code(name, r1), 0),
        restores_by(old(ctx).builder, final(ctx).builder, 0),
{
    ctx.builder.emit(Op::GetReg32(r1));
    ctx.builder.emit(Op::ConstI32(1));
    ctx.builder.emit(Op::CallFn2Ret(name));
    ctx.builder.emit(Op::SetReg32(r1));
    proof {
        assert(ctx.builder.code@ =~= old(ctx).builder.code@ + rmw32_one_reg_code(name, r1));
        assert(ctx.builder.frame().live =~= old(ctx).builder.frame().live);
        assert(ctx.builder.frame().live64 =~= old(ctx).builder.frame().live64);
        assert(ctx.builder.frame().ctrl =~= old(ctx).builder.frame().ctrl);
    }
}

/// The code that [`rmw32_cl_mem`] appends.
pub open spec fn rmw32_cl_mem_code(name: &'static str, modrm_byte: u8, n: u32) -> Seq<Op> {
    seq![Op::ModrmResolve(modrm_byte), Op::SetNewLocal(n), Op::SafeReadWriteBegin(BitSize::Dword, WasmLocal::Temp(n)), Op::GetReg8(CL), Op::ConstI32(31), Op::AndI32, Op::CallFn2Ret(name), Op::SafeReadWriteEnd, Op::FreeLocal(n)]
}

/// Replaces a 32-bit value in memory by `name(value, CL & 31)`.
pub fn rmw32_cl_mem(ctx: &mut JitContext, name: &'static str, modrm_byte: u8)
    requires
        ready(old(ctx).builder, 16),
    ensures
        emits(*old(ctx), *final(ctx), rmw32_cl_mem_code(name, modrm_byte, old(ctx).builder.next_local), 1),
        restores_by(old(ctx).builder, final(ctx).builder, 0),
{
    ctx.builder.emit(Op::ModrmResolve(modrm_byte));
    let addr = ctx.builder.set_new_local();
    ctx.builder.read_write_begin(BitSize::Dword, addr);
    ctx.builder.emit(Op::GetReg8(CL));
    ctx.builder.emit(Op::ConstI32(31));
    ctx.builder.emit(Op::AndI32);
    ctx.builder.emit(Op::CallFn2Ret(name));
    ctx.builder.read_write_end();
    ctx.builder.free_local(addr);
    proof {
        assert(ctx.builder.code@ =~= old(ctx).builder.code@ + rmw32_cl_mem_code(name, modrm_byte, old(ctx).builder.next_local));
        assert(ctx.builder.frame().live =~= old(ctx).builder.frame().live);
        assert(ctx.builder.frame().live64 =~= old(ctx).builder.frame().live64);
        assert(ctx.builder.frame().ctrl =~= old(ctx).builder.frame().ctrl);
    }
}

/// The code that [`rmw32_cl_reg`] appends.
pub open spec fn rmw32_cl_reg_code(name: &'static str, r1: u32) -> Seq<Op> {
    seq![Op::GetReg32(r1), Op::GetReg8(CL), Op::ConstI32(31), Op::AndI32, Op::CallFn2Ret(name), Op::SetReg32(r1)]
}

/// `reg32[r1] = name(reg32[r1], CL & 31)`.
pub fn rmw32_cl_reg(ctx: &mut JitContext, name: &'static str, r1: u32)
    requires
        ready(old(ctx).builder, 16),
        r1 < 8,
    ensures
        emits(*old(ctx), *final(ctx), rmw32_cl_reg_code(name, r1), 0),
        restores_by(old(ctx).builder, final(ctx).builder, 0),
{
    ctx.builder.emit(Op::GetReg32(r1));
    ctx.builder.emit(Op::GetReg8(CL));
    ctx.builder.emit(Op::ConstI32(31));
    ctx.builder.emit(Op::AndI32);
    ctx.builder.emit(Op::CallFn2Ret(name));
    ctx.builder.emit(Op::SetReg32(r1));
    proof {
        assert(ctx.builder.code@ =~= old(ctx).builder.code@ + rmw32_cl_reg_code(name, r1));
        assert(ctx.builder.frame().live =~= old(ctx).builder.frame().live);
        assert(ctx.builder.frame().live64 =~= old(ctx).builder.frame().live64);
        assert(ctx.builder.frame().ctrl =~= old(ctx).builder.frame().ctrl);
    }
}

/// The code that [`rmw32_imm_mem`] appends.
pub open spec fn rmw32_imm_mem_code(name: &'static str, kind: ImmKind, modrm_byte: u8, n: u32) -> Seq<Op> {
    seq![Op::ModrmResolve(modrm_byte), Op::SetNewLocal(n), Op::ReadImm(kind), Op::SafeReadWriteBegin(BitSize::Dword, WasmLocal::Temp(n)), Op::ConstPendingImm(-1i32, 0u32), Op::CallFn2Ret(name), Op::SafeReadWriteEnd, Op::FreeLocal(n)]
}

/// Replaces a 32-bit value in memory by `name(value, imm)`, where the immediate follows the
/// addressing bytes.
pub fn rmw32_imm_mem(ctx: &mut JitContext, name: &'static str, kind: ImmKind, modrm_byte: u8)
    requires
        ready(old(ctx).builder, 16),
    ensures
        emits(*old(ctx), *final(ctx), rmw32_imm_mem_code(name, kind, modrm_byte, old(ctx).builder.next_local), 1),
        restores_by(old(ctx).builder, final(ctx).builder, 0),
{
    ctx.builder.emit(Op::ModrmResolve(modrm_byte));
    let addr = ctx.builder.set_new_local();
    ctx.builder.emit(Op::ReadImm(kind));
    ctx.builder.read_write_begin(BitSize::Dword, addr);
    ctx.builder.emit(Op::ConstPendingImm(-1i32, 0u32));
    ctx.builder.emit(Op::CallFn2Ret(name));
    ctx.builder.read_write_end();
    ctx.builder.free_local(addr);
    proof {
        assert(ctx.builder.code@ =~= old(ctx).builder.code@ + rmw32_imm_mem_code(name, kind, modrm_byte, old(ctx).builder.next_local));
        assert(ctx.builder.frame().live =~= old(ctx).builder.frame().live);
        assert(ctx.builder.frame().live64 =~= old(ctx).builder.frame().live64);
        assert(ctx.builder.frame().ctrl =~= old(ctx).builder.frame().ctrl);
    }
}

/// The code that [`rmw32_imm_reg`] appends.
pub open spec fn rmw32_imm_reg_code(name: &'static str, r1: u32, imm: u32) -> Seq<Op> {
    seq![Op::GetReg32(r1), Op::ConstI32(imm as i32), Op::CallFn2Ret(name), Op::SetReg32(r1)]
}

/// `reg32[r1] = name(reg32[r1], imm)`.
pub fn rmw32_imm_reg(ctx: &mut JitContext, name: &'static str, r1: u32, imm: u32)
    requires
        ready(old(ctx).builder, 16),
        r1 < 8,
    ensures
        emits(*old(ctx), *final(ctx), rmw32_imm_reg_code(name, r1, imm), 0),
        restores_by(old(ctx).builder, final(ctx).builder, 0),
{
    ctx.builder.emit(Op::GetReg32(r1));
    ctx.builder.emit(Op::ConstI32(imm as i32));
    ctx.builder.emit(Op::CallFn2Ret(name));
    ctx.builder.emit(Op::SetReg32(r1));
    proof {
        assert(ctx.builder.code@ =~= old(ctx).builder.code@ + rmw32_imm_reg_code(name, r1, imm));
        assert(ctx.builder.frame().live =~= old(ctx).builder.frame().live);
        assert(ctx.builder.frame().live64 =~= old(ctx).builder.frame().live64);
        assert(ctx.builder.frame().ctrl =~= old(ctx).builder.frame().ctrl);
    }
}

/// The code that [`rmw32_shift_mem`] appends.
pub open spec fn rmw32_shift_mem_code(name: &'static str, modrm_byte: u8, n: u32) -> Seq<Op> {
    seq![Op::ModrmResolve(modrm_byte), Op::SetNewLocal(n), Op::ReadImm(ImmKind::Imm8), Op::SafeReadWriteBegin(BitSize::Dword, WasmLocal::Temp(n)), Op::ConstPendingImm(31i32, 0u32), Op::CallFn2Ret(name), Op::SafeReadWriteEnd, Op::FreeLocal(n)]
}

/// Replaces a 32-bit value in memory by `name(value, imm8 & 31)`, where the immediate follows the
/// addressing bytes.
pub fn rmw32_shift_mem(ctx: &mut JitContext, name: &'static str, modrm_byte: u8)
    requires
        ready(old(ctx).builder, 16),
    ensures
        emits(*old(ctx), *final(ctx), rmw32_shift_mem_code(name, modrm_byte, old(ctx).builder.next_local), 1),
        restores_by(old(ctx).builder, final(ctx).builder, 0),
{
    ctx.builder.emit(Op::ModrmResolve(modrm_byte));
    let addr = ctx.builder.set_new_local();
    ctx.builder.emit(Op::ReadImm(ImmKind::Imm8));
    ctx.builder.read_write_begin(BitSize::Dword, addr);
    ctx.builder.emit(Op::ConstPendingImm(31i32, 0u32));
    ctx.builder.emit(Op::CallFn2Ret(name));
    ctx.builder.read_write_end();
    ctx.builder.free_local(addr);
    proof {
        assert(ctx.builder.code@ =~= old(ctx).builder.code@ + rmw32_shift_mem_code(name, modrm_byte, old(ctx).builder.next_local));
        assert(ctx.builder.frame().live =~= old(ctx).builder.frame().live);
        assert(ctx.builder.frame().live64 =~= old(ctx).builder.frame().live64);
        assert(ctx.builder.frame().ctrl =~= old(ctx).builder.frame().ctrl);
    }
}

/// The code that [`rmw32_shift_reg`] appends.
pub open spec fn rmw32_shift_reg_code(name: &'static str, r1: u32, imm: u32) -> Seq<Op> {
    seq![Op::GetReg32(r1), Op::ConstI32((imm & 31) as i32), Op::CallFn2Ret(name), Op::SetReg32(r1)]
}

/// `reg32[r1] = name(reg32[r1], imm & 31)`.
pub fn rmw32_shift_reg(ctx: &mut JitContext, name: &'static str, r1: u32, imm: u32)
    requires
        ready(old(ctx).builder, 16),
        r1 < 8,
    ensures
        emits(*old(ctx), *final(ctx), rmw32_shift_reg_code(name, r1, imm), 0),
        restores_by(old(ctx).builder, final(ctx).builder, 0),
{
    ctx.builder.emit(Op::GetReg32(r1));
    ctx.builder.emit(Op::ConstI32((imm & 31) as i32));
    ctx.builder.emit(Op::CallFn2Ret(name));
    ctx.builder.emit(Op::SetReg32(r1));
    proof {
        assert(ctx.builder.code@ =~= old(ctx).builder.code@ + rmw32_shift_reg_code(name, r1, imm));
        assert(ctx.builder.frame().live =~= old(ctx).builder.frame().live);
        assert(ctx.builder.frame().live64 =~= old(ctx).builder.frame().live64);
        assert(ctx.builder.frame().ctrl =~= old(ctx).builder.frame().ctrl);
    }
}

/// The code that [`rmw32_reg_cl_mem`] appends.
pub open spec fn rmw32_reg_cl_mem_code(name: &'static str, modrm_byte: u8, r: u32, n: u32) -> Seq<Op> {
    seq![Op::ModrmResolve(modrm_byte), Op::SetNewLocal(n), Op::SafeReadWriteBegin(BitSize::Dword, WasmLocal::Temp(n)), Op::GetReg32(r), Op::GetReg8(CL), Op::ConstI32(31), Op::AndI32, Op::CallFn3Ret(name), Op::SafeReadWriteEnd, Op::FreeLocal(n)]
}

/// Replaces a 32-bit value in memory by `name(value, reg32[r], CL & 31)`.
pub fn rmw32_reg_cl_mem(ctx: &mut JitContext, name: &'static str, modrm_byte: u8, r: u32)
    requires
        ready(old(ctx).builder, 16),
        r < 8,
    ensures
        emits(*old(ctx), *final(ctx), rmw32_reg_cl_mem_code(name, modrm_byte, r, old(ctx).builder.next_local), 1),
        restores_by(old(ctx).builder, final(ctx).builder, 0),
{
    ctx.builder.emit(Op::ModrmResolve(modrm_byte));
    let addr = ctx.builder.set_new_local();
    ctx.builder.read_write_begin(BitSize::Dword, addr);
    ctx.builder.emit(Op::GetReg32(r));
    ctx.builder.emit(Op::GetReg8(CL));
    ctx.builder.emit(Op::ConstI32(31));
    ctx.builder.emit(Op::AndI32);
    ctx.builder.emit(Op::CallFn3Ret(name));
    ctx.builder.read_write_end();
    ctx.builder.free_local(addr);
    proof {
        assert(ctx.builder.code@ =~= old(ctx).builder.code@ + rmw32_reg_cl_mem_code(name, modrm_byte, r, old(ctx).builder.next_local));
        assert(ctx.builder.frame().live =~= old(ctx).builder.frame().live);
        assert(ctx.builder.frame().live64 =~= old(ctx).builder.frame().live64);
        assert(ctx.builder.frame().ctrl =~= old(ctx).builder.frame().ctrl);
    }
}

/// The code that [`rmw32_reg_cl_reg`] appends.
pub open spec fn rmw32_reg_cl_reg_code(name: &'static str, r1: u32, r2: u32) -> Seq<Op> {
    seq![Op::GetReg32(r1), Op::GetReg32(r2), Op::GetReg8(CL), Op::ConstI32(31), Op::AndI32, Op::CallFn3Ret(name), Op::SetReg32(r1)]
}

/// `reg32[r1] = name(reg32[r1], reg32[r2], CL & 31)`.
pub fn rmw32_reg_cl_reg(ctx: &mut JitContext, name: &'static str, r1: u32, r2: u32)
    requires
        ready(old(ctx).builder, 16),
        r1 < 8,
        r2 < 8,
    ensures
        emits(*old(ctx), *final(ctx), rmw32_reg_cl_reg_code(name, r1, r2), 0),
        restores_by(old(ctx).builder, final(ctx).builder, 0),
{
    ctx.builder.emit(Op::GetReg32(r1));
    ctx.builder.emit(Op::GetReg32(r2));
    ctx.builder.emit(Op::GetReg8(CL));
    ctx.builder.emit(Op::ConstI32(31));
    ctx.builder.emit(Op::AndI32);
    ctx.builder.emit(Op::CallFn3Ret(name));
    ctx.builder.emit(Op::SetReg32(r1));
    proof {
        assert(ctx.builder.code@ =~= old(ctx).builder.code@ + rmw32_reg_cl_reg_code(name, r1, r2));
        assert(ctx.builder.frame().live =~= old(ctx).builder.frame().live);
        assert(ctx.builder.frame().live64 =~= old(ctx).builder.frame().live64);
        assert(ctx.builder.frame().ctrl =~= old(ctx).builder.frame().ctrl);
    }
}

/// The code that [`rmw32_reg_shift_mem`] appends.
pub open spec fn rmw32_reg_shift_mem_code(name: &'static str, modrm_byte: u8, r: u32, n: u32) -> Seq<Op> {
    seq![Op::ModrmResolve(modrm_byte), Op::SetNewLocal(n), Op::ReadImm(ImmKind::Imm8), Op::SafeReadWriteBegin(BitSize::Dword, WasmLocal::Temp(n)), Op::GetReg32(r), Op::ConstPendingImm(31i32, 0u32), Op::CallFn3Ret(name), Op::SafeReadWriteEnd, Op::FreeLocal(n)]
}

/// Replaces a 32-bit value in memory by `name(value, reg32[r], imm8 & 31)`, where the
/// immediate follows the addressing bytes.
pub fn rmw32_reg_shift_mem(ctx: &mut JitContext, name: &'static str, modrm_byte: u8, r: u32)
    requires
        ready(old(ctx).builder, 16),
        r < 8,
    ensures
        emits(*old(ctx), *final(ctx), rmw32_reg_shift_mem_code(name, modrm_byte, r, old(ctx).builder.next_local), 1),
        restores_by(old(ctx).builder, final(ctx).builder, 0),
{
    ctx.builder.emit(Op::ModrmResolve(modrm_byte));
    let addr = ctx.builder.set_new_local();
    ctx.builder.emit(Op::ReadImm(ImmKind::Imm8));
    ctx.builder.read_write_begin(BitSize::Dword, addr);
    ctx.builder.emit(Op::GetReg32(r));
    ctx.builder.emit(Op::ConstPendingImm(31i32, 0u32));
    ctx.builder.emit(Op::CallFn3Ret(name));
    ctx.builder.read_write_end();
    ctx.builder.free_local(addr);
    proof {
        assert(ctx.builder.code@ =~= old(ctx).builder.code@ + rmw32_reg_shift_mem_code(name, modrm_byte, r, old(ctx).builder.next_local));
        assert(ctx.builder.frame().live =~= old(ctx).builder.frame().live);
        assert(ctx.builder.frame().live64 =~= old(ctx).builder.frame().live64);
        assert(ctx.builder.frame().ctrl =~= old(ctx).builder.frame().ctrl);
    }
}

/// The code that [`rmw32_reg_shift_reg`] appends.
pub open spec fn rmw32_reg_shift_reg_code(name: &'static str, r1: u32, r2: u32, imm: u32) -> Seq<Op> {
    seq![Op::GetReg32(r1), Op::GetReg32(r2), Op::ConstI32((imm & 31) as i32), Op::CallFn3Ret(name), Op::SetReg32(r1)]
}

/// `reg32[r1] = name(reg32[r1], reg32[r2], imm & 31)`.
pub fn rmw32_reg_shift_reg(ctx: &mut JitContext, name: &'static str, r1: u32, r2: u32, imm: u32)
    requires
        ready(old(ctx).builder, 16),
        r1 < 8,
        r2 < 8,
    ensures
        emits(*old(ctx), *final(ctx), rmw32_reg_shift_reg_code(name, r1, r2, imm), 0),
        restores_by(old(ctx).builder, final(ctx).builder, 0),
{
    ctx.builder.emit(Op::GetReg32(r1));
    ctx.builder.emit(Op::GetReg32(r2));
    ctx.builder.emit(Op::ConstI32((imm & 31) as i32));
    ctx.builder.emit(Op::CallFn3Ret(name));
    ctx.builder.emit(Op::SetReg32(r1));
    proof {
        assert(ctx.builder.code@ =~= old(ctx).builder.code@ + rmw32_reg_shift_reg_code(name, r1, r2, imm));
        assert(ctx.builder.frame().live =~= old(ctx).builder.frame().live);
        assert(ctx.builder.frame().live64 =~= old(ctx).builder.frame().live64);
        assert(ctx.builder.frame().ctrl =~= old(ctx).builder.frame().ctrl);
    }
}

/// The code that [`rmw32_unary_mem`] appends.
pub open spec fn rmw32_unary_mem_code(unary: Unary, modrm_byte: u8, n: u32) -> Seq<Op> {
    seq![Op::ModrmResolve(modrm_byte), Op::SetNewLocal(n), Op::SafeReadWriteBegin(BitSize::Dword, WasmLocal::Temp(n)), Op::SetNewLocal((n + 1) as u32)] + gen_unary_code(unary, WasmLocal::Temp((n + 1) as u32)) + seq![Op::GetLocal(WasmLocal::Temp((n + 1) as u32)), Op::FreeLocal((n + 1) as u32), Op::SafeReadWriteEnd, Op::FreeLocal(n)]
}

/// Replaces a 32-bit value in memory by the one-operand operation `unary` on it.
pub fn rmw32_unary_mem(ctx: &mut JitContext, unary: Unary, modrm_byte: u8)
    requires
        ready(old(ctx).builder, 16),
    ensures
        emits(*old(ctx), *final(ctx), rmw32_unary_mem_code(unary, modrm_byte, old(ctx).builder.next_local), 2),
        restores_by(old(ctx).builder, final(ctx).builder, 0),
{
    ctx.builder.emit(Op::ModrmResolve(modrm_byte));
    let addr = ctx.builder.set_new_local();
    ctx.builder.read_write_begin(BitSize::Dword, addr);
    let dest = ctx.builder.set_new_local();
    proof { assert(ctx.builder.code@ =~= old(ctx).builder.code@ + seq![Op::ModrmResolve(modrm_byte), Op::SetNewLocal(old(ctx).builder.next_local), Op::SafeReadWriteBegin(BitSize::Dword, WasmLocal::Temp(old(ctx).builder.next_local)), Op::SetNewLocal((old(ctx).builder.next_local + 1) as u32)]); }
    gen_unary(&mut ctx.builder, unary, &dest);
    proof { assert(ctx.builder.code@ =~= old(ctx).builder.code@ + seq![Op::ModrmResolve(modrm_byte), Op::SetNewLocal(old(ctx).builder.next_local), Op::SafeReadWriteBegin(BitSize::Dword, WasmLocal::Temp(old(ctx).builder.next_local)), Op::SetNewLocal((old(ctx).builder.next_local + 1) as u32)] + gen_unary_code(unary, WasmLocal::Temp((old(ctx).builder.next_local + 1) as u32))); }
    ctx.builder.emit(Op::GetLocal(dest));
    ctx.builder.free_local(dest);
    ctx.builder.read_write_end();
    ctx.builder.free_local(addr);
    proof {
        assert(ctx.builder.code@ =~= old(ctx).builder.code@ + rmw32_unary_mem_code(unary, modrm_byte, old(ctx).builder.next_local));
        assert(ctx.builder.frame().live =~= old(ctx).builder.frame().live);
        assert(ctx.builder.frame().live64 =~= old(ctx).builder.frame().live64);
        assert(ctx.builder.frame().ctrl =~= old(ctx).builder.frame().ctrl);
    }
}

/// The code that [`rmw32_unary_reg`] appends.
pub open spec fn rmw32_unary_reg_code(unary: Unary, r1: u32) -> Seq<Op> {
    gen_unary_code(unary, WasmLocal::Register(r1))
}

/// The one-operand operation `unary` on register `r1`.
pub fn rmw32_unary_reg(ctx: &mut JitContext, unary: Unary, r1: u32)
    requires
        ready(old(ctx).builder, 16),
        r1 < 8,
    ensures
        emits(*old(ctx), *final(ctx), rmw32_unary_reg_code(unary, r1), 0),
        restores_by(old(ctx).builder, final(ctx).builder, 0),
{
    gen_unary(&mut ctx.builder, unary, &WasmLocal::Register(r1));
    proof {
        assert(ctx.builder.code@ =~= old(ctx).builder.code@ + rmw32_unary_reg_code(unary, r1));
        assert(ctx.builder.frame().live =~= old(ctx).builder.frame().live);
        assert(ctx.builder.frame().live64 =~= old(ctx).builder.frame().live64);
        assert(ctx.builder.frame().ctrl =~= old(ctx).builder.frame().ctrl);
    }
}

/// The code that [`rmw32_alu_imm_mem`] appends.
pub open spec fn rmw32_alu_imm_mem_code(alu: Alu32, kind: ImmKind, modrm_byte: u8, n: u32) -> Seq<Op> {
    seq![Op::ModrmResolve(modrm_byte), Op::SetNewLocal(n), Op::ReadImm(kind), Op::SafeReadWriteBegin(BitSize::Dword, WasmLocal::Temp(n)), Op::SetNewLocal((n + 1) as u32)] + gen_alu32_code(alu, WasmLocal::Temp((n + 1) as u32), LocalOrImmedate::ReadImmediate) + seq![Op::GetLocal(WasmLocal::Temp((n + 1) as u32)), Op::FreeLocal((n + 1) as u32), Op::SafeReadWriteEnd, Op::FreeLocal(n)]
}

/// Replaces a 32-bit value in memory by the operation `alu` on it and the immediate that
/// follows the addressing bytes.
pub fn rmw32_alu_imm_mem(ctx: &mut JitContext, alu: Alu32, kind: ImmKind, modrm_byte: u8)
    requires
        ready(old(ctx).builder, 16),
    ensures
        emits(*old(ctx), *final(ctx), rmw32_alu_imm_mem_code(alu, kind, modrm_byte, old(ctx).builder.next_local), 2),
        restores_by(old(ctx).builder, final(ctx).builder, 0),
{
    ctx.builder.emit(Op::ModrmResolve(modrm_byte));
    let addr = ctx.builder.set_new_local();
    ctx.builder.emit(Op::ReadImm(kind));
    ctx.builder.read_write_begin(BitSize::Dword, addr);
    let dest = ctx.builder.set_new_local();
    proof { assert(ctx.builder.code@ =~= old(ctx).builder.code@ + seq![Op::ModrmResolve(modrm_byte), Op::SetNewLocal(old(ctx).builder.next_local), Op::ReadImm(kind), Op::SafeReadWriteBegin(BitSize::Dword, WasmLocal::Temp(old(ctx).builder.next_local)), Op::SetNewLocal((old(ctx).builder.next_local + 1) as u32)]); }
    gen_alu32(&mut ctx.builder, alu, &dest, &LocalOrImmedate::ReadImmediate);
    proof { assert(ctx.builder.code@ =~= old(ctx).builder.code@ + seq![Op::ModrmResolve(modrm_byte), Op::SetNewLocal(old(ctx).builder.next_local), Op::ReadImm(kind), Op::SafeReadWriteBegin(BitSize::Dword, WasmLocal::Temp(old(ctx).builder.next_local)), Op::SetNewLocal((old(ctx).builder.next_local + 1) as u32)] + gen_alu32_code(alu, WasmLocal::Temp((old(ctx).builder.next_local + 1) as u32), LocalOrImmedate::ReadImmediate)); }
    ctx.builder.emit(Op::GetLocal(dest));
    ctx.builder.free_local(dest);
    ctx.builder.read_write_end();
    ctx.builder.free_local(addr);
    proof {
        assert(ctx.builder.code@ =~= old(ctx).builder.code@ + rmw32_alu_imm_mem_code(alu, kind, modrm_byte, old(ctx).builder.next_local));
        assert(ctx.builder.frame().live =~= old(ctx).builder.frame().live);
        assert(ctx.builder.frame().live64 =~= old(ctx).builder.frame().live64);
        assert(ctx.builder.frame().ctrl =~= old(ctx).builder.frame().ctrl);
    }
}

/// The code that [`rmw32_alu_imm_reg`] appends.
pub open spec fn rmw32_alu_imm_reg_code(alu: Alu32, r1: u32, imm: u32) -> Seq<Op> {
    gen_alu32_code(alu, WasmLocal::Register(r1), LocalOrImmedate::Immediate(imm as i32))
}

/// The 32-bit operation `alu` on register `r1` and an immediate.
pub fn rmw32_alu_imm_reg(ctx: &mut JitContext, alu: Alu32, r1: u32, imm: u32)
    requires
        ready(old(ctx).builder, 16),
        r1 < 8,
    ensures
        emits(*old(ctx), *final(ctx), rmw32_alu_imm_reg_code(alu, r1, imm), 0),
        restores_by(old(ctx).builder, final(ctx).builder, 0),
{
    gen_alu32(&mut ctx.builder, alu, &WasmLocal::Register(r1), &LocalOrImmedate::Immediate(imm as i32));
    proof {
        assert(ctx.builder.code@ =~= old(ctx).builder.code@ + rmw32_alu_imm_reg_code(alu, r1, imm));
        assert(ctx.builder.frame().live =~= old(ctx).builder.frame().live);
        assert(ctx.builder.frame().live64 =~= old(ctx).builder.frame().live64);
        assert(ctx.builder.frame().ctrl =~= old(ctx).builder.frame().ctrl);
    }
}

/// The code that [`cmov16_mem`] appends.
pub open spec fn cmov16_mem_code(condition: u32, modrm_byte: u8, r: u32, n: u32) -> Seq<Op> {
    seq![Op::ModrmResolveSafeRead16(modrm_byte), Op::SetNewLocal(n), Op::ConditionFn(condition), Op::IfVoid, Op::GetLocal(WasmLocal::Temp(n)), Op::SetReg16(r), Op::BlockEnd, Op::FreeLocal(n)]
}

/// Loads a 16-bit value through the ModR/M byte into register `r` when `condition` holds.
pub fn cmov16_mem(ctx: &mut JitContext, condition: u32, modrm_byte: u8, r: u32)
    requires
        ready(old(ctx).builder, 16),
        r < 8,
    ensures
        emits(*old(ctx), *final(ctx), cmov16_mem_code(condition, modrm_byte, r, old(ctx).builder.next_local), 1),
        restores_by(old(ctx).builder, final(ctx).builder, 0),
{
    ctx.builder.emit(Op::ModrmResolveSafeRead16(modrm_byte));
    let value = ctx.builder.set_new_local();
    ctx.builder.emit(Op::ConditionFn(condition));
    ctx.builder.if_void();
    ctx.builder.emit(Op::GetLocal(value));
    ctx.builder.emit(Op::SetReg16(r));
    ctx.builder.block_end();
    ctx.builder.free_local(value);
    proof {
        assert(ctx.builder.code@ =~= old(ctx).builder.code@ + cmov16_mem_code(condition, modrm_byte, r, old(ctx).builder.next_local));
        assert(ctx.builder.frame().live =~= old(ctx).builder.frame().live);
        assert(ctx.builder.frame().live64 =~= old(ctx).builder.frame().live64);
        assert(ctx.builder.frame().ctrl =~= old(ctx).builder.frame().ctrl);
    }
}

/// The code that [`cmov16_reg`] appends.
pub open spec fn cmov16_reg_code(condition: u32, r1: u32, r2: u32) -> Seq<Op> {
    seq![Op::ConditionFn(condition), Op::IfVoid, Op::GetReg16(r1), Op::SetReg16(r2), Op::BlockEnd]
}

/// Copies register `r1` into register `r2` at 16 bits when `condition` holds.
pub fn cmov16_reg(ctx: &mut JitContext, condition: u32, r1: u32, r2: u32)
    requires
        ready(old(ctx).builder, 16),
        r1 < 8,
        r2 < 8,
    ensures
        emits(*old(ctx), *final(ctx), cmov16_reg_code(condition, r1, r2), 0),
        restores_by(old(ctx).builder, final(ctx).builder, 0),
{
    ctx.builder.emit(Op::ConditionFn(condition));
    ctx.builder.if_void();
    ctx.builder.emit(Op::GetReg16(r1));
    ctx.builder.emit(Op::SetReg16(r2));
    ctx.builder.block_end();
    proof {
        assert(ctx.builder.code@ =~= old(ctx).builder.code@ + cmov16_reg_code(condition, r1, r2));
        assert(ctx.builder.frame().live =~= old(ctx).builder.frame().live);
        assert(ctx.builder.frame().live64 =~= old(ctx).builder.frame().live64);
        assert(ctx.builder.frame().ctrl =~= old(ctx).builder.frame().ctrl);
    }
}

/// The code that [`cmov32_mem`] appends.
pub open spec fn cmov32_mem_code(condition: u32, modrm_byte: u8, r: u32, n: u32) -> Seq<Op> {
    seq![Op::ModrmResolveSafeRead32(modrm_byte), Op::SetNewLocal(n), Op::ConditionFn(condition), Op::IfVoid, Op::GetLocal(WasmLocal::Temp(n)), Op::SetReg32(r), Op::BlockEnd, Op::FreeLocal(n)]
}

/// Loads a 32-bit value through the ModR/M byte into register `r` when `condition` holds.
pub fn cmov32_mem(ctx: &mut JitContext, condition: u32, modrm_byte: u8, r: u32)
    requires
        ready(old(ctx).builder, 16),
        r < 8,
    ensures
        emits(*old(ctx), *final(ctx), cmov32_mem_code(condition, modrm_byte, r, old(ctx).builder.next_local), 1),
        restores_by(old(ctx).builder, final(ctx).builder, 0),
{
    ctx.builder.emit(Op::ModrmResolveSafeRead32(modrm_byte));
    let value = ctx.builder.set_new_local();
    ctx.builder.emit(Op::ConditionFn(condition));
    ctx.builder.if_void();
    ctx.builder.emit(Op::GetLocal(value));
    ctx.builder.emit(Op::SetReg32(r));
    ctx.builder.block_end();
    ctx.builder.free_local(value);
    proof {
        assert(ctx.builder.code@ =~= old(ctx).builder.code@ + cmov32_mem_code(condition, modrm_byte, r, old(ctx).builder.next_local));
        assert(ctx.builder.frame().live =~= old(ctx).builder.frame().live);
        assert(ctx.builder.frame().live64 =~= old(ctx).builder.frame().live64);
        assert(ctx.builder.frame().ctrl =~= old(ctx).builder.frame().ctrl);
    }
}

/// The code that [`cmov32_reg`] appends.
pub open spec fn cmov32_reg_code(condition: u32, r1: u32, r2: u32) -> Seq<Op> {
    seq![Op::ConditionFn(condition), Op::IfVoid, Op::GetReg32(r1), Op::SetReg32(r2), Op::BlockEnd]
}

/// Copies register `r1` into register `r2` at 32 bits when `condition` holds.
pub fn cmov32_reg(ctx: &mut JitContext, condition: u32, r1: u32, r2: u32)
    requires
        ready(old(ctx).builder, 16),
        r1 < 8,
        r2 < 8,
    ensures
        emits(*old(ctx), *final(ctx), cmov32_reg_code(condition, r1, r2), 0),
        restores_by(old(ctx).builder, final(ctx).builder, 0),
{
    ctx.builder.emit(Op::ConditionFn(condition));
    ctx.builder.if_void();
    ctx.builder.emit(Op::GetReg32(r1));
    ctx.builder.emit(Op::SetReg32(r2));
    ctx.builder.block_end();
    proof {
        assert(ctx.builder.code@ =~= old(ctx).builder.code@ + cmov32_reg_code(condition, r1, r2));
        assert(ctx.builder.frame().live =~= old(ctx).builder.frame().live);
        assert(ctx.builder.frame().live64 =~= old(ctx).builder.frame().live64);
        assert(ctx.builder.frame().ctrl =~= old(ctx).builder.frame().ctrl);
    }
}

/// The code that [`setcc_mem`] appends.
pub open spec fn setcc_mem_code(condition: u32, modrm_byte: u8, n: u32) -> Seq<Op> {
    seq![Op::ModrmResolve(modrm_byte), Op::SetNewLocal(n), Op::ConditionFn(condition), Op::ConstI32(0), Op::NeI32, Op::SetNewLocal((n + 1) as u32), Op::SafeWrite8(WasmLocal::Temp(n), WasmLocal::Temp((n + 1) as u32)), Op::FreeLocal(n), Op::FreeLocal((n + 1) as u32)]
}

/// Writes one to the byte addressed by the ModR/M byte when `condition` holds, else zero.
pub fn setcc_mem(ctx: &mut JitContext, condition: u32, modrm_byte: u8)
    requires
        ready(old(ctx).builder, 16),
    ensures
        emits(*old(ctx), *final(ctx), setcc_mem_code(condition, modrm_byte, old(ctx).builder.next_local), 2),
        restores_by(old(ctx).builder, final(ctx).builder, 0),
{
    ctx.builder.emit(Op::ModrmResolve(modrm_byte));
    let addr = ctx.builder.set_new_local();
    ctx.builder.emit(Op::ConditionFn(condition));
    ctx.builder.emit(Op::ConstI32(0));
    ctx.builder.emit(Op::NeI32);
    let value = ctx.builder.set_new_local();
    ctx.builder.emit(Op::SafeWrite8(addr, value));
    ctx.builder.free_local(addr);
    ctx.builder.free_local(value);
    proof {
        assert(ctx.builder.code@ =~= old(ctx).builder.code@ + setcc_mem_code(condition, modrm_byte, old(ctx).builder.next_local));
        assert(ctx.builder.frame().live =~= old(ctx).builder.frame().live);
        assert(ctx.builder.frame().live64 =~= old(ctx).builder.frame().live64);
        assert(ctx.builder.frame().ctrl =~= old(ctx).builder.frame().ctrl);
    }
}

/// The code that [`setcc_reg`] appends.
pub open spec fn setcc_reg_code(condition: u32, r1: u32) -> Seq<Op> {
    seq![Op::ConditionFn(condition), Op::ConstI32(0), Op::NeI32, Op::SetReg8(r1)]
}

/// Sets the 8-bit register `r1` to one when `condition` holds, else zero.
pub fn setcc_reg(ctx: &mut JitContext, condition: u32, r1: u32)
    requires
        ready(old(ctx).builder, 16),
        r1 < 8,
    ensures
        emits(*old(ctx), *final(ctx), setcc_reg_code(condition, r1), 0),
        restores_by(old(ctx).builder, final(ctx).builder, 0),
{
    ctx.builder.emit(Op::ConditionFn(condition));
    ctx.builder.emit(Op::ConstI32(0));
    ctx.builder.emit(Op::NeI32);
    ctx.builder.emit(Op::SetReg8(r1));
    proof {
        assert(ctx.builder.code@ =~= old(ctx).builder.code@ + setcc_reg_code(condition, r1));
        assert(ctx.builder.frame().live =~= old(ctx).builder.frame().live);
        assert(ctx.builder.frame().live64 =~= old(ctx).builder.frame().live64);
        assert(ctx.builder.frame().ctrl =~= old(ctx).builder.frame().ctrl);
    }
}

/// The code that [`push16_reg_jit`] appends.
pub open spec fn push16_reg_jit_code(r: u32, n: u32) -> Seq<Op> {
    seq![Op::GetReg16(r), Op::SetNewLocal(n), Op::Push16(WasmLocal::Temp(n)), Op::FreeLocal(n)]
}

/// Pushes the 16-bit register `r`.
pub(crate) fn push16_reg_jit(ctx: &mut JitContext, r: u32)
    requires
        ready(old(ctx).builder, 16),
        r < 8,
    ensures
        emits(*old(ctx), *final(ctx), push16_reg_jit_code(r, old(ctx).builder.next_local), 1),
        restores_by(old(ctx).builder, final(ctx).builder, 0),
{
    ctx.builder.emit(Op::GetReg16(r));
    let value = ctx.builder.set_new_local();
    ctx.builder.emit(Op::Push16(value));
    ctx.builder.free_local(value);
    proof {
        assert(ctx.builder.code@ =~= old(ctx).builder.code@ + push16_reg_jit_code(r, old(ctx).builder.next_local));
        assert(ctx.builder.frame().live =~= old(ctx).builder.frame().live);
        assert(ctx.builder.frame().live64 =~= old(ctx).builder.frame().live64);
        assert(ctx.builder.frame().ctrl =~= old(ctx).builder.frame().ctrl);
    }
}

/// The code that [`push32_reg_jit`] appends.
pub open spec fn push32_reg_jit_code(r: u32) -> Seq<Op> {
    seq![Op::Push32(WasmLocal::Register(r))]
}

/// Pushes the 32-bit register `r`.
pub(crate) fn push32_reg_jit(ctx: &mut JitContext, r: u32)
    requires
        ready(old(ctx).builder, 16),
        r < 8,
    ensures
        emits(*old(ctx), *final(ctx), push32_reg_jit_code(r), 0),
        restores_by(old(ctx).builder, final(ctx).builder, 0),
{
    ctx.builder.emit(Op::Push32(WasmLocal::Register(r)));
    proof {
        assert(ctx.builder.code@ =~= old(ctx).builder.code@ + push32_reg_jit_code(r));
        assert(ctx.builder.frame().live =~= old(ctx).builder.frame().live);
        assert(ctx.builder.frame().live64 =~= old(ctx).builder.frame().live64);
        assert(ctx.builder.frame().ctrl =~= old(ctx).builder.frame().ctrl);
    }
}

/// The code that [`push16_imm_jit`] appends.
pub open spec fn push16_imm_jit_code(imm: u32, n: u32) -> Seq<Op> {
    seq![Op::ConstI32(imm as i32), Op::SetNewLocal(n), Op::Push16(WasmLocal::Temp(n)), Op::FreeLocal(n)]
}

/// Pushes a 16-bit immediate.
pub(crate) fn push16_imm_jit(ctx: &mut JitContext, imm: u32)
    requires
        ready(old(ctx).builder, 16),
    ensures
        emits(*old(ctx), *final(ctx), push16_imm_jit_code(imm, old(ctx).builder.next_local), 1),
        restores_by(old(ctx).builder, final(ctx).builder, 0),
{
    ctx.builder.emit(Op::ConstI32(imm as i32));
    let value = ctx.builder.set_new_local();
    ctx.builder.emit(Op::Push16(value));
    ctx.builder.free_local(value);
    proof {
        assert(ctx.builder.code@ =~= old(ctx).builder.code@ + push16_imm_jit_code(imm, old(ctx).builder.next_local));
        assert(ctx.builder.frame().live =~= old(ctx).builder.frame().live);
        assert(ctx.builder.frame().live64 =~= old(ctx).builder.frame().live64);
        assert(ctx.builder.frame().ctrl =~= old(ctx).builder.frame().ctrl);
    }
}

/// The code that [`push32_imm_jit`] appends.
pub open spec fn push32_imm_jit_code(imm: u32, n: u32) -> Seq<Op> {
    seq![Op::ConstI32(imm as i32), Op::SetNewLocal(n), Op::Push32(WasmLocal::Temp(n)), Op::FreeLocal(n)]
}

/// Pushes a 32-bit immediate.
pub(crate) fn push32_imm_jit(ctx: &mut JitContext, imm: u32)
    requires
        ready(old(ctx).builder, 16),
    ensures
        emits(*old(ctx), *final(ctx), push32_imm_jit_code(imm, old(ctx).builder.next_local), 1),
        restores_by(old(ctx).builder, final(ctx).builder, 0),
{
    ctx.builder.emit(Op::ConstI32(imm as i32));
    let value = ctx.builder.set_new_local();
    ctx.builder.emit(Op::Push32(value));
    ctx.builder.free_local(value);
    proof {
        assert(ctx.builder.code@ =~= old(ctx).builder.code@ + push32_imm_jit_code(imm, old(ctx).builder.next_local));
        assert(ctx.builder.frame().live =~= old(ctx).builder.frame().live);
        assert(ctx.builder.frame().live64 =~= old(ctx).builder.frame().live64);
        assert(ctx.builder.frame().ctrl =~= old(ctx).builder.frame().ctrl);
    }
}

/// The code that [`push16_mem_jit`] appends.
pub open spec fn push16_mem_jit_code(modrm_byte: u8, n: u32) -> Seq<Op> {
    seq![Op::ModrmResolveSafeRead16(modrm_byte), Op::SetNewLocal(n), Op::Push16(WasmLocal::Temp(n)), Op::FreeLocal(n)]
}

/// Pushes a 16-bit value read through the ModR/M byte.
pub(crate) fn push16_mem_jit(ctx: &mut JitContext, modrm_byte: u8)
    requires
        ready(old(ctx).builder, 16),
    ensures
        emits(*old(ctx), *final(ctx), push16_mem_jit_code(modrm_byte, old(ctx).builder.next_local), 1),
        restores_by(old(ctx).builder, final(ctx).builder, 0),
{
    ctx.builder.emit(Op::ModrmResolveSafeRead16(modrm_byte));
    let value = ctx.builder.set_new_local();
    ctx.builder.emit(Op::Push16(value));
    ctx.builder.free_local(value);
    proof {
        assert(ctx.builder.code@ =~= old(ctx).builder.code@ + push16_mem_jit_code(modrm_byte, old(ctx).builder.next_local));
        assert(ctx.builder.frame().live =~= old(ctx).builder.frame().live);
        assert(ctx.builder.frame().live64 =~= old(ctx).builder.frame().live64);
        assert(ctx.builder.frame().ctrl =~= old(ctx).builder.frame().ctrl);
    }
}

/// The code that [`push32_mem_jit`] appends.
pub open spec fn push32_mem_jit_code(modrm_byte: u8, n: u32) -> Seq<Op> {
    seq![Op::ModrmResolveSafeRead32(modrm_byte), Op::SetNewLocal(n), Op::Push32(WasmLocal::Temp(n)), Op::FreeLocal(n)]
}

/// Pushes a 32-bit value read through the ModR/M byte.
pub(crate) fn push32_mem_jit(ctx: &mut JitContext, modrm_byte: u8)
    requires
        ready(old(ctx).builder, 16),
    ensures
        emits(*old(ctx), *final(ctx), push32_mem_jit_code(modrm_byte, old(ctx).builder.next_local), 1),
        restores_by(old(ctx).builder, final(ctx).builder, 0),
{
    ctx.builder.emit(Op::ModrmResolveSafeRead32(modrm_byte));
    let value = ctx.builder.set_new_local();
    ctx.builder.emit(Op::Push32(value));
    ctx.builder.free_local(value);
    proof {
        assert(ctx.builder.code@ =~= old(ctx).builder.code@ + push32_mem_jit_code(modrm_byte, old(ctx).builder.next_local));
        assert(ctx.builder.frame().live =~= old(ctx).builder.frame().live);
        assert(ctx.builder.frame().live64 =~= old(ctx).builder.frame().live64);
        assert(ctx.builder.frame().ctrl =~= old(ctx).builder.frame().ctrl);
    }
}

/// The code that [`pop16_reg_jit`] appends.
pub open spec fn pop16_reg_jit_code(reg: u32) -> Seq<Op> {
    seq![Op::Pop16, Op::SetReg16(reg)]
}

/// Pops 16 bits into register `reg`.
pub(crate) fn pop16_reg_jit(ctx: &mut JitContext, reg: u32)
    requires
        ready(old(ctx).builder, 16),
        reg < 8,
    ensures
        emits(*old(ctx), *final(ctx), pop16_reg_jit_code(reg), 0),
        restores_by(old(ctx).builder, final(ctx).builder, 0),
{
    ctx.builder.emit(Op::Pop16);
    ctx.builder.emit(Op::SetReg16(reg));
    proof {
        assert(ctx.builder.code@ =~= old(ctx).builder.code@ + pop16_reg_jit_code(reg));
        assert(ctx.builder.frame().live =~= old(ctx).builder.frame().live);
        assert(ctx.builder.frame().live64 =~= old(ctx).builder.frame().live64);
        assert(ctx.builder.frame().ctrl =~= old(ctx).builder.frame().ctrl);
    }
}

/// The code that [`pop32_reg_jit`] appends.
pub open spec fn pop32_reg_jit_code(reg: u32) -> Seq<Op> {
    seq![Op::Pop32s, Op::SetReg32(reg)]
}

/// Pops 32 bits into register `reg`.
pub(crate) fn pop32_reg_jit(ctx: &mut JitContext, reg: u32)
    requires
        ready(old(ctx).builder, 16),
        reg < 8,
    ensures
        emits(*old(ctx), *final(ctx), pop32_reg_jit_code(reg), 0),
        restores_by(old(ctx).builder, final(ctx).builder, 0),
{
    ctx.builder.emit(Op::Pop32s);
    ctx.builder.emit(Op::SetReg32(reg));
    proof {
        assert(ctx.builder.code@ =~= old(ctx).builder.code@ + pop32_reg_jit_code(reg));
        assert(ctx.builder.frame().live =~= old(ctx).builder.frame().live);
        assert(ctx.builder.frame().live64 =~= old(ctx).builder.frame().live64);
        assert(ctx.builder.frame().ctrl =~= old(ctx).builder.frame().ctrl);
    }
}

/// The code that [`group_arith_al_imm8`] appends.
pub open spec fn group_arith_al_imm8_code(name: &'static str, imm8: u32) -> Seq<Op> {
    seq![Op::GetReg8(AL), Op::ConstI32(imm8 as i32), Op::CallFn2Ret(name), Op::SetReg8(AL)]
}

/// `AL = name(AL, imm8)`.
pub(crate) fn group_arith_al_imm8(ctx: &mut JitContext, name: &'static str, imm8: u32)
    requires
        ready(old(ctx).builder, 16),
    ensures
        emits(*old(ctx), *final(ctx), group_arith_al_imm8_code(name, imm8), 0),
        restores_by(old(ctx).builder, final(ctx).builder, 0),
{
    ctx.builder.emit(Op::GetReg8(AL));
    ctx.builder.emit(Op::ConstI32(imm8 as i32));
    ctx.builder.emit(Op::CallFn2Ret(name));
    ctx.builder.emit(Op::SetReg8(AL));
    proof {
        assert(ctx.builder.code@ =~= old(ctx).builder.code@ + group_arith_al_imm8_code(name, imm8));
        assert(ctx.builder.frame().live =~= old(ctx).builder.frame().live);
        assert(ctx.builder.frame().live64 =~= old(ctx).builder.frame().live64);
        assert(ctx.builder.frame().ctrl =~= old(ctx).builder.frame().ctrl);
    }
}

/// The code that [`group_arith_ax_imm16`] appends.
pub open spec fn group_arith_ax_imm16_code(name: &'static str, imm16: u32) -> Seq<Op> {
    seq![Op::GetReg16(AX), Op::ConstI32(imm16 as i32), Op::CallFn2Ret(name), Op::SetReg16(AX)]
}

/// `AX = name(AX, imm16)`.
pub(crate) fn group_arith_ax_imm16(ctx: &mut JitContext, name: &'static str, imm16: u32)
    requires
        ready(old(ctx).builder, 16),
    ensures
        emits(*old(ctx), *final(ctx), group_arith_ax_imm16_code(name, imm16), 0),
        restores_by(old(ctx).builder, final(ctx).builder, 0),
{
    ctx.builder.emit(Op::GetReg16(AX));
    ctx.builder.emit(Op::ConstI32(imm16 as i32));
    ctx.builder.emit(Op::CallFn2Ret(name));
    ctx.builder.emit(Op::SetReg16(AX));
    proof {
        assert(ctx.builder.code@ =~= old(ctx).builder.code@ + group_arith_ax_imm16_code(name, imm16));
        assert(ctx.builder.frame().live =~= old(ctx).builder.frame().live);
        assert(ctx.builder.frame().live64 =~= old(ctx).builder.frame().live64);
        assert(ctx.builder.frame().ctrl =~= old(ctx).builder.frame().ctrl);
    }
}

/// The code that [`group_arith_eax_imm32`] appends.
pub open spec fn group_arith_eax_imm32_code(alu: Alu32, imm32: u32) -> Seq<Op> {
    gen_alu32_code(alu, WasmLocal::Register(EAX), LocalOrImmedate::Immediate(imm32 as i32))
}

/// The 32-bit operation `alu` on EAX and an immediate.
pub(crate) fn group_arith_eax_imm32(ctx: &mut JitContext, alu: Alu32, imm32: u32)
    requires
        ready(old(ctx).builder, 16),
    ensures
        emits(*old(ctx), *final(ctx), group_arith_eax_imm32_code(alu, imm32), 0),
        restores_by(old(ctx).builder, final(ctx).builder, 0),
{
    gen_alu32(&mut ctx.builder, alu, &WasmLocal::Register(EAX), &LocalOrImmedate::Immediate(imm32 as i32));
    proof {
        assert(ctx.builder.code@ =~= old(ctx).builder.code@ + group_arith_eax_imm32_code(alu, imm32));
        assert(ctx.builder.frame().live =~= old(ctx).builder.frame().live);
        assert(ctx.builder.frame().live64 =~= old(ctx).builder.frame().live64);
        assert(ctx.builder.frame().ctrl =~= old(ctx).builder.frame().ctrl);
    }
}

/// The code that [`gen_xchg_reg16`] appends.
pub open spec fn gen_xchg_reg16_code(r: u32, n: u32) -> Seq<Op> {
    seq![Op::GetReg16(r), Op::SetNewLocal(n), Op::GetReg16(AX), Op::SetReg16(r), Op::GetLocal(WasmLocal::Temp(n)), Op::SetReg16(AX), Op::FreeLocal(n)]
}

/// Exchanges register `r` with AX.
pub(crate) fn gen_xchg_reg16(ctx: &mut JitContext, r: u32)
    requires
        ready(old(ctx).builder, 16),
        r < 8,
    ensures
        emits(*old(ctx), *final(ctx), gen_xchg_reg16_code(r, old(ctx).builder.next_local), 1),
        restores_by(old(ctx).builder, final(ctx).builder, 0),
{
    ctx.builder.emit(Op::GetReg16(r));
    let tmp = ctx.builder.set_new_local();
    ctx.builder.emit(Op::GetReg16(AX));
    ctx.builder.emit(Op::SetReg16(r));
    ctx.builder.emit(Op::GetLocal(tmp));
    ctx.builder.emit(Op::SetReg16(AX));
    ctx.builder.free_local(tmp);
    proof {
        assert(ctx.builder.code@ =~= old(ctx).builder.code@ + gen_xchg_reg16_code(r, old(ctx).builder.next_local));
        assert(ctx.builder.frame().live =~= old(ctx).builder.frame().live);
        assert(ctx.builder.frame().live64 =~= old(ctx).builder.frame().live64);
        assert(ctx.builder.frame().ctrl =~= old(ctx).builder.frame().ctrl);
    }
}

/// The code that [`gen_xchg_reg32`] appends.
pub open spec fn gen_xchg_reg32_code(r: u32, n: u32) -> Seq<Op> {
    seq![Op::GetReg32(r), Op::SetNewLocal(n), Op::GetReg32(EAX), Op::SetReg32(r), Op::GetLocal(WasmLocal::Temp(n)), Op::SetReg32(EAX), Op::FreeLocal(n)]
}

/// Exchanges register `r` with EAX.
pub(crate) fn gen_xchg_reg32(ctx: &mut JitContext, r: u32)
    requires
        ready(old(ctx).builder, 16),
        r < 8,
    ensures
        emits(*old(ctx), *final(ctx), gen_xchg_reg32_code(r, old(ctx).builder.next_local), 1),
        restores_by(old(ctx).builder, final(ctx).builder, 0),
{
    ctx.builder.emit(Op::GetReg32(r));
    let tmp = ctx.builder.set_new_local();
    ctx.builder.emit(Op::GetReg32(EAX));
    ctx.builder.emit(Op::SetReg32(r));
    ctx.builder.emit(Op::GetLocal(tmp));
    ctx.builder.emit(Op::SetReg32(EAX));
    ctx.builder.free_local(tmp);
    proof {
        assert(ctx.builder.code@ =~= old(ctx).builder.code@ + gen_xchg_reg32_code(r, old(ctx).builder.next_local));
        assert(ctx.builder.frame().live =~= old(ctx).builder.frame().live);
        assert(ctx.builder.frame().live64 =~= old(ctx).builder.frame().live64);
        assert(ctx.builder.frame().ctrl =~= old(ctx).builder.frame().ctrl);
    }
}

/// The code that [`gen_inc16_r`] appends.
pub open spec fn gen_inc16_r_code(r: u32) -> Seq<Op> {
    gen_unary_code(Unary::Inc16, WasmLocal::Register(r))
}

/// Increments register `r` at 16 bits.
pub(crate) fn gen_inc16_r(ctx: &mut JitContext, r: u32)
    requires
        ready(old(ctx).builder, 16),
        r < 8,
    ensures
        emits(*old(ctx), *final(ctx), gen_inc16_r_code(r), 0),
        restores_by(old(ctx).builder, final(ctx).builder, 0),
{
    gen_unary(&mut ctx.builder, Unary::Inc16, &WasmLocal::Register(r));
    proof {
        assert(ctx.builder.code@ =~= old(ctx).builder.code@ + gen_inc16_r_code(r));
        assert(ctx.builder.frame().live =~= old(ctx).builder.frame().live);
        assert(ctx.builder.frame().live64 =~= old(ctx).builder.frame().live64);
        assert(ctx.builder.frame().ctrl =~= old(ctx).builder.frame().ctrl);
    }
}

/// The code that [`gen_dec16_r`] appends.
pub open spec fn gen_dec16_r_code(r: u32) -> Seq<Op> {
    gen_unary_code(Unary::Dec16, WasmLocal::Register(r))
}

/// Decrements register `r` at 16 bits.
pub(crate) fn gen_dec16_r(ctx: &mut JitContext, r: u32)
    requires
        ready(old(ctx).builder, 16),
        r < 8,
    ensures
        emits(*old(ctx), *final(ctx), gen_dec16_r_code(r), 0),
        restores_by(old(ctx).builder, final(ctx).builder, 0),
{
    gen_unary(&mut ctx.builder, Unary::Dec16, &WasmLocal::Register(r));
    proof {
        assert(ctx.builder.code@ =~= old(ctx).builder.code@ + gen_dec16_r_code(r));
        assert(ctx.builder.frame().live =~= old(ctx).builder.frame().live);
        assert(ctx.builder.frame().live64 =~= old(ctx).builder.frame().live64);
        assert(ctx.builder.frame().ctrl =~= old(ctx).builder.frame().ctrl);
    }
}

/// The code that [`gen_inc32_r`] appends.
pub open spec fn gen_inc32_r_code(r: u32) -> Seq<Op> {
    gen_unary_code(Unary::Inc32, WasmLocal::Register(r))
}

/// Increments register `r` at 32 bits.
pub(crate) fn gen_inc32_r(ctx: &mut JitContext, r: u32)
    requires
        ready(old(ctx).builder, 16),
        r < 8,
    ensures
        emits(*old(ctx), *final(ctx), gen_inc32_r_code(r), 0),
        restores_by(old(ctx).builder, final(ctx).builder, 0),
{
    gen_unary(&mut ctx.builder, Unary::Inc32, &WasmLocal::Register(r));
    proof {
        assert(ctx.builder.code@ =~= old(ctx).builder.code@ + gen_inc32_r_code(r));
        assert(ctx.builder.frame().live =~= old(ctx).builder.frame().live);
        assert(ctx.builder.frame().live64 =~= old(ctx).builder.frame().live64);
        assert(ctx.builder.frame().ctrl =~= old(ctx).builder.frame().ctrl);
    }
}

/// The code that [`gen_dec32_r`] appends.
pub open spec fn gen_dec32_r_code(r: u32) -> Seq<Op> {
    gen_unary_code(Unary::Dec32, WasmLocal::Register(r))
}

/// Decrements register `r` at 32 bits.
pub(crate) fn gen_dec32_r(ctx: &mut JitContext, r: u32)
    requires
        ready(old(ctx).builder, 16),
        r < 8,
    ensures
        emits(*old(ctx), *final(ctx), gen_dec32_r_code(r), 0),
        restores_by(old(ctx).builder, final(ctx).builder, 0),
{
    gen_unary(&mut ctx.builder, Unary::Dec32, &WasmLocal::Register(r));
    proof {
        assert(ctx.builder.code@ =~= old(ctx).builder.code@ + gen_dec32_r_code(r));
        assert(ctx.builder.frame().live =~= old(ctx).builder.frame().live);
        assert(ctx.builder.frame().live64 =~= old(ctx).builder.frame().live64);
        assert(ctx.builder.frame().ctrl =~= old(ctx).builder.frame().ctrl);
    }
}

/// The code that [`gen_mov_reg8_imm`] appends.
pub open spec fn gen_mov_reg8_imm_code(r: u32, imm: u32) -> Seq<Op> {
    seq![Op::ConstI32(imm as i32), Op::SetReg8(r)]
}

/// Stores an immediate into the 8-bit register `r`.
pub fn gen_mov_reg8_imm(ctx: &mut JitContext, r: u32, imm: u32)
    requires
        ready(old(ctx).builder, 16),
        r < 8,
    ensures
        emits(*old(ctx), *final(ctx), gen_mov_reg8_imm_code(r, imm), 0),
        restores_by(old(ctx).builder, final(ctx).builder, 0),
{
    ctx.builder.emit(Op::ConstI32(imm as i32));
    ctx.builder.emit(Op::SetReg8(r));
    proof {
        assert(ctx.builder.code@ =~= old(ctx).builder.code@ + gen_mov_reg8_imm_code(r, imm));
        assert(ctx.builder.frame().live =~= old(ctx).builder.frame().live);
        assert(ctx.builder.frame().live64 =~= old(ctx).builder.frame().live64);
        assert(ctx.builder.frame().ctrl =~= old(ctx).builder.frame().ctrl);
    }
}

/// The code that [`gen_mov_reg16_imm`] appends.
pub open spec fn gen_mov_reg16_imm_code(r: u32, imm: u32) -> Seq<Op> {
    seq![Op::ConstI32(imm as i32), Op::SetReg16(r)]
}

/// Stores an immediate into the 16-bit register `r`.
pub fn gen_mov_reg16_imm(ctx: &mut JitContext, r: u32, imm: u32)
    requires
        ready(old(ctx).builder, 16),
        r < 8,
    ensures
        emits(*old(ctx), *final(ctx), gen_mov_reg16_imm_code(r, imm), 0),
        restores_by(old(ctx).builder, final(ctx).builder, 0),
{
    ctx.builder.emit(Op::ConstI32(imm as i32));
    ctx.builder.emit(Op::SetReg16(r));
    proof {
        assert(ctx.builder.code@ =~= old(ctx).builder.code@ + gen_mov_reg16_imm_code(r, imm));
        assert(ctx.builder.frame().live =~= old(ctx).builder.frame().live);
        assert(ctx.builder.frame().live64 =~= old(ctx).builder.frame().live64);
        assert(ctx.builder.frame().ctrl =~= old(ctx).builder.frame().ctrl);
    }
}

/// The code that [`gen_mov_reg32_imm`] appends.
pub open spec fn gen_mov_reg32_imm_code(r: u32, imm: u32) -> Seq<Op> {
    seq![Op::ConstI32(imm as i32), Op::SetReg32(r)]
}

/// Stores an immediate into the 32-bit register `r`.
pub fn gen_mov_reg32_imm(ctx: &mut JitContext, r: u32, imm: u32)
    requires
        ready(old(ctx).builder, 16),
        r < 8,
    ensures
        emits(*old(ctx), *final(ctx), gen_mov_reg32_imm_code(r, imm), 0),
        restores_by(old(ctx).builder, final(ctx).builder, 0),
{
    ctx.builder.emit(Op::ConstI32(imm as i32));
    ctx.builder.emit(Op::SetReg32(r));
    proof {
        assert(ctx.builder.code@ =~= old(ctx).builder.code@ + gen_mov_reg32_imm_code(r, imm));
        assert(ctx.builder.frame().live =~= old(ctx).builder.frame().live);
        assert(ctx.builder.frame().live64 =~= old(ctx).builder.frame().live64);
        assert(ctx.builder.frame().ctrl =~= old(ctx).builder.frame().ctrl);
    }
}

/// The code that [`sse_read128_xmm_mem`] appends.
pub open spec fn sse_read128_xmm_mem_code(name: &'static str, modrm_byte: u8, r: u32) -> Seq<Op> {
    seq![Op::ModrmResolveSafeRead128(modrm_byte, GlobalPointer::SseScratchRegister), Op::ConstGlobal(GlobalPointer::SseScratchRegister), Op::ConstI32(r as i32), Op::CallFn2(name)]
}

/// Reads 128 bits through the ModR/M byte into the scratch register and calls
/// `name(scratch, r)`.
pub fn sse_read128_xmm_mem(ctx: &mut JitContext, name: &'static str, modrm_byte: u8, r: u32)
    requires
        ready(old(ctx).builder, 16),
    ensures
        emits(*old(ctx), *final(ctx), sse_read128_xmm_mem_code(name, modrm_byte, r), 0),
        restores_by(old(ctx).builder, final(ctx).builder, 0),
{
    ctx.builder.emit(Op::ModrmResolveSafeRead128(modrm_byte, GlobalPointer::SseScratchRegister));
    ctx.builder.emit(Op::ConstGlobal(GlobalPointer::SseScratchRegister));
    ctx.builder.emit(Op::ConstI32(r as i32));
    ctx.builder.emit(Op::CallFn2(name));
    proof {
        assert(ctx.builder.code@ =~= old(ctx).builder.code@ + sse_read128_xmm_mem_code(name, modrm_byte, r));
        assert(ctx.builder.frame().live =~= old(ctx).builder.frame().live);
        assert(ctx.builder.frame().live64 =~= old(ctx).builder.frame().live64);
        assert(ctx.builder.frame().ctrl =~= old(ctx).builder.frame().ctrl);
    }
}

/// The code that [`sse_read128_xmm_xmm`] appends.
pub open spec fn sse_read128_xmm_xmm_code(name: &'static str, r1: u32, r2: u32) -> Seq<Op> {
    seq![Op::ConstGlobal(GlobalPointer::XmmLow(r1)), Op::ConstI32(r2 as i32), Op::CallFn2(name)]
}

/// Calls `name(xmm[r1], r2)`.
pub fn sse_read128_xmm_xmm(ctx: &mut JitContext, name: &'static str, r1: u32, r2: u32)
    requires
        ready(old(ctx).builder, 16),
    ensures
        emits(*old(ctx), *final(ctx), sse_read128_xmm_xmm_code(name, r1, r2), 0),
        restores_by(old(ctx).builder, final(ctx).builder, 0),
{
    ctx.builder.emit(Op::ConstGlobal(GlobalPointer::XmmLow(r1)));
    ctx.builder.emit(Op::ConstI32(r2 as i32));
    ctx.builder.emit(Op::CallFn2(name));
    proof {
        assert(ctx.builder.code@ =~= old(ctx).builder.code@ + sse_read128_xmm_xmm_code(name, r1, r2));
        assert(ctx.builder.frame().live =~= old(ctx).builder.frame().live);
        assert(ctx.builder.frame().live64 =~= old(ctx).builder.frame().live64);
        assert(ctx.builder.frame().ctrl =~= old(ctx).builder.frame().ctrl);
    }
}

} // verus!
