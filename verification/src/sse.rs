//! SSE and MMX opcodes.

use vstd::prelude::*;
use crate::op::{Op, WasmLocal, GlobalPointer, ImmKind};
use crate::consts::{EDI, DI, DS};
use crate::builder::{JitContext, ready, emits, restores_by, balanced_by};
use crate::templates::{sse_read128_xmm_mem, sse_read128_xmm_mem_code, sse_read128_xmm_xmm, sse_read128_xmm_xmm_code};

verus! {

/// The code that [`instr_0F29_mem_jit`] appends.
pub open spec fn instr_0F29_mem_jit_code(modrm_byte: u8, r: u32, n: u32) -> Seq<Op> {
    seq![Op::ModrmResolve(modrm_byte), Op::SetNewLocal(n), Op::GetLocal(WasmLocal::Temp(n)), Op::ConstI32(15), Op::AndI32, Op::IfVoid, Op::TriggerGp(0), Op::BlockEnd, Op::ConstGlobal(GlobalPointer::XmmLow(r)), Op::LoadAlignedI64FromStack(0), Op::SetNewLocalI64((n + 1) as u32), Op::ConstGlobal(GlobalPointer::XmmHigh(r)), Op::LoadAlignedI64FromStack(0), Op::SetNewLocalI64((n + 2) as u32), Op::SafeWrite128(WasmLocal::Temp(n), (n + 1) as u32, (n + 2) as u32), Op::FreeLocal(n), Op::FreeLocalI64((n + 1) as u32), Op::FreeLocalI64((n + 2) as u32)]
}

/// `movaps` to memory: writes the 128 bits of xmm register `r`; an address that is not a
/// multiple of 16 raises the general-protection exception.
pub fn instr_0F29_mem_jit(ctx: &mut JitContext, modrm_byte: u8, r: u32)
    requires
        ready(old(ctx).builder, 8),
    ensures
        emits(*old(ctx), *final(ctx), instr_0F29_mem_jit_code(modrm_byte, r, old(ctx).builder.next_local), 3),
        restores_by(old(ctx).builder, final(ctx).builder, 0),
{
    ctx.builder.emit(Op::ModrmResolve(modrm_byte));
    let addr = ctx.builder.set_new_local();
    ctx.builder.emit(Op::GetLocal(addr));
    ctx.builder.emit(Op::ConstI32(15));
    ctx.builder.emit(Op::AndI32);
    ctx.builder.if_void();
    ctx.builder.diverge(Op::TriggerGp(0));
    ctx.builder.block_end();
    ctx.builder.emit(Op::ConstGlobal(GlobalPointer::XmmLow(r)));
    ctx.builder.emit(Op::LoadAlignedI64FromStack(0));
    let low = ctx.builder.set_new_local_i64();
    ctx.builder.emit(Op::ConstGlobal(GlobalPointer::XmmHigh(r)));
    ctx.builder.emit(Op::LoadAlignedI64FromStack(0));
    let high = ctx.builder.set_new_local_i64();
    ctx.builder.emit(Op::SafeWrite128(addr, low.index, high.index));
    ctx.builder.free_local(addr);
    ctx.builder.free_local_i64(low);
    ctx.builder.free_local_i64(high);
    proof {
        assert(ctx.builder.code@ =~= old(ctx).builder.code@ + instr_0F29_mem_jit_code(modrm_byte, r, old(ctx).builder.next_local));
        assert(ctx.builder.frame().live =~= old(ctx).builder.frame().live);
        assert(ctx.builder.frame().live64 =~= old(ctx).builder.frame().live64);
        assert(ctx.builder.frame().ctrl =~= old(ctx).builder.frame().ctrl);
    }
}

/// The code that [`instr_0F29_reg_jit`] appends.
pub open spec fn instr_0F29_reg_jit_code(r1: u32, r2: u32) -> Seq<Op> {
    seq![Op::ConstI32(r1 as i32), Op::ConstI32(r2 as i32), Op::CallFn2("instr_0F29_reg")]
}

/// `movaps` between xmm registers, through the runtime helper.
pub fn instr_0F29_reg_jit(ctx: &mut JitContext, r1: u32, r2: u32)
    requires
        ready(old(ctx).builder, 8),
    ensures
        emits(*old(ctx), *final(ctx), instr_0F29_reg_jit_code(r1, r2), 0),
        restores_by(old(ctx).builder, final(ctx).builder, 0),
{
    ctx.builder.emit(Op::ConstI32(r1 as i32));
    ctx.builder.emit(Op::ConstI32(r2 as i32));
    ctx.builder.emit(Op::CallFn2("instr_0F29_reg"));
    proof {
        assert(ctx.builder.code@ =~= old(ctx).builder.code@ + instr_0F29_reg_jit_code(r1, r2));
        assert(ctx.builder.frame().live =~= old(ctx).builder.frame().live);
        assert(ctx.builder.frame().live64 =~= old(ctx).builder.frame().live64);
        assert(ctx.builder.frame().ctrl =~= old(ctx).builder.frame().ctrl);
    }
}

/// Writes the 128 bits of xmm register `r` to memory.
pub fn instr_660F29_mem_jit(ctx: &mut JitContext, modrm_byte: u8, r: u32)
    requires
        ready(old(ctx).builder, 8),
    ensures
        emits(*old(ctx), *final(ctx), instr_0F29_mem_jit_code(modrm_byte, r, old(ctx).builder.next_local), 3),
        restores_by(old(ctx).builder, final(ctx).builder, 0),
{
    instr_0F29_mem_jit(ctx, modrm_byte, r);
    proof {
        assert(ctx.builder.code@ =~= old(ctx).builder.code@ + instr_0F29_mem_jit_code(modrm_byte, r, old(ctx).builder.next_local));
        assert(ctx.builder.frame().live =~= old(ctx).builder.frame().live);
        assert(ctx.builder.frame().live64 =~= old(ctx).builder.frame().live64);
        assert(ctx.builder.frame().ctrl =~= old(ctx).builder.frame().ctrl);
    }
}

/// Copies between xmm registers, through the runtime helper.
pub fn instr_660F29_reg_jit(ctx: &mut JitContext, r1: u32, r2: u32)
    requires
        ready(old(ctx).builder, 8),
    ensures
        emits(*old(ctx), *final(ctx), instr_0F29_reg_jit_code(r1, r2), 0),
        restores_by(old(ctx).builder, final(ctx).builder, 0),
{
    instr_0F29_reg_jit(ctx, r1, r2);
    proof {
        assert(ctx.builder.code@ =~= old(ctx).builder.code@ + instr_0F29_reg_jit_code(r1, r2));
        assert(ctx.builder.frame().live =~= old(ctx).builder.frame().live);
        assert(ctx.builder.frame().live64 =~= old(ctx).builder.frame().live64);
        assert(ctx.builder.frame().ctrl =~= old(ctx).builder.frame().ctrl);
    }
}

/// Writes the 128 bits of xmm register `r` to memory.
pub fn instr_660F7F_mem_jit(ctx: &mut JitContext, modrm_byte: u8, r: u32)
    requires
        ready(old(ctx).builder, 8),
    ensures
        emits(*old(ctx), *final(ctx), instr_0F29_mem_jit_code(modrm_byte, r, old(ctx).builder.next_local), 3),
        restores_by(old(ctx).builder, final(ctx).builder, 0),
{
    instr_0F29_mem_jit(ctx, modrm_byte, r);
    proof {
        assert(ctx.builder.code@ =~= old(ctx).builder.code@ + instr_0F29_mem_jit_code(modrm_byte, r, old(ctx).builder.next_local));
        assert(ctx.builder.frame().live =~= old(ctx).builder.frame().live);
        assert(ctx.builder.frame().live64 =~= old(ctx).builder.frame().live64);
        assert(ctx.builder.frame().ctrl =~= old(ctx).builder.frame().ctrl);
    }
}

/// Copies between xmm registers, through the runtime helper.
pub fn instr_660F7F_reg_jit(ctx: &mut JitContext, r1: u32, r2: u32)
    requires
        ready(old(ctx).builder, 8),
    ensures
        emits(*old(ctx), *final(ctx), instr_0F29_reg_jit_code(r1, r2), 0),
        restores_by(old(ctx).builder, final(ctx).builder, 0),
{
    instr_0F29_reg_jit(ctx, r1, r2);
    proof {
        assert(ctx.builder.code@ =~= old(ctx).builder.code@ + instr_0F29_reg_jit_code(r1, r2));
        assert(ctx.builder.frame().live =~= old(ctx).builder.frame().live);
        assert(ctx.builder.frame().live64 =~= old(ctx).builder.frame().live64);
        assert(ctx.builder.frame().ctrl =~= old(ctx).builder.frame().ctrl);
    }
}

/// Writes the 128 bits of xmm register `r` to memory.
pub fn instr_F30F7F_mem_jit(ctx: &mut JitContext, modrm_byte: u8, r: u32)
    requires
        ready(old(ctx).builder, 8),
    ensures
        emits(*old(ctx), *final(ctx), instr_0F29_mem_jit_code(modrm_byte, r, old(ctx).builder.next_local), 3),
        restores_by(old(ctx).builder, final(ctx).builder, 0),
{
    instr_0F29_mem_jit(ctx, modrm_byte, r);
    proof {
        assert(ctx.builder.code@ =~= old(ctx).builder.code@ + instr_0F29_mem_jit_code(modrm_byte, r, old(ctx).builder.next_local));
        assert(ctx.builder.frame().live =~= old(ctx).builder.frame().live);
        assert(ctx.builder.frame().live64 =~= old(ctx).builder.frame().live64);
        assert(ctx.builder.frame().ctrl =~= old(ctx).builder.frame().ctrl);
    }
}

/// Copies between xmm registers, through the runtime helper.
pub fn instr_F30F7F_reg_jit(ctx: &mut JitContext, r1: u32, r2: u32)
    requires
        ready(old(ctx).builder, 8),
    ensures
        emits(*old(ctx), *final(ctx), instr_0F29_reg_jit_code(r1, r2), 0),
        restores_by(old(ctx).builder, final(ctx).builder, 0),
{
    instr_0F29_reg_jit(ctx, r1, r2);
    proof {
        assert(ctx.builder.code@ =~= old(ctx).builder.code@ + instr_0F29_reg_jit_code(r1, r2));
        assert(ctx.builder.frame().live =~= old(ctx).builder.frame().live);
        assert(ctx.builder.frame().live64 =~= old(ctx).builder.frame().live64);
        assert(ctx.builder.frame().ctrl =~= old(ctx).builder.frame().ctrl);
    }
}

/// The 128-bit operation through the runtime helper, with a memory operand.
pub fn instr_660F60_mem_jit(ctx: &mut JitContext, modrm_byte: u8, r: u32)
    requires
        ready(old(ctx).builder, 8),
    ensures
        emits(*old(ctx), *final(ctx), sse_read128_xmm_mem_code("instr_660F60", modrm_byte, r), 0),
        restores_by(old(ctx).builder, final(ctx).builder, 0),
{
    sse_read128_xmm_mem(ctx, "instr_660F60", modrm_byte, r);
    proof {
        assert(ctx.builder.code@ =~= old(ctx).builder.code@ + sse_read128_xmm_mem_code("instr_660F60", modrm_byte, r));
        assert(ctx.builder.frame().live =~= old(ctx).builder.frame().live);
        assert(ctx.builder.frame().live64 =~= old(ctx).builder.frame().live64);
        assert(ctx.builder.frame().ctrl =~= old(ctx).builder.frame().ctrl);
    }
}

/// The 128-bit operation through the runtime helper, with two xmm registers.
pub fn instr_660F60_reg_jit(ctx: &mut JitContext, r1: u32, r2: u32)
    requires
        ready(old(ctx).builder, 8),
    ensures
        emits(*old(ctx), *final(ctx), sse_read128_xmm_xmm_code("instr_660F60", r1, r2), 0),
        restores_by(old(ctx).builder, final(ctx).builder, 0),
{
    sse_read128_xmm_xmm(ctx, "instr_660F60", r1, r2);
    proof {
        assert(ctx.builder.code@ =~= old(ctx).builder.code@ + sse_read128_xmm_xmm_code("instr_660F60", r1, r2));
        assert(ctx.builder.frame().live =~= old(ctx).builder.frame().live);
        assert(ctx.builder.frame().live64 =~= old(ctx).builder.frame().live64);
        assert(ctx.builder.frame().ctrl =~= old(ctx).builder.frame().ctrl);
    }
}

/// The 128-bit operation through the runtime helper, with a memory operand.
pub fn instr_660F61_mem_jit(ctx: &mut JitContext, modrm_byte: u8, r: u32)
    requires
        ready(old(ctx).builder, 8),
    ensures
        emits(*old(ctx), *final(ctx), sse_read128_xmm_mem_code("instr_660F61", modrm_byte, r), 0),
        restores_by(old(ctx).builder, final(ctx).builder, 0),
{
    sse_read128_xmm_mem(ctx, "instr_660F61", modrm_byte, r);
    proof {
        assert(ctx.builder.code@ =~= old(ctx).builder.code@ + sse_read128_xmm_mem_code("instr_660F61", modrm_byte, r));
        assert(ctx.builder.frame().live =~= old(ctx).builder.frame().live);
        assert(ctx.builder.frame().live64 =~= old(ctx).builder.frame().live64);
        assert(ctx.builder.frame().ctrl =~= old(ctx).builder.frame().ctrl);
    }
}

/// The 128-bit operation through the runtime helper, with two xmm registers.
pub fn instr_660F61_reg_jit(ctx: &mut JitContext, r1: u32, r2: u32)
    requires
        ready(old(ctx).builder, 8),
    ensures
        emits(*old(ctx), *final(ctx), sse_read128_xmm_xmm_code("instr_660F61", r1, r2), 0),
        restores_by(old(ctx).builder, final(ctx).builder, 0),
{
    sse_read128_xmm_xmm(ctx, "instr_660F61", r1, r2);
    proof {
        assert(ctx.builder.code@ =~= old(ctx).builder.code@ + sse_read128_xmm_xmm_code("instr_660F61", r1, r2));
        assert(ctx.builder.frame().live =~= old(ctx).builder.frame().live);
        assert(ctx.builder.frame().live64 =~= old(ctx).builder.frame().live64);
        assert(ctx.builder.frame().ctrl =~= old(ctx).builder.frame().ctrl);
    }
}

/// The 128-bit operation through the runtime helper, with a memory operand.
pub fn instr_660F67_mem_jit(ctx: &mut JitContext, modrm_byte: u8, r: u32)
    requires
        ready(old(ctx).builder, 8),
    ensures
        emits(*old(ctx), *final(ctx), sse_read128_xmm_mem_code("instr_660F67", modrm_byte, r), 0),
        restores_by(old(ctx).builder, final(ctx).builder, 0),
{
    sse_read128_xmm_mem(ctx, "instr_660F67", modrm_byte, r);
    proof {
        assert(ctx.builder.code@ =~= old(ctx).builder.code@ + sse_read128_xmm_mem_code("instr_660F67", modrm_byte, r));
        assert(ctx.builder.frame().live =~= old(ctx).builder.frame().live);
        assert(ctx.builder.frame().live64 =~= old(ctx).builder.frame().live64);
        assert(ctx.builder.frame().ctrl =~= old(ctx).builder.frame().ctrl);
    }
}

/// The 128-bit operation through the runtime helper, with two xmm registers.
pub fn instr_660F67_reg_jit(ctx: &mut JitContext, r1: u32, r2: u32)
    requires
        ready(old(ctx).builder, 8),
    ensures
        emits(*old(ctx), *final(ctx), sse_read128_xmm_xmm_code("instr_660F67", r1, r2), 0),
        restores_by(old(ctx).builder, final(ctx).builder, 0),
{
    sse_read128_xmm_xmm(ctx, "instr_660F67", r1, r2);
    proof {
        assert(ctx.builder.code@ =~= old(ctx).builder.code@ + sse_read128_xmm_xmm_code("instr_660F67", r1, r2));
        assert(ctx.builder.frame().live =~= old(ctx).builder.frame().live);
        assert(ctx.builder.frame().live64 =~= old(ctx).builder.frame().live64);
        assert(ctx.builder.frame().ctrl =~= old(ctx).builder.frame().ctrl);
    }
}

/// The 128-bit operation through the runtime helper, with a memory operand.
pub fn instr_660F68_mem_jit(ctx: &mut JitContext, modrm_byte: u8, r: u32)
    requires
        ready(old(ctx).builder, 8),
    ensures
        emits(*old(ctx), *final(ctx), sse_read128_xmm_mem_code("instr_660F68", modrm_byte, r), 0),
        restores_by(old(ctx).builder, final(ctx).builder, 0),
{
    sse_read128_xmm_mem(ctx, "instr_660F68", modrm_byte, r);
    proof {
        assert(ctx.builder.code@ =~= old(ctx).builder.code@ + sse_read128_xmm_mem_code("instr_660F68", modrm_byte, r));
        assert(ctx.builder.frame().live =~= old(ctx).builder.frame().live);
        assert(ctx.builder.frame().live64 =~= old(ctx).builder.frame().live64);
        assert(ctx.builder.frame().ctrl =~= old(ctx).builder.frame().ctrl);
    }
}

/// The 128-bit operation through the runtime helper, with two xmm registers.
pub fn instr_660F68_reg_jit(ctx: &mut JitContext, r1: u32, r2: u32)
    requires
        ready(old(ctx).builder, 8),
    ensures
        emits(*old(ctx), *final(ctx), sse_read128_xmm_xmm_code("instr_660F68", r1, r2), 0),
        restores_by(old(ctx).builder, final(ctx).builder, 0),
{
    sse_read128_xmm_xmm(ctx, "instr_660F68", r1, r2);
    proof {
        assert(ctx.builder.code@ =~= old(ctx).builder.code@ + sse_read128_xmm_xmm_code("instr_660F68", r1, r2));
        assert(ctx.builder.frame().live =~= old(ctx).builder.frame().live);
        assert(ctx.builder.frame().live64 =~= old(ctx).builder.frame().live64);
        assert(ctx.builder.frame().ctrl =~= old(ctx).builder.frame().ctrl);
    }
}

/// The 128-bit operation through the runtime helper, with a memory operand.
pub fn instr_660F74_mem_jit(ctx: &mut JitContext, modrm_byte: u8, r: u32)
    requires
        ready(old(ctx).builder, 8),
    ensures
        emits(*old(ctx), *final(ctx), sse_read128_xmm_mem_code("instr_660F74", modrm_byte, r), 0),
        restores_by(old(ctx).builder, final(ctx).builder, 0),
{
    sse_read128_xmm_mem(ctx, "instr_660F74", modrm_byte, r);
    proof {
        assert(ctx.builder.code@ =~= old(ctx).builder.code@ + sse_read128_xmm_mem_code("instr_660F74", modrm_byte, r));
        assert(ctx.builder.frame().live =~= old(ctx).builder.frame().live);
        assert(ctx.builder.frame().live64 =~= old(ctx).builder.frame().live64);
        assert(ctx.builder.frame().ctrl =~= old(ctx).builder.frame().ctrl);
    }
}

/// The 128-bit operation through the runtime helper, with two xmm registers.
pub fn instr_660F74_reg_jit(ctx: &mut JitContext, r1: u32, r2: u32)
    requires
        ready(old(ctx).builder, 8),
    ensures
        emits(*old(ctx), *final(ctx), sse_read128_xmm_xmm_code("instr_660F74", r1, r2), 0),
        restores_by(old(ctx).builder, final(ctx).builder, 0),
{
    sse_read128_xmm_xmm(ctx, "instr_660F74", r1, r2);
    proof {
        assert(ctx.builder.code@ =~= old(ctx).builder.code@ + sse_read128_xmm_xmm_code("instr_660F74", r1, r2));
        assert(ctx.builder.frame().live =~= old(ctx).builder.frame().live);
        assert(ctx.builder.frame().live64 =~= old(ctx).builder.frame().live64);
        assert(ctx.builder.frame().ctrl =~= old(ctx).builder.frame().ctrl);
    }
}

/// The 128-bit operation through the runtime helper, with a memory operand.
pub fn instr_660FDC_mem_jit(ctx: &mut JitContext, modrm_byte: u8, r: u32)
    requires
        ready(old(ctx).builder, 8),
    ensures
        emits(*old(ctx), *final(ctx), sse_read128_xmm_mem_code("instr_660FDC", modrm_byte, r), 0),
        restores_by(old(ctx).builder, final(ctx).builder, 0),
{
    sse_read128_xmm_mem(ctx, "instr_660FDC", modrm_byte, r);
    proof {
        assert(ctx.builder.code@ =~= old(ctx).builder.code@ + sse_read128_xmm_mem_code("instr_660FDC", modrm_byte, r));
        assert(ctx.builder.frame().live =~= old(ctx).builder.frame().live);
        assert(ctx.builder.frame().live64 =~= old(ctx).builder.frame().live64);
        assert(ctx.builder.frame().ctrl =~= old(ctx).builder.frame().ctrl);
    }
}

/// The 128-bit operation through the runtime helper, with two xmm registers.
pub fn instr_660FDC_reg_jit(ctx: &mut JitContext, r1: u32, r2: u32)
    requires
        ready(old(ctx).builder, 8),
    ensures
        emits(*old(ctx), *final(ctx), sse_read128_xmm_xmm_code("instr_660FDC", r1, r2), 0),
        restores_by(old(ctx).builder, final(ctx).builder, 0),
{
    sse_read128_xmm_xmm(ctx, "instr_660FDC", r1, r2);
    proof {
        assert(ctx.builder.code@ =~= old(ctx).builder.code@ + sse_read128_xmm_xmm_code("instr_660FDC", r1, r2));
        assert(ctx.builder.frame().live =~= old(ctx).builder.frame().live);
        assert(ctx.builder.frame().live64 =~= old(ctx).builder.frame().live64);
        assert(ctx.builder.frame().ctrl =~= old(ctx).builder.frame().ctrl);
    }
}

/// The 128-bit operation through the runtime helper, with a memory operand.
pub fn instr_660FDD_mem_jit(ctx: &mut JitContext, modrm_byte: u8, r: u32)
    requires
        ready(old(ctx).builder, 8),
    ensures
        emits(*old(ctx), *final(ctx), sse_read128_xmm_mem_code("instr_660FDD", modrm_byte, r), 0),
        restores_by(old(ctx).builder, final(ctx).builder, 0),
{
    sse_read128_xmm_mem(ctx, "instr_660FDD", modrm_byte, r);
    proof {
        assert(ctx.builder.code@ =~= old(ctx).builder.code@ + sse_read128_xmm_mem_code("instr_660FDD", modrm_byte, r));
        assert(ctx.builder.frame().live =~= old(ctx).builder.frame().live);
        assert(ctx.builder.frame().live64 =~= old(ctx).builder.frame().live64);
        assert(ctx.builder.frame().ctrl =~= old(ctx).builder.frame().ctrl);
    }
}

/// The 128-bit operation through the runtime helper, with two xmm registers.
pub fn instr_660FDD_reg_jit(ctx: &mut JitContext, r1: u32, r2: u32)
    requires
        ready(old(ctx).builder, 8),
    ensures
        emits(*old(ctx), *final(ctx), sse_read128_xmm_xmm_code("instr_660FDD", r1, r2), 0),
        restores_by(old(ctx).builder, final(ctx).builder, 0),
{
    sse_read128_xmm_xmm(ctx, "instr_660FDD", r1, r2);
    proof {
        assert(ctx.builder.code@ =~= old(ctx).builder.code@ + sse_read128_xmm_xmm_code("instr_660FDD", r1, r2));
        assert(ctx.builder.frame().live =~= old(ctx).builder.frame().live);
        assert(ctx.builder.frame().live64 =~= old(ctx).builder.frame().live64);
        assert(ctx.builder.frame().ctrl =~= old(ctx).builder.frame().ctrl);
    }
}

/// The 128-bit operation through the runtime helper, with a memory operand.
pub fn instr_660FD5_mem_jit(ctx: &mut JitContext, modrm_byte: u8, r: u32)
    requires
        ready(old(ctx).builder, 8),
    ensures
        emits(*old(ctx), *final(ctx), sse_read128_xmm_mem_code("instr_660FD5", modrm_byte, r), 0),
        restores_by(old(ctx).builder, final(ctx).builder, 0),
{
    sse_read128_xmm_mem(ctx, "instr_660FD5", modrm_byte, r);
    proof {
        assert(ctx.builder.code@ =~= old(ctx).builder.code@ + sse_read128_xmm_mem_code("instr_660FD5", modrm_byte, r));
        assert(ctx.builder.frame().live =~= old(ctx).builder.frame().live);
        assert(ctx.builder.frame().live64 =~= old(ctx).builder.frame().live64);
        assert(ctx.builder.frame().ctrl =~= old(ctx).builder.frame().ctrl);
    }
}

/// The 128-bit operation through the runtime helper, with two xmm registers.
pub fn instr_660FD5_reg_jit(ctx: &mut JitContext, r1: u32, r2: u32)
    requires
        ready(old(ctx).builder, 8),
    ensures
        emits(*old(ctx), *final(ctx), sse_read128_xmm_xmm_code("instr_660FD5", r1, r2), 0),
        restores_by(old(ctx).builder, final(ctx).builder, 0),
{
    sse_read128_xmm_xmm(ctx, "instr_660FD5", r1, r2);
    proof {
        assert(ctx.builder.code@ =~= old(ctx).builder.code@ + sse_read128_xmm_xmm_code("instr_660FD5", r1, r2));
        assert(ctx.builder.frame().live =~= old(ctx).builder.frame().live);
        assert(ctx.builder.frame().live64 =~= old(ctx).builder.frame().live64);
        assert(ctx.builder.frame().ctrl =~= old(ctx).builder.frame().ctrl);
    }
}

/// The 128-bit operation through the runtime helper, with a memory operand.
pub fn instr_660FE4_mem_jit(ctx: &mut JitContext, modrm_byte: u8, r: u32)
    requires
        ready(old(ctx).builder, 8),
    ensures
        emits(*old(ctx), *final(ctx), sse_read128_xmm_mem_code("instr_660FE4", modrm_byte, r), 0),
        restores_by(old(ctx).builder, final(ctx).builder, 0),
{
    sse_read128_xmm_mem(ctx, "instr_660FE4", modrm_byte, r);
    proof {
        assert(ctx.builder.code@ =~= old(ctx).builder.code@ + sse_read128_xmm_mem_code("instr_660FE4", modrm_byte, r));
        assert(ctx.builder.frame().live =~= old(ctx).builder.frame().live);
        assert(ctx.builder.frame().live64 =~= old(ctx).builder.frame().live64);
        assert(ctx.builder.frame().ctrl =~= old(ctx).builder.frame().ctrl);
    }
}

/// The 128-bit operation through the runtime helper, with two xmm registers.
pub fn instr_660FE4_reg_jit(ctx: &mut JitContext, r1: u32, r2: u32)
    requires
        ready(old(ctx).builder, 8),
    ensures
        emits(*old(ctx), *final(ctx), sse_read128_xmm_xmm_code("instr_660FE4", r1, r2), 0),
        restores_by(old(ctx).builder, final(ctx).builder, 0),
{
    sse_read128_xmm_xmm(ctx, "instr_660FE4", r1, r2);
    proof {
        assert(ctx.builder.code@ =~= old(ctx).builder.code@ + sse_read128_xmm_xmm_code("instr_660FE4", r1, r2));
        assert(ctx.builder.frame().live =~= old(ctx).builder.frame().live);
        assert(ctx.builder.frame().live64 =~= old(ctx).builder.frame().live64);
        assert(ctx.builder.frame().ctrl =~= old(ctx).builder.frame().ctrl);
    }
}

/// The 128-bit operation through the runtime helper, with a memory operand.
pub fn instr_660FEB_mem_jit(ctx: &mut JitContext, modrm_byte: u8, r: u32)
    requires
        ready(old(ctx).builder, 8),
    ensures
        emits(*old(ctx), *final(ctx), sse_read128_xmm_mem_code("instr_660FEB", modrm_byte, r), 0),
        restores_by(old(ctx).builder, final(ctx).builder, 0),
{
    sse_read128_xmm_mem(ctx, "instr_660FEB", modrm_byte, r);
    proof {
        assert(ctx.builder.code@ =~= old(ctx).builder.code@ + sse_read128_xmm_mem_code("instr_660FEB", modrm_byte, r));
        assert(ctx.builder.frame().live =~= old(ctx).builder.frame().live);
        assert(ctx.builder.frame().live64 =~= old(ctx).builder.frame().live64);
        assert(ctx.builder.frame().ctrl =~= old(ctx).builder.frame().ctrl);
    }
}

/// The 128-bit operation through the runtime helper, with two xmm registers.
pub fn instr_660FEB_reg_jit(ctx: &mut JitContext, r1: u32, r2: u32)
    requires
        ready(old(ctx).builder, 8),
    ensures
        emits(*old(ctx), *final(ctx), sse_read128_xmm_xmm_code("instr_660FEB", r1, r2), 0),
        restores_by(old(ctx).builder, final(ctx).builder, 0),
{
    sse_read128_xmm_xmm(ctx, "instr_660FEB", r1, r2);
    proof {
        assert(ctx.builder.code@ =~= old(ctx).builder.code@ + sse_read128_xmm_xmm_code("instr_660FEB", r1, r2));
        assert(ctx.builder.frame().live =~= old(ctx).builder.frame().live);
        assert(ctx.builder.frame().live64 =~= old(ctx).builder.frame().live64);
        assert(ctx.builder.frame().ctrl =~= old(ctx).builder.frame().ctrl);
    }
}

/// The 128-bit operation through the runtime helper, with a memory operand.
pub fn instr_660FEF_mem_jit(ctx: &mut JitContext, modrm_byte: u8, r: u32)
    requires
        ready(old(ctx).builder, 8),
    ensures
        emits(*old(ctx), *final(ctx), sse_read128_xmm_mem_code("instr_660FEF", modrm_byte, r), 0),
        restores_by(old(ctx).builder, final(ctx).builder, 0),
{
    sse_read128_xmm_mem(ctx, "instr_660FEF", modrm_byte, r);
    proof {
        assert(ctx.builder.code@ =~= old(ctx).builder.code@ + sse_read128_xmm_mem_code("instr_660FEF", modrm_byte, r));
        assert(ctx.builder.frame().live =~= old(ctx).builder.frame().live);
        assert(ctx.builder.frame().live64 =~= old(ctx).builder.frame().live64);
        assert(ctx.builder.frame().ctrl =~= old(ctx).builder.frame().ctrl);
    }
}

/// The 128-bit operation through the runtime helper, with two xmm registers.
pub fn instr_660FEF_reg_jit(ctx: &mut JitContext, r1: u32, r2: u32)
    requires
        ready(old(ctx).builder, 8),
    ensures
        emits(*old(ctx), *final(ctx), sse_read128_xmm_xmm_code("instr_660FEF", r1, r2), 0),
        restores_by(old(ctx).builder, final(ctx).builder, 0),
{
    sse_read128_xmm_xmm(ctx, "instr_660FEF", r1, r2);
    proof {
        assert(ctx.builder.code@ =~= old(ctx).builder.code@ + sse_read128_xmm_xmm_code("instr_660FEF", r1, r2));
        assert(ctx.builder.frame().live =~= old(ctx).builder.frame().live);
        assert(ctx.builder.frame().live64 =~= old(ctx).builder.frame().live64);
        assert(ctx.builder.frame().ctrl =~= old(ctx).builder.frame().ctrl);
    }
}

/// `movd` from memory, through the runtime helper.
pub fn instr_0F6E_mem_jit(ctx: &mut JitContext, modrm_byte: u8, r: u32)
    requires
        ready(old(ctx).builder, 8),
    ensures
        emits(*old(ctx), *final(ctx), seq![Op::ModrmResolveSafeRead32(modrm_byte), Op::ConstI32(r as i32), Op::CallFn2("instr_0F6E")], 0),
        restores_by(old(ctx).builder, final(ctx).builder, 0),
{
    ctx.builder.emit(Op::ModrmResolveSafeRead32(modrm_byte));
    ctx.builder.emit(Op::ConstI32(r as i32));
    ctx.builder.emit(Op::CallFn2("instr_0F6E"));
    proof {
        assert(ctx.builder.code@ =~= old(ctx).builder.code@ + seq![Op::ModrmResolveSafeRead32(modrm_byte), Op::ConstI32(r as i32), Op::CallFn2("instr_0F6E")]);
        assert(ctx.builder.frame().live =~= old(ctx).builder.frame().live);
        assert(ctx.builder.frame().live64 =~= old(ctx).builder.frame().live64);
        assert(ctx.builder.frame().ctrl =~= old(ctx).builder.frame().ctrl);
    }
}

/// `movd` from register `r1`, through the runtime helper.
pub fn instr_0F6E_reg_jit(ctx: &mut JitContext, r1: u32, r2: u32)
    requires
        ready(old(ctx).builder, 8),
        r1 < 8,
    ensures
        emits(*old(ctx), *final(ctx), seq![Op::GetReg32(r1), Op::ConstI32(r2 as i32), Op::CallFn2("instr_0F6E")], 0),
        restores_by(old(ctx).builder, final(ctx).builder, 0),
{
    ctx.builder.emit(Op::GetReg32(r1));
    ctx.builder.emit(Op::ConstI32(r2 as i32));
    ctx.builder.emit(Op::CallFn2("instr_0F6E"));
    proof {
        assert(ctx.builder.code@ =~= old(ctx).builder.code@ + seq![Op::GetReg32(r1), Op::ConstI32(r2 as i32), Op::CallFn2("instr_0F6E")]);
        assert(ctx.builder.frame().live =~= old(ctx).builder.frame().live);
        assert(ctx.builder.frame().live64 =~= old(ctx).builder.frame().live64);
        assert(ctx.builder.frame().ctrl =~= old(ctx).builder.frame().ctrl);
    }
}

/// `movd` from memory, through the runtime helper.
pub fn instr_660F6E_mem_jit(ctx: &mut JitContext, modrm_byte: u8, r: u32)
    requires
        ready(old(ctx).builder, 8),
    ensures
        emits(*old(ctx), *final(ctx), seq![Op::ModrmResolveSafeRead32(modrm_byte), Op::ConstI32(r as i32), Op::CallFn2("instr_660F6E")], 0),
        restores_by(old(ctx).builder, final(ctx).builder, 0),
{
    ctx.builder.emit(Op::ModrmResolveSafeRead32(modrm_byte));
    ctx.builder.emit(Op::ConstI32(r as i32));
    ctx.builder.emit(Op::CallFn2("instr_660F6E"));
    proof {
        assert(ctx.builder.code@ =~= old(ctx).builder.code@ + seq![Op::ModrmResolveSafeRead32(modrm_byte), Op::ConstI32(r as i32), Op::CallFn2("instr_660F6E")]);
        assert(ctx.builder.frame().live =~= old(ctx).builder.frame().live);
        assert(ctx.builder.frame().live64 =~= old(ctx).builder.frame().live64);
        assert(ctx.builder.frame().ctrl =~= old(ctx).builder.frame().ctrl);
    }
}

/// `movd` from register `r1`, through the runtime helper.
pub fn instr_660F6E_reg_jit(ctx: &mut JitContext, r1: u32, r2: u32)
    requires
        ready(old(ctx).builder, 8),
        r1 < 8,
    ensures
        emits(*old(ctx), *final(ctx), seq![Op::GetReg32(r1), Op::ConstI32(r2 as i32), Op::CallFn2("instr_660F6E")], 0),
        restores_by(old(ctx).builder, final(ctx).builder, 0),
{
    ctx.builder.emit(Op::GetReg32(r1));
    ctx.builder.emit(Op::ConstI32(r2 as i32));
    ctx.builder.emit(Op::CallFn2("instr_660F6E"));
    proof {
        assert(ctx.builder.code@ =~= old(ctx).builder.code@ + seq![Op::GetReg32(r1), Op::ConstI32(r2 as i32), Op::CallFn2("instr_660F6E")]);
        assert(ctx.builder.frame().live =~= old(ctx).builder.frame().live);
        assert(ctx.builder.frame().live64 =~= old(ctx).builder.frame().live64);
        assert(ctx.builder.frame().ctrl =~= old(ctx).builder.frame().ctrl);
    }
}

/// The code that [`instr_0F6F_mem_jit`] appends.
pub open spec fn instr_0F6F_mem_jit_code(modrm_byte: u8, r: u32, n: u32) -> Seq<Op> {
    seq![Op::ModrmResolve(modrm_byte), Op::SetNewLocal(n), Op::GetLocal(WasmLocal::Temp(n)), Op::ConstI32(15), Op::AndI32, Op::IfVoid, Op::TriggerGp(0), Op::BlockEnd, Op::SafeRead64(WasmLocal::Temp(n)), Op::FreeLocal(n), Op::ConstI32(r as i32), Op::CallFn2I64I32("instr_0F6F")]
}

/// `movq` from memory into an mmx register; an address that is not a multiple of 16
/// raises the general-protection exception.
pub fn instr_0F6F_mem_jit(ctx: &mut JitContext, modrm_byte: u8, r: u32)
    requires
        ready(old(ctx).builder, 8),
    ensures
        emits(*old(ctx), *final(ctx), instr_0F6F_mem_jit_code(modrm_byte, r, old(ctx).builder.next_local), 1),
        restores_by(old(ctx).builder, final(ctx).builder, 0),
{
    ctx.builder.emit(Op::ModrmResolve(modrm_byte));
    let addr = ctx.builder.set_new_local();
    ctx.builder.emit(Op::GetLocal(addr));
    ctx.builder.emit(Op::ConstI32(15));
    ctx.builder.emit(Op::AndI32);
    ctx.builder.if_void();
    ctx.builder.diverge(Op::TriggerGp(0));
    ctx.builder.block_end();
    ctx.builder.emit(Op::SafeRead64(addr));
    ctx.builder.free_local(addr);
    ctx.builder.emit(Op::ConstI32(r as i32));
    ctx.builder.emit(Op::CallFn2I64I32("instr_0F6F"));
    proof {
        assert(ctx.builder.code@ =~= old(ctx).builder.code@ + instr_0F6F_mem_jit_code(modrm_byte, r, old(ctx).builder.next_local));
        assert(ctx.builder.frame().live =~= old(ctx).builder.frame().live);
        assert(ctx.builder.frame().live64 =~= old(ctx).builder.frame().live64);
        assert(ctx.builder.frame().ctrl =~= old(ctx).builder.frame().ctrl);
    }
}

/// `movq` between mmx registers.
pub fn instr_0F6F_reg_jit(ctx: &mut JitContext, r1: u32, r2: u32)
    requires
        ready(old(ctx).builder, 8),
    ensures
        emits(*old(ctx), *final(ctx), seq![Op::ConstI32(r1 as i32), Op::ConstI32(r2 as i32), Op::CallFn2("instr_0F6F_reg")], 0),
        restores_by(old(ctx).builder, final(ctx).builder, 0),
{
    ctx.builder.emit(Op::ConstI32(r1 as i32));
    ctx.builder.emit(Op::ConstI32(r2 as i32));
    ctx.builder.emit(Op::CallFn2("instr_0F6F_reg"));
    proof {
        assert(ctx.builder.code@ =~= old(ctx).builder.code@ + seq![Op::ConstI32(r1 as i32), Op::ConstI32(r2 as i32), Op::CallFn2("instr_0F6F_reg")]);
        assert(ctx.builder.frame().live =~= old(ctx).builder.frame().live);
        assert(ctx.builder.frame().live64 =~= old(ctx).builder.frame().live64);
        assert(ctx.builder.frame().ctrl =~= old(ctx).builder.frame().ctrl);
    }
}

/// The code that [`instr_660F6F_mem_jit`] appends.
pub open spec fn instr_660F6F_mem_jit_code(modrm_byte: u8, r: u32, n: u32) -> Seq<Op> {
    seq![Op::ModrmResolve(modrm_byte), Op::SetNewLocal(n), Op::GetLocal(WasmLocal::Temp(n)), Op::ConstI32(15), Op::AndI32, Op::IfVoid, Op::TriggerGp(0), Op::BlockEnd, Op::SafeRead128(WasmLocal::Temp(n), GlobalPointer::XmmLow(r)), Op::FreeLocal(n)]
}

/// `movdqa` from memory: loads 128 bits into xmm register `r`; an address that is not a
/// multiple of 16 raises the general-protection exception.
pub fn instr_660F6F_mem_jit(ctx: &mut JitContext, modrm_byte: u8, r: u32)
    requires
        ready(old(ctx).builder, 8),
    ensures
        emits(*old(ctx), *final(ctx), instr_660F6F_mem_jit_code(modrm_byte, r, old(ctx).builder.next_local), 1),
        restores_by(old(ctx).builder, final(ctx).builder, 0),
{
    ctx.builder.emit(Op::ModrmResolve(modrm_byte));
    let addr = ctx.builder.set_new_local();
    ctx.builder.emit(Op::GetLocal(addr));
    ctx.builder.emit(Op::ConstI32(15));
    ctx.builder.emit(Op::AndI32);
    ctx.builder.if_void();
    ctx.builder.diverge(Op::TriggerGp(0));
    ctx.builder.block_end();
    ctx.builder.emit(Op::SafeRead128(addr, GlobalPointer::XmmLow(r)));
    ctx.builder.free_local(addr);
    proof {
        assert(ctx.builder.code@ =~= old(ctx).builder.code@ + instr_660F6F_mem_jit_code(modrm_byte, r, old(ctx).builder.next_local));
        assert(ctx.builder.frame().live =~= old(ctx).builder.frame().live);
        assert(ctx.builder.frame().live64 =~= old(ctx).builder.frame().live64);
        assert(ctx.builder.frame().ctrl =~= old(ctx).builder.frame().ctrl);
    }
}

/// Copies between xmm registers, through the runtime helper.
pub fn instr_660F6F_reg_jit(ctx: &mut JitContext, r1: u32, r2: u32)
    requires
        ready(old(ctx).builder, 8),
    ensures
        emits(*old(ctx), *final(ctx), seq![Op::ConstI32(r1 as i32), Op::ConstI32(r2 as i32), Op::CallFn2("instr_660F6F_reg")], 0),
        restores_by(old(ctx).builder, final(ctx).builder, 0),
{
    ctx.builder.emit(Op::ConstI32(r1 as i32));
    ctx.builder.emit(Op::ConstI32(r2 as i32));
    ctx.builder.emit(Op::CallFn2("instr_660F6F_reg"));
    proof {
        assert(ctx.builder.code@ =~= old(ctx).builder.code@ + seq![Op::ConstI32(r1 as i32), Op::ConstI32(r2 as i32), Op::CallFn2("instr_660F6F_reg")]);
        assert(ctx.builder.frame().live =~= old(ctx).builder.frame().live);
        assert(ctx.builder.frame().live64 =~= old(ctx).builder.frame().live64);
        assert(ctx.builder.frame().ctrl =~= old(ctx).builder.frame().ctrl);
    }
}

/// Loads 128 bits from memory into xmm register `r`.
pub fn instr_F30F6F_mem_jit(ctx: &mut JitContext, modrm_byte: u8, r: u32)
    requires
        ready(old(ctx).builder, 8),
    ensures
        emits(*old(ctx), *final(ctx), seq![Op::ModrmResolveSafeRead128(modrm_byte, GlobalPointer::XmmLow(r))], 0),
        restores_by(old(ctx).builder, final(ctx).builder, 0),
{
    ctx.builder.emit(Op::ModrmResolveSafeRead128(modrm_byte, GlobalPointer::XmmLow(r)));
    proof {
        assert(ctx.builder.code@ =~= old(ctx).builder.code@ + seq![Op::ModrmResolveSafeRead128(modrm_byte, GlobalPointer::XmmLow(r))]);
        assert(ctx.builder.frame().live =~= old(ctx).builder.frame().live);
        assert(ctx.builder.frame().live64 =~= old(ctx).builder.frame().live64);
        assert(ctx.builder.frame().ctrl =~= old(ctx).builder.frame().ctrl);
    }
}

/// Copies between xmm registers, through the runtime helper.
pub fn instr_F30F6F_reg_jit(ctx: &mut JitContext, r1: u32, r2: u32)
    requires
        ready(old(ctx).builder, 8),
    ensures
        emits(*old(ctx), *final(ctx), seq![Op::ConstI32(r1 as i32), Op::ConstI32(r2 as i32), Op::CallFn2("instr_F30F6F_reg")], 0),
        restores_by(old(ctx).builder, final(ctx).builder, 0),
{
    ctx.builder.emit(Op::ConstI32(r1 as i32));
    ctx.builder.emit(Op::ConstI32(r2 as i32));
    ctx.builder.emit(Op::CallFn2("instr_F30F6F_reg"));
    proof {
        assert(ctx.builder.code@ =~= old(ctx).builder.code@ + seq![Op::ConstI32(r1 as i32), Op::ConstI32(r2 as i32), Op::CallFn2("instr_F30F6F_reg")]);
        assert(ctx.builder.frame().live =~= old(ctx).builder.frame().live);
        assert(ctx.builder.frame().live64 =~= old(ctx).builder.frame().live64);
        assert(ctx.builder.frame().ctrl =~= old(ctx).builder.frame().ctrl);
    }
}

/// Shuffle of 128 bits read from memory, selected by the immediate that follows.
pub fn instr_660F70_mem_jit(ctx: &mut JitContext, modrm_byte: u8, r: u32)
    requires
        ready(old(ctx).builder, 8),
    ensures
        emits(*old(ctx), *final(ctx), seq![Op::ModrmResolveSafeRead128(modrm_byte, GlobalPointer::SseScratchRegister), Op::ReadImm(ImmKind::Imm8), Op::ConstGlobal(GlobalPointer::SseScratchRegister), Op::ConstI32(r as i32), Op::ConstPendingImm(-1i32, 0u32), Op::CallFn3("instr_660F70")], 0),
        restores_by(old(ctx).builder, final(ctx).builder, 0),
{
    ctx.builder.emit(Op::ModrmResolveSafeRead128(modrm_byte, GlobalPointer::SseScratchRegister));
    ctx.builder.emit(Op::ReadImm(ImmKind::Imm8));
    ctx.builder.emit(Op::ConstGlobal(GlobalPointer::SseScratchRegister));
    ctx.builder.emit(Op::ConstI32(r as i32));
    ctx.builder.emit(Op::ConstPendingImm(-1i32, 0u32));
    ctx.builder.emit(Op::CallFn3("instr_660F70"));
    proof {
        assert(ctx.builder.code@ =~= old(ctx).builder.code@ + seq![Op::ModrmResolveSafeRead128(modrm_byte, GlobalPointer::SseScratchRegister), Op::ReadImm(ImmKind::Imm8), Op::ConstGlobal(GlobalPointer::SseScratchRegister), Op::ConstI32(r as i32), Op::ConstPendingImm(-1i32, 0u32), Op::CallFn3("instr_660F70")]);
        assert(ctx.builder.frame().live =~= old(ctx).builder.frame().live);
        assert(ctx.builder.frame().live64 =~= old(ctx).builder.frame().live64);
        assert(ctx.builder.frame().ctrl =~= old(ctx).builder.frame().ctrl);
    }
}

/// Shuffle of an xmm register selected by an immediate.
pub fn instr_660F70_reg_jit(ctx: &mut JitContext, r1: u32, r2: u32, imm8: u32)
    requires
        ready(old(ctx).builder, 8),
    ensures
        emits(*old(ctx), *final(ctx), seq![Op::ConstGlobal(GlobalPointer::XmmLow(r1)), Op::ConstI32(r2 as i32), Op::ConstI32(imm8 as i32), Op::CallFn3("instr_660F70")], 0),
        restores_by(old(ctx).builder, final(ctx).builder, 0),
{
    ctx.builder.emit(Op::ConstGlobal(GlobalPointer::XmmLow(r1)));
    ctx.builder.emit(Op::ConstI32(r2 as i32));
    ctx.builder.emit(Op::ConstI32(imm8 as i32));
    ctx.builder.emit(Op::CallFn3("instr_660F70"));
    proof {
        assert(ctx.builder.code@ =~= old(ctx).builder.code@ + seq![Op::ConstGlobal(GlobalPointer::XmmLow(r1)), Op::ConstI32(r2 as i32), Op::ConstI32(imm8 as i32), Op::CallFn3("instr_660F70")]);
        assert(ctx.builder.frame().live =~= old(ctx).builder.frame().live);
        assert(ctx.builder.frame().live64 =~= old(ctx).builder.frame().live64);
        assert(ctx.builder.frame().ctrl =~= old(ctx).builder.frame().ctrl);
    }
}

/// Shuffle of 128 bits read from memory, selected by the immediate that follows.
pub fn instr_F20F70_mem_jit(ctx: &mut JitContext, modrm_byte: u8, r: u32)
    requires
        ready(old(ctx).builder, 8),
    ensures
        emits(*old(ctx), *final(ctx), seq![Op::ModrmResolveSafeRead128(modrm_byte, GlobalPointer::SseScratchRegister), Op::ReadImm(ImmKind::Imm8), Op::ConstGlobal(GlobalPointer::SseScratchRegister), Op::ConstI32(r as i32), Op::ConstPendingImm(-1i32, 0u32), Op::CallFn3("instr_F20F70")], 0),
        restores_by(old(ctx).builder, final(ctx).builder, 0),
{
    ctx.builder.emit(Op::ModrmResolveSafeRead128(modrm_byte, GlobalPointer::SseScratchRegister));
    ctx.builder.emit(Op::ReadImm(ImmKind::Imm8));
    ctx.builder.emit(Op::ConstGlobal(GlobalPointer::SseScratchRegister));
    ctx.builder.emit(Op::ConstI32(r as i32));
    ctx.builder.emit(Op::ConstPendingImm(-1i32, 0u32));
    ctx.builder.emit(Op::CallFn3("instr_F20F70"));
    proof {
        assert(ctx.builder.code@ =~= old(ctx).builder.code@ + seq![Op::ModrmResolveSafeRead128(modrm_byte, GlobalPointer::SseScratchRegister), Op::ReadImm(ImmKind::Imm8), Op::ConstGlobal(GlobalPointer::SseScratchRegister), Op::ConstI32(r as i32), Op::ConstPendingImm(-1i32, 0u32), Op::CallFn3("instr_F20F70")]);
        assert(ctx.builder.frame().live =~= old(ctx).builder.frame().live);
        assert(ctx.builder.frame().live64 =~= old(ctx).builder.frame().live64);
        assert(ctx.builder.frame().ctrl =~= old(ctx).builder.frame().ctrl);
    }
}

/// Shuffle of an xmm register selected by an immediate.
pub fn instr_F20F70_reg_jit(ctx: &mut JitContext, r1: u32, r2: u32, imm8: u32)
    requires
        ready(old(ctx).builder, 8),
    ensures
        emits(*old(ctx), *final(ctx), seq![Op::ConstGlobal(GlobalPointer::XmmLow(r1)), Op::ConstI32(r2 as i32), Op::ConstI32(imm8 as i32), Op::CallFn3("instr_F20F70")], 0),
        restores_by(old(ctx).builder, final(ctx).builder, 0),
{
    ctx.builder.emit(Op::ConstGlobal(GlobalPointer::XmmLow(r1)));
    ctx.builder.emit(Op::ConstI32(r2 as i32));
    ctx.builder.emit(Op::ConstI32(imm8 as i32));
    ctx.builder.emit(Op::CallFn3("instr_F20F70"));
    proof {
        assert(ctx.builder.code@ =~= old(ctx).builder.code@ + seq![Op::ConstGlobal(GlobalPointer::XmmLow(r1)), Op::ConstI32(r2 as i32), Op::ConstI32(imm8 as i32), Op::CallFn3("instr_F20F70")]);
        assert(ctx.builder.frame().live =~= old(ctx).builder.frame().live);
        assert(ctx.builder.frame().live64 =~= old(ctx).builder.frame().live64);
        assert(ctx.builder.frame().ctrl =~= old(ctx).builder.frame().ctrl);
    }
}

/// Shuffle of 128 bits read from memory, selected by the immediate that follows.
pub fn instr_F30F70_mem_jit(ctx: &mut JitContext, modrm_byte: u8, r: u32)
    requires
        ready(old(ctx).builder, 8),
    ensures
        emits(*old(ctx), *final(ctx), seq![Op::ModrmResolveSafeRead128(modrm_byte, GlobalPointer::SseScratchRegister), Op::ReadImm(ImmKind::Imm8), Op::ConstGlobal(GlobalPointer::SseScratchRegister), Op::ConstI32(r as i32), Op::ConstPendingImm(-1i32, 0u32), Op::CallFn3("instr_F30F70")], 0),
        restores_by(old(ctx).builder, final(ctx).builder, 0),
{
    ctx.builder.emit(Op::ModrmResolveSafeRead128(modrm_byte, GlobalPointer::SseScratchRegister));
    ctx.builder.emit(Op::ReadImm(ImmKind::Imm8));
    ctx.builder.emit(Op::ConstGlobal(GlobalPointer::SseScratchRegister));
    ctx.builder.emit(Op::ConstI32(r as i32));
    ctx.builder.emit(Op::ConstPendingImm(-1i32, 0u32));
    ctx.builder.emit(Op::CallFn3("instr_F30F70"));
    proof {
        assert(ctx.builder.code@ =~= old(ctx).builder.code@ + seq![Op::ModrmResolveSafeRead128(modrm_byte, GlobalPointer::SseScratchRegister), Op::ReadImm(ImmKind::Imm8), Op::ConstGlobal(GlobalPointer::SseScratchRegister), Op::ConstI32(r as i32), Op::ConstPendingImm(-1i32, 0u32), Op::CallFn3("instr_F30F70")]);
        assert(ctx.builder.frame().live =~= old(ctx).builder.frame().live);
        assert(ctx.builder.frame().live64 =~= old(ctx).builder.frame().live64);
        assert(ctx.builder.frame().ctrl =~= old(ctx).builder.frame().ctrl);
    }
}

/// Shuffle of an xmm register selected by an immediate.
pub fn instr_F30F70_reg_jit(ctx: &mut JitContext, r1: u32, r2: u32, imm8: u32)
    requires
        ready(old(ctx).builder, 8),
    ensures
        emits(*old(ctx), *final(ctx), seq![Op::ConstGlobal(GlobalPointer::XmmLow(r1)), Op::ConstI32(r2 as i32), Op::ConstI32(imm8 as i32), Op::CallFn3("instr_F30F70")], 0),
        restores_by(old(ctx).builder, final(ctx).builder, 0),
{
    ctx.builder.emit(Op::ConstGlobal(GlobalPointer::XmmLow(r1)));
    ctx.builder.emit(Op::ConstI32(r2 as i32));
    ctx.builder.emit(Op::ConstI32(imm8 as i32));
    ctx.builder.emit(Op::CallFn3("instr_F30F70"));
    proof {
        assert(ctx.builder.code@ =~= old(ctx).builder.code@ + seq![Op::ConstGlobal(GlobalPointer::XmmLow(r1)), Op::ConstI32(r2 as i32), Op::ConstI32(imm8 as i32), Op::CallFn3("instr_F30F70")]);
        assert(ctx.builder.frame().live =~= old(ctx).builder.frame().live);
        assert(ctx.builder.frame().live64 =~= old(ctx).builder.frame().live64);
        assert(ctx.builder.frame().ctrl =~= old(ctx).builder.frame().ctrl);
    }
}

/// `movd` of the low 32 bits of xmm register `r` to memory.
pub fn instr_660F7E_mem_jit(ctx: &mut JitContext, modrm_byte: u8, r: u32)
    requires
        ready(old(ctx).builder, 8),
    ensures
        emits(*old(ctx), *final(ctx), seq![Op::ModrmResolve(modrm_byte), Op::SetNewLocal(old(ctx).builder.next_local), Op::LoadAlignedI32(GlobalPointer::XmmLow(r)), Op::SetNewLocal((old(ctx).builder.next_local + 1) as u32), Op::SafeWrite32(WasmLocal::Temp(old(ctx).builder.next_local), WasmLocal::Temp((old(ctx).builder.next_local + 1) as u32)), Op::FreeLocal(old(ctx).builder.next_local), Op::FreeLocal((old(ctx).builder.next_local + 1) as u32)], 2),
        restores_by(old(ctx).builder, final(ctx).builder, 0),
{
    ctx.builder.emit(Op::ModrmResolve(modrm_byte));
    let addr = ctx.builder.set_new_local();
    ctx.builder.emit(Op::LoadAlignedI32(GlobalPointer::XmmLow(r)));
    let value = ctx.builder.set_new_local();
    ctx.builder.emit(Op::SafeWrite32(addr, value));
    ctx.builder.free_local(addr);
    ctx.builder.free_local(value);
    proof {
        assert(ctx.builder.code@ =~= old(ctx).builder.code@ + (seq![Op::ModrmResolve(modrm_byte), Op::SetNewLocal(old(ctx).builder.next_local), Op::LoadAlignedI32(GlobalPointer::XmmLow(r)), Op::SetNewLocal((old(ctx).builder.next_local + 1) as u32), Op::SafeWrite32(WasmLocal::Temp(old(ctx).builder.next_local), WasmLocal::Temp((old(ctx).builder.next_local + 1) as u32)), Op::FreeLocal(old(ctx).builder.next_local), Op::FreeLocal((old(ctx).builder.next_local + 1) as u32)]));
        assert(ctx.builder.frame().live =~= old(ctx).builder.frame().live);
        assert(ctx.builder.frame().live64 =~= old(ctx).builder.frame().live64);
        assert(ctx.builder.frame().ctrl =~= old(ctx).builder.frame().ctrl);
    }
}

/// `movd` of the low 32 bits of xmm register `r2` into register `r1`.
pub fn instr_660F7E_reg_jit(ctx: &mut JitContext, r1: u32, r2: u32)
    requires
        ready(old(ctx).builder, 8),
        r1 < 8,
    ensures
        emits(*old(ctx), *final(ctx), seq![Op::LoadAlignedI32(GlobalPointer::XmmLow(r2)), Op::SetReg32(r1)], 0),
        restores_by(old(ctx).builder, final(ctx).builder, 0),
{
    ctx.builder.emit(Op::LoadAlignedI32(GlobalPointer::XmmLow(r2)));
    ctx.builder.emit(Op::SetReg32(r1));
    proof {
        assert(ctx.builder.code@ =~= old(ctx).builder.code@ + seq![Op::LoadAlignedI32(GlobalPointer::XmmLow(r2)), Op::SetReg32(r1)]);
        assert(ctx.builder.frame().live =~= old(ctx).builder.frame().live);
        assert(ctx.builder.frame().live64 =~= old(ctx).builder.frame().live64);
        assert(ctx.builder.frame().ctrl =~= old(ctx).builder.frame().ctrl);
    }
}

/// `movq` from memory into xmm register `r`, clearing its high half.
pub fn instr_F30F7E_mem_jit(ctx: &mut JitContext, modrm_byte: u8, r: u32)
    requires
        ready(old(ctx).builder, 8),
    ensures
        emits(*old(ctx), *final(ctx), seq![Op::ConstGlobal(GlobalPointer::XmmLow(r)), Op::ModrmResolveSafeRead64(modrm_byte), Op::StoreAlignedI64(0), Op::ConstGlobal(GlobalPointer::XmmHigh(r)), Op::ConstI64(0), Op::StoreAlignedI64(0)], 0),
        restores_by(old(ctx).builder, final(ctx).builder, 0),
{
    ctx.builder.emit(Op::ConstGlobal(GlobalPointer::XmmLow(r)));
    ctx.builder.emit(Op::ModrmResolveSafeRead64(modrm_byte));
    ctx.builder.emit(Op::StoreAlignedI64(0));
    ctx.builder.emit(Op::ConstGlobal(GlobalPointer::XmmHigh(r)));
    ctx.builder.emit(Op::ConstI64(0));
    ctx.builder.emit(Op::StoreAlignedI64(0));
    proof {
        assert(ctx.builder.code@ =~= old(ctx).builder.code@ + seq![Op::ConstGlobal(GlobalPointer::XmmLow(r)), Op::ModrmResolveSafeRead64(modrm_byte), Op::StoreAlignedI64(0), Op::ConstGlobal(GlobalPointer::XmmHigh(r)), Op::ConstI64(0), Op::StoreAlignedI64(0)]);
        assert(ctx.builder.frame().live =~= old(ctx).builder.frame().live);
        assert(ctx.builder.frame().live64 =~= old(ctx).builder.frame().live64);
        assert(ctx.builder.frame().ctrl =~= old(ctx).builder.frame().ctrl);
    }
}

/// `movq` between xmm registers, through the runtime helper.
pub fn instr_F30F7E_reg_jit(ctx: &mut JitContext, r1: u32, r2: u32)
    requires
        ready(old(ctx).builder, 8),
    ensures
        emits(*old(ctx), *final(ctx), seq![Op::ConstI32(r1 as i32), Op::ConstI32(r2 as i32), Op::CallFn2("instr_F30F7E_reg")], 0),
        restores_by(old(ctx).builder, final(ctx).builder, 0),
{
    ctx.builder.emit(Op::ConstI32(r1 as i32));
    ctx.builder.emit(Op::ConstI32(r2 as i32));
    ctx.builder.emit(Op::CallFn2("instr_F30F7E_reg"));
    proof {
        assert(ctx.builder.code@ =~= old(ctx).builder.code@ + seq![Op::ConstI32(r1 as i32), Op::ConstI32(r2 as i32), Op::CallFn2("instr_F30F7E_reg")]);
        assert(ctx.builder.frame().live =~= old(ctx).builder.frame().live);
        assert(ctx.builder.frame().live64 =~= old(ctx).builder.frame().live64);
        assert(ctx.builder.frame().ctrl =~= old(ctx).builder.frame().ctrl);
    }
}

/// `movq` of the low 64 bits of xmm register `r` to memory.
pub fn instr_660FD6_mem_jit(ctx: &mut JitContext, modrm_byte: u8, r: u32)
    requires
        ready(old(ctx).builder, 8),
    ensures
        emits(*old(ctx), *final(ctx), seq![Op::ModrmResolve(modrm_byte), Op::SetNewLocal(old(ctx).builder.next_local), Op::ConstGlobal(GlobalPointer::XmmLow(r)), Op::LoadAlignedI64FromStack(0), Op::SetNewLocalI64((old(ctx).builder.next_local + 1) as u32), Op::SafeWrite64(WasmLocal::Temp(old(ctx).builder.next_local), (old(ctx).builder.next_local + 1) as u32), Op::FreeLocal(old(ctx).builder.next_local), Op::FreeLocalI64((old(ctx).builder.next_local + 1) as u32)], 2),
        restores_by(old(ctx).builder, final(ctx).builder, 0),
{
    ctx.builder.emit(Op::ModrmResolve(modrm_byte));
    let addr = ctx.builder.set_new_local();
    ctx.builder.emit(Op::ConstGlobal(GlobalPointer::XmmLow(r)));
    ctx.builder.emit(Op::LoadAlignedI64FromStack(0));
    let value = ctx.builder.set_new_local_i64();
    ctx.builder.emit(Op::SafeWrite64(addr, value.index));
    ctx.builder.free_local(addr);
    ctx.builder.free_local_i64(value);
    proof {
        assert(ctx.builder.code@ =~= old(ctx).builder.code@ + (seq![Op::ModrmResolve(modrm_byte), Op::SetNewLocal(old(ctx).builder.next_local), Op::ConstGlobal(GlobalPointer::XmmLow(r)), Op::LoadAlignedI64FromStack(0), Op::SetNewLocalI64((old(ctx).builder.next_local + 1) as u32), Op::SafeWrite64(WasmLocal::Temp(old(ctx).builder.next_local), (old(ctx).builder.next_local + 1) as u32), Op::FreeLocal(old(ctx).builder.next_local), Op::FreeLocalI64((old(ctx).builder.next_local + 1) as u32)]));
        assert(ctx.builder.frame().live =~= old(ctx).builder.frame().live);
        assert(ctx.builder.frame().live64 =~= old(ctx).builder.frame().live64);
        assert(ctx.builder.frame().ctrl =~= old(ctx).builder.frame().ctrl);
    }
}

/// `movq` between xmm registers, through the runtime helper.
pub fn instr_660FD6_reg_jit(ctx: &mut JitContext, r1: u32, r2: u32)
    requires
        ready(old(ctx).builder, 8),
    ensures
        emits(*old(ctx), *final(ctx), seq![Op::ConstI32(r1 as i32), Op::ConstI32(r2 as i32), Op::CallFn2("instr_660FD6_reg")], 0),
        restores_by(old(ctx).builder, final(ctx).builder, 0),
{
    ctx.builder.emit(Op::ConstI32(r1 as i32));
    ctx.builder.emit(Op::ConstI32(r2 as i32));
    ctx.builder.emit(Op::CallFn2("instr_660FD6_reg"));
    proof {
        assert(ctx.builder.code@ =~= old(ctx).builder.code@ + seq![Op::ConstI32(r1 as i32), Op::ConstI32(r2 as i32), Op::CallFn2("instr_660FD6_reg")]);
        assert(ctx.builder.frame().live =~= old(ctx).builder.frame().live);
        assert(ctx.builder.frame().live64 =~= old(ctx).builder.frame().live64);
        assert(ctx.builder.frame().ctrl =~= old(ctx).builder.frame().ctrl);
    }
}

/// Raises the invalid-opcode exception.
pub fn instr_0FF7_mem_jit(ctx: &mut JitContext, _modrm_byte: u8, _r: u32)
    requires
        ready(old(ctx).builder, 8),
    ensures
        emits(*old(ctx), *final(ctx), seq![Op::TriggerUd], 0),
        balanced_by(old(ctx).builder, final(ctx).builder, 0),
{
    ctx.builder.diverge(Op::TriggerUd);
    proof {
        assert(ctx.builder.code@ =~= old(ctx).builder.code@ + seq![Op::TriggerUd]);
        assert(ctx.builder.frame().live =~= old(ctx).builder.frame().live);
        assert(ctx.builder.frame().live64 =~= old(ctx).builder.frame().live64);
        assert(ctx.builder.frame().ctrl =~= old(ctx).builder.frame().ctrl);
    }
}

/// `maskmovq`: a masked store to DS:(E)DI, through the runtime helper; a page fault
/// leaves the generated code.
#[verifier::rlimit(40)]
pub fn instr_0FF7_reg_jit(ctx: &mut JitContext, r1: u32, r2: u32)
    requires
        ready(old(ctx).builder, 8),
    ensures
        emits(*old(ctx), *final(ctx), seq![Op::SetPreviousEipOffsetFromEipWithLowBits(old(ctx).start_of_current_instruction as i32 & 0xFFF), Op::MoveRegistersFromLocalsToMemory, Op::ConstI32(r1 as i32), Op::ConstI32(r2 as i32)] + (if old(ctx).cpu.address_size_32 { seq![Op::GetReg32(EDI)] } else { seq![Op::GetReg16(DI)] }) + seq![Op::AddSegOffset(DS), Op::CallFn3("maskmovq"), Op::MoveRegistersFromMemoryToLocals, Op::LoadU8(GlobalPointer::PageFault), Op::IfVoid, Op::DebugTrackJitExit(old(ctx).start_of_current_instruction), Op::MoveRegistersFromLocalsToMemory, Op::Return, Op::BlockEnd], 0),
        restores_by(old(ctx).builder, final(ctx).builder, 0),
{
    ctx.builder.emit(Op::SetPreviousEipOffsetFromEipWithLowBits(ctx.start_of_current_instruction as i32 & 0xFFF));
    ctx.builder.emit(Op::MoveRegistersFromLocalsToMemory);
    ctx.builder.emit(Op::ConstI32(r1 as i32));
    ctx.builder.emit(Op::ConstI32(r2 as i32));
    proof { assert(ctx.builder.code@ =~= old(ctx).builder.code@ + seq![Op::SetPreviousEipOffsetFromEipWithLowBits(old(ctx).start_of_current_instruction as i32 & 0xFFF), Op::MoveRegistersFromLocalsToMemory, Op::ConstI32(r1 as i32), Op::ConstI32(r2 as i32)]); }
    if ctx.cpu.asize_32() {
        ctx.builder.emit(Op::GetReg32(EDI));
        proof { assert(ctx.builder.code@ =~= old(ctx).builder.code@ + seq![Op::SetPreviousEipOffsetFromEipWithLowBits(old(ctx).start_of_current_instruction as i32 & 0xFFF), Op::MoveRegistersFromLocalsToMemory, Op::ConstI32(r1 as i32), Op::ConstI32(r2 as i32)] + seq![Op::GetReg32(EDI)]); }
    } else {
        ctx.builder.emit(Op::GetReg16(DI));
        proof { assert(ctx.builder.code@ =~= old(ctx).builder.code@ + seq![Op::SetPreviousEipOffsetFromEipWithLowBits(old(ctx).start_of_current_instruction as i32 & 0xFFF), Op::MoveRegistersFromLocalsToMemory, Op::ConstI32(r1 as i32), Op::ConstI32(r2 as i32)] + seq![Op::GetReg16(DI)]); }
    }
    proof { assert(ctx.builder.code@ =~= old(ctx).builder.code@ + seq![Op::SetPreviousEipOffsetFromEipWithLowBits(old(ctx).start_of_current_instruction as i32 & 0xFFF), Op::MoveRegistersFromLocalsToMemory, Op::ConstI32(r1 as i32), Op::ConstI32(r2 as i32)] + (if old(ctx).cpu.address_size_32 { seq![Op::GetReg32(EDI)] } else { seq![Op::GetReg16(DI)] })); }
    ctx.builder.emit(Op::AddSegOffset(DS));
    ctx.builder.emit(Op::CallFn3("maskmovq"));
    ctx.builder.emit(Op::MoveRegistersFromMemoryToLocals);
    ctx.builder.emit(Op::LoadU8(GlobalPointer::PageFault));
    ctx.builder.if_void();
    ctx.builder.emit(Op::DebugTrackJitExit(ctx.start_of_current_instruction));
    ctx.builder.emit(Op::MoveRegistersFromLocalsToMemory);
    ctx.builder.diverge(Op::Return);
    ctx.builder.block_end();
    proof {
        assert(ctx.builder.code@ =~= old(ctx).builder.code@ + (seq![Op::SetPreviousEipOffsetFromEipWithLowBits(old(ctx).start_of_current_instruction as i32 & 0xFFF), Op::MoveRegistersFromLocalsToMemory, Op::ConstI32(r1 as i32), Op::ConstI32(r2 as i32)] + (if old(ctx).cpu.address_size_32 { seq![Op::GetReg32(EDI)] } else { seq![Op::GetReg16(DI)] }) + seq![Op::AddSegOffset(DS), Op::CallFn3("maskmovq"), Op::MoveRegistersFromMemoryToLocals, Op::LoadU8(GlobalPointer::PageFault), Op::IfVoid, Op::DebugTrackJitExit(old(ctx).start_of_current_instruction), Op::MoveRegistersFromLocalsToMemory, Op::Return, Op::BlockEnd]));
        assert(ctx.builder.frame().live =~= old(ctx).builder.frame().live);
        assert(ctx.builder.frame().live64 =~= old(ctx).builder.frame().live64);
        assert(ctx.builder.frame().ctrl =~= old(ctx).builder.frame().ctrl);
    }
}

/// Raises the invalid-opcode exception.
pub fn instr_660FF7_mem_jit(ctx: &mut JitContext, _modrm_byte: u8, _r: u32)
    requires
        ready(old(ctx).builder, 8),
    ensures
        emits(*old(ctx), *final(ctx), seq![Op::TriggerUd], 0),
        balanced_by(old(ctx).builder, final(ctx).builder, 0),
{
    ctx.builder.diverge(Op::TriggerUd);
    proof {
        assert(ctx.builder.code@ =~= old(ctx).builder.code@ + seq![Op::TriggerUd]);
        assert(ctx.builder.frame().live =~= old(ctx).builder.frame().live);
        assert(ctx.builder.frame().live64 =~= old(ctx).builder.frame().live64);
        assert(ctx.builder.frame().ctrl =~= old(ctx).builder.frame().ctrl);
    }
}

/// `maskmovdqu`: a masked store to DS:(E)DI, through the runtime helper; a page fault
/// leaves the generated code.
#[verifier::rlimit(40)]
pub fn instr_660FF7_reg_jit(ctx: &mut JitContext, r1: u32, r2: u32)
    requires
        ready(old(ctx).builder, 8),
    ensures
        emits(*old(ctx), *final(ctx), seq![Op::SetPreviousEipOffsetFromEipWithLowBits(old(ctx).start_of_current_instruction as i32 & 0xFFF), Op::MoveRegistersFromLocalsToMemory, Op::ConstI32(r1 as i32), Op::ConstI32(r2 as i32)] + (if old(ctx).cpu.address_size_32 { seq![Op::GetReg32(EDI)] } else { seq![Op::GetReg16(DI)] }) + seq![Op::AddSegOffset(DS), Op::CallFn3("maskmovdqu"), Op::MoveRegistersFromMemoryToLocals, Op::LoadU8(GlobalPointer::PageFault), Op::IfVoid, Op::DebugTrackJitExit(old(ctx).start_of_current_instruction), Op::MoveRegistersFromLocalsToMemory, Op::Return, Op::BlockEnd], 0),
        restores_by(old(ctx).builder, final(ctx).builder, 0),
{
    ctx.builder.emit(Op::SetPreviousEipOffsetFromEipWithLowBits(ctx.start_of_current_instruction as i32 & 0xFFF));
    ctx.builder.emit(Op::MoveRegistersFromLocalsToMemory);
    ctx.builder.emit(Op::ConstI32(r1 as i32));
    ctx.builder.emit(Op::ConstI32(r2 as i32));
    proof { assert(ctx.builder.code@ =~= old(ctx).builder.code@ + seq![Op::SetPreviousEipOffsetFromEipWithLowBits(old(ctx).start_of_current_instruction as i32 & 0xFFF), Op::MoveRegistersFromLocalsToMemory, Op::ConstI32(r1 as i32), Op::ConstI32(r2 as i32)]); }
    if ctx.cpu.asize_32() {
        ctx.builder.emit(Op::GetReg32(EDI));
        proof { assert(ctx.builder.code@ =~= old(ctx).builder.code@ + seq![Op::SetPreviousEipOffsetFromEipWithLowBits(old(ctx).start_of_current_instruction as i32 & 0xFFF), Op::MoveRegistersFromLocalsToMemory, Op::ConstI32(r1 as i32), Op::ConstI32(r2 as i32)] + seq![Op::GetReg32(EDI)]); }
    } else {
        ctx.builder.emit(Op::GetReg16(DI));
        proof { assert(ctx.builder.code@ =~= old(ctx).builder.code@ + seq![Op::SetPreviousEipOffsetFromEipWithLowBits(old(ctx).start_of_current_instruction as i32 & 0xFFF), Op::MoveRegistersFromLocalsToMemory, Op::ConstI32(r1 as i32), Op::ConstI32(r2 as i32)] + seq![Op::GetReg16(DI)]); }
    }
    proof { assert(ctx.builder.code@ =~= old(ctx).builder.code@ + seq![Op::SetPreviousEipOffsetFromEipWithLowBits(old(ctx).start_of_current_instruction as i32 & 0xFFF), Op::MoveRegistersFromLocalsToMemory, Op::ConstI32(r1 as i32), Op::ConstI32(r2 as i32)] + (if old(ctx).cpu.address_size_32 { seq![Op::GetReg32(EDI)] } else { seq![Op::GetReg16(DI)] })); }
    ctx.builder.emit(Op::AddSegOffset(DS));
    ctx.builder.emit(Op::CallFn3("maskmovdqu"));
    ctx.builder.emit(Op::MoveRegistersFromMemoryToLocals);
    ctx.builder.emit(Op::LoadU8(GlobalPointer::PageFault));
    ctx.builder.if_void();
    ctx.builder.emit(Op::DebugTrackJitExit(ctx.start_of_current_instruction));
    ctx.builder.emit(Op::MoveRegistersFromLocalsToMemory);
    ctx.builder.diverge(Op::Return);
    ctx.builder.block_end();
    proof {
        assert(ctx.builder.code@ =~= old(ctx).builder.code@ + (seq![Op::SetPreviousEipOffsetFromEipWithLowBits(old(ctx).start_of_current_instruction as i32 & 0xFFF), Op::MoveRegistersFromLocalsToMemory, Op::ConstI32(r1 as i32), Op::ConstI32(r2 as i32)] + (if old(ctx).cpu.address_size_32 { seq![Op::GetReg32(EDI)] } else { seq![Op::GetReg16(DI)] }) + seq![Op::AddSegOffset(DS), Op::CallFn3("maskmovdqu"), Op::MoveRegistersFromMemoryToLocals, Op::LoadU8(GlobalPointer::PageFault), Op::IfVoid, Op::DebugTrackJitExit(old(ctx).start_of_current_instruction), Op::MoveRegistersFromLocalsToMemory, Op::Return, Op::BlockEnd]));
        assert(ctx.builder.frame().live =~= old(ctx).builder.frame().live);
        assert(ctx.builder.frame().live64 =~= old(ctx).builder.frame().live64);
        assert(ctx.builder.frame().ctrl =~= old(ctx).builder.frame().ctrl);
    }
}

} // verus!
