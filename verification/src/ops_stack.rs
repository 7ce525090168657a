//! Opcodes `40` to `7F`: increments, decrements, pushes, pops, signed multiplication
//! by an immediate, and the conditional branches (whose code the block generator emits).

use vstd::prelude::*;
use crate::op::{Op, ImmKind};
use crate::consts::{EAX, ECX, EDX, EBX, ESP, EBP, ESI, EDI, AX, CX, DX, BX, SP, BP, SI, DI};
use crate::builder::{JitContext, ready, emits, restores_by};
use crate::templates::{push16_reg_jit, push16_reg_jit_code, push32_reg_jit, push32_reg_jit_code, push16_imm_jit, push16_imm_jit_code, push32_imm_jit, push32_imm_jit_code, pop16_reg_jit, pop16_reg_jit_code, pop32_reg_jit, pop32_reg_jit_code, gen_inc16_r, gen_inc16_r_code, gen_dec16_r, gen_dec16_r_code, gen_inc32_r, gen_inc32_r_code, gen_dec32_r, gen_dec32_r_code};

verus! {

/// Increments AX.
pub fn instr16_40_jit(ctx: &mut JitContext)
    requires
        ready(old(ctx).builder, 8),
    ensures
        emits(*old(ctx), *final(ctx), gen_inc16_r_code(AX), 0),
        restores_by(old(ctx).builder, final(ctx).builder, 0),
{
    gen_inc16_r(ctx, AX);
    proof {
        assert(ctx.builder.code@ =~= old(ctx).builder.code@ + gen_inc16_r_code(AX));
        assert(ctx.builder.frame().live =~= old(ctx).builder.frame().live);
        assert(ctx.builder.frame().live64 =~= old(ctx).builder.frame().live64);
        assert(ctx.builder.frame().ctrl =~= old(ctx).builder.frame().ctrl);
    }
}

/// Increments EAX.
pub fn instr32_40_jit(ctx: &mut JitContext)
    requires
        ready(old(ctx).builder, 8),
    ensures
        emits(*old(ctx), *final(ctx), gen_inc32_r_code(EAX), 0),
        restores_by(old(ctx).builder, final(ctx).builder, 0),
{
    gen_inc32_r(ctx, EAX);
    proof {
        assert(ctx.builder.code@ =~= old(ctx).builder.code@ + gen_inc32_r_code(EAX));
        assert(ctx.builder.frame().live =~= old(ctx).builder.frame().live);
        assert(ctx.builder.frame().live64 =~= old(ctx).builder.frame().live64);
        assert(ctx.builder.frame().ctrl =~= old(ctx).builder.frame().ctrl);
    }
}

/// Increments CX.
pub fn instr16_41_jit(ctx: &mut JitContext)
    requires
        ready(old(ctx).builder, 8),
    ensures
        emits(*old(ctx), *final(ctx), gen_inc16_r_code(CX), 0),
        restores_by(old(ctx).builder, final(ctx).builder, 0),
{
    gen_inc16_r(ctx, CX);
    proof {
        assert(ctx.builder.code@ =~= old(ctx).builder.code@ + gen_inc16_r_code(CX));
        assert(ctx.builder.frame().live =~= old(ctx).builder.frame().live);
        assert(ctx.builder.frame().live64 =~= old(ctx).builder.frame().live64);
        assert(ctx.builder.frame().ctrl =~= old(ctx).builder.frame().ctrl);
    }
}

/// Increments ECX.
pub fn instr32_41_jit(ctx: &mut JitContext)
    requires
        ready(old(ctx).builder, 8),
    ensures
        emits(*old(ctx), *final(ctx), gen_inc32_r_code(ECX), 0),
        restores_by(old(ctx).builder, final(ctx).builder, 0),
{
    gen_inc32_r(ctx, ECX);
    proof {
        assert(ctx.builder.code@ =~= old(ctx).builder.code@ + gen_inc32_r_code(ECX));
        assert(ctx.builder.frame().live =~= old(ctx).builder.frame().live);
        assert(ctx.builder.frame().live64 =~= old(ctx).builder.frame().live64);
        assert(ctx.builder.frame().ctrl =~= old(ctx).builder.frame().ctrl);
    }
}

/// Increments DX.
pub fn instr16_42_jit(ctx: &mut JitContext)
    requires
        ready(old(ctx).builder, 8),
    ensures
        emits(*old(ctx), *final(ctx), gen_inc16_r_code(DX), 0),
        restores_by(old(ctx).builder, final(ctx).builder, 0),
{
    gen_inc16_r(ctx, DX);
    proof {
        assert(ctx.builder.code@ =~= old(ctx).builder.code@ + gen_inc16_r_code(DX));
        assert(ctx.builder.frame().live =~= old(ctx).builder.frame().live);
        assert(ctx.builder.frame().live64 =~= old(ctx).builder.frame().live64);
        assert(ctx.builder.frame().ctrl =~= old(ctx).builder.frame().ctrl);
    }
}

/// Increments EDX.
pub fn instr32_42_jit(ctx: &mut JitContext)
    requires
        ready(old(ctx).builder, 8),
    ensures
        emits(*old(ctx), *final(ctx), gen_inc32_r_code(EDX), 0),
        restores_by(old(ctx).builder, final(ctx).builder, 0),
{
    gen_inc32_r(ctx, EDX);
    proof {
        assert(ctx.builder.code@ =~= old(ctx).builder.code@ + gen_inc32_r_code(EDX));
        assert(ctx.builder.frame().live =~= old(ctx).builder.frame().live);
        assert(ctx.builder.frame().live64 =~= old(ctx).builder.frame().live64);
        assert(ctx.builder.frame().ctrl =~= old(ctx).builder.frame().ctrl);
    }
}

/// Increments BX.
pub fn instr16_43_jit(ctx: &mut JitContext)
    requires
        ready(old(ctx).builder, 8),
    ensures
        emits(*old(ctx), *final(ctx), gen_inc16_r_code(BX), 0),
        restores_by(old(ctx).builder, final(ctx).builder, 0),
{
    gen_inc16_r(ctx, BX);
    proof {
        assert(ctx.builder.code@ =~= old(ctx).builder.code@ + gen_inc16_r_code(BX));
        assert(ctx.builder.frame().live =~= old(ctx).builder.frame().live);
        assert(ctx.builder.frame().live64 =~= old(ctx).builder.frame().live64);
        assert(ctx.builder.frame().ctrl =~= old(ctx).builder.frame().ctrl);
    }
}

/// Increments EBX.
pub fn instr32_43_jit(ctx: &mut JitContext)
    requires
        ready(old(ctx).builder, 8),
    ensures
        emits(*old(ctx), *final(ctx), gen_inc32_r_code(EBX), 0),
        restores_by(old(ctx).builder, final(ctx).builder, 0),
{
    gen_inc32_r(ctx, EBX);
    proof {
        assert(ctx.builder.code@ =~= old(ctx).builder.code@ + gen_inc32_r_code(EBX));
        assert(ctx.builder.frame().live =~= old(ctx).builder.frame().live);
        assert(ctx.builder.frame().live64 =~= old(ctx).builder.frame().live64);
        assert(ctx.builder.frame().ctrl =~= old(ctx).builder.frame().ctrl);
    }
}

/// Increments SP.
pub fn instr16_44_jit(ctx: &mut JitContext)
    requires
        ready(old(ctx).builder, 8),
    ensures
        emits(*old(ctx), *final(ctx), gen_inc16_r_code(SP), 0),
        restores_by(old(ctx).builder, final(ctx).builder, 0),
{
    gen_inc16_r(ctx, SP);
    proof {
        assert(ctx.builder.code@ =~= old(ctx).builder.code@ + gen_inc16_r_code(SP));
        assert(ctx.builder.frame().live =~= old(ctx).builder.frame().live);
        assert(ctx.builder.frame().live64 =~= old(ctx).builder.frame().live64);
        assert(ctx.builder.frame().ctrl =~= old(ctx).builder.frame().ctrl);
    }
}

/// Increments ESP.
pub fn instr32_44_jit(ctx: &mut JitContext)
    requires
        ready(old(ctx).builder, 8),
    ensures
        emits(*old(ctx), *final(ctx), gen_inc32_r_code(ESP), 0),
        restores_by(old(ctx).builder, final(ctx).builder, 0),
{
    gen_inc32_r(ctx, ESP);
    proof {
        assert(ctx.builder.code@ =~= old(ctx).builder.code@ + gen_inc32_r_code(ESP));
        assert(ctx.builder.frame().live =~= old(ctx).builder.frame().live);
        assert(ctx.builder.frame().live64 =~= old(ctx).builder.frame().live64);
        assert(ctx.builder.frame().ctrl =~= old(ctx).builder.frame().ctrl);
    }
}

/// Increments BP.
pub fn instr16_45_jit(ctx: &mut JitContext)
    requires
        ready(old(ctx).builder, 8),
    ensures
        emits(*old(ctx), *final(ctx), gen_inc16_r_code(BP), 0),
        restores_by(old(ctx).builder, final(ctx).builder, 0),
{
    gen_inc16_r(ctx, BP);
    proof {
        assert(ctx.builder.code@ =~= old(ctx).builder.code@ + gen_inc16_r_code(BP));
        assert(ctx.builder.frame().live =~= old(ctx).builder.frame().live);
        assert(ctx.builder.frame().live64 =~= old(ctx).builder.frame().live64);
        assert(ctx.builder.frame().ctrl =~= old(ctx).builder.frame().ctrl);
    }
}

/// Increments EBP.
pub fn instr32_45_jit(ctx: &mut JitContext)
    requires
        ready(old(ctx).builder, 8),
    ensures
        emits(*old(ctx), *final(ctx), gen_inc32_r_code(EBP), 0),
        restores_by(old(ctx).builder, final(ctx).builder, 0),
{
    gen_inc32_r(ctx, EBP);
    proof {
        assert(ctx.builder.code@ =~= old(ctx).builder.code@ + gen_inc32_r_code(EBP));
        assert(ctx.builder.frame().live =~= old(ctx).builder.frame().live);
        assert(ctx.builder.frame().live64 =~= old(ctx).builder.frame().live64);
        assert(ctx.builder.frame().ctrl =~= old(ctx).builder.frame().ctrl);
    }
}

/// Increments SI.
pub fn instr16_46_jit(ctx: &mut JitContext)
    requires
        ready(old(ctx).builder, 8),
    ensures
        emits(*old(ctx), *final(ctx), gen_inc16_r_code(SI), 0),
        restores_by(old(ctx).builder, final(ctx).builder, 0),
{
    gen_inc16_r(ctx, SI);
    proof {
        assert(ctx.builder.code@ =~= old(ctx).builder.code@ + gen_inc16_r_code(SI));
        assert(ctx.builder.frame().live =~= old(ctx).builder.frame().live);
        assert(ctx.builder.frame().live64 =~= old(ctx).builder.frame().live64);
        assert(ctx.builder.frame().ctrl =~= old(ctx).builder.frame().ctrl);
    }
}

/// Increments ESI.
pub fn instr32_46_jit(ctx: &mut JitContext)
    requires
        ready(old(ctx).builder, 8),
    ensures
        emits(*old(ctx), *final(ctx), gen_inc32_r_code(ESI), 0),
        restores_by(old(ctx).builder, final(ctx).builder, 0),
{
    gen_inc32_r(ctx, ESI);
    proof {
        assert(ctx.builder.code@ =~= old(ctx).builder.code@ + gen_inc32_r_code(ESI));
        assert(ctx.builder.frame().live =~= old(ctx).builder.frame().live);
        assert(ctx.builder.frame().live64 =~= old(ctx).builder.frame().live64);
        assert(ctx.builder.frame().ctrl =~= old(ctx).builder.frame().ctrl);
    }
}

/// Increments DI.
pub fn instr16_47_jit(ctx: &mut JitContext)
    requires
        ready(old(ctx).builder, 8),
    ensures
        emits(*old(ctx), *final(ctx), gen_inc16_r_code(DI), 0),
        restores_by(old(ctx).builder, final(ctx).builder, 0),
{
    gen_inc16_r(ctx, DI);
    proof {
        assert(ctx.builder.code@ =~= old(ctx).builder.code@ + gen_inc16_r_code(DI));
        assert(ctx.builder.frame().live =~= old(ctx).builder.frame().live);
        assert(ctx.builder.frame().live64 =~= old(ctx).builder.frame().live64);
        assert(ctx.builder.frame().ctrl =~= old(ctx).builder.frame().ctrl);
    }
}

/// Increments EDI.
pub fn instr32_47_jit(ctx: &mut JitContext)
    requires
        ready(old(ctx).builder, 8),
    ensures
        emits(*old(ctx), *final(ctx), gen_inc32_r_code(EDI), 0),
        restores_by(old(ctx).builder, final(ctx).builder, 0),
{
    gen_inc32_r(ctx, EDI);
    proof {
        assert(ctx.builder.code@ =~= old(ctx).builder.code@ + gen_inc32_r_code(EDI));
        assert(ctx.builder.frame().live =~= old(ctx).builder.frame().live);
        assert(ctx.builder.frame().live64 =~= old(ctx).builder.frame().live64);
        assert(ctx.builder.frame().ctrl =~= old(ctx).builder.frame().ctrl);
    }
}

/// Decrements AX.
pub fn instr16_48_jit(ctx: &mut JitContext)
    requires
        ready(old(ctx).builder, 8),
    ensures
        emits(*old(ctx), *final(ctx), gen_dec16_r_code(AX), 0),
        restores_by(old(ctx).builder, final(ctx).builder, 0),
{
    gen_dec16_r(ctx, AX);
    proof {
        assert(ctx.builder.code@ =~= old(ctx).builder.code@ + gen_dec16_r_code(AX));
        assert(ctx.builder.frame().live =~= old(ctx).builder.frame().live);
        assert(ctx.builder.frame().live64 =~= old(ctx).builder.frame().live64);
        assert(ctx.builder.frame().ctrl =~= old(ctx).builder.frame().ctrl);
    }
}

/// Decrements EAX.
pub fn instr32_48_jit(ctx: &mut JitContext)
    requires
        ready(old(ctx).builder, 8),
    ensures
        emits(*old(ctx), *final(ctx), gen_dec32_r_code(EAX), 0),
        restores_by(old(ctx).builder, final(ctx).builder, 0),
{
    gen_dec32_r(ctx, EAX);
    proof {
        assert(ctx.builder.code@ =~= old(ctx).builder.code@ + gen_dec32_r_code(EAX));
        assert(ctx.builder.frame().live =~= old(ctx).builder.frame().live);
        assert(ctx.builder.frame().live64 =~= old(ctx).builder.frame().live64);
        assert(ctx.builder.frame().ctrl =~= old(ctx).builder.frame().ctrl);
    }
}

/// Decrements CX.
pub fn instr16_49_jit(ctx: &mut JitContext)
    requires
        ready(old(ctx).builder, 8),
    ensures
        emits(*old(ctx), *final(ctx), gen_dec16_r_code(CX), 0),
        restores_by(old(ctx).builder, final(ctx).builder, 0),
{
    gen_dec16_r(ctx, CX);
    proof {
        assert(ctx.builder.code@ =~= old(ctx).builder.code@ + gen_dec16_r_code(CX));
        assert(ctx.builder.frame().live =~= old(ctx).builder.frame().live);
        assert(ctx.builder.frame().live64 =~= old(ctx).builder.frame().live64);
        assert(ctx.builder.frame().ctrl =~= old(ctx).builder.frame().ctrl);
    }
}

/// Decrements ECX.
pub fn instr32_49_jit(ctx: &mut JitContext)
    requires
        ready(old(ctx).builder, 8),
    ensures
        emits(*old(ctx), *final(ctx), gen_dec32_r_code(ECX), 0),
        restores_by(old(ctx).builder, final(ctx).builder, 0),
{
    gen_dec32_r(ctx, ECX);
    proof {
        assert(ctx.builder.code@ =~= old(ctx).builder.code@ + gen_dec32_r_code(ECX));
        assert(ctx.builder.frame().live =~= old(ctx).builder.frame().live);
        assert(ctx.builder.frame().live64 =~= old(ctx).builder.frame().live64);
        assert(ctx.builder.frame().ctrl =~= old(ctx).builder.frame().ctrl);
    }
}

/// Decrements DX.
pub fn instr16_4A_jit(ctx: &mut JitContext)
    requires
        ready(old(ctx).builder, 8),
    ensures
        emits(*old(ctx), *final(ctx), gen_dec16_r_code(DX), 0),
        restores_by(old(ctx).builder, final(ctx).builder, 0),
{
    gen_dec16_r(ctx, DX);
    proof {
        assert(ctx.builder.code@ =~= old(ctx).builder.code@ + gen_dec16_r_code(DX));
        assert(ctx.builder.frame().live =~= old(ctx).builder.frame().live);
        assert(ctx.builder.frame().live64 =~= old(ctx).builder.frame().live64);
        assert(ctx.builder.frame().ctrl =~= old(ctx).builder.frame().ctrl);
    }
}

/// Decrements EDX.
pub fn instr32_4A_jit(ctx: &mut JitContext)
    requires
        ready(old(ctx).builder, 8),
    ensures
        emits(*old(ctx), *final(ctx), gen_dec32_r_code(EDX), 0),
        restores_by(old(ctx).builder, final(ctx).builder, 0),
{
    gen_dec32_r(ctx, EDX);
    proof {
        assert(ctx.builder.code@ =~= old(ctx).builder.code@ + gen_dec32_r_code(EDX));
        assert(ctx.builder.frame().live =~= old(ctx).builder.frame().live);
        assert(ctx.builder.frame().live64 =~= old(ctx).builder.frame().live64);
        assert(ctx.builder.frame().ctrl =~= old(ctx).builder.frame().ctrl);
    }
}

/// Decrements BX.
pub fn instr16_4B_jit(ctx: &mut JitContext)
    requires
        ready(old(ctx).builder, 8),
    ensures
        emits(*old(ctx), *final(ctx), gen_dec16_r_code(BX), 0),
        restores_by(old(ctx).builder, final(ctx).builder, 0),
{
    gen_dec16_r(ctx, BX);
    proof {
        assert(ctx.builder.code@ =~= old(ctx).builder.code@ + gen_dec16_r_code(BX));
        assert(ctx.builder.frame().live =~= old(ctx).builder.frame().live);
        assert(ctx.builder.frame().live64 =~= old(ctx).builder.frame().live64);
        assert(ctx.builder.frame().ctrl =~= old(ctx).builder.frame().ctrl);
    }
}

/// Decrements EBX.
pub fn instr32_4B_jit(ctx: &mut JitContext)
    requires
        ready(old(ctx).builder, 8),
    ensures
        emits(*old(ctx), *final(ctx), gen_dec32_r_code(EBX), 0),
        restores_by(old(ctx).builder, final(ctx).builder, 0),
{
    gen_dec32_r(ctx, EBX);
    proof {
        assert(ctx.builder.code@ =~= old(ctx).builder.code@ + gen_dec32_r_code(EBX));
        assert(ctx.builder.frame().live =~= old(ctx).builder.frame().live);
        assert(ctx.builder.frame().live64 =~= old(ctx).builder.frame().live64);
        assert(ctx.builder.frame().ctrl =~= old(ctx).builder.frame().ctrl);
    }
}

/// Decrements SP.
pub fn instr16_4C_jit(ctx: &mut JitContext)
    requires
        ready(old(ctx).builder, 8),
    ensures
        emits(*old(ctx), *final(ctx), gen_dec16_r_code(SP), 0),
        restores_by(old(ctx).builder, final(ctx).builder, 0),
{
    gen_dec16_r(ctx, SP);
    proof {
        assert(ctx.builder.code@ =~= old(ctx).builder.code@ + gen_dec16_r_code(SP));
        assert(ctx.builder.frame().live =~= old(ctx).builder.frame().live);
        assert(ctx.builder.frame().live64 =~= old(ctx).builder.frame().live64);
        assert(ctx.builder.frame().ctrl =~= old(ctx).builder.frame().ctrl);
    }
}

/// Decrements ESP.
pub fn instr32_4C_jit(ctx: &mut JitContext)
    requires
        ready(old(ctx).builder, 8),
    ensures
        emits(*old(ctx), *final(ctx), gen_dec32_r_code(ESP), 0),
        restores_by(old(ctx).builder, final(ctx).builder, 0),
{
    gen_dec32_r(ctx, ESP);
    proof {
        assert(ctx.builder.code@ =~= old(ctx).builder.code@ + gen_dec32_r_code(ESP));
        assert(ctx.builder.frame().live =~= old(ctx).builder.frame().live);
        assert(ctx.builder.frame().live64 =~= old(ctx).builder.frame().live64);
        assert(ctx.builder.frame().ctrl =~= old(ctx).builder.frame().ctrl);
    }
}

/// Decrements BP.
pub fn instr16_4D_jit(ctx: &mut JitContext)
    requires
        ready(old(ctx).builder, 8),
    ensures
        emits(*old(ctx), *final(ctx), gen_dec16_r_code(BP), 0),
        restores_by(old(ctx).builder, final(ctx).builder, 0),
{
    gen_dec16_r(ctx, BP);
    proof {
        assert(ctx.builder.code@ =~= old(ctx).builder.code@ + gen_dec16_r_code(BP));
        assert(ctx.builder.frame().live =~= old(ctx).builder.frame().live);
        assert(ctx.builder.frame().live64 =~= old(ctx).builder.frame().live64);
        assert(ctx.builder.frame().ctrl =~= old(ctx).builder.frame().ctrl);
    }
}

/// Decrements EBP.
pub fn instr32_4D_jit(ctx: &mut JitContext)
    requires
        ready(old(ctx).builder, 8),
    ensures
        emits(*old(ctx), *final(ctx), gen_dec32_r_code(EBP), 0),
        restores_by(old(ctx).builder, final(ctx).builder, 0),
{
    gen_dec32_r(ctx, EBP);
    proof {
        assert(ctx.builder.code@ =~= old(ctx).builder.code@ + gen_dec32_r_code(EBP));
        assert(ctx.builder.frame().live =~= old(ctx).builder.frame().live);
        assert(ctx.builder.frame().live64 =~= old(ctx).builder.frame().live64);
        assert(ctx.builder.frame().ctrl =~= old(ctx).builder.frame().ctrl);
    }
}

/// Decrements SI.
pub fn instr16_4E_jit(ctx: &mut JitContext)
    requires
        ready(old(ctx).builder, 8),
    ensures
        emits(*old(ctx), *final(ctx), gen_dec16_r_code(SI), 0),
        restores_by(old(ctx).builder, final(ctx).builder, 0),
{
    gen_dec16_r(ctx, SI);
    proof {
        assert(ctx.builder.code@ =~= old(ctx).builder.code@ + gen_dec16_r_code(SI));
        assert(ctx.builder.frame().live =~= old(ctx).builder.frame().live);
        assert(ctx.builder.frame().live64 =~= old(ctx).builder.frame().live64);
        assert(ctx.builder.frame().ctrl =~= old(ctx).builder.frame().ctrl);
    }
}

/// Decrements ESI.
pub fn instr32_4E_jit(ctx: &mut JitContext)
    requires
        ready(old(ctx).builder, 8),
    ensures
        emits(*old(ctx), *final(ctx), gen_dec32_r_code(ESI), 0),
        restores_by(old(ctx).builder, final(ctx).builder, 0),
{
    gen_dec32_r(ctx, ESI);
    proof {
        assert(ctx.builder.code@ =~= old(ctx).builder.code@ + gen_dec32_r_code(ESI));
        assert(ctx.builder.frame().live =~= old(ctx).builder.frame().live);
        assert(ctx.builder.frame().live64 =~= old(ctx).builder.frame().live64);
        assert(ctx.builder.frame().ctrl =~= old(ctx).builder.frame().ctrl);
    }
}

/// Decrements DI.
pub fn instr16_4F_jit(ctx: &mut JitContext)
    requires
        ready(old(ctx).builder, 8),
    ensures
        emits(*old(ctx), *final(ctx), gen_dec16_r_code(DI), 0),
        restores_by(old(ctx).builder, final(ctx).builder, 0),
{
    gen_dec16_r(ctx, DI);
    proof {
        assert(ctx.builder.code@ =~= old(ctx).builder.code@ + gen_dec16_r_code(DI));
        assert(ctx.builder.frame().live =~= old(ctx).builder.frame().live);
        assert(ctx.builder.frame().live64 =~= old(ctx).builder.frame().live64);
        assert(ctx.builder.frame().ctrl =~= old(ctx).builder.frame().ctrl);
    }
}

/// Decrements EDI.
pub fn instr32_4F_jit(ctx: &mut JitContext)
    requires
        ready(old(ctx).builder, 8),
    ensures
        emits(*old(ctx), *final(ctx), gen_dec32_r_code(EDI), 0),
        restores_by(old(ctx).builder, final(ctx).builder, 0),
{
    gen_dec32_r(ctx, EDI);
    proof {
        assert(ctx.builder.code@ =~= old(ctx).builder.code@ + gen_dec32_r_code(EDI));
        assert(ctx.builder.frame().live =~= old(ctx).builder.frame().live);
        assert(ctx.builder.frame().live64 =~= old(ctx).builder.frame().live64);
        assert(ctx.builder.frame().ctrl =~= old(ctx).builder.frame().ctrl);
    }
}

/// Pushes AX.
pub fn instr16_50_jit(ctx: &mut JitContext)
    requires
        ready(old(ctx).builder, 8),
    ensures
        emits(*old(ctx), *final(ctx), push16_reg_jit_code(AX, old(ctx).builder.next_local), 1),
        restores_by(old(ctx).builder, final(ctx).builder, 0),
{
    push16_reg_jit(ctx, AX);
    proof {
        assert(ctx.builder.code@ =~= old(ctx).builder.code@ + push16_reg_jit_code(AX, old(ctx).builder.next_local));
        assert(ctx.builder.frame().live =~= old(ctx).builder.frame().live);
        assert(ctx.builder.frame().live64 =~= old(ctx).builder.frame().live64);
        assert(ctx.builder.frame().ctrl =~= old(ctx).builder.frame().ctrl);
    }
}

/// Pushes EAX.
pub fn instr32_50_jit(ctx: &mut JitContext)
    requires
        ready(old(ctx).builder, 8),
    ensures
        emits(*old(ctx), *final(ctx), push32_reg_jit_code(EAX), 0),
        restores_by(old(ctx).builder, final(ctx).builder, 0),
{
    push32_reg_jit(ctx, EAX);
    proof {
        assert(ctx.builder.code@ =~= old(ctx).builder.code@ + push32_reg_jit_code(EAX));
        assert(ctx.builder.frame().live =~= old(ctx).builder.frame().live);
        assert(ctx.builder.frame().live64 =~= old(ctx).builder.frame().live64);
        assert(ctx.builder.frame().ctrl =~= old(ctx).builder.frame().ctrl);
    }
}

/// Pushes CX.
pub fn instr16_51_jit(ctx: &mut JitContext)
    requires
        ready(old(ctx).builder, 8),
    ensures
        emits(*old(ctx), *final(ctx), push16_reg_jit_code(CX, old(ctx).builder.next_local), 1),
        restores_by(old(ctx).builder, final(ctx).builder, 0),
{
    push16_reg_jit(ctx, CX);
    proof {
        assert(ctx.builder.code@ =~= old(ctx).builder.code@ + push16_reg_jit_code(CX, old(ctx).builder.next_local));
        assert(ctx.builder.frame().live =~= old(ctx).builder.frame().live);
        assert(ctx.builder.frame().live64 =~= old(ctx).builder.frame().live64);
        assert(ctx.builder.frame().ctrl =~= old(ctx).builder.frame().ctrl);
    }
}

/// Pushes ECX.
pub fn instr32_51_jit(ctx: &mut JitContext)
    requires
        ready(old(ctx).builder, 8),
    ensures
        emits(*old(ctx), *final(ctx), push32_reg_jit_code(ECX), 0),
        restores_by(old(ctx).builder, final(ctx).builder, 0),
{
    push32_reg_jit(ctx, ECX);
    proof {
        assert(ctx.builder.code@ =~= old(ctx).builder.code@ + push32_reg_jit_code(ECX));
        assert(ctx.builder.frame().live =~= old(ctx).builder.frame().live);
        assert(ctx.builder.frame().live64 =~= old(ctx).builder.frame().live64);
        assert(ctx.builder.frame().ctrl =~= old(ctx).builder.frame().ctrl);
    }
}

/// Pushes DX.
pub fn instr16_52_jit(ctx: &mut JitContext)
    requires
        ready(old(ctx).builder, 8),
    ensures
        emits(*old(ctx), *final(ctx), push16_reg_jit_code(DX, old(ctx).builder.next_local), 1),
        restores_by(old(ctx).builder, final(ctx).builder, 0),
{
    push16_reg_jit(ctx, DX);
    proof {
        assert(ctx.builder.code@ =~= old(ctx).builder.code@ + push16_reg_jit_code(DX, old(ctx).builder.next_local));
        assert(ctx.builder.frame().live =~= old(ctx).builder.frame().live);
        assert(ctx.builder.frame().live64 =~= old(ctx).builder.frame().live64);
        assert(ctx.builder.frame().ctrl =~= old(ctx).builder.frame().ctrl);
    }
}

/// Pushes EDX.
pub fn instr32_52_jit(ctx: &mut JitContext)
    requires
        ready(old(ctx).builder, 8),
    ensures
        emits(*old(ctx), *final(ctx), push32_reg_jit_code(EDX), 0),
        restores_by(old(ctx).builder, final(ctx).builder, 0),
{
    push32_reg_jit(ctx, EDX);
    proof {
        assert(ctx.builder.code@ =~= old(ctx).builder.code@ + push32_reg_jit_code(EDX));
        assert(ctx.builder.frame().live =~= old(ctx).builder.frame().live);
        assert(ctx.builder.frame().live64 =~= old(ctx).builder.frame().live64);
        assert(ctx.builder.frame().ctrl =~= old(ctx).builder.frame().ctrl);
    }
}

/// Pushes BX.
pub fn instr16_53_jit(ctx: &mut JitContext)
    requires
        ready(old(ctx).builder, 8),
    ensures
        emits(*old(ctx), *final(ctx), push16_reg_jit_code(BX, old(ctx).builder.next_local), 1),
        restores_by(old(ctx).builder, final(ctx).builder, 0),
{
    push16_reg_jit(ctx, BX);
    proof {
        assert(ctx.builder.code@ =~= old(ctx).builder.code@ + push16_reg_jit_code(BX, old(ctx).builder.next_local));
        assert(ctx.builder.frame().live =~= old(ctx).builder.frame().live);
        assert(ctx.builder.frame().live64 =~= old(ctx).builder.frame().live64);
        assert(ctx.builder.frame().ctrl =~= old(ctx).builder.frame().ctrl);
    }
}

/// Pushes EBX.
pub fn instr32_53_jit(ctx: &mut JitContext)
    requires
        ready(old(ctx).builder, 8),
    ensures
        emits(*old(ctx), *final(ctx), push32_reg_jit_code(EBX), 0),
        restores_by(old(ctx).builder, final(ctx).builder, 0),
{
    push32_reg_jit(ctx, EBX);
    proof {
        assert(ctx.builder.code@ =~= old(ctx).builder.code@ + push32_reg_jit_code(EBX));
        assert(ctx.builder.frame().live =~= old(ctx).builder.frame().live);
        assert(ctx.builder.frame().live64 =~= old(ctx).builder.frame().live64);
        assert(ctx.builder.frame().ctrl =~= old(ctx).builder.frame().ctrl);
    }
}

/// Pushes SP.
pub fn instr16_54_jit(ctx: &mut JitContext)
    requires
        ready(old(ctx).builder, 8),
    ensures
        emits(*old(ctx), *final(ctx), push16_reg_jit_code(SP, old(ctx).builder.next_local), 1),
        restores_by(old(ctx).builder, final(ctx).builder, 0),
{
    push16_reg_jit(ctx, SP);
    proof {
        assert(ctx.builder.code@ =~= old(ctx).builder.code@ + push16_reg_jit_code(SP, old(ctx).builder.next_local));
        assert(ctx.builder.frame().live =~= old(ctx).builder.frame().live);
        assert(ctx.builder.frame().live64 =~= old(ctx).builder.frame().live64);
        assert(ctx.builder.frame().ctrl =~= old(ctx).builder.frame().ctrl);
    }
}

/// Pushes ESP.
pub fn instr32_54_jit(ctx: &mut JitContext)
    requires
        ready(old(ctx).builder, 8),
    ensures
        emits(*old(ctx), *final(ctx), push32_reg_jit_code(ESP), 0),
        restores_by(old(ctx).builder, final(ctx).builder, 0),
{
    push32_reg_jit(ctx, ESP);
    proof {
        assert(ctx.builder.code@ =~= old(ctx).builder.code@ + push32_reg_jit_code(ESP));
        assert(ctx.builder.frame().live =~= old(ctx).builder.frame().live);
        assert(ctx.builder.frame().live64 =~= old(ctx).builder.frame().live64);
        assert(ctx.builder.frame().ctrl =~= old(ctx).builder.frame().ctrl);
    }
}

/// Pushes BP.
pub fn instr16_55_jit(ctx: &mut JitContext)
    requires
        ready(old(ctx).builder, 8),
    ensures
        emits(*old(ctx), *final(ctx), push16_reg_jit_code(BP, old(ctx).builder.next_local), 1),
        restores_by(old(ctx).builder, final(ctx).builder, 0),
{
    push16_reg_jit(ctx, BP);
    proof {
        assert(ctx.builder.code@ =~= old(ctx).builder.code@ + push16_reg_jit_code(BP, old(ctx).builder.next_local));
        assert(ctx.builder.frame().live =~= old(ctx).builder.frame().live);
        assert(ctx.builder.frame().live64 =~= old(ctx).builder.frame().live64);
        assert(ctx.builder.frame().ctrl =~= old(ctx).builder.frame().ctrl);
    }
}

/// Pushes EBP.
pub fn instr32_55_jit(ctx: &mut JitContext)
    requires
        ready(old(ctx).builder, 8),
    ensures
        emits(*old(ctx), *final(ctx), push32_reg_jit_code(EBP), 0),
        restores_by(old(ctx).builder, final(ctx).builder, 0),
{
    push32_reg_jit(ctx, EBP);
    proof {
        assert(ctx.builder.code@ =~= old(ctx).builder.code@ + push32_reg_jit_code(EBP));
        assert(ctx.builder.frame().live =~= old(ctx).builder.frame().live);
        assert(ctx.builder.frame().live64 =~= old(ctx).builder.frame().live64);
        assert(ctx.builder.frame().ctrl =~= old(ctx).builder.frame().ctrl);
    }
}

/// Pushes SI.
pub fn instr16_56_jit(ctx: &mut JitContext)
    requires
        ready(old(ctx).builder, 8),
    ensures
        emits(*old(ctx), *final(ctx), push16_reg_jit_code(SI, old(ctx).builder.next_local), 1),
        restores_by(old(ctx).builder, final(ctx).builder, 0),
{
    push16_reg_jit(ctx, SI);
    proof {
        assert(ctx.builder.code@ =~= old(ctx).builder.code@ + push16_reg_jit_code(SI, old(ctx).builder.next_local));
        assert(ctx.builder.frame().live =~= old(ctx).builder.frame().live);
        assert(ctx.builder.frame().live64 =~= old(ctx).builder.frame().live64);
        assert(ctx.builder.frame().ctrl =~= old(ctx).builder.frame().ctrl);
    }
}

/// Pushes ESI.
pub fn instr32_56_jit(ctx: &mut JitContext)
    requires
        ready(old(ctx).builder, 8),
    ensures
        emits(*old(ctx), *final(ctx), push32_reg_jit_code(ESI), 0),
        restores_by(old(ctx).builder, final(ctx).builder, 0),
{
    push32_reg_jit(ctx, ESI);
    proof {
        assert(ctx.builder.code@ =~= old(ctx).builder.code@ + push32_reg_jit_code(ESI));
        assert(ctx.builder.frame().live =~= old(ctx).builder.frame().live);
        assert(ctx.builder.frame().live64 =~= old(ctx).builder.frame().live64);
        assert(ctx.builder.frame().ctrl =~= old(ctx).builder.frame().ctrl);
    }
}

/// Pushes DI.
pub fn instr16_57_jit(ctx: &mut JitContext)
    requires
        ready(old(ctx).builder, 8),
    ensures
        emits(*old(ctx), *final(ctx), push16_reg_jit_code(DI, old(ctx).builder.next_local), 1),
        restores_by(old(ctx).builder, final(ctx).builder, 0),
{
    push16_reg_jit(ctx, DI);
    proof {
        assert(ctx.builder.code@ =~= old(ctx).builder.code@ + push16_reg_jit_code(DI, old(ctx).builder.next_local));
        assert(ctx.builder.frame().live =~= old(ctx).builder.frame().live);
        assert(ctx.builder.frame().live64 =~= old(ctx).builder.frame().live64);
        assert(ctx.builder.frame().ctrl =~= old(ctx).builder.frame().ctrl);
    }
}

/// Pushes EDI.
pub fn instr32_57_jit(ctx: &mut JitContext)
    requires
        ready(old(ctx).builder, 8),
    ensures
        emits(*old(ctx), *final(ctx), push32_reg_jit_code(EDI), 0),
        restores_by(old(ctx).builder, final(ctx).builder, 0),
{
    push32_reg_jit(ctx, EDI);
    proof {
        assert(ctx.builder.code@ =~= old(ctx).builder.code@ + push32_reg_jit_code(EDI));
        assert(ctx.builder.frame().live =~= old(ctx).builder.frame().live);
        assert(ctx.builder.frame().live64 =~= old(ctx).builder.frame().live64);
        assert(ctx.builder.frame().ctrl =~= old(ctx).builder.frame().ctrl);
    }
}

/// Pops AX.
pub fn instr16_58_jit(ctx: &mut JitContext)
    requires
        ready(old(ctx).builder, 8),
    ensures
        emits(*old(ctx), *final(ctx), pop16_reg_jit_code(AX), 0),
        restores_by(old(ctx).builder, final(ctx).builder, 0),
{
    pop16_reg_jit(ctx, AX);
    proof {
        assert(ctx.builder.code@ =~= old(ctx).builder.code@ + pop16_reg_jit_code(AX));
        assert(ctx.builder.frame().live =~= old(ctx).builder.frame().live);
        assert(ctx.builder.frame().live64 =~= old(ctx).builder.frame().live64);
        assert(ctx.builder.frame().ctrl =~= old(ctx).builder.frame().ctrl);
    }
}

/// Pops EAX.
pub fn instr32_58_jit(ctx: &mut JitContext)
    requires
        ready(old(ctx).builder, 8),
    ensures
        emits(*old(ctx), *final(ctx), pop32_reg_jit_code(EAX), 0),
        restores_by(old(ctx).builder, final(ctx).builder, 0),
{
    pop32_reg_jit(ctx, EAX);
    proof {
        assert(ctx.builder.code@ =~= old(ctx).builder.code@ + pop32_reg_jit_code(EAX));
        assert(ctx.builder.frame().live =~= old(ctx).builder.frame().live);
        assert(ctx.builder.frame().live64 =~= old(ctx).builder.frame().live64);
        assert(ctx.builder.frame().ctrl =~= old(ctx).builder.frame().ctrl);
    }
}

/// Pops CX.
pub fn instr16_59_jit(ctx: &mut JitContext)
    requires
        ready(old(ctx).builder, 8),
    ensures
        emits(*old(ctx), *final(ctx), pop16_reg_jit_code(CX), 0),
        restores_by(old(ctx).builder, final(ctx).builder, 0),
{
    pop16_reg_jit(ctx, CX);
    proof {
        assert(ctx.builder.code@ =~= old(ctx).builder.code@ + pop16_reg_jit_code(CX));
        assert(ctx.builder.frame().live =~= old(ctx).builder.frame().live);
        assert(ctx.builder.frame().live64 =~= old(ctx).builder.frame().live64);
        assert(ctx.builder.frame().ctrl =~= old(ctx).builder.frame().ctrl);
    }
}

/// Pops ECX.
pub fn instr32_59_jit(ctx: &mut JitContext)
    requires
        ready(old(ctx).builder, 8),
    ensures
        emits(*old(ctx), *final(ctx), pop32_reg_jit_code(ECX), 0),
        restores_by(old(ctx).builder, final(ctx).builder, 0),
{
    pop32_reg_jit(ctx, ECX);
    proof {
        assert(ctx.builder.code@ =~= old(ctx).builder.code@ + pop32_reg_jit_code(ECX));
        assert(ctx.builder.frame().live =~= old(ctx).builder.frame().live);
        assert(ctx.builder.frame().live64 =~= old(ctx).builder.frame().live64);
        assert(ctx.builder.frame().ctrl =~= old(ctx).builder.frame().ctrl);
    }
}

/// Pops DX.
pub fn instr16_5A_jit(ctx: &mut JitContext)
    requires
        ready(old(ctx).builder, 8),
    ensures
        emits(*old(ctx), *final(ctx), pop16_reg_jit_code(DX), 0),
        restores_by(old(ctx).builder, final(ctx).builder, 0),
{
    pop16_reg_jit(ctx, DX);
    proof {
        assert(ctx.builder.code@ =~= old(ctx).builder.code@ + pop16_reg_jit_code(DX));
        assert(ctx.builder.frame().live =~= old(ctx).builder.frame().live);
        assert(ctx.builder.frame().live64 =~= old(ctx).builder.frame().live64);
        assert(ctx.builder.frame().ctrl =~= old(ctx).builder.frame().ctrl);
    }
}

/// Pops EDX.
pub fn instr32_5A_jit(ctx: &mut JitContext)
    requires
        ready(old(ctx).builder, 8),
    ensures
        emits(*old(ctx), *final(ctx), pop32_reg_jit_code(EDX), 0),
        restores_by(old(ctx).builder, final(ctx).builder, 0),
{
    pop32_reg_jit(ctx, EDX);
    proof {
        assert(ctx.builder.code@ =~= old(ctx).builder.code@ + pop32_reg_jit_code(EDX));
        assert(ctx.builder.frame().live =~= old(ctx).builder.frame().live);
        assert(ctx.builder.frame().live64 =~= old(ctx).builder.frame().live64);
        assert(ctx.builder.frame().ctrl =~= old(ctx).builder.frame().ctrl);
    }
}

/// Pops BX.
pub fn instr16_5B_jit(ctx: &mut JitContext)
    requires
        ready(old(ctx).builder, 8),
    ensures
        emits(*old(ctx), *final(ctx), pop16_reg_jit_code(BX), 0),
        restores_by(old(ctx).builder, final(ctx).builder, 0),
{
    pop16_reg_jit(ctx, BX);
    proof {
        assert(ctx.builder.code@ =~= old(ctx).builder.code@ + pop16_reg_jit_code(BX));
        assert(ctx.builder.frame().live =~= old(ctx).builder.frame().live);
        assert(ctx.builder.frame().live64 =~= old(ctx).builder.frame().live64);
        assert(ctx.builder.frame().ctrl =~= old(ctx).builder.frame().ctrl);
    }
}

/// Pops EBX.
pub fn instr32_5B_jit(ctx: &mut JitContext)
    requires
        ready(old(ctx).builder, 8),
    ensures
        emits(*old(ctx), *final(ctx), pop32_reg_jit_code(EBX), 0),
        restores_by(old(ctx).builder, final(ctx).builder, 0),
{
    pop32_reg_jit(ctx, EBX);
    proof {
        assert(ctx.builder.code@ =~= old(ctx).builder.code@ + pop32_reg_jit_code(EBX));
        assert(ctx.builder.frame().live =~= old(ctx).builder.frame().live);
        assert(ctx.builder.frame().live64 =~= old(ctx).builder.frame().live64);
        assert(ctx.builder.frame().ctrl =~= old(ctx).builder.frame().ctrl);
    }
}

/// Pops SP.
pub fn instr16_5C_jit(ctx: &mut JitContext)
    requires
        ready(old(ctx).builder, 8),
    ensures
        emits(*old(ctx), *final(ctx), pop16_reg_jit_code(SP), 0),
        restores_by(old(ctx).builder, final(ctx).builder, 0),
{
    pop16_reg_jit(ctx, SP);
    proof {
        assert(ctx.builder.code@ =~= old(ctx).builder.code@ + pop16_reg_jit_code(SP));
        assert(ctx.builder.frame().live =~= old(ctx).builder.frame().live);
        assert(ctx.builder.frame().live64 =~= old(ctx).builder.frame().live64);
        assert(ctx.builder.frame().ctrl =~= old(ctx).builder.frame().ctrl);
    }
}

/// Pops ESP.
pub fn instr32_5C_jit(ctx: &mut JitContext)
    requires
        ready(old(ctx).builder, 8),
    ensures
        emits(*old(ctx), *final(ctx), pop32_reg_jit_code(ESP), 0),
        restores_by(old(ctx).builder, final(ctx).builder, 0),
{
    pop32_reg_jit(ctx, ESP);
    proof {
        assert(ctx.builder.code@ =~= old(ctx).builder.code@ + pop32_reg_jit_code(ESP));
        assert(ctx.builder.frame().live =~= old(ctx).builder.frame().live);
        assert(ctx.builder.frame().live64 =~= old(ctx).builder.frame().live64);
        assert(ctx.builder.frame().ctrl =~= old(ctx).builder.frame().ctrl);
    }
}

/// Pops BP.
pub fn instr16_5D_jit(ctx: &mut JitContext)
    requires
        ready(old(ctx).builder, 8),
    ensures
        emits(*old(ctx), *final(ctx), pop16_reg_jit_code(BP), 0),
        restores_by(old(ctx).builder, final(ctx).builder, 0),
{
    pop16_reg_jit(ctx, BP);
    proof {
        assert(ctx.builder.code@ =~= old(ctx).builder.code@ + pop16_reg_jit_code(BP));
        assert(ctx.builder.frame().live =~= old(ctx).builder.frame().live);
        assert(ctx.builder.frame().live64 =~= old(ctx).builder.frame().live64);
        assert(ctx.builder.frame().ctrl =~= old(ctx).builder.frame().ctrl);
    }
}

/// Pops EBP.
pub fn instr32_5D_jit(ctx: &mut JitContext)
    requires
        ready(old(ctx).builder, 8),
    ensures
        emits(*old(ctx), *final(ctx), pop32_reg_jit_code(EBP), 0),
        restores_by(old(ctx).builder, final(ctx).builder, 0),
{
    pop32_reg_jit(ctx, EBP);
    proof {
        assert(ctx.builder.code@ =~= old(ctx).builder.code@ + pop32_reg_jit_code(EBP));
        assert(ctx.builder.frame().live =~= old(ctx).builder.frame().live);
        assert(ctx.builder.frame().live64 =~= old(ctx).builder.frame().live64);
        assert(ctx.builder.frame().ctrl =~= old(ctx).builder.frame().ctrl);
    }
}

/// Pops SI.
pub fn instr16_5E_jit(ctx: &mut JitContext)
    requires
        ready(old(ctx).builder, 8),
    ensures
        emits(*old(ctx), *final(ctx), pop16_reg_jit_code(SI), 0),
        restores_by(old(ctx).builder, final(ctx).builder, 0),
{
    pop16_reg_jit(ctx, SI);
    proof {
        assert(ctx.builder.code@ =~= old(ctx).builder.code@ + pop16_reg_jit_code(SI));
        assert(ctx.builder.frame().live =~= old(ctx).builder.frame().live);
        assert(ctx.builder.frame().live64 =~= old(ctx).builder.frame().live64);
        assert(ctx.builder.frame().ctrl =~= old(ctx).builder.frame().ctrl);
    }
}

/// Pops ESI.
pub fn instr32_5E_jit(ctx: &mut JitContext)
    requires
        ready(old(ctx).builder, 8),
    ensures
        emits(*old(ctx), *final(ctx), pop32_reg_jit_code(ESI), 0),
        restores_by(old(ctx).builder, final(ctx).builder, 0),
{
    pop32_reg_jit(ctx, ESI);
    proof {
        assert(ctx.builder.code@ =~= old(ctx).builder.code@ + pop32_reg_jit_code(ESI));
        assert(ctx.builder.frame().live =~= old(ctx).builder.frame().live);
        assert(ctx.builder.frame().live64 =~= old(ctx).builder.frame().live64);
        assert(ctx.builder.frame().ctrl =~= old(ctx).builder.frame().ctrl);
    }
}

/// Pops DI.
pub fn instr16_5F_jit(ctx: &mut JitContext)
    requires
        ready(old(ctx).builder, 8),
    ensures
        emits(*old(ctx), *final(ctx), pop16_reg_jit_code(DI), 0),
        restores_by(old(ctx).builder, final(ctx).builder, 0),
{
    pop16_reg_jit(ctx, DI);
    proof {
        assert(ctx.builder.code@ =~= old(ctx).builder.code@ + pop16_reg_jit_code(DI));
        assert(ctx.builder.frame().live =~= old(ctx).builder.frame().live);
        assert(ctx.builder.frame().live64 =~= old(ctx).builder.frame().live64);
        assert(ctx.builder.frame().ctrl =~= old(ctx).builder.frame().ctrl);
    }
}

/// Pops EDI.
pub fn instr32_5F_jit(ctx: &mut JitContext)
    requires
        ready(old(ctx).builder, 8),
    ensures
        emits(*old(ctx), *final(ctx), pop32_reg_jit_code(EDI), 0),
        restores_by(old(ctx).builder, final(ctx).builder, 0),
{
    pop32_reg_jit(ctx, EDI);
    proof {
        assert(ctx.builder.code@ =~= old(ctx).builder.code@ + pop32_reg_jit_code(EDI));
        assert(ctx.builder.frame().live =~= old(ctx).builder.frame().live);
        assert(ctx.builder.frame().live64 =~= old(ctx).builder.frame().live64);
        assert(ctx.builder.frame().ctrl =~= old(ctx).builder.frame().ctrl);
    }
}

/// Pushes a 16-bit immediate.
pub fn instr16_68_jit(ctx: &mut JitContext, imm16: u32)
    requires
        ready(old(ctx).builder, 8),
    ensures
        emits(*old(ctx), *final(ctx), push16_imm_jit_code(imm16, old(ctx).builder.next_local), 1),
        restores_by(old(ctx).builder, final(ctx).builder, 0),
{
    push16_imm_jit(ctx, imm16);
    proof {
        assert(ctx.builder.code@ =~= old(ctx).builder.code@ + push16_imm_jit_code(imm16, old(ctx).builder.next_local));
        assert(ctx.builder.frame().live =~= old(ctx).builder.frame().live);
        assert(ctx.builder.frame().live64 =~= old(ctx).builder.frame().live64);
        assert(ctx.builder.frame().ctrl =~= old(ctx).builder.frame().ctrl);
    }
}

/// Pushes a 32-bit immediate.
pub fn instr32_68_jit(ctx: &mut JitContext, imm32: u32)
    requires
        ready(old(ctx).builder, 8),
    ensures
        emits(*old(ctx), *final(ctx), push32_imm_jit_code(imm32, old(ctx).builder.next_local), 1),
        restores_by(old(ctx).builder, final(ctx).builder, 0),
{
    push32_imm_jit(ctx, imm32);
    proof {
        assert(ctx.builder.code@ =~= old(ctx).builder.code@ + push32_imm_jit_code(imm32, old(ctx).builder.next_local));
        assert(ctx.builder.frame().live =~= old(ctx).builder.frame().live);
        assert(ctx.builder.frame().live64 =~= old(ctx).builder.frame().live64);
        assert(ctx.builder.frame().ctrl =~= old(ctx).builder.frame().ctrl);
    }
}

/// Pushes a 16-bit immediate.
pub fn instr16_6A_jit(ctx: &mut JitContext, imm16: u32)
    requires
        ready(old(ctx).builder, 8),
    ensures
        emits(*old(ctx), *final(ctx), push16_imm_jit_code(imm16, old(ctx).builder.next_local), 1),
        restores_by(old(ctx).builder, final(ctx).builder, 0),
{
    push16_imm_jit(ctx, imm16);
    proof {
        assert(ctx.builder.code@ =~= old(ctx).builder.code@ + push16_imm_jit_code(imm16, old(ctx).builder.next_local));
        assert(ctx.builder.frame().live =~= old(ctx).builder.frame().live);
        assert(ctx.builder.frame().live64 =~= old(ctx).builder.frame().live64);
        assert(ctx.builder.frame().ctrl =~= old(ctx).builder.frame().ctrl);
    }
}

/// Pushes a 32-bit immediate.
pub fn instr32_6A_jit(ctx: &mut JitContext, imm32: u32)
    requires
        ready(old(ctx).builder, 8),
    ensures
        emits(*old(ctx), *final(ctx), push32_imm_jit_code(imm32, old(ctx).builder.next_local), 1),
        restores_by(old(ctx).builder, final(ctx).builder, 0),
{
    push32_imm_jit(ctx, imm32);
    proof {
        assert(ctx.builder.code@ =~= old(ctx).builder.code@ + push32_imm_jit_code(imm32, old(ctx).builder.next_local));
        assert(ctx.builder.frame().live =~= old(ctx).builder.frame().live);
        assert(ctx.builder.frame().live64 =~= old(ctx).builder.frame().live64);
        assert(ctx.builder.frame().ctrl =~= old(ctx).builder.frame().ctrl);
    }
}

/// Register `r` = a 16-bit value in memory times the immediate that follows (signed).
pub fn instr16_69_mem_jit(ctx: &mut JitContext, modrm_byte: u8, r: u32)
    requires
        ready(old(ctx).builder, 8),
        r < 8,
    ensures
        emits(*old(ctx), *final(ctx), seq![Op::ModrmResolveSafeRead16(modrm_byte), Op::ReadImm(ImmKind::Imm16), Op::ConstPendingImm(-1i32, 0u32), Op::CallFn2Ret("imul_reg16"), Op::SetReg16(r)], 0),
        restores_by(old(ctx).builder, final(ctx).builder, 0),
{
    ctx.builder.emit(Op::ModrmResolveSafeRead16(modrm_byte));
    ctx.builder.emit(Op::ReadImm(ImmKind::Imm16));
    ctx.builder.emit(Op::ConstPendingImm(-1i32, 0u32));
    ctx.builder.emit(Op::CallFn2Ret("imul_reg16"));
    ctx.builder.emit(Op::SetReg16(r));
    proof {
        assert(ctx.builder.code@ =~= old(ctx).builder.code@ + seq![Op::ModrmResolveSafeRead16(modrm_byte), Op::ReadImm(ImmKind::Imm16), Op::ConstPendingImm(-1i32, 0u32), Op::CallFn2Ret("imul_reg16"), Op::SetReg16(r)]);
        assert(ctx.builder.frame().live =~= old(ctx).builder.frame().live);
        assert(ctx.builder.frame().live64 =~= old(ctx).builder.frame().live64);
        assert(ctx.builder.frame().ctrl =~= old(ctx).builder.frame().ctrl);
    }
}

/// Register `r2` = register `r1` times an immediate (signed), at 16 bits.
pub fn instr16_69_reg_jit(ctx: &mut JitContext, r1: u32, r2: u32, imm16: u32)
    requires
        ready(old(ctx).builder, 8),
        r1 < 8,
        r2 < 8,
    ensures
        emits(*old(ctx), *final(ctx), seq![Op::GetReg16(r1), Op::ConstI32(imm16 as i32), Op::CallFn2Ret("imul_reg16"), Op::SetReg16(r2)], 0),
        restores_by(old(ctx).builder, final(ctx).builder, 0),
{
    ctx.builder.emit(Op::GetReg16(r1));
    ctx.builder.emit(Op::ConstI32(imm16 as i32));
    ctx.builder.emit(Op::CallFn2Ret("imul_reg16"));
    ctx.builder.emit(Op::SetReg16(r2));
    proof {
        assert(ctx.builder.code@ =~= old(ctx).builder.code@ + seq![Op::GetReg16(r1), Op::ConstI32(imm16 as i32), Op::CallFn2Ret("imul_reg16"), Op::SetReg16(r2)]);
        assert(ctx.builder.frame().live =~= old(ctx).builder.frame().live);
        assert(ctx.builder.frame().live64 =~= old(ctx).builder.frame().live64);
        assert(ctx.builder.frame().ctrl =~= old(ctx).builder.frame().ctrl);
    }
}

/// Register `r` = a 32-bit value in memory times the immediate that follows (signed).
pub fn instr32_69_mem_jit(ctx: &mut JitContext, modrm_byte: u8, r: u32)
    requires
        ready(old(ctx).builder, 8),
        r < 8,
    ensures
        emits(*old(ctx), *final(ctx), seq![Op::ModrmResolveSafeRead32(modrm_byte), Op::ReadImm(ImmKind::Imm32), Op::ConstPendingImm(-1i32, 0u32), Op::CallFn2Ret("imul_reg32"), Op::SetReg32(r)], 0),
        restores_by(old(ctx).builder, final(ctx).builder, 0),
{
    ctx.builder.emit(Op::ModrmResolveSafeRead32(modrm_byte));
    ctx.builder.emit(Op::ReadImm(ImmKind::Imm32));
    ctx.builder.emit(Op::ConstPendingImm(-1i32, 0u32));
    ctx.builder.emit(Op::CallFn2Ret("imul_reg32"));
    ctx.builder.emit(Op::SetReg32(r));
    proof {
        assert(ctx.builder.code@ =~= old(ctx).builder.code@ + seq![Op::ModrmResolveSafeRead32(modrm_byte), Op::ReadImm(ImmKind::Imm32), Op::ConstPendingImm(-1i32, 0u32), Op::CallFn2Ret("imul_reg32"), Op::SetReg32(r)]);
        assert(ctx.builder.frame().live =~= old(ctx).builder.frame().live);
        assert(ctx.builder.frame().live64 =~= old(ctx).builder.frame().live64);
        assert(ctx.builder.frame().ctrl =~= old(ctx).builder.frame().ctrl);
    }
}

/// Register `r2` = register `r1` times an immediate (signed), at 32 bits.
pub fn instr32_69_reg_jit(ctx: &mut JitContext, r1: u32, r2: u32, imm32: u32)
    requires
        ready(old(ctx).builder, 8),
        r1 < 8,
        r2 < 8,
    ensures
        emits(*old(ctx), *final(ctx), seq![Op::GetReg32(r1), Op::ConstI32(imm32 as i32), Op::CallFn2Ret("imul_reg32"), Op::SetReg32(r2)], 0),
        restores_by(old(ctx).builder, final(ctx).builder, 0),
{
    ctx.builder.emit(Op::GetReg32(r1));
    ctx.builder.emit(Op::ConstI32(imm32 as i32));
    ctx.builder.emit(Op::CallFn2Ret("imul_reg32"));
    ctx.builder.emit(Op::SetReg32(r2));
    proof {
        assert(ctx.builder.code@ =~= old(ctx).builder.code@ + seq![Op::GetReg32(r1), Op::ConstI32(imm32 as i32), Op::CallFn2Ret("imul_reg32"), Op::SetReg32(r2)]);
        assert(ctx.builder.frame().live =~= old(ctx).builder.frame().live);
        assert(ctx.builder.frame().live64 =~= old(ctx).builder.frame().live64);
        assert(ctx.builder.frame().ctrl =~= old(ctx).builder.frame().ctrl);
    }
}

/// Register `r` = a 16-bit value in memory times the immediate that follows (signed).
pub fn instr16_6B_mem_jit(ctx: &mut JitContext, modrm_byte: u8, r: u32)
    requires
        ready(old(ctx).builder, 8),
        r < 8,
    ensures
        emits(*old(ctx), *final(ctx), seq![Op::ModrmResolveSafeRead16(modrm_byte), Op::ReadImm(ImmKind::Imm8s), Op::ConstPendingImm(-1i32, 0u32), Op::CallFn2Ret("imul_reg16"), Op::SetReg16(r)], 0),
        restores_by(old(ctx).builder, final(ctx).builder, 0),
{
    ctx.builder.emit(Op::ModrmResolveSafeRead16(modrm_byte));
    ctx.builder.emit(Op::ReadImm(ImmKind::Imm8s));
    ctx.builder.emit(Op::ConstPendingImm(-1i32, 0u32));
    ctx.builder.emit(Op::CallFn2Ret("imul_reg16"));
    ctx.builder.emit(Op::SetReg16(r));
    proof {
        assert(ctx.builder.code@ =~= old(ctx).builder.code@ + seq![Op::ModrmResolveSafeRead16(modrm_byte), Op::ReadImm(ImmKind::Imm8s), Op::ConstPendingImm(-1i32, 0u32), Op::CallFn2Ret("imul_reg16"), Op::SetReg16(r)]);
        assert(ctx.builder.frame().live =~= old(ctx).builder.frame().live);
        assert(ctx.builder.frame().live64 =~= old(ctx).builder.frame().live64);
        assert(ctx.builder.frame().ctrl =~= old(ctx).builder.frame().ctrl);
    }
}

/// Register `r2` = register `r1` times an immediate (signed), at 16 bits.
pub fn instr16_6B_reg_jit(ctx: &mut JitContext, r1: u32, r2: u32, imm8s: u32)
    requires
        ready(old(ctx).builder, 8),
        r1 < 8,
        r2 < 8,
    ensures
        emits(*old(ctx), *final(ctx), seq![Op::GetReg16(r1), Op::ConstI32(imm8s as i32), Op::CallFn2Ret("imul_reg16"), Op::SetReg16(r2)], 0),
        restores_by(old(ctx).builder, final(ctx).builder, 0),
{
    ctx.builder.emit(Op::GetReg16(r1));
    ctx.builder.emit(Op::ConstI32(imm8s as i32));
    ctx.builder.emit(Op::CallFn2Ret("imul_reg16"));
    ctx.builder.emit(Op::SetReg16(r2));
    proof {
        assert(ctx.builder.code@ =~= old(ctx).builder.code@ + seq![Op::GetReg16(r1), Op::ConstI32(imm8s as i32), Op::CallFn2Ret("imul_reg16"), Op::SetReg16(r2)]);
        assert(ctx.builder.frame().live =~= old(ctx).builder.frame().live);
        assert(ctx.builder.frame().live64 =~= old(ctx).builder.frame().live64);
        assert(ctx.builder.frame().ctrl =~= old(ctx).builder.frame().ctrl);
    }
}

/// Register `r` = a 32-bit value in memory times the immediate that follows (signed).
pub fn instr32_6B_mem_jit(ctx: &mut JitContext, modrm_byte: u8, r: u32)
    requires
        ready(old(ctx).builder, 8),
        r < 8,
    ensures
        emits(*old(ctx), *final(ctx), seq![Op::ModrmResolveSafeRead32(modrm_byte), Op::ReadImm(ImmKind::Imm8s), Op::ConstPendingImm(-1i32, 0u32), Op::CallFn2Ret("imul_reg32"), Op::SetReg32(r)], 0),
        restores_by(old(ctx).builder, final(ctx).builder, 0),
{
    ctx.builder.emit(Op::ModrmResolveSafeRead32(modrm_byte));
    ctx.builder.emit(Op::ReadImm(ImmKind::Imm8s));
    ctx.builder.emit(Op::ConstPendingImm(-1i32, 0u32));
    ctx.builder.emit(Op::CallFn2Ret("imul_reg32"));
    ctx.builder.emit(Op::SetReg32(r));
    proof {
        assert(ctx.builder.code@ =~= old(ctx).builder.code@ + seq![Op::ModrmResolveSafeRead32(modrm_byte), Op::ReadImm(ImmKind::Imm8s), Op::ConstPendingImm(-1i32, 0u32), Op::CallFn2Ret("imul_reg32"), Op::SetReg32(r)]);
        assert(ctx.builder.frame().live =~= old(ctx).builder.frame().live);
        assert(ctx.builder.frame().live64 =~= old(ctx).builder.frame().live64);
        assert(ctx.builder.frame().ctrl =~= old(ctx).builder.frame().ctrl);
    }
}

/// Register `r2` = register `r1` times an immediate (signed), at 32 bits.
pub fn instr32_6B_reg_jit(ctx: &mut JitContext, r1: u32, r2: u32, imm8s: u32)
    requires
        ready(old(ctx).builder, 8),
        r1 < 8,
        r2 < 8,
    ensures
        emits(*old(ctx), *final(ctx), seq![Op::GetReg32(r1), Op::ConstI32(imm8s as i32), Op::CallFn2Ret("imul_reg32"), Op::SetReg32(r2)], 0),
        restores_by(old(ctx).builder, final(ctx).builder, 0),
{
    ctx.builder.emit(Op::GetReg32(r1));
    ctx.builder.emit(Op::ConstI32(imm8s as i32));
    ctx.builder.emit(Op::CallFn2Ret("imul_reg32"));
    ctx.builder.emit(Op::SetReg32(r2));
    proof {
        assert(ctx.builder.code@ =~= old(ctx).builder.code@ + seq![Op::GetReg32(r1), Op::ConstI32(imm8s as i32), Op::CallFn2Ret("imul_reg32"), Op::SetReg32(r2)]);
        assert(ctx.builder.frame().live =~= old(ctx).builder.frame().live);
        assert(ctx.builder.frame().live64 =~= old(ctx).builder.frame().live64);
        assert(ctx.builder.frame().ctrl =~= old(ctx).builder.frame().ctrl);
    }
}

/// Generates nothing: the basic block code generator emits the branch.
pub fn instr16_70_jit(ctx: &mut JitContext, _imm: u32)
    requires
        ready(old(ctx).builder, 8),
    ensures
        emits(*old(ctx), *final(ctx), Seq::<Op>::empty(), 0),
        restores_by(old(ctx).builder, final(ctx).builder, 0),
{
    proof {
        assert(ctx.builder.code@ =~= old(ctx).builder.code@ + Seq::<Op>::empty());
        assert(ctx.builder.frame().live =~= old(ctx).builder.frame().live);
        assert(ctx.builder.frame().live64 =~= old(ctx).builder.frame().live64);
        assert(ctx.builder.frame().ctrl =~= old(ctx).builder.frame().ctrl);
    }
}

/// Generates nothing: the basic block code generator emits the branch.
pub fn instr32_70_jit(ctx: &mut JitContext, _imm: u32)
    requires
        ready(old(ctx).builder, 8),
    ensures
        emits(*old(ctx), *final(ctx), Seq::<Op>::empty(), 0),
        restores_by(old(ctx).builder, final(ctx).builder, 0),
{
    proof {
        assert(ctx.builder.code@ =~= old(ctx).builder.code@ + Seq::<Op>::empty());
        assert(ctx.builder.frame().live =~= old(ctx).builder.frame().live);
        assert(ctx.builder.frame().live64 =~= old(ctx).builder.frame().live64);
        assert(ctx.builder.frame().ctrl =~= old(ctx).builder.frame().ctrl);
    }
}

/// Generates nothing: the basic block code generator emits the branch.
pub fn instr16_71_jit(ctx: &mut JitContext, _imm: u32)
    requires
        ready(old(ctx).builder, 8),
    ensures
        emits(*old(ctx), *final(ctx), Seq::<Op>::empty(), 0),
        restores_by(old(ctx).builder, final(ctx).builder, 0),
{
    proof {
        assert(ctx.builder.code@ =~= old(ctx).builder.code@ + Seq::<Op>::empty());
        assert(ctx.builder.frame().live =~= old(ctx).builder.frame().live);
        assert(ctx.builder.frame().live64 =~= old(ctx).builder.frame().live64);
        assert(ctx.builder.frame().ctrl =~= old(ctx).builder.frame().ctrl);
    }
}

/// Generates nothing: the basic block code generator emits the branch.
pub fn instr32_71_jit(ctx: &mut JitContext, _imm: u32)
    requires
        ready(old(ctx).builder, 8),
    ensures
        emits(*old(ctx), *final(ctx), Seq::<Op>::empty(), 0),
        restores_by(old(ctx).builder, final(ctx).builder, 0),
{
    proof {
        assert(ctx.builder.code@ =~= old(ctx).builder.code@ + Seq::<Op>::empty());
        assert(ctx.builder.frame().live =~= old(ctx).builder.frame().live);
        assert(ctx.builder.frame().live64 =~= old(ctx).builder.frame().live64);
        assert(ctx.builder.frame().ctrl =~= old(ctx).builder.frame().ctrl);
    }
}

/// Generates nothing: the basic block code generator emits the branch.
pub fn instr16_72_jit(ctx: &mut JitContext, _imm: u32)
    requires
        ready(old(ctx).builder, 8),
    ensures
        emits(*old(ctx), *final(ctx), Seq::<Op>::empty(), 0),
        restores_by(old(ctx).builder, final(ctx).builder, 0),
{
    proof {
        assert(ctx.builder.code@ =~= old(ctx).builder.code@ + Seq::<Op>::empty());
        assert(ctx.builder.frame().live =~= old(ctx).builder.frame().live);
        assert(ctx.builder.frame().live64 =~= old(ctx).builder.frame().live64);
        assert(ctx.builder.frame().ctrl =~= old(ctx).builder.frame().ctrl);
    }
}

/// Generates nothing: the basic block code generator emits the branch.
pub fn instr32_72_jit(ctx: &mut JitContext, _imm: u32)
    requires
        ready(old(ctx).builder, 8),
    ensures
        emits(*old(ctx), *final(ctx), Seq::<Op>::empty(), 0),
        restores_by(old(ctx).builder, final(ctx).builder, 0),
{
    proof {
        assert(ctx.builder.code@ =~= old(ctx).builder.code@ + Seq::<Op>::empty());
        assert(ctx.builder.frame().live =~= old(ctx).builder.frame().live);
        assert(ctx.builder.frame().live64 =~= old(ctx).builder.frame().live64);
        assert(ctx.builder.frame().ctrl =~= old(ctx).builder.frame().ctrl);
    }
}

/// Generates nothing: the basic block code generator emits the branch.
pub fn instr16_73_jit(ctx: &mut JitContext, _imm: u32)
    requires
        ready(old(ctx).builder, 8),
    ensures
        emits(*old(ctx), *final(ctx), Seq::<Op>::empty(), 0),
        restores_by(old(ctx).builder, final(ctx).builder, 0),
{
    proof {
        assert(ctx.builder.code@ =~= old(ctx).builder.code@ + Seq::<Op>::empty());
        assert(ctx.builder.frame().live =~= old(ctx).builder.frame().live);
        assert(ctx.builder.frame().live64 =~= old(ctx).builder.frame().live64);
        assert(ctx.builder.frame().ctrl =~= old(ctx).builder.frame().ctrl);
    }
}

/// Generates nothing: the basic block code generator emits the branch.
pub fn instr32_73_jit(ctx: &mut JitContext, _imm: u32)
    requires
        ready(old(ctx).builder, 8),
    ensures
        emits(*old(ctx), *final(ctx), Seq::<Op>::empty(), 0),
        restores_by(old(ctx).builder, final(ctx).builder, 0),
{
    proof {
        assert(ctx.builder.code@ =~= old(ctx).builder.code@ + Seq::<Op>::empty());
        assert(ctx.builder.frame().live =~= old(ctx).builder.frame().live);
        assert(ctx.builder.frame().live64 =~= old(ctx).builder.frame().live64);
        assert(ctx.builder.frame().ctrl =~= old(ctx).builder.frame().ctrl);
    }
}

/// Generates nothing: the basic block code generator emits the branch.
pub fn instr16_74_jit(ctx: &mut JitContext, _imm: u32)
    requires
        ready(old(ctx).builder, 8),
    ensures
        emits(*old(ctx), *final(ctx), Seq::<Op>::empty(), 0),
        restores_by(old(ctx).builder, final(ctx).builder, 0),
{
    proof {
        assert(ctx.builder.code@ =~= old(ctx).builder.code@ + Seq::<Op>::empty());
        assert(ctx.builder.frame().live =~= old(ctx).builder.frame().live);
        assert(ctx.builder.frame().live64 =~= old(ctx).builder.frame().live64);
        assert(ctx.builder.frame().ctrl =~= old(ctx).builder.frame().ctrl);
    }
}

/// Generates nothing: the basic block code generator emits the branch.
pub fn instr32_74_jit(ctx: &mut JitContext, _imm: u32)
    requires
        ready(old(ctx).builder, 8),
    ensures
        emits(*old(ctx), *final(ctx), Seq::<Op>::empty(), 0),
        restores_by(old(ctx).builder, final(ctx).builder, 0),
{
    proof {
        assert(ctx.builder.code@ =~= old(ctx).builder.code@ + Seq::<Op>::empty());
        assert(ctx.builder.frame().live =~= old(ctx).builder.frame().live);
        assert(ctx.builder.frame().live64 =~= old(ctx).builder.frame().live64);
        assert(ctx.builder.frame().ctrl =~= old(ctx).builder.frame().ctrl);
    }
}

/// Generates nothing: the basic block code generator emits the branch.
pub fn instr16_75_jit(ctx: &mut JitContext, _imm: u32)
    requires
        ready(old(ctx).builder, 8),
    ensures
        emits(*old(ctx), *final(ctx), Seq::<Op>::empty(), 0),
        restores_by(old(ctx).builder, final(ctx).builder, 0),
{
    proof {
        assert(ctx.builder.code@ =~= old(ctx).builder.code@ + Seq::<Op>::empty());
        assert(ctx.builder.frame().live =~= old(ctx).builder.frame().live);
        assert(ctx.builder.frame().live64 =~= old(ctx).builder.frame().live64);
        assert(ctx.builder.frame().ctrl =~= old(ctx).builder.frame().ctrl);
    }
}

/// Generates nothing: the basic block code generator emits the branch.
pub fn instr32_75_jit(ctx: &mut JitContext, _imm: u32)
    requires
        ready(old(ctx).builder, 8),
    ensures
        emits(*old(ctx), *final(ctx), Seq::<Op>::empty(), 0),
        restores_by(old(ctx).builder, final(ctx).builder, 0),
{
    proof {
        assert(ctx.builder.code@ =~= old(ctx).builder.code@ + Seq::<Op>::empty());
        assert(ctx.builder.frame().live =~= old(ctx).builder.frame().live);
        assert(ctx.builder.frame().live64 =~= old(ctx).builder.frame().live64);
        assert(ctx.builder.frame().ctrl =~= old(ctx).builder.frame().ctrl);
    }
}

/// Generates nothing: the basic block code generator emits the branch.
pub fn instr16_76_jit(ctx: &mut JitContext, _imm: u32)
    requires
        ready(old(ctx).builder, 8),
    ensures
        emits(*old(ctx), *final(ctx), Seq::<Op>::empty(), 0),
        restores_by(old(ctx).builder, final(ctx).builder, 0),
{
    proof {
        assert(ctx.builder.code@ =~= old(ctx).builder.code@ + Seq::<Op>::empty());
        assert(ctx.builder.frame().live =~= old(ctx).builder.frame().live);
        assert(ctx.builder.frame().live64 =~= old(ctx).builder.frame().live64);
        assert(ctx.builder.frame().ctrl =~= old(ctx).builder.frame().ctrl);
    }
}

/// Generates nothing: the basic block code generator emits the branch.
pub fn instr32_76_jit(ctx: &mut JitContext, _imm: u32)
    requires
        ready(old(ctx).builder, 8),
    ensures
        emits(*old(ctx), *final(ctx), Seq::<Op>::empty(), 0),
        restores_by(old(ctx).builder, final(ctx).builder, 0),
{
    proof {
        assert(ctx.builder.code@ =~= old(ctx).builder.code@ + Seq::<Op>::empty());
        assert(ctx.builder.frame().live =~= old(ctx).builder.frame().live);
        assert(ctx.builder.frame().live64 =~= old(ctx).builder.frame().live64);
        assert(ctx.builder.frame().ctrl =~= old(ctx).builder.frame().ctrl);
    }
}

/// Generates nothing: the basic block code generator emits the branch.
pub fn instr16_77_jit(ctx: &mut JitContext, _imm: u32)
    requires
        ready(old(ctx).builder, 8),
    ensures
        emits(*old(ctx), *final(ctx), Seq::<Op>::empty(), 0),
        restores_by(old(ctx).builder, final(ctx).builder, 0),
{
    proof {
        assert(ctx.builder.code@ =~= old(ctx).builder.code@ + Seq::<Op>::empty());
        assert(ctx.builder.frame().live =~= old(ctx).builder.frame().live);
        assert(ctx.builder.frame().live64 =~= old(ctx).builder.frame().live64);
        assert(ctx.builder.frame().ctrl =~= old(ctx).builder.frame().ctrl);
    }
}

/// Generates nothing: the basic block code generator emits the branch.
pub fn instr32_77_jit(ctx: &mut JitContext, _imm: u32)
    requires
        ready(old(ctx).builder, 8),
    ensures
        emits(*old(ctx), *final(ctx), Seq::<Op>::empty(), 0),
        restores_by(old(ctx).builder, final(ctx).builder, 0),
{
    proof {
        assert(ctx.builder.code@ =~= old(ctx).builder.code@ + Seq::<Op>::empty());
        assert(ctx.builder.frame().live =~= old(ctx).builder.frame().live);
        assert(ctx.builder.frame().live64 =~= old(ctx).builder.frame().live64);
        assert(ctx.builder.frame().ctrl =~= old(ctx).builder.frame().ctrl);
    }
}

/// Generates nothing: the basic block code generator emits the branch.
pub fn instr16_78_jit(ctx: &mut JitContext, _imm: u32)
    requires
        ready(old(ctx).builder, 8),
    ensures
        emits(*old(ctx), *final(ctx), Seq::<Op>::empty(), 0),
        restores_by(old(ctx).builder, final(ctx).builder, 0),
{
    proof {
        assert(ctx.builder.code@ =~= old(ctx).builder.code@ + Seq::<Op>::empty());
        assert(ctx.builder.frame().live =~= old(ctx).builder.frame().live);
        assert(ctx.builder.frame().live64 =~= old(ctx).builder.frame().live64);
        assert(ctx.builder.frame().ctrl =~= old(ctx).builder.frame().ctrl);
    }
}

/// Generates nothing: the basic block code generator emits the branch.
pub fn instr32_78_jit(ctx: &mut JitContext, _imm: u32)
    requires
        ready(old(ctx).builder, 8),
    ensures
        emits(*old(ctx), *final(ctx), Seq::<Op>::empty(), 0),
        restores_by(old(ctx).builder, final(ctx).builder, 0),
{
    proof {
        assert(ctx.builder.code@ =~= old(ctx).builder.code@ + Seq::<Op>::empty());
        assert(ctx.builder.frame().live =~= old(ctx).builder.frame().live);
        assert(ctx.builder.frame().live64 =~= old(ctx).builder.frame().live64);
        assert(ctx.builder.frame().ctrl =~= old(ctx).builder.frame().ctrl);
    }
}

/// Generates nothing: the basic block code generator emits the branch.
pub fn instr16_79_jit(ctx: &mut JitContext, _imm: u32)
    requires
        ready(old(ctx).builder, 8),
    ensures
        emits(*old(ctx), *final(ctx), Seq::<Op>::empty(), 0),
        restores_by(old(ctx).builder, final(ctx).builder, 0),
{
    proof {
        assert(ctx.builder.code@ =~= old(ctx).builder.code@ + Seq::<Op>::empty());
        assert(ctx.builder.frame().live =~= old(ctx).builder.frame().live);
        assert(ctx.builder.frame().live64 =~= old(ctx).builder.frame().live64);
        assert(ctx.builder.frame().ctrl =~= old(ctx).builder.frame().ctrl);
    }
}

/// Generates nothing: the basic block code generator emits the branch.
pub fn instr32_79_jit(ctx: &mut JitContext, _imm: u32)
    requires
        ready(old(ctx).builder, 8),
    ensures
        emits(*old(ctx), *final(ctx), Seq::<Op>::empty(), 0),
        restores_by(old(ctx).builder, final(ctx).builder, 0),
{
    proof {
        assert(ctx.builder.code@ =~= old(ctx).builder.code@ + Seq::<Op>::empty());
        assert(ctx.builder.frame().live =~= old(ctx).builder.frame().live);
        assert(ctx.builder.frame().live64 =~= old(ctx).builder.frame().live64);
        assert(ctx.builder.frame().ctrl =~= old(ctx).builder.frame().ctrl);
    }
}

/// Generates nothing: the basic block code generator emits the branch.
pub fn instr16_7A_jit(ctx: &mut JitContext, _imm: u32)
    requires
        ready(old(ctx).builder, 8),
    ensures
        emits(*old(ctx), *final(ctx), Seq::<Op>::empty(), 0),
        restores_by(old(ctx).builder, final(ctx).builder, 0),
{
    proof {
        assert(ctx.builder.code@ =~= old(ctx).builder.code@ + Seq::<Op>::empty());
        assert(ctx.builder.frame().live =~= old(ctx).builder.frame().live);
        assert(ctx.builder.frame().live64 =~= old(ctx).builder.frame().live64);
        assert(ctx.builder.frame().ctrl =~= old(ctx).builder.frame().ctrl);
    }
}

/// Generates nothing: the basic block code generator emits the branch.
pub fn instr32_7A_jit(ctx: &mut JitContext, _imm: u32)
    requires
        ready(old(ctx).builder, 8),
    ensures
        emits(*old(ctx), *final(ctx), Seq::<Op>::empty(), 0),
        restores_by(old(ctx).builder, final(ctx).builder, 0),
{
    proof {
        assert(ctx.builder.code@ =~= old(ctx).builder.code@ + Seq::<Op>::empty());
        assert(ctx.builder.frame().live =~= old(ctx).builder.frame().live);
        assert(ctx.builder.frame().live64 =~= old(ctx).builder.frame().live64);
        assert(ctx.builder.frame().ctrl =~= old(ctx).builder.frame().ctrl);
    }
}

/// Generates nothing: the basic block code generator emits the branch.
pub fn instr16_7B_jit(ctx: &mut JitContext, _imm: u32)
    requires
        ready(old(ctx).builder, 8),
    ensures
        emits(*old(ctx), *final(ctx), Seq::<Op>::empty(), 0),
        restores_by(old(ctx).builder, final(ctx).builder, 0),
{
    proof {
        assert(ctx.builder.code@ =~= old(ctx).builder.code@ + Seq::<Op>::empty());
        assert(ctx.builder.frame().live =~= old(ctx).builder.frame().live);
        assert(ctx.builder.frame().live64 =~= old(ctx).builder.frame().live64);
        assert(ctx.builder.frame().ctrl =~= old(ctx).builder.frame().ctrl);
    }
}

/// Generates nothing: the basic block code generator emits the branch.
pub fn instr32_7B_jit(ctx: &mut JitContext, _imm: u32)
    requires
        ready(old(ctx).builder, 8),
    ensures
        emits(*old(ctx), *final(ctx), Seq::<Op>::empty(), 0),
        restores_by(old(ctx).builder, final(ctx).builder, 0),
{
    proof {
        assert(ctx.builder.code@ =~= old(ctx).builder.code@ + Seq::<Op>::empty());
        assert(ctx.builder.frame().live =~= old(ctx).builder.frame().live);
        assert(ctx.builder.frame().live64 =~= old(ctx).builder.frame().live64);
        assert(ctx.builder.frame().ctrl =~= old(ctx).builder.frame().ctrl);
    }
}

/// Generates nothing: the basic block code generator emits the branch.
pub fn instr16_7C_jit(ctx: &mut JitContext, _imm: u32)
    requires
        ready(old(ctx).builder, 8),
    ensures
        emits(*old(ctx), *final(ctx), Seq::<Op>::empty(), 0),
        restores_by(old(ctx).builder, final(ctx).builder, 0),
{
    proof {
        assert(ctx.builder.code@ =~= old(ctx).builder.code@ + Seq::<Op>::empty());
        assert(ctx.builder.frame().live =~= old(ctx).builder.frame().live);
        assert(ctx.builder.frame().live64 =~= old(ctx).builder.frame().live64);
        assert(ctx.builder.frame().ctrl =~= old(ctx).builder.frame().ctrl);
    }
}

/// Generates nothing: the basic block code generator emits the branch.
pub fn instr32_7C_jit(ctx: &mut JitContext, _imm: u32)
    requires
        ready(old(ctx).builder, 8),
    ensures
        emits(*old(ctx), *final(ctx), Seq::<Op>::empty(), 0),
        restores_by(old(ctx).builder, final(ctx).builder, 0),
{
    proof {
        assert(ctx.builder.code@ =~= old(ctx).builder.code@ + Seq::<Op>::empty());
        assert(ctx.builder.frame().live =~= old(ctx).builder.frame().live);
        assert(ctx.builder.frame().live64 =~= old(ctx).builder.frame().live64);
        assert(ctx.builder.frame().ctrl =~= old(ctx).builder.frame().ctrl);
    }
}

/// Generates nothing: the basic block code generator emits the branch.
pub fn instr16_7D_jit(ctx: &mut JitContext, _imm: u32)
    requires
        ready(old(ctx).builder, 8),
    ensures
        emits(*old(ctx), *final(ctx), Seq::<Op>::empty(), 0),
        restores_by(old(ctx).builder, final(ctx).builder, 0),
{
    proof {
        assert(ctx.builder.code@ =~= old(ctx).builder.code@ + Seq::<Op>::empty());
        assert(ctx.builder.frame().live =~= old(ctx).builder.frame().live);
        assert(ctx.builder.frame().live64 =~= old(ctx).builder.frame().live64);
        assert(ctx.builder.frame().ctrl =~= old(ctx).builder.frame().ctrl);
    }
}

/// Generates nothing: the basic block code generator emits the branch.
pub fn instr32_7D_jit(ctx: &mut JitContext, _imm: u32)
    requires
        ready(old(ctx).builder, 8),
    ensures
        emits(*old(ctx), *final(ctx), Seq::<Op>::empty(), 0),
        restores_by(old(ctx).builder, final(ctx).builder, 0),
{
    proof {
        assert(ctx.builder.code@ =~= old(ctx).builder.code@ + Seq::<Op>::empty());
        assert(ctx.builder.frame().live =~= old(ctx).builder.frame().live);
        assert(ctx.builder.frame().live64 =~= old(ctx).builder.frame().live64);
        assert(ctx.builder.frame().ctrl =~= old(ctx).builder.frame().ctrl);
    }
}

/// Generates nothing: the basic block code generator emits the branch.
pub fn instr16_7E_jit(ctx: &mut JitContext, _imm: u32)
    requires
        ready(old(ctx).builder, 8),
    ensures
        emits(*old(ctx), *final(ctx), Seq::<Op>::empty(), 0),
        restores_by(old(ctx).builder, final(ctx).builder, 0),
{
    proof {
        assert(ctx.builder.code@ =~= old(ctx).builder.code@ + Seq::<Op>::empty());
        assert(ctx.builder.frame().live =~= old(ctx).builder.frame().live);
        assert(ctx.builder.frame().live64 =~= old(ctx).builder.frame().live64);
        assert(ctx.builder.frame().ctrl =~= old(ctx).builder.frame().ctrl);
    }
}

/// Generates nothing: the basic block code generator emits the branch.
pub fn instr32_7E_jit(ctx: &mut JitContext, _imm: u32)
    requires
        ready(old(ctx).builder, 8),
    ensures
        emits(*old(ctx), *final(ctx), Seq::<Op>::empty(), 0),
        restores_by(old(ctx).builder, final(ctx).builder, 0),
{
    proof {
        assert(ctx.builder.code@ =~= old(ctx).builder.code@ + Seq::<Op>::empty());
        assert(ctx.builder.frame().live =~= old(ctx).builder.frame().live);
        assert(ctx.builder.frame().live64 =~= old(ctx).builder.frame().live64);
        assert(ctx.builder.frame().ctrl =~= old(ctx).builder.frame().ctrl);
    }
}

/// Generates nothing: the basic block code generator emits the branch.
pub fn instr16_7F_jit(ctx: &mut JitContext, _imm: u32)
    requires
        ready(old(ctx).builder, 8),
    ensures
        emits(*old(ctx), *final(ctx), Seq::<Op>::empty(), 0),
        restores_by(old(ctx).builder, final(ctx).builder, 0),
{
    proof {
        assert(ctx.builder.code@ =~= old(ctx).builder.code@ + Seq::<Op>::empty());
        assert(ctx.builder.frame().live =~= old(ctx).builder.frame().live);
        assert(ctx.builder.frame().live64 =~= old(ctx).builder.frame().live64);
        assert(ctx.builder.frame().ctrl =~= old(ctx).builder.frame().ctrl);
    }
}

/// Generates nothing: the basic block code generator emits the branch.
pub fn instr32_7F_jit(ctx: &mut JitContext, _imm: u32)
    requires
        ready(old(ctx).builder, 8),
    ensures
        emits(*old(ctx), *final(ctx), Seq::<Op>::empty(), 0),
        restores_by(old(ctx).builder, final(ctx).builder, 0),
{
    proof {
        assert(ctx.builder.code@ =~= old(ctx).builder.code@ + Seq::<Op>::empty());
        assert(ctx.builder.frame().live =~= old(ctx).builder.frame().live);
        assert(ctx.builder.frame().live64 =~= old(ctx).builder.frame().live64);
        assert(ctx.builder.frame().ctrl =~= old(ctx).builder.frame().ctrl);
    }
}

/// Generates nothing: the basic block code generator emits the branch.
pub fn instr16_E0_jit(ctx: &mut JitContext, _imm: u32)
    requires
        ready(old(ctx).builder, 8),
    ensures
        emits(*old(ctx), *final(ctx), Seq::<Op>::empty(), 0),
        restores_by(old(ctx).builder, final(ctx).builder, 0),
{
    proof {
        assert(ctx.builder.code@ =~= old(ctx).builder.code@ + Seq::<Op>::empty());
        assert(ctx.builder.frame().live =~= old(ctx).builder.frame().live);
        assert(ctx.builder.frame().live64 =~= old(ctx).builder.frame().live64);
        assert(ctx.builder.frame().ctrl =~= old(ctx).builder.frame().ctrl);
    }
}

/// Generates nothing: the basic block code generator emits the branch.
pub fn instr32_E0_jit(ctx: &mut JitContext, _imm: u32)
    requires
        ready(old(ctx).builder, 8),
    ensures
        emits(*old(ctx), *final(ctx), Seq::<Op>::empty(), 0),
        restores_by(old(ctx).builder, final(ctx).builder, 0),
{
    proof {
        assert(ctx.builder.code@ =~= old(ctx).builder.code@ + Seq::<Op>::empty());
        assert(ctx.builder.frame().live =~= old(ctx).builder.frame().live);
        assert(ctx.builder.frame().live64 =~= old(ctx).builder.frame().live64);
        assert(ctx.builder.frame().ctrl =~= old(ctx).builder.frame().ctrl);
    }
}

/// Generates nothing: the basic block code generator emits the branch.
pub fn instr16_E1_jit(ctx: &mut JitContext, _imm: u32)
    requires
        ready(old(ctx).builder, 8),
    ensures
        emits(*old(ctx), *final(ctx), Seq::<Op>::empty(), 0),
        restores_by(old(ctx).builder, final(ctx).builder, 0),
{
    proof {
        assert(ctx.builder.code@ =~= old(ctx).builder.code@ + Seq::<Op>::empty());
        assert(ctx.builder.frame().live =~= old(ctx).builder.frame().live);
        assert(ctx.builder.frame().live64 =~= old(ctx).builder.frame().live64);
        assert(ctx.builder.frame().ctrl =~= old(ctx).builder.frame().ctrl);
    }
}

/// Generates nothing: the basic block code generator emits the branch.
pub fn instr32_E1_jit(ctx: &mut JitContext, _imm: u32)
    requires
        ready(old(ctx).builder, 8),
    ensures
        emits(*old(ctx), *final(ctx), Seq::<Op>::empty(), 0),
        restores_by(old(ctx).builder, final(ctx).builder, 0),
{
    proof {
        assert(ctx.builder.code@ =~= old(ctx).builder.code@ + Seq::<Op>::empty());
        assert(ctx.builder.frame().live =~= old(ctx).builder.frame().live);
        assert(ctx.builder.frame().live64 =~= old(ctx).builder.frame().live64);
        assert(ctx.builder.frame().ctrl =~= old(ctx).builder.frame().ctrl);
    }
}

/// Generates nothing: the basic block code generator emits the branch.
pub fn instr16_E2_jit(ctx: &mut JitContext, _imm: u32)
    requires
        ready(old(ctx).builder, 8),
    ensures
        emits(*old(ctx), *final(ctx), Seq::<Op>::empty(), 0),
        restores_by(old(ctx).builder, final(ctx).builder, 0),
{
    proof {
        assert(ctx.builder.code@ =~= old(ctx).builder.code@ + Seq::<Op>::empty());
        assert(ctx.builder.frame().live =~= old(ctx).builder.frame().live);
        assert(ctx.builder.frame().live64 =~= old(ctx).builder.frame().live64);
        assert(ctx.builder.frame().ctrl =~= old(ctx).builder.frame().ctrl);
    }
}

/// Generates nothing: the basic block code generator emits the branch.
pub fn instr32_E2_jit(ctx: &mut JitContext, _imm: u32)
    requires
        ready(old(ctx).builder, 8),
    ensures
        emits(*old(ctx), *final(ctx), Seq::<Op>::empty(), 0),
        restores_by(old(ctx).builder, final(ctx).builder, 0),
{
    proof {
        assert(ctx.builder.code@ =~= old(ctx).builder.code@ + Seq::<Op>::empty());
        assert(ctx.builder.frame().live =~= old(ctx).builder.frame().live);
        assert(ctx.builder.frame().live64 =~= old(ctx).builder.frame().live64);
        assert(ctx.builder.frame().ctrl =~= old(ctx).builder.frame().ctrl);
    }
}

/// Generates nothing: the basic block code generator emits the branch.
pub fn instr16_E3_jit(ctx: &mut JitContext, _imm: u32)
    requires
        ready(old(ctx).builder, 8),
    ensures
        emits(*old(ctx), *final(ctx), Seq::<Op>::empty(), 0),
        restores_by(old(ctx).builder, final(ctx).builder, 0),
{
    proof {
        assert(ctx.builder.code@ =~= old(ctx).builder.code@ + Seq::<Op>::empty());
        assert(ctx.builder.frame().live =~= old(ctx).builder.frame().live);
        assert(ctx.builder.frame().live64 =~= old(ctx).builder.frame().live64);
        assert(ctx.builder.frame().ctrl =~= old(ctx).builder.frame().ctrl);
    }
}

/// Generates nothing: the basic block code generator emits the branch.
pub fn instr32_E3_jit(ctx: &mut JitContext, _imm: u32)
    requires
        ready(old(ctx).builder, 8),
    ensures
        emits(*old(ctx), *final(ctx), Seq::<Op>::empty(), 0),
        restores_by(old(ctx).builder, final(ctx).builder, 0),
{
    proof {
        assert(ctx.builder.code@ =~= old(ctx).builder.code@ + Seq::<Op>::empty());
        assert(ctx.builder.frame().live =~= old(ctx).builder.frame().live);
        assert(ctx.builder.frame().live64 =~= old(ctx).builder.frame().live64);
        assert(ctx.builder.frame().ctrl =~= old(ctx).builder.frame().ctrl);
    }
}

} // verus!
