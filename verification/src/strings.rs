//! The string instructions, generated as calls of their runtime helpers.

use vstd::prelude::*;
use crate::op::Op;
use crate::consts::DS;
use crate::builder::{JitContext, ready, emits, restores_by};

verus! {

/// The string instructions.
#[derive(Clone, Copy, PartialEq, Eq, Structural, Debug)]
pub enum StringInstruction {
    Ins,
    Outs,
    Movs,
    Cmps,
    Stos,
    Lods,
    Scas,
}

/// The instructions that read from DS:(E)SI take that segment base as a second argument.
pub open spec fn reads_source(ins: StringInstruction) -> bool {
    ins == StringInstruction::Outs || ins == StringInstruction::Cmps || ins == StringInstruction::Lods
        || ins == StringInstruction::Movs
}

/// The first part of the helper's name: the mnemonic.
pub open spec fn mnemonic(ins: StringInstruction) -> &'static str {
    match ins {
        StringInstruction::Ins => "ins",
        StringInstruction::Outs => "outs",
        StringInstruction::Movs => "movs",
        StringInstruction::Cmps => "cmps",
        StringInstruction::Stos => "stos",
        StringInstruction::Lods => "lods",
        StringInstruction::Scas => "scas",
    }
}

/// The second part of the helper's name: the operand size.
pub open spec fn size_suffix(size: u8) -> &'static str {
    if size == 8 {
        "b"
    } else if size == 16 {
        "w"
    } else {
        "d"
    }
}

/// The last part of the helper's name: how the prefix repeats the instruction.  The
/// comparing instructions repeat while equal (`F3`) or while not equal (`F2`).
pub open spec fn repeat_suffix(ins: StringInstruction, prefix: u8) -> &'static str {
    if prefix == 0xF2 || prefix == 0xF3 {
        if ins == StringInstruction::Cmps || ins == StringInstruction::Scas {
            if prefix == 0xF2 {
                "_repnz"
            } else {
                "_repz"
            }
        } else {
            "_rep"
        }
    } else {
        "_no_rep"
    }
}

fn mnemonic_of(ins: StringInstruction) -> (name: &'static str)
    ensures
        name == mnemonic(ins),
{
    match ins {
        StringInstruction::Ins => "ins",
        StringInstruction::Outs => "outs",
        StringInstruction::Movs => "movs",
        StringInstruction::Cmps => "cmps",
        StringInstruction::Stos => "stos",
        StringInstruction::Lods => "lods",
        StringInstruction::Scas => "scas",
    }
}

fn size_suffix_of(size: u8) -> (suffix: &'static str)
    ensures
        suffix == size_suffix(size),
{
    if size == 8 {
        "b"
    } else if size == 16 {
        "w"
    } else {
        "d"
    }
}

fn repeat_suffix_of(ins: StringInstruction, prefix: u8) -> (suffix: &'static str)
    ensures
        suffix == repeat_suffix(ins, prefix),
{
    if prefix == 0xF2 || prefix == 0xF3 {
        match ins {
            StringInstruction::Cmps | StringInstruction::Scas => {
                if prefix == 0xF2 {
                    "_repnz"
                } else {
                    "_repz"
                }
            },
            _ => "_rep",
        }
    } else {
        "_no_rep"
    }
}

/// The code that [`gen_string_ins`] appends.
pub open spec fn gen_string_ins_code(ins: StringInstruction, size: u8, prefix: u8, asize: bool) -> Seq<Op> {
    let name = (mnemonic(ins), size_suffix(size), repeat_suffix(ins, prefix));
    seq![Op::ConstI32(if asize { 1i32 } else { 0i32 })] + (if reads_source(ins) {
        seq![Op::ConstI32(0), Op::AddSegOffset(DS)]
    } else {
        Seq::<Op>::empty()
    }) + seq![
        Op::MoveRegistersFromLocalsToMemory,
        if reads_source(ins) {
            Op::CallStringFn2(name.0, name.1, name.2)
        } else {
            Op::CallStringFn1(name.0, name.1, name.2)
        },
        Op::MoveRegistersFromMemoryToLocals,
    ]
}

/// A string instruction through its runtime helper, named after the instruction, the
/// operand size and the repeat prefix.  The helper takes whether addresses are 32 bits
/// wide and, for the instructions that read DS:(E)SI, the base of DS.
pub fn gen_string_ins(ctx: &mut JitContext, ins: StringInstruction, size: u8, prefix: u8)
    requires
        ready(old(ctx).builder, 8),
        prefix == 0 || prefix == 0xF2 || prefix == 0xF3,
        size == 8 || size == 16 || size == 32,
    ensures
        emits(*old(ctx), *final(ctx), gen_string_ins_code(ins, size, prefix, old(ctx).cpu.address_size_32), 0),
        restores_by(old(ctx).builder, final(ctx).builder, 0),
{
    let two_args = ins == StringInstruction::Outs || ins == StringInstruction::Cmps
        || ins == StringInstruction::Lods || ins == StringInstruction::Movs;
    ctx.builder.emit(Op::ConstI32(if ctx.cpu.asize_32() { 1 } else { 0 }));
    if two_args {
        ctx.builder.emit(Op::ConstI32(0));
        ctx.builder.emit(Op::AddSegOffset(DS));
    }
    let first = mnemonic_of(ins);
    let second = size_suffix_of(size);
    let third = repeat_suffix_of(ins, prefix);
    ctx.builder.emit(Op::MoveRegistersFromLocalsToMemory);
    if two_args {
        ctx.builder.emit(Op::CallStringFn2(first, second, third));
    } else {
        ctx.builder.emit(Op::CallStringFn1(first, second, third));
    }
    ctx.builder.emit(Op::MoveRegistersFromMemoryToLocals);
    proof {
        assert(ctx.builder.code@ =~= old(ctx).builder.code@ + gen_string_ins_code(ins, size, prefix, old(ctx).cpu.address_size_32));
        assert(ctx.builder.frame().live =~= old(ctx).builder.frame().live);
        assert(ctx.builder.frame().live64 =~= old(ctx).builder.frame().live64);
        assert(ctx.builder.frame().ctrl =~= old(ctx).builder.frame().ctrl);
    }
}

/// `ins` on 8-bit operands.
pub fn instr_6C_jit(ctx: &mut JitContext)
    requires
        ready(old(ctx).builder, 8),
    ensures
        emits(*old(ctx), *final(ctx), gen_string_ins_code(StringInstruction::Ins, 8, 0, old(ctx).cpu.address_size_32), 0),
        restores_by(old(ctx).builder, final(ctx).builder, 0),
{
    gen_string_ins(ctx, StringInstruction::Ins, 8, 0);
    proof {
        assert(ctx.builder.code@ =~= old(ctx).builder.code@ + gen_string_ins_code(StringInstruction::Ins, 8, 0, old(ctx).cpu.address_size_32));
        assert(ctx.builder.frame().live =~= old(ctx).builder.frame().live);
        assert(ctx.builder.frame().live64 =~= old(ctx).builder.frame().live64);
        assert(ctx.builder.frame().ctrl =~= old(ctx).builder.frame().ctrl);
    }
}

/// `repnz ins` on 8-bit operands.
pub fn instr_F26C_jit(ctx: &mut JitContext)
    requires
        ready(old(ctx).builder, 8),
    ensures
        emits(*old(ctx), *final(ctx), gen_string_ins_code(StringInstruction::Ins, 8, 0xF2, old(ctx).cpu.address_size_32), 0),
        restores_by(old(ctx).builder, final(ctx).builder, 0),
{
    gen_string_ins(ctx, StringInstruction::Ins, 8, 0xF2);
    proof {
        assert(ctx.builder.code@ =~= old(ctx).builder.code@ + gen_string_ins_code(StringInstruction::Ins, 8, 0xF2, old(ctx).cpu.address_size_32));
        assert(ctx.builder.frame().live =~= old(ctx).builder.frame().live);
        assert(ctx.builder.frame().live64 =~= old(ctx).builder.frame().live64);
        assert(ctx.builder.frame().ctrl =~= old(ctx).builder.frame().ctrl);
    }
}

/// `rep ins` on 8-bit operands.
pub fn instr_F36C_jit(ctx: &mut JitContext)
    requires
        ready(old(ctx).builder, 8),
    ensures
        emits(*old(ctx), *final(ctx), gen_string_ins_code(StringInstruction::Ins, 8, 0xF3, old(ctx).cpu.address_size_32), 0),
        restores_by(old(ctx).builder, final(ctx).builder, 0),
{
    gen_string_ins(ctx, StringInstruction::Ins, 8, 0xF3);
    proof {
        assert(ctx.builder.code@ =~= old(ctx).builder.code@ + gen_string_ins_code(StringInstruction::Ins, 8, 0xF3, old(ctx).cpu.address_size_32));
        assert(ctx.builder.frame().live =~= old(ctx).builder.frame().live);
        assert(ctx.builder.frame().live64 =~= old(ctx).builder.frame().live64);
        assert(ctx.builder.frame().ctrl =~= old(ctx).builder.frame().ctrl);
    }
}

/// `ins` on 16-bit operands.
pub fn instr16_6D_jit(ctx: &mut JitContext)
    requires
        ready(old(ctx).builder, 8),
    ensures
        emits(*old(ctx), *final(ctx), gen_string_ins_code(StringInstruction::Ins, 16, 0, old(ctx).cpu.address_size_32), 0),
        restores_by(old(ctx).builder, final(ctx).builder, 0),
{
    gen_string_ins(ctx, StringInstruction::Ins, 16, 0);
    proof {
        assert(ctx.builder.code@ =~= old(ctx).builder.code@ + gen_string_ins_code(StringInstruction::Ins, 16, 0, old(ctx).cpu.address_size_32));
        assert(ctx.builder.frame().live =~= old(ctx).builder.frame().live);
        assert(ctx.builder.frame().live64 =~= old(ctx).builder.frame().live64);
        assert(ctx.builder.frame().ctrl =~= old(ctx).builder.frame().ctrl);
    }
}

/// `repnz ins` on 16-bit operands.
pub fn instr16_F26D_jit(ctx: &mut JitContext)
    requires
        ready(old(ctx).builder, 8),
    ensures
        emits(*old(ctx), *final(ctx), gen_string_ins_code(StringInstruction::Ins, 16, 0xF2, old(ctx).cpu.address_size_32), 0),
        restores_by(old(ctx).builder, final(ctx).builder, 0),
{
    gen_string_ins(ctx, StringInstruction::Ins, 16, 0xF2);
    proof {
        assert(ctx.builder.code@ =~= old(ctx).builder.code@ + gen_string_ins_code(StringInstruction::Ins, 16, 0xF2, old(ctx).cpu.address_size_32));
        assert(ctx.builder.frame().live =~= old(ctx).builder.frame().live);
        assert(ctx.builder.frame().live64 =~= old(ctx).builder.frame().live64);
        assert(ctx.builder.frame().ctrl =~= old(ctx).builder.frame().ctrl);
    }
}

/// `rep ins` on 16-bit operands.
pub fn instr16_F36D_jit(ctx: &mut JitContext)
    requires
        ready(old(ctx).builder, 8),
    ensures
        emits(*old(ctx), *final(ctx), gen_string_ins_code(StringInstruction::Ins, 16, 0xF3, old(ctx).cpu.address_size_32), 0),
        restores_by(old(ctx).builder, final(ctx).builder, 0),
{
    gen_string_ins(ctx, StringInstruction::Ins, 16, 0xF3);
    proof {
        assert(ctx.builder.code@ =~= old(ctx).builder.code@ + gen_string_ins_code(StringInstruction::Ins, 16, 0xF3, old(ctx).cpu.address_size_32));
        assert(ctx.builder.frame().live =~= old(ctx).builder.frame().live);
        assert(ctx.builder.frame().live64 =~= old(ctx).builder.frame().live64);
        assert(ctx.builder.frame().ctrl =~= old(ctx).builder.frame().ctrl);
    }
}

/// `ins` on 32-bit operands.
pub fn instr32_6D_jit(ctx: &mut JitContext)
    requires
        ready(old(ctx).builder, 8),
    ensures
        emits(*old(ctx), *final(ctx), gen_string_ins_code(StringInstruction::Ins, 32, 0, old(ctx).cpu.address_size_32), 0),
        restores_by(old(ctx).builder, final(ctx).builder, 0),
{
    gen_string_ins(ctx, StringInstruction::Ins, 32, 0);
    proof {
        assert(ctx.builder.code@ =~= old(ctx).builder.code@ + gen_string_ins_code(StringInstruction::Ins, 32, 0, old(ctx).cpu.address_size_32));
        assert(ctx.builder.frame().live =~= old(ctx).builder.frame().live);
        assert(ctx.builder.frame().live64 =~= old(ctx).builder.frame().live64);
        assert(ctx.builder.frame().ctrl =~= old(ctx).builder.frame().ctrl);
    }
}

/// `repnz ins` on 32-bit operands.
pub fn instr32_F26D_jit(ctx: &mut JitContext)
    requires
        ready(old(ctx).builder, 8),
    ensures
        emits(*old(ctx), *final(ctx), gen_string_ins_code(StringInstruction::Ins, 32, 0xF2, old(ctx).cpu.address_size_32), 0),
        restores_by(old(ctx).builder, final(ctx).builder, 0),
{
    gen_string_ins(ctx, StringInstruction::Ins, 32, 0xF2);
    proof {
        assert(ctx.builder.code@ =~= old(ctx).builder.code@ + gen_string_ins_code(StringInstruction::Ins, 32, 0xF2, old(ctx).cpu.address_size_32));
        assert(ctx.builder.frame().live =~= old(ctx).builder.frame().live);
        assert(ctx.builder.frame().live64 =~= old(ctx).builder.frame().live64);
        assert(ctx.builder.frame().ctrl =~= old(ctx).builder.frame().ctrl);
    }
}

/// `rep ins` on 32-bit operands.
pub fn instr32_F36D_jit(ctx: &mut JitContext)
    requires
        ready(old(ctx).builder, 8),
    ensures
        emits(*old(ctx), *final(ctx), gen_string_ins_code(StringInstruction::Ins, 32, 0xF3, old(ctx).cpu.address_size_32), 0),
        restores_by(old(ctx).builder, final(ctx).builder, 0),
{
    gen_string_ins(ctx, StringInstruction::Ins, 32, 0xF3);
    proof {
        assert(ctx.builder.code@ =~= old(ctx).builder.code@ + gen_string_ins_code(StringInstruction::Ins, 32, 0xF3, old(ctx).cpu.address_size_32));
        assert(ctx.builder.frame().live =~= old(ctx).builder.frame().live);
        assert(ctx.builder.frame().live64 =~= old(ctx).builder.frame().live64);
        assert(ctx.builder.frame().ctrl =~= old(ctx).builder.frame().ctrl);
    }
}

/// `outs` on 8-bit operands.
pub fn instr_6E_jit(ctx: &mut JitContext)
    requires
        ready(old(ctx).builder, 8),
    ensures
        emits(*old(ctx), *final(ctx), gen_string_ins_code(StringInstruction::Outs, 8, 0, old(ctx).cpu.address_size_32), 0),
        restores_by(old(ctx).builder, final(ctx).builder, 0),
{
    gen_string_ins(ctx, StringInstruction::Outs, 8, 0);
    proof {
        assert(ctx.builder.code@ =~= old(ctx).builder.code@ + gen_string_ins_code(StringInstruction::Outs, 8, 0, old(ctx).cpu.address_size_32));
        assert(ctx.builder.frame().live =~= old(ctx).builder.frame().live);
        assert(ctx.builder.frame().live64 =~= old(ctx).builder.frame().live64);
        assert(ctx.builder.frame().ctrl =~= old(ctx).builder.frame().ctrl);
    }
}

/// `repnz outs` on 8-bit operands.
pub fn instr_F26E_jit(ctx: &mut JitContext)
    requires
        ready(old(ctx).builder, 8),
    ensures
        emits(*old(ctx), *final(ctx), gen_string_ins_code(StringInstruction::Outs, 8, 0xF2, old(ctx).cpu.address_size_32), 0),
        restores_by(old(ctx).builder, final(ctx).builder, 0),
{
    gen_string_ins(ctx, StringInstruction::Outs, 8, 0xF2);
    proof {
        assert(ctx.builder.code@ =~= old(ctx).builder.code@ + gen_string_ins_code(StringInstruction::Outs, 8, 0xF2, old(ctx).cpu.address_size_32));
        assert(ctx.builder.frame().live =~= old(ctx).builder.frame().live);
        assert(ctx.builder.frame().live64 =~= old(ctx).builder.frame().live64);
        assert(ctx.builder.frame().ctrl =~= old(ctx).builder.frame().ctrl);
    }
}

/// `rep outs` on 8-bit operands.
pub fn instr_F36E_jit(ctx: &mut JitContext)
    requires
        ready(old(ctx).builder, 8),
    ensures
        emits(*old(ctx), *final(ctx), gen_string_ins_code(StringInstruction::Outs, 8, 0xF3, old(ctx).cpu.address_size_32), 0),
        restores_by(old(ctx).builder, final(ctx).builder, 0),
{
    gen_string_ins(ctx, StringInstruction::Outs, 8, 0xF3);
    proof {
        assert(ctx.builder.code@ =~= old(ctx).builder.code@ + gen_string_ins_code(StringInstruction::Outs, 8, 0xF3, old(ctx).cpu.address_size_32));
        assert(ctx.builder.frame().live =~= old(ctx).builder.frame().live);
        assert(ctx.builder.frame().live64 =~= old(ctx).builder.frame().live64);
        assert(ctx.builder.frame().ctrl =~= old(ctx).builder.frame().ctrl);
    }
}

/// `outs` on 16-bit operands.
pub fn instr16_6F_jit(ctx: &mut JitContext)
    requires
        ready(old(ctx).builder, 8),
    ensures
        emits(*old(ctx), *final(ctx), gen_string_ins_code(StringInstruction::Outs, 16, 0, old(ctx).cpu.address_size_32), 0),
        restores_by(old(ctx).builder, final(ctx).builder, 0),
{
    gen_string_ins(ctx, StringInstruction::Outs, 16, 0);
    proof {
        assert(ctx.builder.code@ =~= old(ctx).builder.code@ + gen_string_ins_code(StringInstruction::Outs, 16, 0, old(ctx).cpu.address_size_32));
        assert(ctx.builder.frame().live =~= old(ctx).builder.frame().live);
        assert(ctx.builder.frame().live64 =~= old(ctx).builder.frame().live64);
        assert(ctx.builder.frame().ctrl =~= old(ctx).builder.frame().ctrl);
    }
}

/// `repnz outs` on 16-bit operands.
pub fn instr16_F26F_jit(ctx: &mut JitContext)
    requires
        ready(old(ctx).builder, 8),
    ensures
        emits(*old(ctx), *final(ctx), gen_string_ins_code(StringInstruction::Outs, 16, 0xF2, old(ctx).cpu.address_size_32), 0),
        restores_by(old(ctx).builder, final(ctx).builder, 0),
{
    gen_string_ins(ctx, StringInstruction::Outs, 16, 0xF2);
    proof {
        assert(ctx.builder.code@ =~= old(ctx).builder.code@ + gen_string_ins_code(StringInstruction::Outs, 16, 0xF2, old(ctx).cpu.address_size_32));
        assert(ctx.builder.frame().live =~= old(ctx).builder.frame().live);
        assert(ctx.builder.frame().live64 =~= old(ctx).builder.frame().live64);
        assert(ctx.builder.frame().ctrl =~= old(ctx).builder.frame().ctrl);
    }
}

/// `rep outs` on 16-bit operands.
pub fn instr16_F36F_jit(ctx: &mut JitContext)
    requires
        ready(old(ctx).builder, 8),
    ensures
        emits(*old(ctx), *final(ctx), gen_string_ins_code(StringInstruction::Outs, 16, 0xF3, old(ctx).cpu.address_size_32), 0),
        restores_by(old(ctx).builder, final(ctx).builder, 0),
{
    gen_string_ins(ctx, StringInstruction::Outs, 16, 0xF3);
    proof {
        assert(ctx.builder.code@ =~= old(ctx).builder.code@ + gen_string_ins_code(StringInstruction::Outs, 16, 0xF3, old(ctx).cpu.address_size_32));
        assert(ctx.builder.frame().live =~= old(ctx).builder.frame().live);
        assert(ctx.builder.frame().live64 =~= old(ctx).builder.frame().live64);
        assert(ctx.builder.frame().ctrl =~= old(ctx).builder.frame().ctrl);
    }
}

/// `outs` on 32-bit operands.
pub fn instr32_6F_jit(ctx: &mut JitContext)
    requires
        ready(old(ctx).builder, 8),
    ensures
        emits(*old(ctx), *final(ctx), gen_string_ins_code(StringInstruction::Outs, 32, 0, old(ctx).cpu.address_size_32), 0),
        restores_by(old(ctx).builder, final(ctx).builder, 0),
{
    gen_string_ins(ctx, StringInstruction::Outs, 32, 0);
    proof {
        assert(ctx.builder.code@ =~= old(ctx).builder.code@ + gen_string_ins_code(StringInstruction::Outs, 32, 0, old(ctx).cpu.address_size_32));
        assert(ctx.builder.frame().live =~= old(ctx).builder.frame().live);
        assert(ctx.builder.frame().live64 =~= old(ctx).builder.frame().live64);
        assert(ctx.builder.frame().ctrl =~= old(ctx).builder.frame().ctrl);
    }
}

/// `repnz outs` on 32-bit operands.
pub fn instr32_F26F_jit(ctx: &mut JitContext)
    requires
        ready(old(ctx).builder, 8),
    ensures
        emits(*old(ctx), *final(ctx), gen_string_ins_code(StringInstruction::Outs, 32, 0xF2, old(ctx).cpu.address_size_32), 0),
        restores_by(old(ctx).builder, final(ctx).builder, 0),
{
    gen_string_ins(ctx, StringInstruction::Outs, 32, 0xF2);
    proof {
        assert(ctx.builder.code@ =~= old(ctx).builder.code@ + gen_string_ins_code(StringInstruction::Outs, 32, 0xF2, old(ctx).cpu.address_size_32));
        assert(ctx.builder.frame().live =~= old(ctx).builder.frame().live);
        assert(ctx.builder.frame().live64 =~= old(ctx).builder.frame().live64);
        assert(ctx.builder.frame().ctrl =~= old(ctx).builder.frame().ctrl);
    }
}

/// `rep outs` on 32-bit operands.
pub fn instr32_F36F_jit(ctx: &mut JitContext)
    requires
        ready(old(ctx).builder, 8),
    ensures
        emits(*old(ctx), *final(ctx), gen_string_ins_code(StringInstruction::Outs, 32, 0xF3, old(ctx).cpu.address_size_32), 0),
        restores_by(old(ctx).builder, final(ctx).builder, 0),
{
    gen_string_ins(ctx, StringInstruction::Outs, 32, 0xF3);
    proof {
        assert(ctx.builder.code@ =~= old(ctx).builder.code@ + gen_string_ins_code(StringInstruction::Outs, 32, 0xF3, old(ctx).cpu.address_size_32));
        assert(ctx.builder.frame().live =~= old(ctx).builder.frame().live);
        assert(ctx.builder.frame().live64 =~= old(ctx).builder.frame().live64);
        assert(ctx.builder.frame().ctrl =~= old(ctx).builder.frame().ctrl);
    }
}

/// `movs` on 8-bit operands.
pub fn instr_A4_jit(ctx: &mut JitContext)
    requires
        ready(old(ctx).builder, 8),
    ensures
        emits(*old(ctx), *final(ctx), gen_string_ins_code(StringInstruction::Movs, 8, 0, old(ctx).cpu.address_size_32), 0),
        restores_by(old(ctx).builder, final(ctx).builder, 0),
{
    gen_string_ins(ctx, StringInstruction::Movs, 8, 0);
    proof {
        assert(ctx.builder.code@ =~= old(ctx).builder.code@ + gen_string_ins_code(StringInstruction::Movs, 8, 0, old(ctx).cpu.address_size_32));
        assert(ctx.builder.frame().live =~= old(ctx).builder.frame().live);
        assert(ctx.builder.frame().live64 =~= old(ctx).builder.frame().live64);
        assert(ctx.builder.frame().ctrl =~= old(ctx).builder.frame().ctrl);
    }
}

/// `repnz movs` on 8-bit operands.
pub fn instr_F2A4_jit(ctx: &mut JitContext)
    requires
        ready(old(ctx).builder, 8),
    ensures
        emits(*old(ctx), *final(ctx), gen_string_ins_code(StringInstruction::Movs, 8, 0xF2, old(ctx).cpu.address_size_32), 0),
        restores_by(old(ctx).builder, final(ctx).builder, 0),
{
    gen_string_ins(ctx, StringInstruction::Movs, 8, 0xF2);
    proof {
        assert(ctx.builder.code@ =~= old(ctx).builder.code@ + gen_string_ins_code(StringInstruction::Movs, 8, 0xF2, old(ctx).cpu.address_size_32));
        assert(ctx.builder.frame().live =~= old(ctx).builder.frame().live);
        assert(ctx.builder.frame().live64 =~= old(ctx).builder.frame().live64);
        assert(ctx.builder.frame().ctrl =~= old(ctx).builder.frame().ctrl);
    }
}

/// `rep movs` on 8-bit operands.
pub fn instr_F3A4_jit(ctx: &mut JitContext)
    requires
        ready(old(ctx).builder, 8),
    ensures
        emits(*old(ctx), *final(ctx), gen_string_ins_code(StringInstruction::Movs, 8, 0xF3, old(ctx).cpu.address_size_32), 0),
        restores_by(old(ctx).builder, final(ctx).builder, 0),
{
    gen_string_ins(ctx, StringInstruction::Movs, 8, 0xF3);
    proof {
        assert(ctx.builder.code@ =~= old(ctx).builder.code@ + gen_string_ins_code(StringInstruction::Movs, 8, 0xF3, old(ctx).cpu.address_size_32));
        assert(ctx.builder.frame().live =~= old(ctx).builder.frame().live);
        assert(ctx.builder.frame().live64 =~= old(ctx).builder.frame().live64);
        assert(ctx.builder.frame().ctrl =~= old(ctx).builder.frame().ctrl);
    }
}

/// `movs` on 16-bit operands.
pub fn instr16_A5_jit(ctx: &mut JitContext)
    requires
        ready(old(ctx).builder, 8),
    ensures
        emits(*old(ctx), *final(ctx), gen_string_ins_code(StringInstruction::Movs, 16, 0, old(ctx).cpu.address_size_32), 0),
        restores_by(old(ctx).builder, final(ctx).builder, 0),
{
    gen_string_ins(ctx, StringInstruction::Movs, 16, 0);
    proof {
        assert(ctx.builder.code@ =~= old(ctx).builder.code@ + gen_string_ins_code(StringInstruction::Movs, 16, 0, old(ctx).cpu.address_size_32));
        assert(ctx.builder.frame().live =~= old(ctx).builder.frame().live);
        assert(ctx.builder.frame().live64 =~= old(ctx).builder.frame().live64);
        assert(ctx.builder.frame().ctrl =~= old(ctx).builder.frame().ctrl);
    }
}

/// `repnz movs` on 16-bit operands.
pub fn instr16_F2A5_jit(ctx: &mut JitContext)
    requires
        ready(old(ctx).builder, 8),
    ensures
        emits(*old(ctx), *final(ctx), gen_string_ins_code(StringInstruction::Movs, 16, 0xF2, old(ctx).cpu.address_size_32), 0),
        restores_by(old(ctx).builder, final(ctx).builder, 0),
{
    gen_string_ins(ctx, StringInstruction::Movs, 16, 0xF2);
    proof {
        assert(ctx.builder.code@ =~= old(ctx).builder.code@ + gen_string_ins_code(StringInstruction::Movs, 16, 0xF2, old(ctx).cpu.address_size_32));
        assert(ctx.builder.frame().live =~= old(ctx).builder.frame().live);
        assert(ctx.builder.frame().live64 =~= old(ctx).builder.frame().live64);
        assert(ctx.builder.frame().ctrl =~= old(ctx).builder.frame().ctrl);
    }
}

/// `rep movs` on 16-bit operands.
pub fn instr16_F3A5_jit(ctx: &mut JitContext)
    requires
        ready(old(ctx).builder, 8),
    ensures
        emits(*old(ctx), *final(ctx), gen_string_ins_code(StringInstruction::Movs, 16, 0xF3, old(ctx).cpu.address_size_32), 0),
        restores_by(old(ctx).builder, final(ctx).builder, 0),
{
    gen_string_ins(ctx, StringInstruction::Movs, 16, 0xF3);
    proof {
        assert(ctx.builder.code@ =~= old(ctx).builder.code@ + gen_string_ins_code(StringInstruction::Movs, 16, 0xF3, old(ctx).cpu.address_size_32));
        assert(ctx.builder.frame().live =~= old(ctx).builder.frame().live);
        assert(ctx.builder.frame().live64 =~= old(ctx).builder.frame().live64);
        assert(ctx.builder.frame().ctrl =~= old(ctx).builder.frame().ctrl);
    }
}

/// `movs` on 32-bit operands.
pub fn instr32_A5_jit(ctx: &mut JitContext)
    requires
        ready(old(ctx).builder, 8),
    ensures
        emits(*old(ctx), *final(ctx), gen_string_ins_code(StringInstruction::Movs, 32, 0, old(ctx).cpu.address_size_32), 0),
        restores_by(old(ctx).builder, final(ctx).builder, 0),
{
    gen_string_ins(ctx, StringInstruction::Movs, 32, 0);
    proof {
        assert(ctx.builder.code@ =~= old(ctx).builder.code@ + gen_string_ins_code(StringInstruction::Movs, 32, 0, old(ctx).cpu.address_size_32));
        assert(ctx.builder.frame().live =~= old(ctx).builder.frame().live);
        assert(ctx.builder.frame().live64 =~= old(ctx).builder.frame().live64);
        assert(ctx.builder.frame().ctrl =~= old(ctx).builder.frame().ctrl);
    }
}

/// `repnz movs` on 32-bit operands.
pub fn instr32_F2A5_jit(ctx: &mut JitContext)
    requires
        ready(old(ctx).builder, 8),
    ensures
        emits(*old(ctx), *final(ctx), gen_string_ins_code(StringInstruction::Movs, 32, 0xF2, old(ctx).cpu.address_size_32), 0),
        restores_by(old(ctx).builder, final(ctx).builder, 0),
{
    gen_string_ins(ctx, StringInstruction::Movs, 32, 0xF2);
    proof {
        assert(ctx.builder.code@ =~= old(ctx).builder.code@ + gen_string_ins_code(StringInstruction::Movs, 32, 0xF2, old(ctx).cpu.address_size_32));
        assert(ctx.builder.frame().live =~= old(ctx).builder.frame().live);
        assert(ctx.builder.frame().live64 =~= old(ctx).builder.frame().live64);
        assert(ctx.builder.frame().ctrl =~= old(ctx).builder.frame().ctrl);
    }
}

/// `rep movs` on 32-bit operands.
pub fn instr32_F3A5_jit(ctx: &mut JitContext)
    requires
        ready(old(ctx).builder, 8),
    ensures
        emits(*old(ctx), *final(ctx), gen_string_ins_code(StringInstruction::Movs, 32, 0xF3, old(ctx).cpu.address_size_32), 0),
        restores_by(old(ctx).builder, final(ctx).builder, 0),
{
    gen_string_ins(ctx, StringInstruction::Movs, 32, 0xF3);
    proof {
        assert(ctx.builder.code@ =~= old(ctx).builder.code@ + gen_string_ins_code(StringInstruction::Movs, 32, 0xF3, old(ctx).cpu.address_size_32));
        assert(ctx.builder.frame().live =~= old(ctx).builder.frame().live);
        assert(ctx.builder.frame().live64 =~= old(ctx).builder.frame().live64);
        assert(ctx.builder.frame().ctrl =~= old(ctx).builder.frame().ctrl);
    }
}

/// `cmps` on 8-bit operands.
pub fn instr_A6_jit(ctx: &mut JitContext)
    requires
        ready(old(ctx).builder, 8),
    ensures
        emits(*old(ctx), *final(ctx), gen_string_ins_code(StringInstruction::Cmps, 8, 0, old(ctx).cpu.address_size_32), 0),
        restores_by(old(ctx).builder, final(ctx).builder, 0),
{
    gen_string_ins(ctx, StringInstruction::Cmps, 8, 0);
    proof {
        assert(ctx.builder.code@ =~= old(ctx).builder.code@ + gen_string_ins_code(StringInstruction::Cmps, 8, 0, old(ctx).cpu.address_size_32));
        assert(ctx.builder.frame().live =~= old(ctx).builder.frame().live);
        assert(ctx.builder.frame().live64 =~= old(ctx).builder.frame().live64);
        assert(ctx.builder.frame().ctrl =~= old(ctx).builder.frame().ctrl);
    }
}

/// `repnz cmps` on 8-bit operands.
pub fn instr_F2A6_jit(ctx: &mut JitContext)
    requires
        ready(old(ctx).builder, 8),
    ensures
        emits(*old(ctx), *final(ctx), gen_string_ins_code(StringInstruction::Cmps, 8, 0xF2, old(ctx).cpu.address_size_32), 0),
        restores_by(old(ctx).builder, final(ctx).builder, 0),
{
    gen_string_ins(ctx, StringInstruction::Cmps, 8, 0xF2);
    proof {
        assert(ctx.builder.code@ =~= old(ctx).builder.code@ + gen_string_ins_code(StringInstruction::Cmps, 8, 0xF2, old(ctx).cpu.address_size_32));
        assert(ctx.builder.frame().live =~= old(ctx).builder.frame().live);
        assert(ctx.builder.frame().live64 =~= old(ctx).builder.frame().live64);
        assert(ctx.builder.frame().ctrl =~= old(ctx).builder.frame().ctrl);
    }
}

/// `rep cmps` on 8-bit operands.
pub fn instr_F3A6_jit(ctx: &mut JitContext)
    requires
        ready(old(ctx).builder, 8),
    ensures
        emits(*old(ctx), *final(ctx), gen_string_ins_code(StringInstruction::Cmps, 8, 0xF3, old(ctx).cpu.address_size_32), 0),
        restores_by(old(ctx).builder, final(ctx).builder, 0),
{
    gen_string_ins(ctx, StringInstruction::Cmps, 8, 0xF3);
    proof {
        assert(ctx.builder.code@ =~= old(ctx).builder.code@ + gen_string_ins_code(StringInstruction::Cmps, 8, 0xF3, old(ctx).cpu.address_size_32));
        assert(ctx.builder.frame().live =~= old(ctx).builder.frame().live);
        assert(ctx.builder.frame().live64 =~= old(ctx).builder.frame().live64);
        assert(ctx.builder.frame().ctrl =~= old(ctx).builder.frame().ctrl);
    }
}

/// `cmps` on 16-bit operands.
pub fn instr16_A7_jit(ctx: &mut JitContext)
    requires
        ready(old(ctx).builder, 8),
    ensures
        emits(*old(ctx), *final(ctx), gen_string_ins_code(StringInstruction::Cmps, 16, 0, old(ctx).cpu.address_size_32), 0),
        restores_by(old(ctx).builder, final(ctx).builder, 0),
{
    gen_string_ins(ctx, StringInstruction::Cmps, 16, 0);
    proof {
        assert(ctx.builder.code@ =~= old(ctx).builder.code@ + gen_string_ins_code(StringInstruction::Cmps, 16, 0, old(ctx).cpu.address_size_32));
        assert(ctx.builder.frame().live =~= old(ctx).builder.frame().live);
        assert(ctx.builder.frame().live64 =~= old(ctx).builder.frame().live64);
        assert(ctx.builder.frame().ctrl =~= old(ctx).builder.frame().ctrl);
    }
}

/// `repnz cmps` on 16-bit operands.
pub fn instr16_F2A7_jit(ctx: &mut JitContext)
    requires
        ready(old(ctx).builder, 8),
    ensures
        emits(*old(ctx), *final(ctx), gen_string_ins_code(StringInstruction::Cmps, 16, 0xF2, old(ctx).cpu.address_size_32), 0),
        restores_by(old(ctx).builder, final(ctx).builder, 0),
{
    gen_string_ins(ctx, StringInstruction::Cmps, 16, 0xF2);
    proof {
        assert(ctx.builder.code@ =~= old(ctx).builder.code@ + gen_string_ins_code(StringInstruction::Cmps, 16, 0xF2, old(ctx).cpu.address_size_32));
        assert(ctx.builder.frame().live =~= old(ctx).builder.frame().live);
        assert(ctx.builder.frame().live64 =~= old(ctx).builder.frame().live64);
        assert(ctx.builder.frame().ctrl =~= old(ctx).builder.frame().ctrl);
    }
}

/// `rep cmps` on 16-bit operands.
pub fn instr16_F3A7_jit(ctx: &mut JitContext)
    requires
        ready(old(ctx).builder, 8),
    ensures
        emits(*old(ctx), *final(ctx), gen_string_ins_code(StringInstruction::Cmps, 16, 0xF3, old(ctx).cpu.address_size_32), 0),
        restores_by(old(ctx).builder, final(ctx).builder, 0),
{
    gen_string_ins(ctx, StringInstruction::Cmps, 16, 0xF3);
    proof {
        assert(ctx.builder.code@ =~= old(ctx).builder.code@ + gen_string_ins_code(StringInstruction::Cmps, 16, 0xF3, old(ctx).cpu.address_size_32));
        assert(ctx.builder.frame().live =~= old(ctx).builder.frame().live);
        assert(ctx.builder.frame().live64 =~= old(ctx).builder.frame().live64);
        assert(ctx.builder.frame().ctrl =~= old(ctx).builder.frame().ctrl);
    }
}

/// `cmps` on 32-bit operands.
pub fn instr32_A7_jit(ctx: &mut JitContext)
    requires
        ready(old(ctx).builder, 8),
    ensures
        emits(*old(ctx), *final(ctx), gen_string_ins_code(StringInstruction::Cmps, 32, 0, old(ctx).cpu.address_size_32), 0),
        restores_by(old(ctx).builder, final(ctx).builder, 0),
{
    gen_string_ins(ctx, StringInstruction::Cmps, 32, 0);
    proof {
        assert(ctx.builder.code@ =~= old(ctx).builder.code@ + gen_string_ins_code(StringInstruction::Cmps, 32, 0, old(ctx).cpu.address_size_32));
        assert(ctx.builder.frame().live =~= old(ctx).builder.frame().live);
        assert(ctx.builder.frame().live64 =~= old(ctx).builder.frame().live64);
        assert(ctx.builder.frame().ctrl =~= old(ctx).builder.frame().ctrl);
    }
}

/// `repnz cmps` on 32-bit operands.
pub fn instr32_F2A7_jit(ctx: &mut JitContext)
    requires
        ready(old(ctx).builder, 8),
    ensures
        emits(*old(ctx), *final(ctx), gen_string_ins_code(StringInstruction::Cmps, 32, 0xF2, old(ctx).cpu.address_size_32), 0),
        restores_by(old(ctx).builder, final(ctx).builder, 0),
{
    gen_string_ins(ctx, StringInstruction::Cmps, 32, 0xF2);
    proof {
        assert(ctx.builder.code@ =~= old(ctx).builder.code@ + gen_string_ins_code(StringInstruction::Cmps, 32, 0xF2, old(ctx).cpu.address_size_32));
        assert(ctx.builder.frame().live =~= old(ctx).builder.frame().live);
        assert(ctx.builder.frame().live64 =~= old(ctx).builder.frame().live64);
        assert(ctx.builder.frame().ctrl =~= old(ctx).builder.frame().ctrl);
    }
}

/// `rep cmps` on 32-bit operands.
pub fn instr32_F3A7_jit(ctx: &mut JitContext)
    requires
        ready(old(ctx).builder, 8),
    ensures
        emits(*old(ctx), *final(ctx), gen_string_ins_code(StringInstruction::Cmps, 32, 0xF3, old(ctx).cpu.address_size_32), 0),
        restores_by(old(ctx).builder, final(ctx).builder, 0),
{
    gen_string_ins(ctx, StringInstruction::Cmps, 32, 0xF3);
    proof {
        assert(ctx.builder.code@ =~= old(ctx).builder.code@ + gen_string_ins_code(StringInstruction::Cmps, 32, 0xF3, old(ctx).cpu.address_size_32));
        assert(ctx.builder.frame().live =~= old(ctx).builder.frame().live);
        assert(ctx.builder.frame().live64 =~= old(ctx).builder.frame().live64);
        assert(ctx.builder.frame().ctrl =~= old(ctx).builder.frame().ctrl);
    }
}

/// `stos` on 8-bit operands.
pub fn instr_AA_jit(ctx: &mut JitContext)
    requires
        ready(old(ctx).builder, 8),
    ensures
        emits(*old(ctx), *final(ctx), gen_string_ins_code(StringInstruction::Stos, 8, 0, old(ctx).cpu.address_size_32), 0),
        restores_by(old(ctx).builder, final(ctx).builder, 0),
{
    gen_string_ins(ctx, StringInstruction::Stos, 8, 0);
    proof {
        assert(ctx.builder.code@ =~= old(ctx).builder.code@ + gen_string_ins_code(StringInstruction::Stos, 8, 0, old(ctx).cpu.address_size_32));
        assert(ctx.builder.frame().live =~= old(ctx).builder.frame().live);
        assert(ctx.builder.frame().live64 =~= old(ctx).builder.frame().live64);
        assert(ctx.builder.frame().ctrl =~= old(ctx).builder.frame().ctrl);
    }
}

/// `repnz stos` on 8-bit operands.
pub fn instr_F2AA_jit(ctx: &mut JitContext)
    requires
        ready(old(ctx).builder, 8),
    ensures
        emits(*old(ctx), *final(ctx), gen_string_ins_code(StringInstruction::Stos, 8, 0xF2, old(ctx).cpu.address_size_32), 0),
        restores_by(old(ctx).builder, final(ctx).builder, 0),
{
    gen_string_ins(ctx, StringInstruction::Stos, 8, 0xF2);
    proof {
        assert(ctx.builder.code@ =~= old(ctx).builder.code@ + gen_string_ins_code(StringInstruction::Stos, 8, 0xF2, old(ctx).cpu.address_size_32));
        assert(ctx.builder.frame().live =~= old(ctx).builder.frame().live);
        assert(ctx.builder.frame().live64 =~= old(ctx).builder.frame().live64);
        assert(ctx.builder.frame().ctrl =~= old(ctx).builder.frame().ctrl);
    }
}

/// `rep stos` on 8-bit operands.
pub fn instr_F3AA_jit(ctx: &mut JitContext)
    requires
        ready(old(ctx).builder, 8),
    ensures
        emits(*old(ctx), *final(ctx), gen_string_ins_code(StringInstruction::Stos, 8, 0xF3, old(ctx).cpu.address_size_32), 0),
        restores_by(old(ctx).builder, final(ctx).builder, 0),
{
    gen_string_ins(ctx, StringInstruction::Stos, 8, 0xF3);
    proof {
        assert(ctx.builder.code@ =~= old(ctx).builder.code@ + gen_string_ins_code(StringInstruction::Stos, 8, 0xF3, old(ctx).cpu.address_size_32));
        assert(ctx.builder.frame().live =~= old(ctx).builder.frame().live);
        assert(ctx.builder.frame().live64 =~= old(ctx).builder.frame().live64);
        assert(ctx.builder.frame().ctrl =~= old(ctx).builder.frame().ctrl);
    }
}

/// `stos` on 16-bit operands.
pub fn instr16_AB_jit(ctx: &mut JitContext)
    requires
        ready(old(ctx).builder, 8),
    ensures
        emits(*old(ctx), *final(ctx), gen_string_ins_code(StringInstruction::Stos, 16, 0, old(ctx).cpu.address_size_32), 0),
        restores_by(old(ctx).builder, final(ctx).builder, 0),
{
    gen_string_ins(ctx, StringInstruction::Stos, 16, 0);
    proof {
        assert(ctx.builder.code@ =~= old(ctx).builder.code@ + gen_string_ins_code(StringInstruction::Stos, 16, 0, old(ctx).cpu.address_size_32));
        assert(ctx.builder.frame().live =~= old(ctx).builder.frame().live);
        assert(ctx.builder.frame().live64 =~= old(ctx).builder.frame().live64);
        assert(ctx.builder.frame().ctrl =~= old(ctx).builder.frame().ctrl);
    }
}

/// `repnz stos` on 16-bit operands.
pub fn instr16_F2AB_jit(ctx: &mut JitContext)
    requires
        ready(old(ctx).builder, 8),
    ensures
        emits(*old(ctx), *final(ctx), gen_string_ins_code(StringInstruction::Stos, 16, 0xF2, old(ctx).cpu.address_size_32), 0),
        restores_by(old(ctx).builder, final(ctx).builder, 0),
{
    gen_string_ins(ctx, StringInstruction::Stos, 16, 0xF2);
    proof {
        assert(ctx.builder.code@ =~= old(ctx).builder.code@ + gen_string_ins_code(StringInstruction::Stos, 16, 0xF2, old(ctx).cpu.address_size_32));
        assert(ctx.builder.frame().live =~= old(ctx).builder.frame().live);
        assert(ctx.builder.frame().live64 =~= old(ctx).builder.frame().live64);
        assert(ctx.builder.frame().ctrl =~= old(ctx).builder.frame().ctrl);
    }
}

/// `rep stos` on 16-bit operands.
pub fn instr16_F3AB_jit(ctx: &mut JitContext)
    requires
        ready(old(ctx).builder, 8),
    ensures
        emits(*old(ctx), *final(ctx), gen_string_ins_code(StringInstruction::Stos, 16, 0xF3, old(ctx).cpu.address_size_32), 0),
        restores_by(old(ctx).builder, final(ctx).builder, 0),
{
    gen_string_ins(ctx, StringInstruction::Stos, 16, 0xF3);
    proof {
        assert(ctx.builder.code@ =~= old(ctx).builder.code@ + gen_string_ins_code(StringInstruction::Stos, 16, 0xF3, old(ctx).cpu.address_size_32));
        assert(ctx.builder.frame().live =~= old(ctx).builder.frame().live);
        assert(ctx.builder.frame().live64 =~= old(ctx).builder.frame().live64);
        assert(ctx.builder.frame().ctrl =~= old(ctx).builder.frame().ctrl);
    }
}

/// `stos` on 32-bit operands.
pub fn instr32_AB_jit(ctx: &mut JitContext)
    requires
        ready(old(ctx).builder, 8),
    ensures
        emits(*old(ctx), *final(ctx), gen_string_ins_code(StringInstruction::Stos, 32, 0, old(ctx).cpu.address_size_32), 0),
        restores_by(old(ctx).builder, final(ctx).builder, 0),
{
    gen_string_ins(ctx, StringInstruction::Stos, 32, 0);
    proof {
        assert(ctx.builder.code@ =~= old(ctx).builder.code@ + gen_string_ins_code(StringInstruction::Stos, 32, 0, old(ctx).cpu.address_size_32));
        assert(ctx.builder.frame().live =~= old(ctx).builder.frame().live);
        assert(ctx.builder.frame().live64 =~= old(ctx).builder.frame().live64);
        assert(ctx.builder.frame().ctrl =~= old(ctx).builder.frame().ctrl);
    }
}

/// `repnz stos` on 32-bit operands.
pub fn instr32_F2AB_jit(ctx: &mut JitContext)
    requires
        ready(old(ctx).builder, 8),
    ensures
        emits(*old(ctx), *final(ctx), gen_string_ins_code(StringInstruction::Stos, 32, 0xF2, old(ctx).cpu.address_size_32), 0),
        restores_by(old(ctx).builder, final(ctx).builder, 0),
{
    gen_string_ins(ctx, StringInstruction::Stos, 32, 0xF2);
    proof {
        assert(ctx.builder.code@ =~= old(ctx).builder.code@ + gen_string_ins_code(StringInstruction::Stos, 32, 0xF2, old(ctx).cpu.address_size_32));
        assert(ctx.builder.frame().live =~= old(ctx).builder.frame().live);
        assert(ctx.builder.frame().live64 =~= old(ctx).builder.frame().live64);
        assert(ctx.builder.frame().ctrl =~= old(ctx).builder.frame().ctrl);
    }
}

/// `rep stos` on 32-bit operands.
pub fn instr32_F3AB_jit(ctx: &mut JitContext)
    requires
        ready(old(ctx).builder, 8),
    ensures
        emits(*old(ctx), *final(ctx), gen_string_ins_code(StringInstruction::Stos, 32, 0xF3, old(ctx).cpu.address_size_32), 0),
        restores_by(old(ctx).builder, final(ctx).builder, 0),
{
    gen_string_ins(ctx, StringInstruction::Stos, 32, 0xF3);
    proof {
        assert(ctx.builder.code@ =~= old(ctx).builder.code@ + gen_string_ins_code(StringInstruction::Stos, 32, 0xF3, old(ctx).cpu.address_size_32));
        assert(ctx.builder.frame().live =~= old(ctx).builder.frame().live);
        assert(ctx.builder.frame().live64 =~= old(ctx).builder.frame().live64);
        assert(ctx.builder.frame().ctrl =~= old(ctx).builder.frame().ctrl);
    }
}

/// `lods` on 8-bit operands.
pub fn instr_AC_jit(ctx: &mut JitContext)
    requires
        ready(old(ctx).builder, 8),
    ensures
        emits(*old(ctx), *final(ctx), gen_string_ins_code(StringInstruction::Lods, 8, 0, old(ctx).cpu.address_size_32), 0),
        restores_by(old(ctx).builder, final(ctx).builder, 0),
{
    gen_string_ins(ctx, StringInstruction::Lods, 8, 0);
    proof {
        assert(ctx.builder.code@ =~= old(ctx).builder.code@ + gen_string_ins_code(StringInstruction::Lods, 8, 0, old(ctx).cpu.address_size_32));
        assert(ctx.builder.frame().live =~= old(ctx).builder.frame().live);
        assert(ctx.builder.frame().live64 =~= old(ctx).builder.frame().live64);
        assert(ctx.builder.frame().ctrl =~= old(ctx).builder.frame().ctrl);
    }
}

/// `repnz lods` on 8-bit operands.
pub fn instr_F2AC_jit(ctx: &mut JitContext)
    requires
        ready(old(ctx).builder, 8),
    ensures
        emits(*old(ctx), *final(ctx), gen_string_ins_code(StringInstruction::Lods, 8, 0xF2, old(ctx).cpu.address_size_32), 0),
        restores_by(old(ctx).builder, final(ctx).builder, 0),
{
    gen_string_ins(ctx, StringInstruction::Lods, 8, 0xF2);
    proof {
        assert(ctx.builder.code@ =~= old(ctx).builder.code@ + gen_string_ins_code(StringInstruction::Lods, 8, 0xF2, old(ctx).cpu.address_size_32));
        assert(ctx.builder.frame().live =~= old(ctx).builder.frame().live);
        assert(ctx.builder.frame().live64 =~= old(ctx).builder.frame().live64);
        assert(ctx.builder.frame().ctrl =~= old(ctx).builder.frame().ctrl);
    }
}

/// `rep lods` on 8-bit operands.
pub fn instr_F3AC_jit(ctx: &mut JitContext)
    requires
        ready(old(ctx).builder, 8),
    ensures
        emits(*old(ctx), *final(ctx), gen_string_ins_code(StringInstruction::Lods, 8, 0xF3, old(ctx).cpu.address_size_32), 0),
        restores_by(old(ctx).builder, final(ctx).builder, 0),
{
    gen_string_ins(ctx, StringInstruction::Lods, 8, 0xF3);
    proof {
        assert(ctx.builder.code@ =~= old(ctx).builder.code@ + gen_string_ins_code(StringInstruction::Lods, 8, 0xF3, old(ctx).cpu.address_size_32));
        assert(ctx.builder.frame().live =~= old(ctx).builder.frame().live);
        assert(ctx.builder.frame().live64 =~= old(ctx).builder.frame().live64);
        assert(ctx.builder.frame().ctrl =~= old(ctx).builder.frame().ctrl);
    }
}

/// `lods` on 16-bit operands.
pub fn instr16_AD_jit(ctx: &mut JitContext)
    requires
        ready(old(ctx).builder, 8),
    ensures
        emits(*old(ctx), *final(ctx), gen_string_ins_code(StringInstruction::Lods, 16, 0, old(ctx).cpu.address_size_32), 0),
        restores_by(old(ctx).builder, final(ctx).builder, 0),
{
    gen_string_ins(ctx, StringInstruction::Lods, 16, 0);
    proof {
        assert(ctx.builder.code@ =~= old(ctx).builder.code@ + gen_string_ins_code(StringInstruction::Lods, 16, 0, old(ctx).cpu.address_size_32));
        assert(ctx.builder.frame().live =~= old(ctx).builder.frame().live);
        assert(ctx.builder.frame().live64 =~= old(ctx).builder.frame().live64);
        assert(ctx.builder.frame().ctrl =~= old(ctx).builder.frame().ctrl);
    }
}

/// `repnz lods` on 16-bit operands.
pub fn instr16_F2AD_jit(ctx: &mut JitContext)
    requires
        ready(old(ctx).builder, 8),
    ensures
        emits(*old(ctx), *final(ctx), gen_string_ins_code(StringInstruction::Lods, 16, 0xF2, old(ctx).cpu.address_size_32), 0),
        restores_by(old(ctx).builder, final(ctx).builder, 0),
{
    gen_string_ins(ctx, StringInstruction::Lods, 16, 0xF2);
    proof {
        assert(ctx.builder.code@ =~= old(ctx).builder.code@ + gen_string_ins_code(StringInstruction::Lods, 16, 0xF2, old(ctx).cpu.address_size_32));
        assert(ctx.builder.frame().live =~= old(ctx).builder.frame().live);
        assert(ctx.builder.frame().live64 =~= old(ctx).builder.frame().live64);
        assert(ctx.builder.frame().ctrl =~= old(ctx).builder.frame().ctrl);
    }
}

/// `rep lods` on 16-bit operands.
pub fn instr16_F3AD_jit(ctx: &mut JitContext)
    requires
        ready(old(ctx).builder, 8),
    ensures
        emits(*old(ctx), *final(ctx), gen_string_ins_code(StringInstruction::Lods, 16, 0xF3, old(ctx).cpu.address_size_32), 0),
        restores_by(old(ctx).builder, final(ctx).builder, 0),
{
    gen_string_ins(ctx, StringInstruction::Lods, 16, 0xF3);
    proof {
        assert(ctx.builder.code@ =~= old(ctx).builder.code@ + gen_string_ins_code(StringInstruction::Lods, 16, 0xF3, old(ctx).cpu.address_size_32));
        assert(ctx.builder.frame().live =~= old(ctx).builder.frame().live);
        assert(ctx.builder.frame().live64 =~= old(ctx).builder.frame().live64);
        assert(ctx.builder.frame().ctrl =~= old(ctx).builder.frame().ctrl);
    }
}

/// `lods` on 32-bit operands.
pub fn instr32_AD_jit(ctx: &mut JitContext)
    requires
        ready(old(ctx).builder, 8),
    ensures
        emits(*old(ctx), *final(ctx), gen_string_ins_code(StringInstruction::Lods, 32, 0, old(ctx).cpu.address_size_32), 0),
        restores_by(old(ctx).builder, final(ctx).builder, 0),
{
    gen_string_ins(ctx, StringInstruction::Lods, 32, 0);
    proof {
        assert(ctx.builder.code@ =~= old(ctx).builder.code@ + gen_string_ins_code(StringInstruction::Lods, 32, 0, old(ctx).cpu.address_size_32));
        assert(ctx.builder.frame().live =~= old(ctx).builder.frame().live);
        assert(ctx.builder.frame().live64 =~= old(ctx).builder.frame().live64);
        assert(ctx.builder.frame().ctrl =~= old(ctx).builder.frame().ctrl);
    }
}

/// `repnz lods` on 32-bit operands.
pub fn instr32_F2AD_jit(ctx: &mut JitContext)
    requires
        ready(old(ctx).builder, 8),
    ensures
        emits(*old(ctx), *final(ctx), gen_string_ins_code(StringInstruction::Lods, 32, 0xF2, old(ctx).cpu.address_size_32), 0),
        restores_by(old(ctx).builder, final(ctx).builder, 0),
{
    gen_string_ins(ctx, StringInstruction::Lods, 32, 0xF2);
    proof {
        assert(ctx.builder.code@ =~= old(ctx).builder.code@ + gen_string_ins_code(StringInstruction::Lods, 32, 0xF2, old(ctx).cpu.address_size_32));
        assert(ctx.builder.frame().live =~= old(ctx).builder.frame().live);
        assert(ctx.builder.frame().live64 =~= old(ctx).builder.frame().live64);
        assert(ctx.builder.frame().ctrl =~= old(ctx).builder.frame().ctrl);
    }
}

/// `rep lods` on 32-bit operands.
pub fn instr32_F3AD_jit(ctx: &mut JitContext)
    requires
        ready(old(ctx).builder, 8),
    ensures
        emits(*old(ctx), *final(ctx), gen_string_ins_code(StringInstruction::Lods, 32, 0xF3, old(ctx).cpu.address_size_32), 0),
        restores_by(old(ctx).builder, final(ctx).builder, 0),
{
    gen_string_ins(ctx, StringInstruction::Lods, 32, 0xF3);
    proof {
        assert(ctx.builder.code@ =~= old(ctx).builder.code@ + gen_string_ins_code(StringInstruction::Lods, 32, 0xF3, old(ctx).cpu.address_size_32));
        assert(ctx.builder.frame().live =~= old(ctx).builder.frame().live);
        assert(ctx.builder.frame().live64 =~= old(ctx).builder.frame().live64);
        assert(ctx.builder.frame().ctrl =~= old(ctx).builder.frame().ctrl);
    }
}

/// `scas` on 8-bit operands.
pub fn instr_AE_jit(ctx: &mut JitContext)
    requires
        ready(old(ctx).builder, 8),
    ensures
        emits(*old(ctx), *final(ctx), gen_string_ins_code(StringInstruction::Scas, 8, 0, old(ctx).cpu.address_size_32), 0),
        restores_by(old(ctx).builder, final(ctx).builder, 0),
{
    gen_string_ins(ctx, StringInstruction::Scas, 8, 0);
    proof {
        assert(ctx.builder.code@ =~= old(ctx).builder.code@ + gen_string_ins_code(StringInstruction::Scas, 8, 0, old(ctx).cpu.address_size_32));
        assert(ctx.builder.frame().live =~= old(ctx).builder.frame().live);
        assert(ctx.builder.frame().live64 =~= old(ctx).builder.frame().live64);
        assert(ctx.builder.frame().ctrl =~= old(ctx).builder.frame().ctrl);
    }
}

/// `repnz scas` on 8-bit operands.
pub fn instr_F2AE_jit(ctx: &mut JitContext)
    requires
        ready(old(ctx).builder, 8),
    ensures
        emits(*old(ctx), *final(ctx), gen_string_ins_code(StringInstruction::Scas, 8, 0xF2, old(ctx).cpu.address_size_32), 0),
        restores_by(old(ctx).builder, final(ctx).builder, 0),
{
    gen_string_ins(ctx, StringInstruction::Scas, 8, 0xF2);
    proof {
        assert(ctx.builder.code@ =~= old(ctx).builder.code@ + gen_string_ins_code(StringInstruction::Scas, 8, 0xF2, old(ctx).cpu.address_size_32));
        assert(ctx.builder.frame().live =~= old(ctx).builder.frame().live);
        assert(ctx.builder.frame().live64 =~= old(ctx).builder.frame().live64);
        assert(ctx.builder.frame().ctrl =~= old(ctx).builder.frame().ctrl);
    }
}

/// `rep scas` on 8-bit operands.
pub fn instr_F3AE_jit(ctx: &mut JitContext)
    requires
        ready(old(ctx).builder, 8),
    ensures
        emits(*old(ctx), *final(ctx), gen_string_ins_code(StringInstruction::Scas, 8, 0xF3, old(ctx).cpu.address_size_32), 0),
        restores_by(old(ctx).builder, final(ctx).builder, 0),
{
    gen_string_ins(ctx, StringInstruction::Scas, 8, 0xF3);
    proof {
        assert(ctx.builder.code@ =~= old(ctx).builder.code@ + gen_string_ins_code(StringInstruction::Scas, 8, 0xF3, old(ctx).cpu.address_size_32));
        assert(ctx.builder.frame().live =~= old(ctx).builder.frame().live);
        assert(ctx.builder.frame().live64 =~= old(ctx).builder.frame().live64);
        assert(ctx.builder.frame().ctrl =~= old(ctx).builder.frame().ctrl);
    }
}

/// `scas` on 16-bit operands.
pub fn instr16_AF_jit(ctx: &mut JitContext)
    requires
        ready(old(ctx).builder, 8),
    ensures
        emits(*old(ctx), *final(ctx), gen_string_ins_code(StringInstruction::Scas, 16, 0, old(ctx).cpu.address_size_32), 0),
        restores_by(old(ctx).builder, final(ctx).builder, 0),
{
    gen_string_ins(ctx, StringInstruction::Scas, 16, 0);
    proof {
        assert(ctx.builder.code@ =~= old(ctx).builder.code@ + gen_string_ins_code(StringInstruction::Scas, 16, 0, old(ctx).cpu.address_size_32));
        assert(ctx.builder.frame().live =~= old(ctx).builder.frame().live);
        assert(ctx.builder.frame().live64 =~= old(ctx).builder.frame().live64);
        assert(ctx.builder.frame().ctrl =~= old(ctx).builder.frame().ctrl);
    }
}

/// `repnz scas` on 16-bit operands.
pub fn instr16_F2AF_jit(ctx: &mut JitContext)
    requires
        ready(old(ctx).builder, 8),
    ensures
        emits(*old(ctx), *final(ctx), gen_string_ins_code(StringInstruction::Scas, 16, 0xF2, old(ctx).cpu.address_size_32), 0),
        restores_by(old(ctx).builder, final(ctx).builder, 0),
{
    gen_string_ins(ctx, StringInstruction::Scas, 16, 0xF2);
    proof {
        assert(ctx.builder.code@ =~= old(ctx).builder.code@ + gen_string_ins_code(StringInstruction::Scas, 16, 0xF2, old(ctx).cpu.address_size_32));
        assert(ctx.builder.frame().live =~= old(ctx).builder.frame().live);
        assert(ctx.builder.frame().live64 =~= old(ctx).builder.frame().live64);
        assert(ctx.builder.frame().ctrl =~= old(ctx).builder.frame().ctrl);
    }
}

/// `rep scas` on 16-bit operands.
pub fn instr16_F3AF_jit(ctx: &mut JitContext)
    requires
        ready(old(ctx).builder, 8),
    ensures
        emits(*old(ctx), *final(ctx), gen_string_ins_code(StringInstruction::Scas, 16, 0xF3, old(ctx).cpu.address_size_32), 0),
        restores_by(old(ctx).builder, final(ctx).builder, 0),
{
    gen_string_ins(ctx, StringInstruction::Scas, 16, 0xF3);
    proof {
        assert(ctx.builder.code@ =~= old(ctx).builder.code@ + gen_string_ins_code(StringInstruction::Scas, 16, 0xF3, old(ctx).cpu.address_size_32));
        assert(ctx.builder.frame().live =~= old(ctx).builder.frame().live);
        assert(ctx.builder.frame().live64 =~= old(ctx).builder.frame().live64);
        assert(ctx.builder.frame().ctrl =~= old(ctx).builder.frame().ctrl);
    }
}

/// `scas` on 32-bit operands.
pub fn instr32_AF_jit(ctx: &mut JitContext)
    requires
        ready(old(ctx).builder, 8),
    ensures
        emits(*old(ctx), *final(ctx), gen_string_ins_code(StringInstruction::Scas, 32, 0, old(ctx).cpu.address_size_32), 0),
        restores_by(old(ctx).builder, final(ctx).builder, 0),
{
    gen_string_ins(ctx, StringInstruction::Scas, 32, 0);
    proof {
        assert(ctx.builder.code@ =~= old(ctx).builder.code@ + gen_string_ins_code(StringInstruction::Scas, 32, 0, old(ctx).cpu.address_size_32));
        assert(ctx.builder.frame().live =~= old(ctx).builder.frame().live);
        assert(ctx.builder.frame().live64 =~= old(ctx).builder.frame().live64);
        assert(ctx.builder.frame().ctrl =~= old(ctx).builder.frame().ctrl);
    }
}

/// `repnz scas` on 32-bit operands.
pub fn instr32_F2AF_jit(ctx: &mut JitContext)
    requires
        ready(old(ctx).builder, 8),
    ensures
        emits(*old(ctx), *final(ctx), gen_string_ins_code(StringInstruction::Scas, 32, 0xF2, old(ctx).cpu.address_size_32), 0),
        restores_by(old(ctx).builder, final(ctx).builder, 0),
{
    gen_string_ins(ctx, StringInstruction::Scas, 32, 0xF2);
    proof {
        assert(ctx.builder.code@ =~= old(ctx).builder.code@ + gen_string_ins_code(StringInstruction::Scas, 32, 0xF2, old(ctx).cpu.address_size_32));
        assert(ctx.builder.frame().live =~= old(ctx).builder.frame().live);
        assert(ctx.builder.frame().live64 =~= old(ctx).builder.frame().live64);
        assert(ctx.builder.frame().ctrl =~= old(ctx).builder.frame().ctrl);
    }
}

/// `rep scas` on 32-bit operands.
pub fn instr32_F3AF_jit(ctx: &mut JitContext)
    requires
        ready(old(ctx).builder, 8),
    ensures
        emits(*old(ctx), *final(ctx), gen_string_ins_code(StringInstruction::Scas, 32, 0xF3, old(ctx).cpu.address_size_32), 0),
        restores_by(old(ctx).builder, final(ctx).builder, 0),
{
    gen_string_ins(ctx, StringInstruction::Scas, 32, 0xF3);
    proof {
        assert(ctx.builder.code@ =~= old(ctx).builder.code@ + gen_string_ins_code(StringInstruction::Scas, 32, 0xF3, old(ctx).cpu.address_size_32));
        assert(ctx.builder.frame().live =~= old(ctx).builder.frame().live);
        assert(ctx.builder.frame().live64 =~= old(ctx).builder.frame().live64);
        assert(ctx.builder.frame().ctrl =~= old(ctx).builder.frame().ctrl);
    }
}

} // verus!
